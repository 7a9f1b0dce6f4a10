//! Resize policies: normalise a source image to the panel's exact size.
//!
//! Two interchangeable policies produce an image with exactly the target
//! width and height. Crop-resize cuts the centred region with the target's
//! aspect ratio out of the source and resamples it; content outside that
//! region is discarded. Fit-resize resamples the whole source to the
//! largest size that fits inside the target box with its aspect ratio
//! kept, and centres it on a fully transparent canvas.
//!
//! The geometry — which region is cropped, which size is fitted, where the
//! fitted image lands — is computed and proved here; the resampling itself
//! is the image crate's work.

use vstd::prelude::*;

verus! {

/// Declares image::DynamicImage, the image crate's decoded image value,
/// so that it can stand in signatures; the value itself is opaque here.
#[verifier::external_type_specification]
#[verifier::external_body]
pub struct ExDynamicImage(image::DynamicImage);

/// Width in pixels of an image value.
pub uninterp spec fn image_width(im: image::DynamicImage) -> u32;

/// Height in pixels of an image value.
pub uninterp spec fn image_height(im: image::DynamicImage) -> u32;

/// The pixel content of an image value as 8-bit RGBA samples, row-major,
/// four to a pixel.
pub uninterp spec fn image_pixels(im: image::DynamicImage) -> Seq<u8>;

/// The pixel content of the image that resampling `im` to `w` x `h` with
/// the Lanczos3 filter produces. The resampler is deterministic, and it
/// works on the image value's own sample depth (a 16-bit source resamples
/// at 16-bit precision), so this is a function of the image value and the
/// target size, not of the 8-bit samples alone.
pub uninterp spec fn resampled_pixels(im: image::DynamicImage, w: u32, h: u32) -> Seq<u8>;

/// The pixel content left in `bottom` after `top` is alpha-blended onto it
/// with its corner at `(x, y)`; the blend is deterministic, so this is a
/// function of the two image values and the offsets alone.
pub uninterp spec fn overlaid_pixels(
    bottom: image::DynamicImage,
    top: image::DynamicImage,
    x: u32,
    y: u32,
) -> Seq<u8>;

/// Sample `s` (0 red, 1 green, 2 blue, 3 alpha) of pixel `(x, y)` in a
/// row-major RGBA sample sequence whose rows are `width` pixels long.
pub open spec fn sample(pixels: Seq<u8>, width: int, x: int, y: int, s: int) -> u8 {
    pixels[4 * (y * width + x) + s]
}

/// Relies on image::GenericImageView::width for DynamicImage: the stored
/// width of the image.
#[verifier::external_body]
pub fn im_width(im: &image::DynamicImage) -> (r: u32)
    ensures
        r == image_width(*im),
{
    image::GenericImageView::width(im)
}

/// Relies on image::GenericImageView::height for DynamicImage: the stored
/// height of the image.
#[verifier::external_body]
pub fn im_height(im: &image::DynamicImage) -> (r: u32)
    ensures
        r == image_height(*im),
{
    image::GenericImageView::height(im)
}

/// Relies on image::DynamicImage::crop_imm: a rectangle that lies inside
/// the image is cut out whole, so the result has exactly the requested
/// dimensions and holds exactly the samples of that rectangle.
#[verifier::external_body]
fn crop_image(im: &image::DynamicImage, x: u32, y: u32, w: u32, h: u32) -> (r:
    image::DynamicImage)
    requires
        x + w <= image_width(*im),
        y + h <= image_height(*im),
    ensures
        image_width(r) == w,
        image_height(r) == h,
        image_pixels(r).len() == 4 * w * h,
        forall|px: int, py: int, s: int|
            0 <= px < w && 0 <= py < h && 0 <= s < 4 ==> #[trigger] sample(
                image_pixels(r),
                w as int,
                px,
                py,
                s,
            ) == sample(image_pixels(*im), image_width(*im) as int, x + px, y + py, s),
{
    im.crop_imm(x, y, w, h)
}

/// Relies on image::DynamicImage::resize_exact: the result has exactly the
/// requested dimensions and holds the Lanczos3 resampling of the source,
/// named `resampled_pixels`; the aspect ratio is not preserved by the call
/// itself. An empty source is handled by the resampler itself, which then
/// returns a zero-filled (fully transparent) buffer of the requested size.
#[verifier::external_body]
fn resize_image_exact(im: &image::DynamicImage, w: u32, h: u32) -> (r: image::DynamicImage)
    requires
        1 <= w,
        1 <= h,
    ensures
        image_width(r) == w,
        image_height(r) == h,
        image_pixels(r) == resampled_pixels(*im, w, h),
        image_pixels(r).len() == 4 * w * h,
{
    im.resize_exact(w, h, image::imageops::FilterType::Lanczos3)
}

/// Relies on image::DynamicImage::new_rgba8: a canvas of the given size
/// whose samples are all zero, i.e. fully transparent.
#[verifier::external_body]
fn new_canvas(w: u32, h: u32) -> (r: image::DynamicImage)
    ensures
        image_width(r) == w,
        image_height(r) == h,
        image_pixels(r).len() == 4 * w * h,
        forall|i: int| 0 <= i < image_pixels(r).len() ==> image_pixels(r)[i] == 0,
{
    image::DynamicImage::new_rgba8(w, h)
}

/// Relies on image::imageops::overlay: the top image is blended onto the
/// bottom image in place, clipped to it. The bottom image keeps its
/// dimensions; what it then holds is named `overlaid_pixels`, and every
/// sample outside the rectangle the top lands on is untouched.
#[verifier::external_body]
fn overlay_at(bottom: &mut image::DynamicImage, top: &image::DynamicImage, x: u32, y: u32)
    ensures
        image_width(*final(bottom)) == image_width(*old(bottom)),
        image_height(*final(bottom)) == image_height(*old(bottom)),
        image_pixels(*final(bottom)) == overlaid_pixels(*old(bottom), *top, x, y),
        image_pixels(*final(bottom)).len() == image_pixels(*old(bottom)).len(),
        forall|px: int, py: int, s: int|
            0 <= px < image_width(*old(bottom)) && 0 <= py < image_height(*old(bottom)) && 0 <= s
                < 4 && !(x <= px < x + image_width(*top) && y <= py < y + image_height(*top))
                ==> #[trigger] sample(
                image_pixels(*final(bottom)),
                image_width(*old(bottom)) as int,
                px,
                py,
                s,
            ) == sample(image_pixels(*old(bottom)), image_width(*old(bottom)) as int, px, py, s),
{
    image::imageops::overlay(bottom, top, x as i64, y as i64);
}

/// The centred region of a `iw` x `ih` source that has the aspect ratio of
/// a `tw` x `th` target, within rounding: full width with reduced height
/// when the source is relatively narrower, full height with reduced width
/// when it is relatively wider, and the whole source when the ratios are
/// equal.
pub open spec fn spec_crop_dims(iw: int, ih: int, tw: int, th: int) -> (int, int) {
    if iw * th < tw * ih {
        (iw, (iw * th) / tw)
    } else if iw * th == tw * ih {
        (iw, ih)
    } else {
        ((ih * tw) / th, ih)
    }
}

/// The largest dimensions that fit inside a `tw` x `th` box while keeping
/// the aspect ratio of a `iw` x `ih` source, within rounding; the limiting
/// dimension is fitted exactly, and a dimension that would round to
/// nothing is kept at one pixel.
pub open spec fn spec_fit_dims(iw: int, ih: int, tw: int, th: int) -> (int, int) {
    if iw * th <= tw * ih {
        (
            if (iw * th) / ih >= 1 {
                (iw * th) / ih
            } else {
                1
            },
            th,
        )
    } else {
        (
            tw,
            if (ih * tw) / iw >= 1 {
                (ih * tw) / iw
            } else {
                1
            },
        )
    }
}

/// Compute the crop region dimensions.
pub fn crop_dims(iw: u32, ih: u32, tw: u32, th: u32) -> (r: (u32, u32))
    requires
        1 <= iw,
        1 <= ih,
        1 <= tw,
        1 <= th,
    ensures
        r.0 as int == spec_crop_dims(iw as int, ih as int, tw as int, th as int).0,
        r.1 as int == spec_crop_dims(iw as int, ih as int, tw as int, th as int).1,
        r.0 <= iw,
        r.1 <= ih,
{
    proof {
        let x = iw as int;
        let y = ih as int;
        let w = tw as int;
        let h = th as int;
        assert(x * h <= 0xFFFF_FFFF * 0xFFFF_FFFF && w * y <= 0xFFFF_FFFF * 0xFFFF_FFFF)
            by (nonlinear_arith)
            requires
                0 <= x <= 0xFFFF_FFFF,
                0 <= y <= 0xFFFF_FFFF,
                0 <= w <= 0xFFFF_FFFF,
                0 <= h <= 0xFFFF_FFFF,
        ;
    }
    let a: u64 = (iw as u64) * (th as u64);
    let b: u64 = (tw as u64) * (ih as u64);
    if a < b {
        let ch: u64 = a / (tw as u64);
        proof {
            assert(a / (tw as u64) < ih) by (nonlinear_arith)
                requires
                    a < (tw as u64) * (ih as u64),
                    1 <= tw as u64,
                    b == (tw as u64) * (ih as u64),
            ;
        }
        (iw, ch as u32)
    } else if a == b {
        (iw, ih)
    } else {
        let cw: u64 = b / (th as u64);
        proof {
            assert(b / (th as u64) < iw) by (nonlinear_arith)
                requires
                    b < (iw as u64) * (th as u64),
                    1 <= th as u64,
                    a == (iw as u64) * (th as u64),
            ;
        }
        (cw as u32, ih)
    }
}

/// Compute the fitted dimensions.
pub fn fit_dims(iw: u32, ih: u32, tw: u32, th: u32) -> (r: (u32, u32))
    requires
        1 <= iw,
        1 <= ih,
        1 <= tw,
        1 <= th,
    ensures
        r.0 as int == spec_fit_dims(iw as int, ih as int, tw as int, th as int).0,
        r.1 as int == spec_fit_dims(iw as int, ih as int, tw as int, th as int).1,
        1 <= r.0 <= tw,
        1 <= r.1 <= th,
        r.0 == tw || r.1 == th,
{
    proof {
        let x = iw as int;
        let y = ih as int;
        let w = tw as int;
        let h = th as int;
        assert(x * h <= 0xFFFF_FFFF * 0xFFFF_FFFF && w * y <= 0xFFFF_FFFF * 0xFFFF_FFFF)
            by (nonlinear_arith)
            requires
                0 <= x <= 0xFFFF_FFFF,
                0 <= y <= 0xFFFF_FFFF,
                0 <= w <= 0xFFFF_FFFF,
                0 <= h <= 0xFFFF_FFFF,
        ;
    }
    let a: u64 = (iw as u64) * (th as u64);
    let b: u64 = (tw as u64) * (ih as u64);
    proof {
        assert(a == (iw as int) * (th as int));
        assert(b == (tw as int) * (ih as int));
    }
    let r: (u32, u32) = if a <= b {
        let rw: u64 = a / (ih as u64);
        proof {
            assert(a / (ih as u64) <= tw) by (nonlinear_arith)
                requires
                    a <= (tw as u64) * (ih as u64),
                    1 <= ih as u64,
                    b == (tw as u64) * (ih as u64),
            ;
        }
        if rw >= 1 {
            (rw as u32, th)
        } else {
            (1, th)
        }
    } else {
        let rh: u64 = b / (iw as u64);
        proof {
            assert(b / (iw as u64) < th) by (nonlinear_arith)
                requires
                    b < (iw as u64) * (th as u64),
                    1 <= iw as u64,
                    a == (iw as u64) * (th as u64),
            ;
        }
        if rh >= 1 {
            (tw, rh as u32)
        } else {
            (tw, 1)
        }
    };
    proof {
        let s = spec_fit_dims(iw as int, ih as int, tw as int, th as int);
        if a <= b {
            assert((iw as int) * (th as int) <= (tw as int) * (ih as int));
            assert(s.1 == th as int);
            assert(r.1 == th);
            assert(r.0 as int == s.0);
        } else {
            assert(s.0 == tw as int);
            assert(r.0 == tw);
            assert(r.1 as int == s.1);
        }
    }
    r
}

/// The offsets that centre a `cw` x `ch` region inside a `iw` x `ih`
/// source; the region stays inside the source.
pub fn crop_offsets(iw: u32, ih: u32, cw: u32, ch: u32) -> (r: (u32, u32))
    requires
        cw <= iw,
        ch <= ih,
    ensures
        r.0 == (iw - cw) / 2,
        r.1 == (ih - ch) / 2,
        r.0 + cw <= iw,
        r.1 + ch <= ih,
{
    ((iw - cw) / 2, (ih - ch) / 2)
}

/// The offsets that centre a fitted `rw` x `rh` image on a `tw` x `th`
/// canvas. The limiting dimension is fitted exactly, so at most one of the
/// two margins is nonzero — never both.
pub fn fit_offsets(rw: u32, rh: u32, tw: u32, th: u32) -> (r: (u32, u32))
    requires
        rw <= tw,
        rh <= th,
        rw == tw || rh == th,
    ensures
        r.0 == (tw - rw) / 2,
        r.1 == (th - rh) / 2,
        r.0 == 0 || r.1 == 0,
        r.0 + rw <= tw,
        r.1 + rh <= th,
{
    ((tw - rw) / 2, (th - rh) / 2)
}

/// `c` holds exactly the centred region of `src` that has the target's
/// aspect ratio, within rounding: the region whose content crop-resize
/// keeps.
pub open spec fn is_centred_crop(
    c: image::DynamicImage,
    src: image::DynamicImage,
    tw: int,
    th: int,
) -> bool {
    let iw = image_width(src) as int;
    let ih = image_height(src) as int;
    let dims = spec_crop_dims(iw, ih, tw, th);
    let x = (iw - dims.0) / 2;
    let y = (ih - dims.1) / 2;
    &&& image_width(c) == dims.0
    &&& image_height(c) == dims.1
    &&& image_pixels(c).len() == 4 * dims.0 * dims.1
    &&& forall|px: int, py: int, s: int|
        0 <= px < dims.0 && 0 <= py < dims.1 && 0 <= s < 4 ==> #[trigger] sample(
            image_pixels(c),
            dims.0,
            px,
            py,
            s,
        ) == sample(image_pixels(src), iw, x + px, y + py, s)
}

/// Whether pixel `(px, py)` lies inside the centred window that the fitted
/// image occupies on the canvas.
pub open spec fn in_fit_window(px: int, py: int, iw: int, ih: int, tw: int, th: int) -> bool {
    let dims = spec_fit_dims(iw, ih, tw, th);
    let ox = (tw - dims.0) / 2;
    let oy = (th - dims.1) / 2;
    ox <= px < ox + dims.0 && oy <= py < oy + dims.1
}

/// `r` is `fitted` — which holds the source resampled to `rw` x `rh` —
/// alpha-blended at `(ox, oy)` onto `canvas`, a `tw` x `th` canvas whose
/// samples are all zero.
pub open spec fn fitted_on_canvas(
    r: image::DynamicImage,
    src: image::DynamicImage,
    canvas: image::DynamicImage,
    fitted: image::DynamicImage,
    rw: u32,
    rh: u32,
    ox: u32,
    oy: u32,
    tw: u32,
    th: u32,
) -> bool {
    &&& image_width(canvas) == tw
    &&& image_height(canvas) == th
    &&& image_pixels(canvas).len() == 4 * tw * th
    &&& (forall|i: int| 0 <= i < image_pixels(canvas).len() ==> image_pixels(canvas)[i] == 0)
    &&& image_width(fitted) == rw
    &&& image_height(fitted) == rh
    &&& image_pixels(fitted) == resampled_pixels(src, rw, rh)
    &&& image_pixels(r) == overlaid_pixels(canvas, fitted, ox, oy)
}

/// The content of a fit-resize result: the source resampled to the fitted
/// size, alpha-blended at the centred offsets onto a canvas of the target
/// size whose samples are all zero.
pub open spec fn is_fitted_content(
    r: image::DynamicImage,
    src: image::DynamicImage,
    tw: u32,
    th: u32,
) -> bool {
    let dims = spec_fit_dims(image_width(src) as int, image_height(src) as int, tw as int, th as int);
    let rw = dims.0 as u32;
    let rh = dims.1 as u32;
    let ox = ((tw - rw) / 2) as u32;
    let oy = ((th - rh) / 2) as u32;
    exists|canvas: image::DynamicImage, fitted: image::DynamicImage| #[trigger] fitted_on_canvas(
        r,
        src,
        canvas,
        fitted,
        rw,
        rh,
        ox,
        oy,
        tw,
        th,
    )
}

/// Resize to the exact target size by cutting the centred region with the
/// target's aspect ratio out of the source and resampling it. Content
/// outside the target aspect is discarded; when the aspect ratios are
/// equal nothing is cropped. A source so disproportionate that the crop
/// region rounds to an empty strip resamples to a fully transparent frame
/// of the requested size.
pub fn crop_resize(width: u32, height: u32, image: &image::DynamicImage) -> (r:
    image::DynamicImage)
    requires
        1 <= width,
        1 <= height,
        1 <= image_width(*image),
        1 <= image_height(*image),
    ensures
        image_width(r) == width,
        image_height(r) == height,
        image_pixels(r).len() == 4 * width * height,
        exists|c: image::DynamicImage|
            is_centred_crop(c, *image, width as int, height as int) && image_pixels(r)
                == #[trigger] resampled_pixels(c, width, height),
{
    let iw = im_width(image);
    let ih = im_height(image);
    let (cw, ch) = crop_dims(iw, ih, width, height);
    let (x, y) = crop_offsets(iw, ih, cw, ch);
    let cropped = crop_image(image, x, y, cw, ch);
    let out = resize_image_exact(&cropped, width, height);
    proof {
        assert(is_centred_crop(cropped, *image, width as int, height as int));
        assert(image_pixels(out) == resampled_pixels(cropped, width, height));
    }
    out
}

/// Resize to the exact target size by fitting the whole source inside the
/// target box with its aspect ratio kept, centred on a fully transparent
/// canvas. The limiting dimension is fitted exactly, so at most one of
/// the two padding margins is nonzero; every sample outside the centred
/// window is zero, i.e. the margins are fully transparent.
pub fn fit_resize(width: u32, height: u32, image: &image::DynamicImage) -> (r:
    image::DynamicImage)
    requires
        1 <= width,
        1 <= height,
        1 <= image_width(*image),
        1 <= image_height(*image),
    ensures
        image_width(r) == width,
        image_height(r) == height,
        image_pixels(r).len() == 4 * width * height,
        is_fitted_content(r, *image, width, height),
        forall|px: int, py: int, s: int|
            0 <= px < width && 0 <= py < height && 0 <= s < 4 && !in_fit_window(
                px,
                py,
                image_width(*image) as int,
                image_height(*image) as int,
                width as int,
                height as int,
            ) ==> #[trigger] sample(image_pixels(r), width as int, px, py, s) == 0,
{
    let iw = im_width(image);
    let ih = im_height(image);
    let (rw, rh) = fit_dims(iw, ih, width, height);
    let resized = resize_image_exact(image, rw, rh);
    let mut canvas = new_canvas(width, height);
    let ghost canvas0 = canvas;
    let (ox, oy) = fit_offsets(rw, rh, width, height);
    overlay_at(&mut canvas, &resized, ox, oy);
    proof {
        let dims = spec_fit_dims(
            image_width(*image) as int,
            image_height(*image) as int,
            width as int,
            height as int,
        );
        assert(dims.0 == rw as int && dims.1 == rh as int);
        let rw2 = dims.0 as u32;
        let rh2 = dims.1 as u32;
        let ox2 = ((width - rw2) / 2) as u32;
        let oy2 = ((height - rh2) / 2) as u32;
        assert(rw2 == rw && rh2 == rh);
        assert(ox2 == ox && oy2 == oy);
        assert(fitted_on_canvas(canvas, *image, canvas0, resized, rw2, rh2, ox2, oy2, width, height));
        assert(is_fitted_content(canvas, *image, width, height));
        assert forall|px: int, py: int, s: int|
            0 <= px < width && 0 <= py < height && 0 <= s < 4 && !in_fit_window(
                px,
                py,
                image_width(*image) as int,
                image_height(*image) as int,
                width as int,
                height as int,
            ) implies #[trigger] sample(image_pixels(canvas), width as int, px, py, s) == 0 by {
            assert(sample(image_pixels(canvas), width as int, px, py, s) == sample(
                image_pixels(canvas0),
                width as int,
                px,
                py,
                s,
            ));
            let idx = 4 * (py * (width as int) + px) + s;
            assert(0 <= idx < 4 * (width as int) * (height as int)) by (nonlinear_arith)
                requires
                    0 <= px < width as int,
                    0 <= py < height as int,
                    0 <= s < 4,
                    idx == 4 * (py * (width as int) + px) + s,
            ;
            assert(image_pixels(canvas0)[idx] == 0);
        }
    }
    canvas
}

/// The cropped region's aspect ratio equals the target's within one
/// rounding step: the cross products `cw*th` and `ch*tw` differ by less
/// than one denominator. The region also never exceeds the source.
pub proof fn lemma_crop_aspect(iw: int, ih: int, tw: int, th: int)
    requires
        1 <= iw,
        1 <= ih,
        1 <= tw,
        1 <= th,
    ensures
        ({
            let (cw, ch) = spec_crop_dims(iw, ih, tw, th);
            cw * th - ch * tw < tw && ch * tw - cw * th < th && cw <= iw && ch <= ih
        }),
{
    let (cw, ch) = spec_crop_dims(iw, ih, tw, th);
    if iw * th < tw * ih {
        assert(ch == (iw * th) / tw);
        assert(tw * ((iw * th) / tw) <= iw * th && iw * th - tw * ((iw * th) / tw) < tw)
            by (nonlinear_arith)
            requires
                1 <= tw,
                0 <= iw * th,
        ;
        assert((iw * th) / tw < ih) by (nonlinear_arith)
            requires
                iw * th < tw * ih,
                1 <= tw,
        ;
        assert(cw * th - ch * tw < tw) by (nonlinear_arith)
            requires
                cw == iw,
                ch == (iw * th) / tw,
                tw * ((iw * th) / tw) <= iw * th,
                iw * th - tw * ((iw * th) / tw) < tw,
        ;
        assert(ch * tw <= iw * th) by (nonlinear_arith)
            requires
                ch == (iw * th) / tw,
                tw * ((iw * th) / tw) <= iw * th,
        ;
    } else if iw * th == tw * ih {
        assert(cw * th - ch * tw == 0);
    } else {
        assert(cw == (ih * tw) / th);
        assert(th * ((ih * tw) / th) <= ih * tw && ih * tw - th * ((ih * tw) / th) < th)
            by (nonlinear_arith)
            requires
                1 <= th,
                0 <= ih * tw,
        ;
        assert((ih * tw) / th < iw) by (nonlinear_arith)
            requires
                tw * ih < iw * th,
                1 <= th,
        ;
        assert(ch * tw - cw * th < th) by (nonlinear_arith)
            requires
                ch == ih,
                cw == (ih * tw) / th,
                th * ((ih * tw) / th) <= ih * tw,
                ih * tw - th * ((ih * tw) / th) < th,
        ;
        assert(cw * th <= ih * tw) by (nonlinear_arith)
            requires
                cw == (ih * tw) / th,
                th * ((ih * tw) / th) <= ih * tw,
        ;
    }
}

/// Fit-resize picks dimensions inside the target box with the limiting
/// dimension exact, so at most one of the two centred padding margins is
/// nonzero — never both.
pub proof fn lemma_fit_padding(iw: int, ih: int, tw: int, th: int)
    requires
        1 <= iw,
        1 <= ih,
        1 <= tw,
        1 <= th,
    ensures
        ({
            let (rw, rh) = spec_fit_dims(iw, ih, tw, th);
            1 <= rw <= tw && 1 <= rh <= th && (rw == tw || rh == th) && ((tw - rw) / 2 == 0 || (th
                - rh) / 2 == 0)
        }),
{
    let (rw, rh) = spec_fit_dims(iw, ih, tw, th);
    if iw * th <= tw * ih {
        assert((iw * th) / ih <= tw) by (nonlinear_arith)
            requires
                iw * th <= tw * ih,
                1 <= ih,
        ;
        assert(rh == th);
    } else {
        assert((ih * tw) / iw <= th) by (nonlinear_arith)
            requires
                ih * tw < iw * th,
                1 <= iw,
        ;
        assert(rw == tw);
    }
}

} // verus!
