//! Fixed-palette colour quantisation with canonical index remapping.
//!
//! An external perceptual quantisation engine maps RGBA pixels onto the
//! working palette; every palette colour is registered with it as fixed, so
//! only supplied colours can appear. The engine is free to reorder or
//! deduplicate the palette it returns, so its output indices are remapped
//! here: each engine palette entry is located by exact colour match in the
//! caller's canonical palette, and that canonical index is substituted into
//! every output pixel. After remapping, index `i` always means entry `i`
//! of the palette that was passed in.

use vstd::prelude::*;
use crate::error::QuantizeError;
use crate::palette::Rgba;
use crate::resize::crop_resize;
use crate::resize::fit_resize;
use crate::resize::image_height;
use crate::resize::image_pixels;
use crate::resize::image_width;

verus! {

/// Declares imagequant::Error, the quantisation engine's error type, so
/// that the engine call can return it; it is mapped to [`QuantizeError`]
/// in verified code.
#[verifier::external_type_specification]
#[verifier::external_body]
pub struct ExLiqError(imagequant::Error);

/// Relies on image::DynamicImage::into_rgba8 and ImageBuffer::into_raw: the
/// image flattened to 8-bit RGBA samples, row-major, four per pixel — the
/// image's pixel content fills the front of the container. The container
/// holds at least four bytes per pixel; an image built over an oversized
/// raw buffer keeps that buffer, so it can be longer, and callers cut it
/// to size.
#[verifier::external_body]
pub fn image_buffer_into_vec(image: image::DynamicImage) -> (r: Vec<u8>)
    ensures
        r@.len() >= 4 * image_width(image) * image_height(image),
        r@.subrange(0, 4 * image_width(image) * image_height(image)) == image_pixels(image),
{
    image.into_rgba8().into_raw()
}

/// Relies on the imagequant engine (Attributes::set_max_colors, set_speed,
/// new_image, Image::add_fixed_color, Attributes::quantize,
/// QuantizationResult::remapped): the pixel buffer is quantised against the
/// given colours, all registered as fixed, at the highest-quality speed
/// setting and the default sRGB gamma. `remapped` returns the engine's
/// final palette together with one byte per pixel, each byte an index into
/// that palette. The engine rejects unusable palette sizes, speeds or
/// dimensions with an error. The bytes are regrouped into RGBA values by
/// bytemuck::pod_collect_to_vec, a copy that works for any allocation
/// layout of the input.
#[verifier::external_body]
fn engine_quantize(palette: &Vec<Rgba>, width: usize, height: usize, pixels: Vec<u8>) -> (r:
    Result<(Vec<Rgba>, Vec<u8>), imagequant::Error>)
    requires
        pixels@.len() == 4 * width * height,
    ensures
        r matches Ok(out) ==> out.1@.len() == width * height,
        r matches Ok(out) ==> forall|k: int| 0 <= k < out.1@.len() ==> out.1@[k] < out.0@.len(),
{
    let mut attr = imagequant::new();
    attr.set_max_colors(palette.len() as u32)?;
    attr.set_speed(1)?;
    let buf: Vec<imagequant::RGBA> = bytemuck::allocation::pod_collect_to_vec(&pixels);
    let mut img = attr.new_image(buf, width, height, Default::default())?;
    for c in palette.iter() {
        img.add_fixed_color(imagequant::RGBA::new(c.r, c.g, c.b, c.a))?;
    }
    let mut result = attr.quantize(&mut img)?;
    let (pal, idx) = result.remapped(&mut img)?;
    Ok((pal.iter().map(|p| Rgba { r: p.r, g: p.g, b: p.b, a: p.a }).collect(), idx))
}

/// The position of the first exact match of `c` in `pal`, if any.
fn find_color(pal: &Vec<Rgba>, c: Rgba) -> (r: Option<usize>)
    ensures
        r matches Some(i) ==> i < pal@.len() && pal@[i as int] == c && (forall|j: int|
            0 <= j < i ==> pal@[j] != c),
        r is None ==> forall|j: int| 0 <= j < pal@.len() ==> pal@[j] != c,
{
    let mut i: usize = 0;
    while i < pal.len()
        invariant
            i <= pal@.len(),
            forall|j: int| 0 <= j < i ==> pal@[j] != c,
        decreases pal@.len() - i,
    {
        if pal[i] == c {
            return Some(i);
        }
        i = i + 1;
    }
    None
}

/// Entry `t` of `table` is the canonical index of engine palette entry
/// `t`: it points at the first exact match of that colour in `palette`.
pub open spec fn canonical_index_ok(palette: Seq<Rgba>, engine: Seq<Rgba>, table: Seq<u8>, t: int) -> bool {
    &&& table[t] < palette.len()
    &&& palette[table[t] as int] == engine[t]
    &&& forall|q: int| 0 <= q < table[t] ==> palette[q] != engine[t]
}

/// Pixel `t` of `out` carries the canonical index of the colour the engine
/// gave that pixel: the first exact match in `palette` of the engine
/// palette entry that `indices[t]` refers to.
pub open spec fn remapped_pixel_ok(
    palette: Seq<Rgba>,
    engine: Seq<Rgba>,
    indices: Seq<u8>,
    out: Seq<u8>,
    t: int,
) -> bool {
    &&& out[t] < palette.len()
    &&& palette[out[t] as int] == engine[indices[t] as int]
    &&& forall|q: int| 0 <= q < out[t] ==> palette[q] != engine[indices[t] as int]
}

/// Substitute, in every output pixel, the canonical palette index of the
/// engine palette entry the pixel refers to. Each engine entry is located
/// by exact colour match, at its first occurrence in the canonical
/// palette; an engine entry with no match is an engine-contract violation
/// and is reported as an engine failure.
pub fn remap_indices(palette: &Vec<Rgba>, engine_palette: &Vec<Rgba>, indices: Vec<u8>) -> (r:
    Result<Vec<u8>, QuantizeError>)
    requires
        palette@.len() <= 256,
        forall|k: int| 0 <= k < indices@.len() ==> indices@[k] < engine_palette@.len(),
    ensures
        (r is Ok) <==> (forall|j: int|
            0 <= j < engine_palette@.len() ==> palette@.contains(#[trigger] engine_palette@[j])),
        r matches Ok(out) ==> out@.len() == indices@.len(),
        r matches Ok(out) ==> forall|k: int|
            0 <= k < out@.len() ==> #[trigger] remapped_pixel_ok(
                palette@,
                engine_palette@,
                indices@,
                out@,
                k,
            ),
        r is Err ==> r == Err::<Vec<u8>, QuantizeError>(QuantizeError::EngineFailure),
{
    let mut table: Vec<u8> = Vec::new();
    let mut j: usize = 0;
    while j < engine_palette.len()
        invariant
            j <= engine_palette@.len(),
            palette@.len() <= 256,
            table@.len() == j,
            forall|t: int|
                0 <= t < j ==> #[trigger] canonical_index_ok(
                    palette@,
                    engine_palette@,
                    table@,
                    t,
                ),
            forall|t: int| 0 <= t < j ==> palette@.contains(#[trigger] engine_palette@[t]),
        decreases engine_palette@.len() - j,
    {
        match find_color(palette, engine_palette[j]) {
            Some(i) => {
                let ghost table0 = table@;
                table.push(i as u8);
                proof {
                    assert(palette@[i as int] == engine_palette@[j as int]);
                    assert(palette@.contains(engine_palette@[j as int]));
                    assert(table@[j as int] == i as u8);
                    assert(canonical_index_ok(palette@, engine_palette@, table@, j as int));
                    assert forall|t: int| 0 <= t < j + 1 implies #[trigger] canonical_index_ok(
                        palette@,
                        engine_palette@,
                        table@,
                        t,
                    ) by {
                        if t < j {
                            assert(canonical_index_ok(palette@, engine_palette@, table0, t));
                            assert(table@[t] == table0[t]);
                        }
                    }
                }
            },
            None => {
                proof {
                    assert(!palette@.contains(engine_palette@[j as int]));
                }
                return Err(QuantizeError::EngineFailure);
            },
        }
        j = j + 1;
    }
    let mut out: Vec<u8> = Vec::new();
    let mut k: usize = 0;
    while k < indices.len()
        invariant
            k <= indices@.len(),
            out@.len() == k,
            table@.len() == engine_palette@.len(),
            palette@.len() <= 256,
            forall|k2: int| 0 <= k2 < indices@.len() ==> indices@[k2] < engine_palette@.len(),
            forall|t: int|
                0 <= t < table@.len() ==> #[trigger] canonical_index_ok(
                    palette@,
                    engine_palette@,
                    table@,
                    t,
                ),
            forall|t: int| 0 <= t < table@.len() ==> palette@.contains(#[trigger] engine_palette@[t]),
            forall|t: int|
                0 <= t < k ==> #[trigger] remapped_pixel_ok(
                    palette@,
                    engine_palette@,
                    indices@,
                    out@,
                    t,
                ),
        decreases indices@.len() - k,
    {
        let idx = indices[k] as usize;
        proof {
            assert(canonical_index_ok(palette@, engine_palette@, table@, idx as int));
        }
        let ghost out0 = out@;
        out.push(table[idx]);
        k = k + 1;
        proof {
            assert(out@[k - 1] == table@[idx as int]);
            assert(remapped_pixel_ok(palette@, engine_palette@, indices@, out@, k - 1));
            assert forall|t: int| 0 <= t < k implies #[trigger] remapped_pixel_ok(
                palette@,
                engine_palette@,
                indices@,
                out@,
                t,
            ) by {
                if t < k - 1 {
                    assert(remapped_pixel_ok(palette@, engine_palette@, indices@, out0, t));
                    assert(out@[t] == out0[t]);
                }
            }
        }
    }
    Ok(out)
}

/// Quantise a `width` x `height` RGBA pixel buffer onto the given palette.
/// On success every output byte is an index into that palette, one per
/// pixel, already remapped into the caller's canonical order; any engine
/// rejection, and any engine palette entry without an exact match, is an
/// engine failure.
pub fn quantize(palette: &Vec<Rgba>, width: usize, height: usize, buffer: Vec<u8>) -> (r: Result<
    Vec<u8>,
    QuantizeError,
>)
    requires
        palette@.len() <= 256,
        buffer@.len() == 4 * width * height,
    ensures
        r matches Ok(out) ==> out@.len() == width * height,
        r matches Ok(out) ==> forall|k: int| 0 <= k < out@.len() ==> out@[k] < palette@.len(),
        r is Err ==> r == Err::<Vec<u8>, QuantizeError>(QuantizeError::EngineFailure),
{
    match engine_quantize(palette, width, height, buffer) {
        Err(_) => Err(QuantizeError::EngineFailure),
        Ok((engine_pal, raw)) => match remap_indices(palette, &engine_pal, raw) {
            Ok(out) => {
                proof {
                    assert forall|k: int| 0 <= k < out@.len() implies out@[k] < palette@.len() by {
                        assert(remapped_pixel_ok(palette@, engine_pal@, raw@, out@, k));
                    }
                }
                Ok(out)
            },
            Err(e) => Err(e),
        },
    }
}

/// Normalise a decoded source image to the target size with the chosen
/// policy — fit with letterboxing when `no_crop` is set, centred crop
/// otherwise — and quantise it onto the palette: on success, one canonical
/// palette index per output pixel.
pub fn palettize_image(
    palette: &Vec<Rgba>,
    no_crop: bool,
    width: u32,
    height: u32,
    image: &image::DynamicImage,
) -> (r: Result<Vec<u8>, QuantizeError>)
    requires
        palette@.len() <= 256,
        1 <= width,
        1 <= height,
        1 <= image_width(*image),
        1 <= image_height(*image),
    ensures
        r matches Ok(out) ==> out@.len() == width * height,
        r matches Ok(out) ==> forall|k: int| 0 <= k < out@.len() ==> out@[k] < palette@.len(),
        r is Err ==> r == Err::<Vec<u8>, QuantizeError>(QuantizeError::EngineFailure),
{
    let resized = if no_crop {
        fit_resize(width, height, image)
    } else {
        crop_resize(width, height, image)
    };
    let mut buffer = image_buffer_into_vec(resized);
    let available = buffer.len();
    proof {
        let wi = width as int;
        let hi = height as int;
        assert(4 * wi * hi <= available);
        assert(4 * wi <= 4 * wi * hi) by (nonlinear_arith)
            requires
                1 <= wi,
                1 <= hi,
        ;
    }
    let exact = 4 * (width as usize) * (height as usize);
    buffer.truncate(exact);
    proof {
        // What goes to the engine is exactly the resized image's pixels.
        assert(buffer@ == image_pixels(resized));
    }
    quantize(palette, width as usize, height as usize, buffer)
}

} // verus!
