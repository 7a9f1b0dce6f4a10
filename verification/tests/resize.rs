use image::DynamicImage;
use image::GenericImageView;
use image::RgbaImage;
use inky_epd::resize::crop_dims;
use inky_epd::resize::crop_offsets;
use inky_epd::resize::crop_resize;
use inky_epd::resize::fit_dims;
use inky_epd::resize::fit_offsets;
use inky_epd::resize::fit_resize;

fn solid(w: u32, h: u32, px: [u8; 4]) -> DynamicImage {
    DynamicImage::ImageRgba8(RgbaImage::from_pixel(w, h, image::Rgba(px)))
}

#[test]
fn crop_region_keeps_the_target_aspect() {
    // 4:3 source, 5:3 target: full width, reduced height.
    assert_eq!(crop_dims(4000, 3000, 800, 480), (4000, 2400));
    // Wider source than target: full height, reduced width.
    assert_eq!(crop_dims(4000, 1000, 800, 480), (1666, 1000));
    // Equal aspect: no crop at all.
    assert_eq!(crop_dims(1600, 960, 800, 480), (1600, 960));
}

#[test]
fn fitted_dimensions_fill_the_limiting_side_exactly() {
    // Source relatively taller: height limited.
    assert_eq!(fit_dims(4000, 3000, 800, 480), (640, 480));
    // Source relatively wider: width limited.
    assert_eq!(fit_dims(4000, 1000, 800, 480), (800, 200));
    // Equal aspect: both sides exact.
    assert_eq!(fit_dims(1600, 960, 800, 480), (800, 480));
    // At most one padding margin is nonzero.
    for (iw, ih) in [(4000u32, 3000u32), (4000, 1000), (1600, 960), (37, 991)] {
        let (rw, rh) = fit_dims(iw, ih, 800, 480);
        assert!((800 - rw) / 2 == 0 || (480 - rh) / 2 == 0);
    }
}

#[test]
fn crop_resize_output_has_the_requested_size() {
    let src = solid(100, 50, [10, 200, 30, 255]);
    let out = crop_resize(30, 30, &src);
    assert_eq!(out.dimensions(), (30, 30));
    // Uniform source stays uniform and opaque.
    assert_eq!(out.get_pixel(15, 15), image::Rgba([10, 200, 30, 255]));
}

#[test]
fn fit_resize_output_has_the_requested_size_and_transparent_margins() {
    let src = solid(100, 50, [10, 200, 30, 255]);
    let out = fit_resize(30, 30, &src);
    assert_eq!(out.dimensions(), (30, 30));
    // 100x50 fits as 30x15, centred vertically: rows 0..7 are letterbox.
    assert_eq!(out.get_pixel(0, 0).0[3], 0);
    assert_eq!(out.get_pixel(29, 29).0[3], 0);
    assert_eq!(out.get_pixel(15, 15), image::Rgba([10, 200, 30, 255]));
}

#[test]
fn equal_aspect_is_a_direct_resize() {
    let src = solid(60, 60, [1, 2, 3, 255]);
    let cropped = crop_resize(20, 20, &src);
    let fitted = fit_resize(20, 20, &src);
    assert_eq!(cropped.dimensions(), (20, 20));
    assert_eq!(fitted.dimensions(), (20, 20));
    assert_eq!(fitted.get_pixel(0, 0).0[3], 255);
}

#[test]
fn a_degenerate_crop_still_yields_the_requested_size() {
    // A 1x100 source cropped for a 100x1 target rounds to an empty strip;
    // the output still has the requested size and is fully transparent.
    let src = solid(1, 100, [10, 200, 30, 255]);
    let out = crop_resize(100, 1, &src);
    assert_eq!(out.dimensions(), (100, 1));
    assert_eq!(out.get_pixel(50, 0).0[3], 0);
}

#[test]
fn offsets_centre_the_region() {
    assert_eq!(crop_offsets(100, 80, 100, 50), (0, 15));
    assert_eq!(crop_offsets(100, 80, 60, 80), (20, 0));
    assert_eq!(fit_offsets(640, 480, 800, 480), (80, 0));
    assert_eq!(fit_offsets(800, 200, 800, 480), (0, 140));
    // At most one margin is ever nonzero.
    let (ox, oy) = fit_offsets(800, 480, 800, 480);
    assert_eq!((ox, oy), (0, 0));
}
