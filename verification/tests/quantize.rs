use image::DynamicImage;
use image::RgbaImage;
use inky_epd::error::QuantizeError;
use inky_epd::palette::get_palette;
use inky_epd::palette::Rgba;
use inky_epd::quantize::image_buffer_into_vec;
use inky_epd::quantize::palettize_image;
use inky_epd::quantize::quantize;
use inky_epd::quantize::remap_indices;

fn c(r: u8, g: u8, b: u8, a: u8) -> Rgba {
    Rgba { r, g, b, a }
}

#[test]
fn remap_substitutes_canonical_indices() {
    let canonical = vec![c(0, 0, 0, 255), c(255, 255, 255, 255), c(200, 40, 30, 255)];
    // The engine reordered and dropped entries.
    let engine = vec![c(200, 40, 30, 255), c(0, 0, 0, 255)];
    let out = remap_indices(&canonical, &engine, vec![0, 1, 1, 0]).unwrap();
    assert_eq!(out, vec![2, 0, 0, 2]);
    // Every output index points at the colour the engine chose.
    for (k, &raw) in [0u8, 1, 1, 0].iter().enumerate() {
        assert_eq!(canonical[out[k] as usize], engine[raw as usize]);
    }
}

#[test]
fn remap_picks_the_first_match_of_duplicates() {
    let canonical = vec![c(9, 9, 9, 255), c(9, 9, 9, 255)];
    let engine = vec![c(9, 9, 9, 255)];
    let out = remap_indices(&canonical, &engine, vec![0, 0]).unwrap();
    assert_eq!(out, vec![0, 0]);
}

#[test]
fn an_unmatched_engine_colour_is_an_engine_failure() {
    let canonical = vec![c(0, 0, 0, 255)];
    let engine = vec![c(0, 0, 0, 255), c(1, 2, 3, 255)];
    let r = remap_indices(&canonical, &engine, vec![0]);
    assert_eq!(r.unwrap_err(), QuantizeError::EngineFailure);
}

#[test]
fn quantizer_output_stays_inside_the_palette() {
    let palette = get_palette(500);
    // A small image mixing pure red and pure white pixels.
    let mut img = RgbaImage::from_pixel(4, 4, image::Rgba([255, 0, 0, 255]));
    for x in 0..4 {
        img.put_pixel(x, 0, image::Rgba([255, 255, 255, 255]));
    }
    let buffer = image_buffer_into_vec(DynamicImage::ImageRgba8(img));
    let out = quantize(&palette, 4, 4, buffer).unwrap();
    assert_eq!(out.len(), 16);
    for &px in &out {
        assert!(px <= 7);
    }
}

#[test]
fn a_rejected_palette_size_is_an_engine_failure() {
    // The engine takes between 2 and 256 colours; one is rejected.
    let palette = vec![c(0, 0, 0, 255)];
    let buffer = vec![0u8; 4 * 2 * 2];
    let r = quantize(&palette, 2, 2, buffer);
    assert_eq!(r.unwrap_err(), QuantizeError::EngineFailure);
}

#[test]
fn red_source_quantizes_to_the_red_palette_index() {
    // A 2x2 fully opaque red source, saturation one half, crop-resized to
    // 2x2 and quantised against the eight-entry palette: every output
    // pixel is the canonical index of Red.
    let palette = get_palette(500);
    let img = DynamicImage::ImageRgba8(RgbaImage::from_pixel(
        2,
        2,
        image::Rgba([255, 0, 0, 255]),
    ));
    let out = palettize_image(&palette, false, 2, 2, &img).unwrap();
    assert_eq!(out, vec![4, 4, 4, 4]);
}

#[test]
fn an_oversized_pixel_container_is_cut_to_size() {
    // An image built over a raw buffer longer than its pixels keeps that
    // buffer; the pipeline must still produce one index per pixel.
    let mut raw = vec![0u8; 2 * 2 * 4 + 8];
    for px in raw.chunks_exact_mut(4) {
        px.copy_from_slice(&[255, 0, 0, 255]);
    }
    let img = DynamicImage::ImageRgba8(RgbaImage::from_raw(2, 2, raw).unwrap());
    let palette = get_palette(500);
    let out = palettize_image(&palette, false, 2, 2, &img).unwrap();
    assert_eq!(out, vec![4, 4, 4, 4]);
}
