use inky_epd::palette::get_palette;
use inky_epd::palette::lerp;
use inky_epd::palette::Rgba;
use inky_epd::palette::SAT_SCALE;

fn c(r: u8, g: u8, b: u8, a: u8) -> Rgba {
    Rgba { r, g, b, a }
}

const DESATURATED: [(u8, u8, u8, u8); 8] = [
    (0, 0, 0, 255),
    (255, 255, 255, 255),
    (0, 255, 0, 255),
    (0, 0, 255, 255),
    (255, 0, 0, 255),
    (255, 255, 0, 255),
    (255, 140, 0, 255),
    (0, 0, 0, 0),
];

const SATURATED: [(u8, u8, u8, u8); 8] = [
    (0x32, 0x25, 0x36, 0xFF),
    (0xC1, 0xC6, 0xC0, 0xFF),
    (0x33, 0x5D, 0x56, 0xFF),
    (0x3F, 0x39, 0x64, 0xFF),
    (0x9F, 0x51, 0x44, 0xFF),
    (0xB0, 0xA4, 0x4E, 0xFF),
    (0xA0, 0x72, 0x4C, 0xFF),
    (0x00, 0x00, 0x00, 0x00),
];

#[test]
fn saturation_zero_is_the_desaturated_table() {
    let p = get_palette(0);
    assert_eq!(p.len(), 8);
    for (i, &(r, g, b, a)) in DESATURATED.iter().enumerate() {
        assert_eq!(p[i], c(r, g, b, a), "entry {i}");
    }
}

#[test]
fn full_saturation_is_the_saturated_table() {
    let p = get_palette(SAT_SCALE);
    assert_eq!(p.len(), 8);
    for (i, &(r, g, b, a)) in SATURATED.iter().enumerate() {
        assert_eq!(p[i], c(r, g, b, a), "entry {i}");
    }
}

#[test]
fn half_saturation_rounds_per_channel() {
    let p = get_palette(500);
    // Black: midway between (0,0,0,255) and (0x32,0x25,0x36,0xFF), rounded.
    assert_eq!(p[0], c(25, 19, 27, 255));
    // Red: midway between (255,0,0,255) and (0x9F,0x51,0x44,0xFF).
    assert_eq!(p[4], c(207, 41, 34, 255));
    // Transparent stays fully transparent at any saturation.
    assert_eq!(p[7], c(0, 0, 0, 0));
}

#[test]
fn lerp_rounds_to_nearest() {
    assert_eq!(lerp(255, 0, 500), 128);
    assert_eq!(lerp(0, 255, 500), 128);
    assert_eq!(lerp(0, 10, 50), 1); // 0.5 rounds up
    assert_eq!(lerp(0, 10, 40), 0); // 0.4 rounds down
    assert_eq!(lerp(200, 200, 730), 200);
}

#[test]
fn out_of_range_saturation_extrapolates_with_clamping() {
    assert_eq!(lerp(0, 255, 2000), 255);
    assert_eq!(lerp(255, 0, 2000), 0);
    assert_eq!(lerp(100, 110, 2000), 120);
    let p = get_palette(2000);
    assert_eq!(p.len(), 8);
}
