use inky_epd::framebuffer::pack_indices;
use inky_epd::framebuffer::unpack_indices;
use inky_epd::framebuffer::FrameBuffer;

#[test]
fn all_zero_packs_to_zero_bytes() {
    let indices = vec![0u8; 8];
    let packed = pack_indices(&indices);
    assert_eq!(packed, vec![0u8; 4]);
    assert_eq!(unpack_indices(&packed), indices);
}

#[test]
fn all_seven_round_trips_to_one() {
    let indices = vec![7u8; 8];
    let packed = pack_indices(&indices);
    assert_eq!(packed, vec![0x11u8; 4]);
    assert_eq!(unpack_indices(&packed), vec![1u8; 8]);
}

#[test]
fn alternating_three_five_round_trips() {
    let indices = vec![3u8, 5, 3, 5, 3, 5];
    let packed = pack_indices(&indices);
    assert_eq!(packed, vec![0x35u8; 3]);
    assert_eq!(unpack_indices(&packed), indices);
}

#[test]
fn high_nibble_is_the_first_pixel_of_the_pair() {
    let packed = pack_indices(&vec![2u8, 6]);
    assert_eq!(packed, vec![0x26]);
}

#[test]
fn set_pixel_lands_row_major_and_packs() {
    let mut fb = FrameBuffer::new(4, 2);
    assert_eq!(fb.width(), 4);
    assert_eq!(fb.height(), 2);
    fb.set_pixel(0, 0, 1);
    fb.set_pixel(3, 0, 2);
    fb.set_pixel(0, 1, 3);
    fb.set_pixel(3, 1, 7);
    assert_eq!(fb.get_pixel(0, 0), 1);
    assert_eq!(fb.get_pixel(3, 1), 7);
    assert_eq!(fb.get_pixel(1, 1), 0);
    let packed = fb.packed();
    assert_eq!(packed.len(), 4);
    // Rows: [1,0,0,2] then [3,0,0,7]; index 7 packs as 1.
    assert_eq!(packed, vec![0x10, 0x02, 0x30, 0x01]);
}
