use inky_epd::epd::decode_eeprom_record;
use inky_epd::epd::encode_eeprom_record;
use inky_epd::epd::EPDColor;
use inky_epd::error::HardwareError;

fn record(width: u16, height: u16, color: u8) -> Vec<u8> {
    let mut r = vec![
        (width % 256) as u8,
        (width / 256) as u8,
        (height % 256) as u8,
        (height / 256) as u8,
        color,
        7,    // pcb variant
        12,   // display variant
        10,   // write-time length
    ];
    for i in 0..21u8 {
        r.push(0x40 + i);
    }
    r
}

#[test]
fn identity_chip_record_decodes_to_red_800_480() {
    let raw = record(800, 480, 0x02);
    let d = decode_eeprom_record(&raw).unwrap();
    assert_eq!(d.width, 800);
    assert_eq!(d.height, 480);
    assert_eq!(d.color, EPDColor::Red);
    assert_eq!(d.pcb_variant, 7);
    assert_eq!(d.display_variant, 12);
    assert_eq!(d.eeprom_write_time_length, 10);
    assert_eq!(d.eeprom_write_time.len(), 21);
    assert_eq!(d.eeprom_write_time[0], 0x40);
    assert_eq!(d.eeprom_write_time[20], 0x54);
}

#[test]
fn decoding_is_deterministic_and_round_trips() {
    let raw = record(600, 448, 0x05);
    let d1 = decode_eeprom_record(&raw).unwrap();
    let d2 = decode_eeprom_record(&raw).unwrap();
    assert_eq!(d1, d2);
    let re = encode_eeprom_record(&d1);
    assert_eq!(re, raw);
    let d3 = decode_eeprom_record(&re).unwrap();
    assert_eq!(d1, d3);
}

#[test]
fn all_four_color_codes_decode() {
    let cases = [
        (0x01u8, EPDColor::Black),
        (0x02, EPDColor::Red),
        (0x03, EPDColor::Yellow),
        (0x05, EPDColor::SevenColour),
    ];
    for (byte, color) in cases {
        let d = decode_eeprom_record(&record(250, 122, byte)).unwrap();
        assert_eq!(d.color, color);
    }
}

#[test]
fn unknown_color_byte_is_rejected() {
    for byte in [0x00u8, 0x04, 0x06, 0xFF] {
        let r = decode_eeprom_record(&record(800, 480, byte));
        assert_eq!(r.unwrap_err(), HardwareError::UnknownColorMode);
    }
}

#[test]
fn zero_geometry_is_rejected() {
    let r = decode_eeprom_record(&record(0, 480, 0x02));
    assert_eq!(r.unwrap_err(), HardwareError::InvalidGeometry);
    let r = decode_eeprom_record(&record(800, 0, 0x02));
    assert_eq!(r.unwrap_err(), HardwareError::InvalidGeometry);
    // An unknown colour byte is reported first.
    let r = decode_eeprom_record(&record(0, 0, 0x07));
    assert_eq!(r.unwrap_err(), HardwareError::UnknownColorMode);
}

#[test]
fn only_the_first_29_bytes_are_read() {
    let mut raw = record(800, 480, 0x01);
    raw.push(0xEE);
    let d = decode_eeprom_record(&raw).unwrap();
    assert_eq!(d.width, 800);
    let re = encode_eeprom_record(&d);
    assert_eq!(re.len(), 29);
    assert_eq!(&re[..], &raw[..29]);
}
