//! Identity-chip record decoding.
//!
//! The display panel carries a small identity chip whose 29-byte record
//! describes the panel: geometry, colour capability, and hardware variants.
//! This module parses that record field by field at fixed offsets, and can
//! re-encode a descriptor into the same layout.

use vstd::prelude::*;
use crate::error::HardwareError;

verus! {

/// Bus address of the identity chip on the two-wire bus.
pub const EEP_ADDRESS: u16 = 0x50;

/// Number of bytes of the identity record that carry meaning.
pub const EEP_RECORD_LEN: usize = 29;

/// Colour capability reported by the identity chip.
#[derive(Clone, Copy, Debug, PartialEq, Eq, Structural)]
pub enum EPDColor {
    Black,
    Red,
    Yellow,
    SevenColour,
}

/// The byte the identity chip stores for a colour capability.
pub open spec fn spec_color_code(c: EPDColor) -> u8 {
    match c {
        EPDColor::Black => 0x01,
        EPDColor::Red => 0x02,
        EPDColor::Yellow => 0x03,
        EPDColor::SevenColour => 0x05,
    }
}

/// The colour capability a stored byte decodes to, if it is recognised.
pub open spec fn spec_color_of_code(b: u8) -> Option<EPDColor> {
    if b == 0x01 {
        Some(EPDColor::Black)
    } else if b == 0x02 {
        Some(EPDColor::Red)
    } else if b == 0x03 {
        Some(EPDColor::Yellow)
    } else if b == 0x05 {
        Some(EPDColor::SevenColour)
    } else {
        None
    }
}

/// Panel descriptor read from the identity chip.
///
/// `eeprom_write_time` is an opaque, length-prefixed write-time history blob
/// of 21 bytes; it is carried along but never interpreted.
#[derive(Clone, Debug, PartialEq, Eq)]
pub struct EPDType {
    pub width: u16,
    pub height: u16,
    pub color: EPDColor,
    pub pcb_variant: u8,
    pub display_variant: u8,
    pub eeprom_write_time_length: u8,
    pub eeprom_write_time: Vec<u8>,
}

impl EPDType {
    /// Descriptor invariant: positive geometry, full-length history blob.
    pub open spec fn wf(self) -> bool {
        &&& self.width > 0
        &&& self.height > 0
        &&& self.eeprom_write_time@.len() == 21
    }
}

/// Whether a raw record decodes to a descriptor: the colour byte at offset 4
/// must be one of the recognised values, and the geometry must be positive,
/// or the descriptor is invalid.
pub open spec fn spec_record_ok(b: Seq<u8>) -> bool {
    &&& b.len() >= 29
    &&& spec_color_of_code(b[4]) is Some
    &&& b[0] + 256 * b[1] > 0
    &&& b[2] + 256 * b[3] > 0
}

/// The field-by-field relation between a descriptor and the raw record it
/// was decoded from: pairs of bytes are combined low byte first, as the chip
/// stores them.
pub open spec fn spec_decodes_to(b: Seq<u8>, d: EPDType) -> bool {
    &&& d.width == b[0] + 256 * b[1]
    &&& d.height == b[2] + 256 * b[3]
    &&& spec_color_of_code(b[4]) == Some(d.color)
    &&& d.pcb_variant == b[5]
    &&& d.display_variant == b[6]
    &&& d.eeprom_write_time_length == b[7]
    &&& d.eeprom_write_time@ == b.subrange(8, 29)
}

/// The raw record a descriptor encodes to.
pub open spec fn spec_record_of(d: EPDType) -> Seq<u8> {
    seq![
        (d.width % 256) as u8,
        (d.width / 256) as u8,
        (d.height % 256) as u8,
        (d.height / 256) as u8,
        spec_color_code(d.color),
        d.pcb_variant,
        d.display_variant,
        d.eeprom_write_time_length,
    ] + d.eeprom_write_time@
}

/// Decode the colour-capability byte.
pub fn decode_color(b: u8) -> (r: Option<EPDColor>)
    ensures
        r == spec_color_of_code(b),
{
    if b == 0x01 {
        Some(EPDColor::Black)
    } else if b == 0x02 {
        Some(EPDColor::Red)
    } else if b == 0x03 {
        Some(EPDColor::Yellow)
    } else if b == 0x05 {
        Some(EPDColor::SevenColour)
    } else {
        None
    }
}

/// Parse a raw identity record into a descriptor.
///
/// Only the first 29 bytes are read. Fails with `UnknownColorMode` exactly
/// when the colour byte is not one of the four recognised values, and with
/// `InvalidGeometry` when the colour is recognised but the stored width or
/// height is zero; every other field is carried through as stored, and a
/// decoded descriptor always satisfies its invariant.
pub fn decode_eeprom_record(record: &Vec<u8>) -> (r: Result<EPDType, HardwareError>)
    requires
        record@.len() >= 29,
    ensures
        r is Ok <==> spec_record_ok(record@),
        r matches Ok(d) ==> spec_decodes_to(record@, d) && d.wf(),
        spec_color_of_code(record@[4]) is None ==> r == Err::<EPDType, HardwareError>(
            HardwareError::UnknownColorMode,
        ),
        spec_color_of_code(record@[4]) is Some && !spec_record_ok(record@) ==> r == Err::<
            EPDType,
            HardwareError,
        >(HardwareError::InvalidGeometry),
{
    let color = match decode_color(record[4]) {
        Some(c) => c,
        None => {
            return Err(HardwareError::UnknownColorMode);
        },
    };
    let width: u16 = record[0] as u16 + 256 * record[1] as u16;
    let height: u16 = record[2] as u16 + 256 * record[3] as u16;
    if width == 0 || height == 0 {
        return Err(HardwareError::InvalidGeometry);
    }
    let mut blob: Vec<u8> = Vec::new();
    let mut i: usize = 8;
    while i < 29
        invariant
            8 <= i <= 29,
            record@.len() >= 29,
            blob@ == record@.subrange(8, i as int),
        decreases 29 - i,
    {
        blob.push(record[i]);
        i = i + 1;
        proof {
            assert(blob@ =~= record@.subrange(8, i as int));
        }
    }
    Ok(EPDType {
        width,
        height,
        color,
        pcb_variant: record[5],
        display_variant: record[6],
        eeprom_write_time_length: record[7],
        eeprom_write_time: blob,
    })
}

/// Re-encode a descriptor into the 29-byte identity-record layout.
pub fn encode_eeprom_record(d: &EPDType) -> (r: Vec<u8>)
    requires
        d.eeprom_write_time@.len() == 21,
    ensures
        r@ == spec_record_of(*d),
        r@.len() == 29,
{
    let mut out: Vec<u8> = Vec::new();
    out.push((d.width % 256) as u8);
    out.push((d.width / 256) as u8);
    out.push((d.height % 256) as u8);
    out.push((d.height / 256) as u8);
    out.push(match d.color {
        EPDColor::Black => 0x01,
        EPDColor::Red => 0x02,
        EPDColor::Yellow => 0x03,
        EPDColor::SevenColour => 0x05,
    });
    out.push(d.pcb_variant);
    out.push(d.display_variant);
    out.push(d.eeprom_write_time_length);
    let mut i: usize = 0;
    while i < 21
        invariant
            0 <= i <= 21,
            d.eeprom_write_time@.len() == 21,
            out@ == spec_record_of(*d).take(8 + i as int),
        decreases 21 - i,
    {
        out.push(d.eeprom_write_time[i]);
        i = i + 1;
        proof {
            assert(out@ =~= spec_record_of(*d).take(8 + i as int));
        }
    }
    proof {
        assert(out@ =~= spec_record_of(*d));
    }
    out
}

/// Decoding is deterministic and injective on the fields it reads: a
/// descriptor decoded from a 29-byte record re-encodes to exactly that
/// record, so decoding the re-encoding yields the same descriptor again.
pub proof fn lemma_record_roundtrip(b: Seq<u8>, d: EPDType)
    requires
        b.len() == 29,
        spec_decodes_to(b, d),
    ensures
        spec_record_of(d) == b,
        spec_decodes_to(spec_record_of(d), d),
{
    assert(d.width % 256 == b[0] && d.width / 256 == b[1]) by {
        assert(d.width == b[0] + 256 * b[1]);
        assert(b[0] < 256 && b[1] < 256);
    };
    assert(d.height % 256 == b[2] && d.height / 256 == b[3]) by {
        assert(d.height == b[2] + 256 * b[3]);
        assert(b[2] < 256 && b[3] < 256);
    };
    assert(spec_color_code(d.color) == b[4]);
    assert(spec_record_of(d) =~= b);
}

/// A valid descriptor always round-trips through its encoded record: the
/// record is accepted and decodes to the same descriptor.
pub proof fn lemma_encode_decode(d: EPDType)
    requires
        d.wf(),
    ensures
        spec_record_ok(spec_record_of(d)),
        spec_decodes_to(spec_record_of(d), d),
{
    let b = spec_record_of(d);
    assert(b.len() == 29);
    assert(b[4] == spec_color_code(d.color));
    assert(d.width == b[0] + 256 * b[1]) by {
        assert(b[0] == d.width % 256 && b[1] == d.width / 256);
    };
    assert(d.height == b[2] + 256 * b[3]) by {
        assert(b[2] == d.height % 256 && b[3] == d.height / 256);
    };
    assert(d.eeprom_write_time@ =~= b.subrange(8, 29));
}

/// Decoding is injective on the fields it reads: two full records that
/// decode to the same descriptor are the same record.
pub proof fn lemma_decode_injective(b1: Seq<u8>, b2: Seq<u8>, d: EPDType)
    requires
        b1.len() == 29,
        b2.len() == 29,
        spec_decodes_to(b1, d),
        spec_decodes_to(b2, d),
    ensures
        b1 == b2,
{
    lemma_record_roundtrip(b1, d);
    lemma_record_roundtrip(b2, d);
}

} // verus!
