//! Saturation-blended palette construction.
//!
//! The panel's physical ink set is described by two fixed eight-entry anchor
//! tables: a fully desaturated one and a fully saturated one, in the same
//! fixed order (Black, White, Green, Blue, Red, Yellow, Orange, Transparent).
//! That order is the canonical index space used by every downstream stage.
//! The working palette is built once by per-channel linear interpolation
//! between the two anchors at the same position.
//!
//! The saturation factor is taken in thousandths: `0` is fully desaturated,
//! [`SAT_SCALE`] is fully saturated, and larger values extrapolate linearly
//! with the result clamped to the channel range.

use vstd::prelude::*;

verus! {

/// The saturation value that selects the saturated anchor table exactly.
pub const SAT_SCALE: u16 = 1000;

/// One palette entry: an RGBA colour with 8-bit channels.
#[derive(Clone, Copy, Debug, PartialEq, Eq, Structural)]
pub struct Rgba {
    pub r: u8,
    pub g: u8,
    pub b: u8,
    pub a: u8,
}

/// Entry `i` of the desaturated anchor table.
pub open spec fn spec_desat_anchor(i: int) -> Rgba {
    if i == 0 {
        Rgba { r: 0, g: 0, b: 0, a: 255 }
    } else if i == 1 {
        Rgba { r: 255, g: 255, b: 255, a: 255 }
    } else if i == 2 {
        Rgba { r: 0, g: 255, b: 0, a: 255 }
    } else if i == 3 {
        Rgba { r: 0, g: 0, b: 255, a: 255 }
    } else if i == 4 {
        Rgba { r: 255, g: 0, b: 0, a: 255 }
    } else if i == 5 {
        Rgba { r: 255, g: 255, b: 0, a: 255 }
    } else if i == 6 {
        Rgba { r: 255, g: 140, b: 0, a: 255 }
    } else {
        Rgba { r: 0, g: 0, b: 0, a: 0 }
    }
}

/// Entry `i` of the saturated anchor table.
pub open spec fn spec_sat_anchor(i: int) -> Rgba {
    if i == 0 {
        Rgba { r: 0x32, g: 0x25, b: 0x36, a: 0xFF }
    } else if i == 1 {
        Rgba { r: 0xC1, g: 0xC6, b: 0xC0, a: 0xFF }
    } else if i == 2 {
        Rgba { r: 0x33, g: 0x5D, b: 0x56, a: 0xFF }
    } else if i == 3 {
        Rgba { r: 0x3F, g: 0x39, b: 0x64, a: 0xFF }
    } else if i == 4 {
        Rgba { r: 0x9F, g: 0x51, b: 0x44, a: 0xFF }
    } else if i == 5 {
        Rgba { r: 0xB0, g: 0xA4, b: 0x4E, a: 0xFF }
    } else if i == 6 {
        Rgba { r: 0xA0, g: 0x72, b: 0x4C, a: 0xFF }
    } else {
        Rgba { r: 0x00, g: 0x00, b: 0x00, a: 0x00 }
    }
}

/// One channel interpolated between its desaturated value `d` and saturated
/// value `s` at saturation `n` thousandths: `round((d*(1000-n) + s*n)/1000)`,
/// clamped to the channel range when `n` extrapolates past the scale.
pub open spec fn spec_lerp(d: u8, s: u8, n: u16) -> int {
    let num = d * (1000 - n) + s * n;
    if num < 0 {
        0
    } else if num > 255000 {
        255
    } else {
        (num + 500) / 1000
    }
}

/// The palette entry at position `i` for saturation `n`.
pub open spec fn spec_blend(i: int, n: u16) -> Rgba {
    let d = spec_desat_anchor(i);
    let s = spec_sat_anchor(i);
    Rgba {
        r: spec_lerp(d.r, s.r, n) as u8,
        g: spec_lerp(d.g, s.g, n) as u8,
        b: spec_lerp(d.b, s.b, n) as u8,
        a: spec_lerp(d.a, s.a, n) as u8,
    }
}

/// The whole working palette for saturation `n`.
pub open spec fn spec_palette(n: u16) -> Seq<Rgba> {
    Seq::new(8, |i: int| spec_blend(i, n))
}

/// The interpolated value of a channel always fits the channel range.
proof fn lemma_lerp_in_range(d: u8, s: u8, n: u16)
    ensures
        0 <= spec_lerp(d, s, n) <= 255,
{
    let num = d * (1000 - n) + s * n;
    if 0 <= num <= 255000 {
        assert((num + 500) / 1000 <= 255);
        assert((num + 500) / 1000 >= 0);
    }
}

/// Interpolate one channel.
pub fn lerp(d: u8, s: u8, n: u16) -> (r: u8)
    ensures
        r == spec_lerp(d, s, n),
{
    let dd: i64 = d as i64;
    let ss: i64 = s as i64;
    let nn: i64 = n as i64;
    proof {
        assert(dd * (1000 - nn) >= -255 * 65535 && dd * (1000 - nn) <= 255 * 1000)
            by (nonlinear_arith)
            requires
                0 <= dd <= 255,
                0 <= nn <= 65535,
        ;
        assert(ss * nn >= 0 && ss * nn <= 255 * 65535) by (nonlinear_arith)
            requires
                0 <= ss <= 255,
                0 <= nn <= 65535,
        ;
    }
    let num: i64 = dd * (1000 - nn) + ss * nn;
    proof {
        lemma_lerp_in_range(d, s, n);
    }
    if num < 0 {
        0
    } else if num > 255000 {
        255
    } else {
        ((num + 500) / 1000) as u8
    }
}

/// Interpolate a whole colour, channel by channel.
pub fn lerp_color(d: Rgba, s: Rgba, n: u16) -> (r: Rgba)
    ensures
        r.r == spec_lerp(d.r, s.r, n),
        r.g == spec_lerp(d.g, s.g, n),
        r.b == spec_lerp(d.b, s.b, n),
        r.a == spec_lerp(d.a, s.a, n),
{
    proof {
        lemma_lerp_in_range(d.r, s.r, n);
        lemma_lerp_in_range(d.g, s.g, n);
        lemma_lerp_in_range(d.b, s.b, n);
        lemma_lerp_in_range(d.a, s.a, n);
    }
    Rgba { r: lerp(d.r, s.r, n), g: lerp(d.g, s.g, n), b: lerp(d.b, s.b, n), a: lerp(
        d.a,
        s.a,
        n,
    ) }
}

/// Entry `i` of the desaturated anchor table.
pub fn desat_anchor(i: usize) -> (r: Rgba)
    requires
        i < 8,
    ensures
        r == spec_desat_anchor(i as int),
{
    if i == 0 {
        Rgba { r: 0, g: 0, b: 0, a: 255 }
    } else if i == 1 {
        Rgba { r: 255, g: 255, b: 255, a: 255 }
    } else if i == 2 {
        Rgba { r: 0, g: 255, b: 0, a: 255 }
    } else if i == 3 {
        Rgba { r: 0, g: 0, b: 255, a: 255 }
    } else if i == 4 {
        Rgba { r: 255, g: 0, b: 0, a: 255 }
    } else if i == 5 {
        Rgba { r: 255, g: 255, b: 0, a: 255 }
    } else if i == 6 {
        Rgba { r: 255, g: 140, b: 0, a: 255 }
    } else {
        Rgba { r: 0, g: 0, b: 0, a: 0 }
    }
}

/// Entry `i` of the saturated anchor table.
pub fn sat_anchor(i: usize) -> (r: Rgba)
    requires
        i < 8,
    ensures
        r == spec_sat_anchor(i as int),
{
    if i == 0 {
        Rgba { r: 0x32, g: 0x25, b: 0x36, a: 0xFF }
    } else if i == 1 {
        Rgba { r: 0xC1, g: 0xC6, b: 0xC0, a: 0xFF }
    } else if i == 2 {
        Rgba { r: 0x33, g: 0x5D, b: 0x56, a: 0xFF }
    } else if i == 3 {
        Rgba { r: 0x3F, g: 0x39, b: 0x64, a: 0xFF }
    } else if i == 4 {
        Rgba { r: 0x9F, g: 0x51, b: 0x44, a: 0xFF }
    } else if i == 5 {
        Rgba { r: 0xB0, g: 0xA4, b: 0x4E, a: 0xFF }
    } else if i == 6 {
        Rgba { r: 0xA0, g: 0x72, b: 0x4C, a: 0xFF }
    } else {
        Rgba { r: 0x00, g: 0x00, b: 0x00, a: 0x00 }
    }
}

/// Build the working palette for the given saturation, in canonical order.
pub fn get_palette(saturation: u16) -> (r: Vec<Rgba>)
    ensures
        r@ == spec_palette(saturation),
{
    let mut out: Vec<Rgba> = Vec::new();
    let mut i: usize = 0;
    while i < 8
        invariant
            0 <= i <= 8,
            out@.len() == i,
            forall|j: int| 0 <= j < i ==> out@[j] == spec_blend(j, saturation),
        decreases 8 - i,
    {
        let d = desat_anchor(i);
        let s = sat_anchor(i);
        let c = lerp_color(d, s, saturation);
        proof {
            lemma_lerp_in_range(d.r, s.r, saturation);
            lemma_lerp_in_range(d.g, s.g, saturation);
            lemma_lerp_in_range(d.b, s.b, saturation);
            lemma_lerp_in_range(d.a, s.a, saturation);
            assert(c == spec_blend(i as int, saturation));
        }
        out.push(c);
        i = i + 1;
    }
    proof {
        assert(out@ =~= spec_palette(saturation));
    }
    out
}

/// At saturation `0` the palette is the desaturated anchor table exactly,
/// and at the full scale it is the saturated anchor table exactly, channel
/// by channel.
pub proof fn lemma_palette_endpoints()
    ensures
        forall|i: int| 0 <= i < 8 ==> spec_palette(0)[i] == spec_desat_anchor(i),
        forall|i: int| 0 <= i < 8 ==> spec_palette(1000)[i] == spec_sat_anchor(i),
{
    assert forall|i: int| 0 <= i < 8 implies spec_palette(0)[i] == spec_desat_anchor(i) by {
        lemma_lerp_endpoints(spec_desat_anchor(i).r, spec_sat_anchor(i).r);
        lemma_lerp_endpoints(spec_desat_anchor(i).g, spec_sat_anchor(i).g);
        lemma_lerp_endpoints(spec_desat_anchor(i).b, spec_sat_anchor(i).b);
        lemma_lerp_endpoints(spec_desat_anchor(i).a, spec_sat_anchor(i).a);
    }
    assert forall|i: int| 0 <= i < 8 implies spec_palette(1000)[i] == spec_sat_anchor(i) by {
        lemma_lerp_endpoints(spec_desat_anchor(i).r, spec_sat_anchor(i).r);
        lemma_lerp_endpoints(spec_desat_anchor(i).g, spec_sat_anchor(i).g);
        lemma_lerp_endpoints(spec_desat_anchor(i).b, spec_sat_anchor(i).b);
        lemma_lerp_endpoints(spec_desat_anchor(i).a, spec_sat_anchor(i).a);
    }
}

/// Interpolation is exact at both ends of the scale.
proof fn lemma_lerp_endpoints(d: u8, s: u8)
    ensures
        spec_lerp(d, s, 0) == d,
        spec_lerp(d, s, 1000) == s,
{
    assert(d * 1000 + s * 0 == 1000 * d);
    assert(d * 0 + s * 1000 == 1000 * s);
    assert((1000 * d + 500) / 1000 == d) by (nonlinear_arith)
        requires
            0 <= d <= 255,
    ;
    assert((1000 * s + 500) / 1000 == s) by (nonlinear_arith)
        requires
            0 <= s <= 255,
    ;
}

} // verus!
