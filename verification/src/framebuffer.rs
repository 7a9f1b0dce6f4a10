//! The frame buffer: a grid of palette indices and its packed wire format.
//!
//! The panel takes two pixels per byte in row-major order: the first pixel
//! of a pair in the high nibble, the second in the low nibble. Index 7
//! (Transparent) is substituted with 1 before packing, and every nibble is
//! reduced to its low four bits.

use vstd::prelude::*;

verus! {

/// The nibble a palette index is packed as: 7 becomes 1, everything else is
/// kept, reduced to four bits.
pub open spec fn spec_nibble(v: u8) -> u8 {
    if v == 7 {
        1
    } else {
        (v % 16) as u8
    }
}

/// The packed transmission form of a sequence of palette indices: one byte
/// for each pair of indices, first of the pair in the high nibble.
pub open spec fn spec_pack(s: Seq<u8>) -> Seq<u8> {
    Seq::new(
        (s.len() / 2) as nat,
        |k: int| (spec_nibble(s[2 * k]) * 16 + spec_nibble(s[2 * k + 1])) as u8,
    )
}

/// The indices recovered from a packed frame: high nibble first.
pub open spec fn spec_unpack(p: Seq<u8>) -> Seq<u8> {
    Seq::new(
        (2 * p.len()) as nat,
        |i: int|
            if i % 2 == 0 {
                (p[i / 2] / 16) as u8
            } else {
                (p[i / 2] % 16) as u8
            },
    )
}

/// A `height` x `width` grid of palette indices in row-major order.
pub struct FrameBuffer {
    width: usize,
    height: usize,
    buf: Vec<u8>,
}

impl FrameBuffer {
    /// The grid in row-major order: entry `y * width + x` is pixel `(x, y)`.
    pub closed spec fn view(&self) -> Seq<u8> {
        self.buf@
    }

    pub closed spec fn spec_width(&self) -> usize {
        self.width
    }

    pub closed spec fn spec_height(&self) -> usize {
        self.height
    }

    /// Invariant: the grid has exactly one entry per pixel and every entry
    /// is a palette index.
    pub open spec fn wf(&self) -> bool {
        &&& self.view().len() == self.spec_width() * self.spec_height()
        &&& forall|i: int| 0 <= i < self.view().len() ==> self.view()[i] < 8
    }

    /// A new buffer of the given size, all pixels at palette index 0.
    pub fn new(width: usize, height: usize) -> (r: FrameBuffer)
        requires
            width * height <= usize::MAX,
        ensures
            r.wf(),
            r.spec_width() == width,
            r.spec_height() == height,
            r.view() == Seq::new((width * height) as nat, |i: int| 0u8),
    {
        let n = width.checked_mul(height).unwrap_or(0);
        proof {
            assert(width * height <= usize::MAX);
        }
        let mut buf: Vec<u8> = Vec::new();
        let mut i: usize = 0;
        while i < n
            invariant
                0 <= i <= n,
                buf@.len() == i,
                forall|j: int| 0 <= j < i ==> buf@[j] == 0u8,
            decreases n - i,
        {
            buf.push(0);
            i = i + 1;
        }
        let r = FrameBuffer { width, height, buf };
        proof {
            assert(r.view() =~= Seq::new((width * height) as nat, |i: int| 0u8));
        }
        r
    }

    pub fn width(&self) -> (r: usize)
        ensures
            r == self.spec_width(),
    {
        self.width
    }

    pub fn height(&self) -> (r: usize)
        ensures
            r == self.spec_height(),
    {
        self.height
    }

    /// Write one pixel. Coordinates must be inside the grid and the value a
    /// palette index; the resize step guarantees both to the caller.
    pub fn set_pixel(&mut self, x: usize, y: usize, v: u8)
        requires
            old(self).wf(),
            x < old(self).spec_width(),
            y < old(self).spec_height(),
            v < 8,
        ensures
            final(self).wf(),
            final(self).spec_width() == old(self).spec_width(),
            final(self).spec_height() == old(self).spec_height(),
            final(self).view() == old(self).view().update(
                y * old(self).spec_width() + x,
                v,
            ),
    {
        let n = self.buf.len();
        proof {
            let w = old(self).spec_width();
            let h = old(self).spec_height();
            assert(y * w + x < w * h) by (nonlinear_arith)
                requires
                    x < w,
                    y < h,
            ;
            assert(y * w + x < n);
        }
        let idx = y * self.width + x;
        self.buf[idx] = v;
    }

    /// Read one pixel.
    pub fn get_pixel(&self, x: usize, y: usize) -> (r: u8)
        requires
            self.wf(),
            x < self.spec_width(),
            y < self.spec_height(),
        ensures
            r == self.view()[y * self.spec_width() + x],
    {
        let n = self.buf.len();
        proof {
            let w = self.spec_width();
            let h = self.spec_height();
            assert(y * w + x < w * h) by (nonlinear_arith)
                requires
                    x < w,
                    y < h,
            ;
            assert(y * w + x < n);
        }
        self.buf[y * self.width + x]
    }

    /// Serialise the grid into the packed transmission format. The pixel
    /// count must be even, which holds for every supported panel geometry.
    pub fn packed(&self) -> (r: Vec<u8>)
        requires
            self.wf(),
            self.view().len() % 2 == 0,
        ensures
            r@ == spec_pack(self.view()),
            r@.len() == self.view().len() / 2,
    {
        pack_indices(&self.buf)
    }
}

/// Pack a flat sequence of palette indices, two to a byte.
pub fn pack_indices(indices: &Vec<u8>) -> (r: Vec<u8>)
    requires
        indices@.len() % 2 == 0,
    ensures
        r@ == spec_pack(indices@),
        r@.len() == indices@.len() / 2,
{
    let half = indices.len() / 2;
    let mut out: Vec<u8> = Vec::new();
    let mut k: usize = 0;
    while k < half
        invariant
            0 <= k <= half,
            half <= usize::MAX / 2,
            indices@.len() == 2 * half,
            out@.len() == k,
            forall|j: int| 0 <= j < k ==> out@[j] == spec_pack(indices@)[j],
        decreases half - k,
    {
        let hi = nibble(indices[2 * k]);
        let lo = nibble(indices[2 * k + 1]);
        out.push(hi * 16 + lo);
        k = k + 1;
    }
    proof {
        assert(out@ =~= spec_pack(indices@));
    }
    out
}

/// Recover the palette indices a packed frame encodes; index 7 comes back
/// as 1, by design of the substitution.
pub fn unpack_indices(packed: &Vec<u8>) -> (r: Vec<u8>)
    requires
        packed@.len() <= usize::MAX / 2,
    ensures
        r@ == spec_unpack(packed@),
        r@.len() == 2 * packed@.len(),
{
    let mut out: Vec<u8> = Vec::new();
    let mut k: usize = 0;
    while k < packed.len()
        invariant
            0 <= k <= packed@.len(),
            packed@.len() <= usize::MAX / 2,
            out@.len() == 2 * k,
            forall|j: int| 0 <= j < 2 * k ==> out@[j] == spec_unpack(packed@)[j],
        decreases packed@.len() - k,
    {
        let b = packed[k];
        out.push(b / 16);
        out.push(b % 16);
        k = k + 1;
    }
    proof {
        assert(out@ =~= spec_unpack(packed@));
    }
    out
}

/// The nibble a palette index is packed as.
pub fn nibble(v: u8) -> (r: u8)
    ensures
        r == spec_nibble(v),
        r < 16,
{
    if v == 7 {
        1
    } else {
        v % 16
    }
}

/// Packing then unpacking a buffer of palette indices recovers the original
/// indices, except that index 7 round-trips to 1 by design.
pub proof fn lemma_pack_roundtrip(s: Seq<u8>)
    requires
        s.len() % 2 == 0,
        forall|i: int| 0 <= i < s.len() ==> s[i] < 8,
    ensures
        spec_unpack(spec_pack(s)).len() == s.len(),
        forall|i: int| 0 <= i < s.len() ==> spec_unpack(spec_pack(s))[i] == spec_nibble(s[i]),
        forall|i: int| 0 <= i < s.len() ==> spec_unpack(spec_pack(s))[i] == (
        if s[i] == 7 {
            1u8
        } else {
            s[i]
        }),
{
    let p = spec_pack(s);
    assert(p.len() == s.len() / 2);
    assert forall|i: int| 0 <= i < s.len() implies spec_unpack(p)[i] == spec_nibble(s[i]) by {
        let k = i / 2;
        assert(0 <= k < p.len());
        let hi = spec_nibble(s[2 * k]);
        let lo = spec_nibble(s[2 * k + 1]);
        assert(hi < 16 && lo < 16);
        assert(p[k] == (hi * 16 + lo) as u8);
        assert((hi * 16 + lo) / 16 == hi && (hi * 16 + lo) % 16 == lo) by (nonlinear_arith)
            requires
                0 <= hi < 16,
                0 <= lo < 16,
        ;
        if i % 2 == 0 {
            assert(i == 2 * k);
            assert(spec_unpack(p)[i] == (p[k] / 16) as u8);
        } else {
            assert(i == 2 * k + 1);
            assert(spec_unpack(p)[i] == (p[k] % 16) as u8);
        }
    }
    assert forall|i: int| 0 <= i < s.len() implies spec_unpack(p)[i] == (
    if s[i] == 7 {
        1u8
    } else {
        s[i]
    }) by {
        assert(spec_unpack(p)[i] == spec_nibble(s[i]));
        assert(s[i] < 8);
        if s[i] != 7 {
            assert(spec_nibble(s[i]) == s[i] % 16 && s[i] % 16 == s[i]);
        }
    }
}

} // verus!
