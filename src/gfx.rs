//! The packed framebuffer and the triangle rasterizer.
use vstd::prelude::*;

verus! {

/// Width and height of the square screen, in pixels.
pub const SCREEN_SIZE: i32 = 160;

/// Bytes in the framebuffer: four 2-bit pixels per byte.
pub const FRAMEBUFFER_BYTES: usize = 6400;

/// Width of the shared texture, in texels.
pub const TEXTURE_WIDTH: usize = 60;

/// Height of the shared texture, in texels.
pub const TEXTURE_HEIGHT: usize = 80;

/// Bytes a 1-bit-per-texel texture occupies.
pub const ONE_BPP_BYTES: usize = 600;

/// Bytes a 2-bit-per-texel texture occupies.
pub const TWO_BPP_BYTES: usize = 1200;

/// A palette slot; `First` to `Fourth` are the four screen colours.
#[derive(Clone, Copy, Debug, PartialEq, Eq, Structural)]
pub enum DrawIndex {
    Transparent,
    First,
    Second,
    Third,
    Fourth,
}

impl DrawIndex {
    pub open spec fn spec_value(self) -> u8 {
        match self {
            DrawIndex::Transparent => 0,
            DrawIndex::First => 1,
            DrawIndex::Second => 2,
            DrawIndex::Third => 3,
            DrawIndex::Fourth => 4,
        }
    }

    /// The slot's number, `0` for transparent to `4` for the fourth colour.
    pub fn value(&self) -> (r: u8)
        ensures
            r == self.spec_value(),
    {
        match self {
            DrawIndex::Transparent => 0,
            DrawIndex::First => 1,
            DrawIndex::Second => 2,
            DrawIndex::Third => 3,
            DrawIndex::Fourth => 4,
        }
    }
}

/// The two bits a slot writes: `(value - 1) & 0b11`.
pub open spec fn color_bits(d: DrawIndex) -> u8 {
    ((d.spec_value() + 3) % 4) as u8
}

/// The 2-bit field `slot` (0 to 3, from the low bits up) of a byte.
pub open spec fn slot_of(b: u8, slot: u8) -> u8 {
    (b >> ((slot * 2) as u8)) & 3u8
}

/// The byte `b` with field `slot` replaced by `c`:
/// `(c << shift) | (b & !mask)` with `mask = 0b11 << shift`.
pub open spec fn packed(b: u8, slot: u8, c: u8) -> u8 {
    ((c << ((slot * 2) as u8)) | (b & !(3u8 << ((slot * 2) as u8)))) as u8
}

/// Whether `(x, y)` lies on the screen.
pub open spec fn on_screen(x: int, y: int) -> bool {
    0 <= x < SCREEN_SIZE && 0 <= y < SCREEN_SIZE
}

/// The byte that holds pixel `(x, y)`.
pub open spec fn byte_index(x: int, y: int) -> int {
    (y * 160 + x) / 4
}

/// The framebuffer bytes after writing `d` at `(x, y)`; off-screen, nothing changes.
pub open spec fn pixel_spec(fb: Seq<u8>, x: int, y: int, d: DrawIndex) -> Seq<u8> {
    if on_screen(x, y) {
        let i = byte_index(x, y);
        fb.update(i, packed(fb[i], (x % 4) as u8, color_bits(d)))
    } else {
        fb
    }
}

/// The two bits stored for pixel `(x, y)`.
pub open spec fn color_at(fb: Seq<u8>, x: int, y: int) -> u8 {
    slot_of(fb[byte_index(x, y)], (x % 4) as u8)
}

/// A screen of 160×160 pixels at two bits each, four to a byte.
pub struct Framebuffer {
    pub bytes: Vec<u8>,
}

impl Framebuffer {
    pub open spec fn wf(&self) -> bool {
        self.bytes@.len() == FRAMEBUFFER_BYTES
    }

    /// A cleared screen: every byte zero.
    pub fn new() -> (r: Framebuffer)
        ensures
            r.wf(),
            forall|i: int| 0 <= i < FRAMEBUFFER_BYTES ==> r.bytes@[i] == 0,
    {
        let mut bytes: Vec<u8> = Vec::new();
        let mut i: usize = 0;
        while i < FRAMEBUFFER_BYTES
            invariant
                i <= FRAMEBUFFER_BYTES,
                bytes@.len() == i,
                forall|j: int| 0 <= j < i ==> bytes@[j] == 0,
            decreases FRAMEBUFFER_BYTES - i,
        {
            bytes.push(0);
            i = i + 1;
        }
        Framebuffer { bytes }
    }

    /// The two bits stored for `(x, y)`, or `None` off-screen.
    pub fn color_at(&self, x: i32, y: i32) -> (r: Option<u8>)
        requires
            self.wf(),
        ensures
            r is Some <==> on_screen(x as int, y as int),
            r is Some ==> r->Some_0 == color_at(self.bytes@, x as int, y as int),
    {
        if x < 0 || x >= SCREEN_SIZE || y < 0 || y >= SCREEN_SIZE {
            return None;
        }
        let idx = ((y as usize) * 160 + (x as usize)) / 4;
        let slot = (x % 4) as u8;
        Some((self.bytes[idx] >> (slot * 2)) & 3)
    }
}

proof fn lemma_byte_index_bounds(x: int, y: int)
    requires
        on_screen(x, y),
    ensures
        0 <= byte_index(x, y) < FRAMEBUFFER_BYTES,
{
    assert(0 <= y * 160 + x < 25600) by (nonlinear_arith)
        requires 0 <= x < 160, 0 <= y < 160;
}

/// Writes draw index `color_idx` at `(x, y)`, a read-modify-write of one byte.
/// Off-screen coordinates are clipped: nothing is written.
pub fn pixel(x: i32, y: i32, color_idx: DrawIndex, fb: &mut Framebuffer)
    requires
        old(fb).wf(),
    ensures
        final(fb).wf(),
        final(fb).bytes@ == pixel_spec(old(fb).bytes@, x as int, y as int, color_idx),
{
    if x < 0 || x >= SCREEN_SIZE || y < 0 || y >= SCREEN_SIZE {
        return;
    }
    proof {
        lemma_byte_index_bounds(x as int, y as int);
    }
    let idx = ((y as usize) * 160 + (x as usize)) / 4;
    let shift: u8 = ((x % 4) as u8) * 2;
    let mask: u8 = 3u8 << shift;
    let color: u8 = (color_idx.value() + 3) % 4;
    let old_byte = fb.bytes[idx];
    let new_byte = (color << shift) | (old_byte & !mask);
    fb.bytes.set(idx, new_byte);
}

/// Reading back a field returns what was packed into it; the other three
/// fields of the byte keep their bits.
pub proof fn lemma_packed_slot(b: u8, slot: u8, c: u8, other: u8)
    requires
        slot < 4,
        c < 4,
        other < 4,
    ensures
        slot_of(packed(b, slot, c), slot) == c,
        other != slot ==> slot_of(packed(b, slot, c), other) == slot_of(b, other),
{
    assert(((((c << ((slot * 2) as u8)) | (b & !(3u8 << ((slot * 2) as u8)))) as u8) >> ((slot * 2) as u8)) & 3u8 == c)
        by (bit_vector)
        requires slot < 4, c < 4;
    assert(other != slot ==> ((((c << ((slot * 2) as u8)) | (b & !(3u8 << ((slot * 2) as u8)))) as u8) >> ((other * 2) as u8)) & 3u8 == (b >> ((other * 2) as u8)) & 3u8)
        by (bit_vector)
        requires slot < 4, c < 4, other < 4;
}

/// Packing four values into the four fields of a byte, in any starting byte,
/// reads all four back.
pub proof fn lemma_packed_four(b: u8, c0: u8, c1: u8, c2: u8, c3: u8)
    requires
        c0 < 4,
        c1 < 4,
        c2 < 4,
        c3 < 4,
    ensures
        ({
            let p = packed(packed(packed(packed(b, 0, c0), 1, c1), 2, c2), 3, c3);
            &&& slot_of(p, 0) == c0
            &&& slot_of(p, 1) == c1
            &&& slot_of(p, 2) == c2
            &&& slot_of(p, 3) == c3
        }),
{
    let step0 = packed(b, 0, c0);
    let step1 = packed(step0, 1, c1);
    let step2 = packed(step1, 2, c2);
    let step3 = packed(step2, 3, c3);
    lemma_packed_slot(b, 0, c0, 0);
    lemma_packed_slot(step0, 1, c1, 0);
    lemma_packed_slot(step1, 2, c2, 0);
    lemma_packed_slot(step2, 3, c3, 0);
    lemma_packed_slot(step0, 1, c1, 1);
    lemma_packed_slot(step1, 2, c2, 1);
    lemma_packed_slot(step2, 3, c3, 1);
    lemma_packed_slot(step1, 2, c2, 2);
    lemma_packed_slot(step2, 3, c3, 2);
    lemma_packed_slot(step2, 3, c3, 3);
}

/// After a pixel write, that pixel reads back the written colour and every other
/// on-screen pixel reads back what it held.
pub proof fn lemma_pixel_round_trip(fb: Seq<u8>, x: int, y: int, d: DrawIndex, x2: int, y2: int)
    requires
        fb.len() == FRAMEBUFFER_BYTES,
        on_screen(x, y),
        on_screen(x2, y2),
    ensures
        color_at(pixel_spec(fb, x, y, d), x, y) == color_bits(d),
        (x2 != x || y2 != y) ==> color_at(pixel_spec(fb, x, y, d), x2, y2) == color_at(fb, x2, y2),
{
    lemma_byte_index_bounds(x, y);
    lemma_byte_index_bounds(x2, y2);
    let i = byte_index(x, y);
    lemma_packed_slot(fb[i], (x % 4) as u8, color_bits(d), (x2 % 4) as u8);
    if (x2 != x || y2 != y) && byte_index(x2, y2) == i {
        // Same byte: the pixels differ, so their fields differ.
        assert(x2 % 4 != x % 4) by {
            assert(y * 160 + x != y2 * 160 + x2) by (nonlinear_arith)
                requires x2 != x || y2 != y, 0 <= x < 160, 0 <= x2 < 160;
        }
    }
}

/// Writing off the screen changes nothing.
pub proof fn lemma_pixel_clipped(fb: Seq<u8>, x: int, y: int, d: DrawIndex)
    requires
        !on_screen(x, y),
    ensures
        pixel_spec(fb, x, y, d) == fb,
{
}

} // verus!
