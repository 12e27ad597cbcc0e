//! Card faces drawn from a bitmap font into the shared 1-bit texture buffer.
use vstd::prelude::*;
use crate::card::{Card, Rank, Suit};
use crate::gfx::{DrawIndex, TEXTURE_WIDTH, TWO_BPP_BYTES};
use crate::raster::{Texture, TextureColors, CARD_UV0, CARD_UV1};

verus! {

/// Width of a font glyph, in texels.
pub const CARD_FONT_WIDTH: usize = 10;

/// Height of a font glyph, in texels.
pub const CARD_FONT_HEIGHT: usize = 12;

/// Bytes of one glyph: 120 bits, row after row.
pub const CARD_FONT_CHARSIZE: usize = 15;

/// Glyphs in the font: the thirteen ranks, two to ace, then the four suits.
pub const CARD_FONT_GLYPHS: usize = 17;

/// Bits in the texture: one per texel.
pub const TEXTURE_BITS: usize = 4800;

/// The font, one glyph per line, stored with set bits as background.
pub const CARD_FONT: [u8; 255] = [
    0xc0, 0xe0, 0x11, 0xc0, 0xf0, 0x78, 0x7c, 0x3e, 0x1f, 0x0f, 0x87, 0xc3, 0xf0, 0x00, 0x00,
    0xc1, 0xe0, 0x31, 0x84, 0xf0, 0xfc, 0x38, 0x1e, 0x0f, 0xf1, 0x3e, 0x07, 0x08, 0x07, 0x03,
    0xf8, 0xfc, 0x3e, 0x0f, 0x13, 0x8c, 0xc7, 0x33, 0xcc, 0x00, 0x00, 0x3f, 0x3f, 0xcf, 0xf3,
    0x00, 0x00, 0x03, 0xfc, 0xff, 0x0f, 0xc0, 0x7c, 0x07, 0xe0, 0xfe, 0x0f, 0x80, 0x06, 0x03,
    0xfc, 0x3e, 0x1f, 0x0f, 0x87, 0xc3, 0xe0, 0x10, 0xe0, 0x7c, 0x1f, 0x03, 0x88, 0x07, 0x03,
    0x00, 0x00, 0x0f, 0xf3, 0xfc, 0xfe, 0x3f, 0x1f, 0x8f, 0xc7, 0xf3, 0xfc, 0xff, 0x3f, 0xcf,
    0xc0, 0xe0, 0x11, 0xe0, 0x78, 0x9e, 0x70, 0x38, 0x04, 0x78, 0x1e, 0x07, 0x88, 0x07, 0x03,
    0xe0, 0xe0, 0x11, 0xe0, 0xfc, 0x3f, 0x07, 0xc8, 0xe3, 0x01, 0xf0, 0xf8, 0x78, 0x7c, 0x3f,
    0x38, 0x4c, 0x03, 0x30, 0xcc, 0x33, 0x0c, 0xc3, 0x30, 0xcc, 0x33, 0x0c, 0xc3, 0x00, 0xe1,
    0xf0, 0x3c, 0x0f, 0xe7, 0xf9, 0xfe, 0x7f, 0x9f, 0xe7, 0xf9, 0x3c, 0x46, 0x10, 0x0e, 0x07,
    0xc0, 0xe0, 0x11, 0xe0, 0xfc, 0x3f, 0x0f, 0xc3, 0xb0, 0xc8, 0x30, 0x46, 0x38, 0xc7, 0x00,
    0x1c, 0x0f, 0x13, 0x8c, 0xc7, 0x23, 0xc1, 0xf0, 0xfc, 0x0f, 0x21, 0xce, 0x33, 0xc4, 0x70,
    0xc0, 0xe0, 0x11, 0xe0, 0xfc, 0x3f, 0x0f, 0xc0, 0x00, 0x00, 0x3f, 0x0f, 0xc3, 0xf0, 0xfc,
    0xf3, 0xfc, 0xfe, 0x1f, 0x03, 0x80, 0x40, 0x00, 0x00, 0x00, 0x33, 0x3c, 0xfe, 0x1f, 0x03,
    0xff, 0xff, 0xf8, 0xc4, 0x30, 0x00, 0x00, 0x00, 0x02, 0x01, 0xc0, 0xf8, 0x7f, 0x3f, 0xff,
    0xf3, 0xf8, 0x7e, 0x1f, 0xcf, 0x92, 0x40, 0x00, 0x02, 0x49, 0xf3, 0xfc, 0xf8, 0x06, 0x01,
    0xf3, 0xfc, 0xfe, 0x1f, 0x03, 0x80, 0x40, 0x00, 0x02, 0x01, 0xc0, 0xf8, 0x7f, 0x3f, 0xcf,
];

/// Bit `k` (most significant first) of glyph `f` as drawn: the stored bit inverted.
pub open spec fn raw_glyph_bit(f: int, k: int) -> u8 {
    ((CARD_FONT@[f * 15 + k / 8] ^ 0xFFu8) >> ((7 - k % 8) as u8)) & 1u8
}

/// Bit `k` of glyph `f`, turned half a turn when `flip` holds.
pub open spec fn glyph_bit(f: int, flip: bool, k: int) -> u8 {
    if flip { raw_glyph_bit(f, 119 - k) } else { raw_glyph_bit(f, k) }
}

/// Bit `k` of a byte sequence, most significant bit of each byte first.
pub open spec fn seq_bit(s: Seq<u8>, k: int) -> u8 {
    (s[k / 8] >> ((7 - k % 8) as u8)) & 1u8
}

/// The buffer with bit `p` (most significant first) set to `v`.
pub open spec fn set_bit_spec(buf: Seq<u8>, p: int, v: u8) -> Seq<u8> {
    let m = 0x80u8 >> ((p % 8) as u8);
    buf.update(p / 8, if v == 1 { buf[p / 8] | m } else { buf[p / 8] & !m })
}

/// Where bit `k` of a glyph lands when the glyph's top-left texel is at `d`.
pub open spec fn glyph_pos(d: int, k: int) -> int {
    (k / 10) * (TEXTURE_WIDTH as int) + d + k % 10
}

/// The buffer after copying the first `k` bits of glyph `f` to `d`.
pub open spec fn blit_bits(buf: Seq<u8>, f: int, d: int, flip: bool, k: nat) -> Seq<u8>
    decreases k,
{
    if k == 0 {
        buf
    } else {
        let j = (k - 1) as nat;
        set_bit_spec(blit_bits(buf, f, d, flip, j), glyph_pos(d, j as int), glyph_bit(f, flip, j as int))
    }
}

/// The last texel a glyph may start at and still fit in the texture.
pub open spec fn last_glyph_start() -> int {
    (TEXTURE_BITS - CARD_FONT_CHARSIZE * 8) as int
}

/// The buffer after drawing glyph `f` with its top-left texel at `d`; a glyph
/// that would not fit is not drawn.
pub open spec fn blit_spec(buf: Seq<u8>, f: int, d: int, flip: bool) -> Seq<u8> {
    if d > last_glyph_start() {
        buf
    } else {
        blit_bits(buf, f, d, flip, 120)
    }
}

/// One glyph's 120 bits.
pub struct CardChar(pub [u8; 15]);

/// A byte with its bit order reversed.
pub open spec fn reversed(b: u8) -> u8 {
    (((b & 1u8) << 7u8) | ((b & 2u8) << 5u8) | ((b & 4u8) << 3u8) | ((b & 8u8) << 1u8)
        | ((b & 16u8) >> 1u8) | ((b & 32u8) >> 3u8) | ((b & 64u8) >> 5u8) | ((b & 128u8) >> 7u8)) as u8
}

/// Reverses the bit order of a byte.
pub fn reverse_bits(b: u8) -> (r: u8)
    ensures
        r == reversed(b),
        forall|j: u8| j < 8 ==> (#[trigger] (r >> j)) & 1u8 == (b >> ((7 - j) as u8)) & 1u8,
{
    let r = ((b & 1) << 7) | ((b & 2) << 5) | ((b & 4) << 3) | ((b & 8) << 1) | ((b & 16) >> 1) | ((b & 32) >> 3) | ((b & 64) >> 5) | ((b & 128) >> 7);
    assert(forall|j: u8| j < 8 ==> (#[trigger] (r >> j)) & 1u8 == (b >> ((7 - j) as u8)) & 1u8) by (bit_vector)
        requires
            r == ((b & 1) << 7) | ((b & 2) << 5) | ((b & 4) << 3) | ((b & 8) << 1) | ((b & 16) >> 1) | ((b & 32) >> 3) | ((b & 64) >> 5) | ((b & 128) >> 7);
    r
}

impl CardChar {
    pub open spec fn bit(&self, k: int) -> u8 {
        seq_bit(self.0@, k)
    }

    /// Glyph `font_idx` of the font, as drawn.
    pub fn from_font(font_idx: usize) -> (r: CardChar)
        requires
            font_idx < CARD_FONT_GLYPHS,
        ensures
            forall|k: int| 0 <= k < 120 ==> #[trigger] r.bit(k) == raw_glyph_bit(font_idx as int, k),
    {
        let mut bytes = [0u8; 15];
        let base = font_idx * CARD_FONT_CHARSIZE;
        let mut i: usize = 0;
        while i < CARD_FONT_CHARSIZE
            invariant
                i <= 15,
                base == font_idx * 15,
                font_idx < 17,
                forall|j: int| 0 <= j < i ==> bytes@[j] == CARD_FONT@[base + j] ^ 0xFFu8,
            decreases 15 - i,
        {
            bytes[i] = CARD_FONT[base + i] ^ 0xFF;
            i = i + 1;
        }
        let r = CardChar(bytes);
        assert forall|k: int| 0 <= k < 120 implies #[trigger] r.bit(k) == raw_glyph_bit(font_idx as int, k) by {
            assert(0 <= k / 8 < 15);
        }
        r
    }

    /// Turns the glyph half a turn: the byte order and each byte's bits reversed.
    pub fn flip(&mut self)
        ensures
            forall|k: int| 0 <= k < 120 ==> #[trigger] final(self).bit(k) == old(self).bit(119 - k),
    {
        let old_bytes = self.0;
        let mut bytes = [0u8; 15];
        let mut i: usize = 0;
        while i < CARD_FONT_CHARSIZE
            invariant
                i <= 15,
                forall|j: int| 0 <= j < i ==> bytes@[j] == reversed(old_bytes@[14 - j]),
            decreases 15 - i,
        {
            bytes[i] = reverse_bits(old_bytes[14 - i]);
            i = i + 1;
        }
        self.0 = bytes;
        assert forall|k: int| 0 <= k < 120 implies #[trigger] self.bit(k) == seq_bit(old_bytes@, 119 - k) by {
            let a = k / 8;
            let c = k % 8;
            assert(119 - k == 8 * (14 - a) + (7 - c));
            vstd::arithmetic::div_mod::lemma_fundamental_div_mod_converse(119 - k, 8, 14 - a, 7 - c);
            let b = old_bytes@[14 - a];
            let cc = c as u8;
            lemma_reversed_bit(b, (7 - cc) as u8);
        }
    }
}

proof fn lemma_reversed_bit(b: u8, j: u8)
    requires
        j < 8,
    ensures
        (reversed(b) >> j) & 1u8 == (b >> ((7 - j) as u8)) & 1u8,
{
    assert((reversed(b) >> j) & 1u8 == (b >> ((7 - j) as u8)) & 1u8) by (bit_vector)
        requires j < 8;
}

/// Sets bit `p` (most significant first) of the buffer to `v`.
fn set_bit(buf: &mut Vec<u8>, p: usize, v: u8)
    requires
        p / 8 < old(buf)@.len(),
    ensures
        final(buf)@ == set_bit_spec(old(buf)@, p as int, v),
{
    let i = p / 8;
    let m: u8 = 0x80u8 >> ((p % 8) as u8);
    let b = buf[i];
    let nb = if v == 1 { b | m } else { b & !m };
    buf.set(i, nb);
}

/// Draws glyph `font_idx`, turned half a turn when `flip` holds, with its
/// top-left texel at bit `draw_idx` of the buffer; a glyph that would not fit
/// is not drawn.
pub fn font_into_buffer(buf: &mut Vec<u8>, font_idx: usize, draw_idx: usize, flip: bool)
    requires
        old(buf)@.len() == TWO_BPP_BYTES,
        font_idx < CARD_FONT_GLYPHS,
    ensures
        final(buf)@ == blit_spec(old(buf)@, font_idx as int, draw_idx as int, flip),
        final(buf)@.len() == old(buf)@.len(),
{
    if draw_idx > TEXTURE_BITS - CARD_FONT_CHARSIZE * 8 {
        return;
    }
    let mut ch = CardChar::from_font(font_idx);
    if flip {
        ch.flip();
    }
    let ghost buf0 = buf@;
    let mut i: usize = 0;
    while i < CARD_FONT_HEIGHT
        invariant
            i <= 12,
            draw_idx <= 4680,
            buf@.len() == TWO_BPP_BYTES,
            forall|k: int| 0 <= k < 120 ==> #[trigger] ch.bit(k) == glyph_bit(font_idx as int, flip, k),
            buf@ == blit_bits(buf0, font_idx as int, draw_idx as int, flip, (i * 10) as nat),
        decreases 12 - i,
    {
        let mut j: usize = 0;
        while j < CARD_FONT_WIDTH
            invariant
                i < 12,
                j <= 10,
                draw_idx <= 4680,
                buf@.len() == TWO_BPP_BYTES,
                forall|k: int| 0 <= k < 120 ==> #[trigger] ch.bit(k) == glyph_bit(font_idx as int, flip, k),
                buf@ == blit_bits(buf0, font_idx as int, draw_idx as int, flip, (i * 10 + j) as nat),
            decreases 10 - j,
        {
            let k = i * CARD_FONT_WIDTH + j;
            let p = i * TEXTURE_WIDTH + draw_idx + j;
            proof {
                assert(k / 10 == i && k % 10 == j) by {
                    vstd::arithmetic::div_mod::lemma_fundamental_div_mod_converse(k as int, 10, i as int, j as int);
                }
                assert(p == glyph_pos(draw_idx as int, k as int));
            }
            let v = card_char_bit(&ch, k);
            set_bit(buf, p, v);
            j = j + 1;
        }
        i = i + 1;
    }
}

fn card_char_bit(ch: &CardChar, k: usize) -> (r: u8)
    requires
        k < 120,
    ensures
        r == ch.bit(k as int),
{
    (ch.0[k / 8] >> ((7 - k % 8) as u8)) & 1
}

} // verus!

verus! {

/// Column of the left pips.
pub const PIP_LEFT: usize = 15;

/// Column of the right pips.
pub const PIP_RIGHT: usize = TEXTURE_WIDTH - 15 - CARD_FONT_WIDTH;

/// Column of the centred pips.
pub const PIP_CENTER: usize = TEXTURE_WIDTH / 2 - CARD_FONT_WIDTH / 2;

/// Where the pips of a number card go (top-left texel, and whether the pip is
/// turned), from two to ten; no pips for faces and aces.
pub open spec fn pips_spec(r: Rank) -> Seq<(int, bool)> {
    let l = PIP_LEFT as int;
    let rt = PIP_RIGHT as int;
    let c = PIP_CENTER as int;
    match r {
        Rank::Two => seq![(c + 60 * 10, false), (c + 60 * 60, true)],
        Rank::Three => seq![(c + 60 * 10, false), (c + 60 * 35, false), (c + 60 * 60, true)],
        Rank::Four => seq![(l + 60 * 10, false), (rt + 60 * 10, false), (l + 60 * 60, true), (rt + 60 * 60, true)],
        Rank::Five => seq![
            (l + 60 * 10, false), (rt + 60 * 10, false),
            (c + 60 * 35, false),
            (l + 60 * 60, true), (rt + 60 * 60, true),
        ],
        Rank::Six => seq![
            (l + 60 * 10, false), (rt + 60 * 10, false),
            (l + 60 * 35, false), (rt + 60 * 35, false),
            (l + 60 * 60, true), (rt + 60 * 60, true),
        ],
        Rank::Seven => seq![
            (l + 60 * 10, false), (rt + 60 * 10, false),
            (c + 60 * 23, false),
            (l + 60 * 35, false), (rt + 60 * 35, false),
            (l + 60 * 60, true), (rt + 60 * 60, true),
        ],
        Rank::Eight => seq![
            (l + 60 * 9, false), (rt + 60 * 9, false),
            (c + 60 * 20, false),
            (l + 60 * 35, false), (rt + 60 * 35, false),
            (c + 60 * 49, true),
            (l + 60 * 61, true), (rt + 60 * 61, true),
        ],
        Rank::Nine => seq![
            (l + 60 * 10, false), (rt + 60 * 10, false),
            (c + 60 * 17, false),
            (l + 60 * 25, false), (rt + 60 * 25, false),
            (l + 60 * 45, true), (rt + 60 * 45, true),
            (l + 60 * 60, true), (rt + 60 * 60, true),
        ],
        Rank::Ten => seq![
            (l + 60 * 10, false), (rt + 60 * 10, false),
            (c + 60 * 17, false),
            (l + 60 * 25, false), (rt + 60 * 25, false),
            (l + 60 * 45, true), (rt + 60 * 45, true),
            (c + 60 * 53, true),
            (l + 60 * 60, true), (rt + 60 * 60, true),
        ],
        _ => seq![],
    }
}

fn pips(r: Rank) -> (v: Vec<(usize, bool)>)
    ensures
        v@.len() == pips_spec(r).len(),
        forall|i: int| 0 <= i < v@.len() ==> (#[trigger] v@[i]).0 == pips_spec(r)[i].0 && v@[i].1 == pips_spec(r)[i].1,
{
    let l = PIP_LEFT;
    let rt = PIP_RIGHT;
    let c = PIP_CENTER;
    let v = match r {
        Rank::Two => vec![(c + 60 * 10, false), (c + 60 * 60, true)],
        Rank::Three => vec![(c + 60 * 10, false), (c + 60 * 35, false), (c + 60 * 60, true)],
        Rank::Four => vec![(l + 60 * 10, false), (rt + 60 * 10, false), (l + 60 * 60, true), (rt + 60 * 60, true)],
        Rank::Five => vec![
            (l + 60 * 10, false), (rt + 60 * 10, false),
            (c + 60 * 35, false),
            (l + 60 * 60, true), (rt + 60 * 60, true),
        ],
        Rank::Six => vec![
            (l + 60 * 10, false), (rt + 60 * 10, false),
            (l + 60 * 35, false), (rt + 60 * 35, false),
            (l + 60 * 60, true), (rt + 60 * 60, true),
        ],
        Rank::Seven => vec![
            (l + 60 * 10, false), (rt + 60 * 10, false),
            (c + 60 * 23, false),
            (l + 60 * 35, false), (rt + 60 * 35, false),
            (l + 60 * 60, true), (rt + 60 * 60, true),
        ],
        Rank::Eight => vec![
            (l + 60 * 9, false), (rt + 60 * 9, false),
            (c + 60 * 20, false),
            (l + 60 * 35, false), (rt + 60 * 35, false),
            (c + 60 * 49, true),
            (l + 60 * 61, true), (rt + 60 * 61, true),
        ],
        Rank::Nine => vec![
            (l + 60 * 10, false), (rt + 60 * 10, false),
            (c + 60 * 17, false),
            (l + 60 * 25, false), (rt + 60 * 25, false),
            (l + 60 * 45, true), (rt + 60 * 45, true),
            (l + 60 * 60, true), (rt + 60 * 60, true),
        ],
        Rank::Ten => vec![
            (l + 60 * 10, false), (rt + 60 * 10, false),
            (c + 60 * 17, false),
            (l + 60 * 25, false), (rt + 60 * 25, false),
            (l + 60 * 45, true), (rt + 60 * 45, true),
            (c + 60 * 53, true),
            (l + 60 * 60, true), (rt + 60 * 60, true),
        ],
        _ => vec![],
    };
    v
}

/// The buffer after drawing each `(glyph, top-left texel, turned)` in order.
pub open spec fn apply_blits(buf: Seq<u8>, list: Seq<(int, int, bool)>) -> Seq<u8>
    decreases list.len(),
{
    if list.len() == 0 {
        buf
    } else {
        let b = list.last();
        blit_spec(apply_blits(buf, list.drop_last()), b.0, b.1, b.2)
    }
}

/// Where the rank is drawn in the top-left corner.
pub const RANK_TOP: usize = 62;

/// Where the turned rank is drawn in the bottom-right corner.
pub const RANK_BOTTOM: usize = 4008;

/// Where the suit is drawn below the top-left rank.
pub const SUIT_TOP: usize = 842;

/// Where the turned suit is drawn above the bottom-right rank.
pub const SUIT_BOTTOM: usize = 3228;

/// The glyph of a card's suit.
pub open spec fn suit_glyph(c: Card) -> int {
    c.suit.spec_index() as int + 13
}

/// The rank in the top-left and, turned, bottom-right corner; the suit
/// below the top-left rank and, turned, above the bottom-right one.
pub open spec fn corner_blits(c: Card) -> Seq<(int, int, bool)> {
    let rk = c.rank.spec_index() as int;
    let st = suit_glyph(c);
    seq![
        (rk, RANK_TOP as int, false),
        (rk, RANK_BOTTOM as int, true),
        (st, SUIT_TOP as int, false),
        (st, SUIT_BOTTOM as int, true),
    ]
}

/// The suit's pips for a number card.
pub open spec fn pip_blits(c: Card) -> Seq<(int, int, bool)> {
    pips_spec(c.rank).map_values(|p: (int, bool)| (suit_glyph(c), p.0, p.1))
}

/// The texture buffer a card draws: cleared, its corners, then its pips.
pub open spec fn card_texture_spec(c: Card) -> Seq<u8> {
    apply_blits(apply_blits(Seq::new(TWO_BPP_BYTES as nat, |i: int| 0u8), corner_blits(c)), pip_blits(c))
}

/// Black suits draw in the second colour, red ones in the third, on the fourth.
pub open spec fn suit_colors(s: Suit) -> TextureColors {
    match s {
        Suit::Spade | Suit::Club => TextureColors::OneBpp([DrawIndex::Fourth, DrawIndex::Second]),
        Suit::Heart | Suit::Diamond => TextureColors::OneBpp([DrawIndex::Fourth, DrawIndex::Third]),
    }
}

impl Card {
    /// Draws the card's face into the shared texture buffer and returns the
    /// textures of its two triangles.
    pub fn texture(&self, buf: &mut Vec<u8>) -> (r: [Texture; 2])
        requires
            old(buf)@.len() == TWO_BPP_BYTES,
        ensures
            final(buf)@ == card_texture_spec(*self),
            final(buf)@.len() == TWO_BPP_BYTES,
            r[0] == (Texture { uv: CARD_UV0, colors: suit_colors(self.suit) }),
            r[1] == (Texture { uv: CARD_UV1, colors: suit_colors(self.suit) }),
    {
        let mut i: usize = 0;
        while i < buf.len()
            invariant
                buf@.len() == TWO_BPP_BYTES,
                i <= buf@.len(),
                forall|j: int| 0 <= j < i ==> buf@[j] == 0,
            decreases buf@.len() - i,
        {
            buf.set(i, 0);
            i = i + 1;
        }
        assert(buf@ =~= Seq::new(TWO_BPP_BYTES as nat, |i: int| 0u8));
        let ghost zero = buf@;
        let rk = self.rank.index();
        let st = self.suit.index() + 13;
        let corners = [
            (rk, RANK_TOP, false),
            (rk, RANK_BOTTOM, true),
            (st, SUIT_TOP, false),
            (st, SUIT_BOTTOM, true),
        ];
        let mut n: usize = 0;
        while n < 4
            invariant
                n <= 4,
                buf@.len() == TWO_BPP_BYTES,
                rk < 13,
                st < 17,
                rk == self.rank.spec_index(),
                st == suit_glyph(*self),
                corners@.len() == 4,
                forall|m: int| 0 <= m < 4 ==> (#[trigger] corners@[m]).0 < 17
                    && corners@[m].0 == corner_blits(*self)[m].0
                    && corners@[m].1 == corner_blits(*self)[m].1
                    && corners@[m].2 == corner_blits(*self)[m].2,
                buf@ == apply_blits(zero, corner_blits(*self).subrange(0, n as int)),
            decreases 4 - n,
        {
            let (f, d, flip) = corners[n];
            font_into_buffer(buf, f, d, flip);
            proof {
                assert(corner_blits(*self).subrange(0, n + 1).drop_last() =~= corner_blits(*self).subrange(0, n as int));
            }
            n = n + 1;
        }
        assert(corner_blits(*self).subrange(0, 4) =~= corner_blits(*self));
        let ghost base = buf@;
        if !self.is_face() && !matches!(self.rank, Rank::Ace) {
            let list = pips(self.rank);
            let mut n: usize = 0;
            while n < list.len()
                invariant
                    n <= list@.len(),
                    buf@.len() == TWO_BPP_BYTES,
                    st < 17,
                    st == suit_glyph(*self),
                    list@.len() == pip_blits(*self).len(),
                    forall|m: int| 0 <= m < list@.len() ==> (#[trigger] list@[m]).0 == pip_blits(*self)[m].1 && list@[m].1 == pip_blits(*self)[m].2,
                    forall|m: int| 0 <= m < list@.len() ==> pip_blits(*self)[m].0 == suit_glyph(*self),
                    buf@ == apply_blits(base, pip_blits(*self).subrange(0, n as int)),
                decreases list@.len() - n,
            {
                let (d, flip) = list[n];
                font_into_buffer(buf, st, d, flip);
                proof {
                    assert(pip_blits(*self).subrange(0, n + 1).drop_last() =~= pip_blits(*self).subrange(0, n as int));
                }
                n = n + 1;
            }
            assert(pip_blits(*self).subrange(0, list@.len() as int) =~= pip_blits(*self));
        } else {
            assert(pip_blits(*self) =~= Seq::<(int, int, bool)>::empty());
        }
        let colors = match self.suit {
            Suit::Spade | Suit::Club => TextureColors::OneBpp([DrawIndex::Fourth, DrawIndex::Second]),
            Suit::Heart | Suit::Diamond => TextureColors::OneBpp([DrawIndex::Fourth, DrawIndex::Third]),
        };
        [Texture { uv: CARD_UV0, colors }, Texture { uv: CARD_UV1, colors }]
    }
}

} // verus!
