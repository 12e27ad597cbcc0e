use blazen::card::{Card, CardData, CardState, Joker, JokerType, Rank, Suit};
use blazen::deck::{random_idle, Deck};
use blazen::gfx::{DrawIndex, Framebuffer};
use blazen::glyph::{font_into_buffer, reverse_bits, CardChar, CARD_FONT, RANK_BOTTOM, RANK_TOP, SUIT_TOP};
use blazen::raster::{TextureColors, CARD_UV0, CARD_UV1};
use rand::rngs::SmallRng;
use rand::SeedableRng;

fn bit(buf: &[u8], i: usize) -> u8 {
    (buf[i / 8] >> (7 - i % 8)) & 1
}

fn glyph_bit(f: usize, k: usize) -> u8 {
    ((CARD_FONT[f * 15 + k / 8] ^ 0xff) >> (7 - k % 8)) & 1
}

#[test]
fn byte_reversal() {
    assert_eq!(reverse_bits(0b1000_0000), 0b0000_0001);
    assert_eq!(reverse_bits(0b1100_1010), 0b0101_0011);
    assert_eq!(reverse_bits(0), 0);
}

#[test]
fn flip_turns_glyph_half_a_turn() {
    let plain = CardChar::from_font(14);
    let mut turned = CardChar::from_font(14);
    turned.flip();
    for k in 0..120 {
        assert_eq!(bit(&turned.0, k), bit(&plain.0, 119 - k));
        assert_eq!(bit(&plain.0, k), glyph_bit(14, k));
    }
}

#[test]
fn glyph_lands_row_by_row() {
    let mut buf = vec![0u8; 1200];
    font_into_buffer(&mut buf, 3, 100, false);
    for row in 0..12 {
        for col in 0..10 {
            assert_eq!(bit(&buf, row * 60 + 100 + col), glyph_bit(3, row * 10 + col));
        }
        assert_eq!(bit(&buf, row * 60 + 100 + 10), 0);
    }
    // A glyph starting past the last place it fits is not drawn.
    let mut untouched = vec![0u8; 1200];
    font_into_buffer(&mut untouched, 3, 4681, false);
    assert!(untouched.iter().all(|b| *b == 0));
}

#[test]
fn card_face_texture() {
    let mut buf = vec![0xAAu8; 1200];
    let c = Card::new(Suit::Heart, Rank::Four);
    let t = c.texture(&mut buf);
    assert_eq!(t[0].uv, CARD_UV0);
    assert_eq!(t[1].uv, CARD_UV1);
    assert!(matches!(t[0].colors, TextureColors::OneBpp([DrawIndex::Fourth, DrawIndex::Third])));
    for row in 0..12 {
        for col in 0..10 {
            let k = row * 10 + col;
            assert_eq!(bit(&buf, RANK_TOP + row * 60 + col), glyph_bit(2, k));
            assert_eq!(bit(&buf, RANK_BOTTOM + row * 60 + col), glyph_bit(2, 119 - k));
            assert_eq!(bit(&buf, SUIT_TOP + row * 60 + col), glyph_bit(14, k));
            // The top-left pip of a four.
            assert_eq!(bit(&buf, 15 + 600 + row * 60 + col), glyph_bit(14, k));
        }
    }
    // Outside every glyph the buffer was cleared.
    assert_eq!(bit(&buf, 0), 0);
    assert!(buf[600..].iter().all(|b| *b == 0));
    let spade = Card::new(Suit::Spade, Rank::King).texture(&mut buf);
    assert!(matches!(spade[1].colors, TextureColors::OneBpp([DrawIndex::Fourth, DrawIndex::Second])));
}

#[test]
fn joker_texture_colors() {
    let t = Joker::new(JokerType::Jimbo).texture();
    assert!(matches!(
        t[0].colors,
        TextureColors::TwoBpp([DrawIndex::Second, DrawIndex::First, DrawIndex::Third, DrawIndex::Fourth])
    ));
    let mut buf = vec![7u8; 1200];
    let d = CardData::Joker(Joker::new(JokerType::Jimbo)).texture(&mut buf);
    assert_eq!(d[1].uv, CARD_UV1);
    assert!(buf.iter().all(|b| *b == 7));
}

#[test]
fn card_renders_on_screen() {
    let c = CardState::new(0, CardData::Playing(Card::new(Suit::Club, Rank::Ten)), [80, 80], None);
    let mut buf = vec![0u8; 1200];
    let mut fb = Framebuffer::new();
    c.render(0, &mut buf, &mut fb);
    // Inside the card the background maps to the fourth colour.
    assert_eq!(fb.color_at(66, 80), Some(3));
    // Outside it nothing is drawn.
    assert_eq!(fb.color_at(10, 10), Some(0));
    assert_eq!(fb.color_at(97, 80), Some(0));
    // Some glyph pixels are drawn in the second colour.
    let mut inked = 0;
    for y in 59..101 {
        for x in 64..96 {
            if fb.color_at(x, y) == Some(1) {
                inked += 1;
            }
        }
    }
    assert!(inked > 0);
}

#[test]
fn standard_deck_order() {
    let d = Deck::new();
    assert_eq!(d.get(0), Some(&Card::new(Suit::Spade, Rank::Two)));
    assert_eq!(d.get(13), Some(&Card::new(Suit::Heart, Rank::Two)));
    assert_eq!(d.get(51), Some(&Card::new(Suit::Diamond, Rank::Ace)));
    assert_eq!(d.get(52), None);
}

#[test]
fn draw_takes_from_top() {
    let mut d = Deck::new();
    assert_eq!(d.draw(), Some(Card::new(Suit::Diamond, Rank::Ace)));
    assert_eq!(d.draw(), Some(Card::new(Suit::Diamond, Rank::King)));
    for _ in 0..50 {
        assert!(d.draw().is_some());
    }
    assert_eq!(d.draw(), None);
    assert_eq!(d.get(0), None);
}

#[test]
fn shuffle_keeps_the_cards() {
    let mut d = Deck::new();
    let mut rng = SmallRng::seed_from_u64(7);
    d.shuffle(&mut rng);
    let mut seen = [[0u8; 13]; 4];
    let mut moved = 0;
    for i in 0..52 {
        let c = d.get(i).unwrap();
        seen[c.suit().index()][c.rank().index()] += 1;
        if c.suit().index() * 13 + c.rank().index() != i {
            moved += 1;
        }
    }
    assert!(seen.iter().all(|s| s.iter().all(|n| *n == 1)));
    assert!(moved > 0);
    assert_eq!(d.get(52), None);
    let _ = random_idle(&mut rng);
}
