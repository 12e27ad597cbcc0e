use blazen::animation::{AnimationState, NextAnimation};
use blazen::card::{Card, CardData, CardState, Effect, Enhancement, Joker, JokerType, NumberEffect, ProcType, Rank, Suit};
use blazen::linalg::ONE;
use blazen::message::{Message, MessageBuffer};
use blazen::poker::{PokerHand, Score};
use blazen::raster::{Texture, TextureColors, TriangleFill, CARD_UV0, CARD_UV1};
use blazen::gfx::DrawIndex;
use blazen::transform::{Scale, Transformation, Translate};
use blazen::util::{Duration, Entropy, FrameCounter};

#[test]
fn rank_values() {
    assert_eq!(Rank::Two.value(), 2);
    assert_eq!(Rank::Nine.value(), 9);
    assert_eq!(Rank::Ten.value(), 10);
    assert_eq!(Rank::Jack.value(), 10);
    assert_eq!(Rank::King.value(), 10);
    assert_eq!(Rank::Ace.value(), 11);
}

#[test]
fn card_basics() {
    let mut c = Card::new(Suit::Heart, Rank::Queen);
    assert_eq!(c.suit(), Suit::Heart);
    assert_eq!(c.rank(), Rank::Queen);
    assert!(c.is_face());
    assert!(!Card::new(Suit::Club, Rank::Ace).is_face());
    assert_eq!(c.enhancement, None);
    c.enhance(Enhancement::Mult);
    assert_eq!(c.enhancement, Some(Enhancement::Mult));
    assert_eq!(Rank::from_index(12), Rank::Ace);
    assert_eq!(Suit::from_index(3).index(), 3);
}

#[test]
fn joker_and_effects() {
    let j = Joker::new(JokerType::Jimbo);
    assert_eq!(j.proc_type, ProcType::Normal);
    let e = NumberEffect::default();
    assert_eq!(e, NumberEffect { points: 0, mult: 0, multx: 1 });
    assert!(matches!(Effect::Numbers(e), Effect::Numbers(NumberEffect { multx: 1, .. })));
}

#[test]
fn poker_min_cards_and_scores() {
    assert_eq!(PokerHand::HighCard.min_cards(), 1);
    assert_eq!(PokerHand::TwoPair.min_cards(), 4);
    assert_eq!(PokerHand::Four.min_cards(), 4);
    assert_eq!(PokerHand::Flush.min_cards(), 5);
    assert_eq!(Score::from_hand(PokerHand::Four), Score { points: 60, mult: 7 });
    let flags = PokerHand::HighCard.bit() | PokerHand::Pair.bit() | PokerHand::Three.bit();
    assert_eq!(Score::from_flags(flags), Some(Score { points: 30, mult: 3 }));
    let sf = PokerHand::HighCard.bit() | PokerHand::Straight.bit() | PokerHand::Flush.bit();
    assert_eq!(Score::from_flags(sf), Some(Score { points: 100, mult: 8 }));
    let fh = PokerHand::FullHouse.bit() | PokerHand::Flush.bit();
    assert_eq!(Score::from_flags(fh), Some(Score { points: 140, mult: 14 }));
    let f5 = PokerHand::Five.bit() | PokerHand::Flush.bit();
    assert_eq!(Score::from_flags(f5), Some(Score { points: 160, mult: 16 }));
    assert_eq!(Score::from_flags(0), None);
}

#[test]
fn first_message_wins() {
    let mut buf = MessageBuffer::new();
    let (mut tx, rx) = buf.get_channel();
    assert_eq!(rx.read(&buf), None);
    assert_eq!(tx.write(&mut buf, Message::CardHovered(3)), Ok(()));
    // The reader of the same channel sees the message, and reading keeps it.
    assert_eq!(rx.read(&buf), Some(Message::CardHovered(3)));
    assert_eq!(rx.read(&buf), Some(Message::CardHovered(3)));
    assert_eq!(tx.write(&mut buf, Message::PlayHand), Err(Message::PlayHand));
    assert_eq!(rx.read(&buf), Some(Message::CardHovered(3)));
}

#[test]
fn frames_and_entropy() {
    assert_eq!(Duration::from_frames(12).as_frames(), 12);
    let mut fc = FrameCounter::new();
    fc.increment();
    fc.increment();
    assert_eq!(fc.get(), 2);
    let mut wrap = FrameCounter { frames: u32::MAX };
    wrap.increment();
    assert_eq!(wrap.get(), 0);
    let mut e = Entropy::new();
    e.update(17, 30, 7);
    let bytes = e.get();
    assert_eq!(bytes[1], (30 * 10 + 7) as u8);
    assert_eq!(bytes[0], 0);
}

fn textures() -> [Texture; 2] {
    let colors = TextureColors::OneBpp([DrawIndex::Fourth, DrawIndex::Second]);
    [Texture { uv: CARD_UV0, colors }, Texture { uv: CARD_UV1, colors }]
}

#[test]
fn resting_card_vertices() {
    let c = CardState::new(0, CardData::Playing(Card::new(Suit::Spade, Rank::Two)), [80, 60], None);
    assert_eq!(c.vertices(0), Some([[64, 39], [96, 39], [96, 81], [64, 81]]));
    let t = c.triangles(0, textures()).unwrap();
    assert_eq!(t[0].vertices, [[64, 39], [96, 39], [64, 81]]);
    assert_eq!(t[1].vertices, [[96, 39], [96, 81], [64, 81]]);
    assert!(matches!(t[1].fill, TriangleFill::Texture(_)));
}

#[test]
fn scaled_card_vertices() {
    let grow = AnimationState::new(
        &[Transformation::Scale(Scale::new([2 * ONE, 2 * ONE], [ONE, ONE]))],
        Duration::from_frames(6),
        Some(NextAnimation::Idle1),
        0,
    )
    .unwrap();
    let c = CardState::new(1, CardData::Joker(Joker::new(JokerType::Jimbo)), [80, 60], Some(grow));
    assert_eq!(c.vertices(0), Some([[48, 18], [112, 18], [112, 102], [48, 102]]));
    assert_eq!(c.vertices(6), Some([[64, 39], [96, 39], [96, 81], [64, 81]]));
}

#[test]
fn translated_card_vertices() {
    let slide = AnimationState::new(
        &[Transformation::Translate(Translate::new([-10 * ONE, 4 * ONE], [0, 0]))],
        Duration::from_frames(10),
        None,
        0,
    )
    .unwrap();
    let c = CardState::new(2, CardData::Playing(Card::new(Suit::Club, Rank::Ace)), [80, 60], Some(slide));
    assert_eq!(c.vertices(0), Some([[54, 43], [86, 43], [86, 85], [54, 85]]));
}

#[test]
fn card_update_chains() {
    let mut c = CardState::new(4, CardData::Playing(Card::new(Suit::Diamond, Rank::Five)), [20, 140], None);
    c.update(3);
    let a = c.animation.as_ref().unwrap();
    assert_eq!(a.start, 3);
    assert_eq!(a.next, Some(NextAnimation::Idle2));
    c.update(30);
    assert_eq!(c.animation.as_ref().unwrap().start, 3);
    c.update(63);
    let b = c.animation.as_ref().unwrap();
    assert_eq!(b.start, 63);
    assert_eq!(b.next, Some(NextAnimation::Idle3));
    let one_shot = AnimationState::new(&[], Duration::from_frames(2), None, 100).unwrap();
    c.set_animation(one_shot);
    c.update(200);
    assert_eq!(c.animation.as_ref().unwrap().start, 100);
}

#[test]
fn card_hover_and_accessors() {
    let mut c = CardState::new(4, CardData::Playing(Card::new(Suit::Diamond, Rank::Five)), [20, 140], None);
    assert!(c.is_hovered(20, 140));
    assert!(c.is_hovered(34, 159));
    assert!(!c.is_hovered(35, 140));
    assert!(!c.is_hovered(20, 120));
    c.set_origin([50, 50]);
    c.set_id(9);
    assert_eq!(c.origin(), [50, 50]);
    assert_eq!(c.id(), 9);
}
