use blazen::card::{Card, CardData, Rank, Suit};
use blazen::deck::Deck;
use blazen::gfx::DrawIndex;
use blazen::hand::{HandState, Jokers};
use blazen::message::{Message, MessageBuffer, Reader, Writer};
use blazen::poker::{match_poker, PokerHand, Score};
use blazen::scene::{scene_after, ActiveScene, Button, Demo, DemoState, Menu};
use blazen::util::{Entropy, MouseCompound, MouseState};
use rand::rngs::SmallRng;
use rand::SeedableRng;

fn c(s: Suit, r: Rank) -> Card {
    Card::new(s, r)
}

#[test]
fn poker_kinds() {
    let hc = PokerHand::HighCard.bit();
    assert_eq!(match_poker(&[c(Suit::Spade, Rank::Two)]), hc);
    assert_eq!(match_poker(&[]), hc);
    assert_eq!(match_poker(&[c(Suit::Spade, Rank::Two), c(Suit::Heart, Rank::Two)]), hc | PokerHand::Pair.bit());
    assert_eq!(match_poker(&[c(Suit::Spade, Rank::Two), c(Suit::Heart, Rank::Two), c(Suit::Club, Rank::Five), c(Suit::Spade, Rank::Five)]), hc | PokerHand::TwoPair.bit());
    assert_eq!(match_poker(&[c(Suit::Spade, Rank::Nine), c(Suit::Heart, Rank::Nine), c(Suit::Club, Rank::Nine)]), hc | PokerHand::Three.bit());
    assert_eq!(
        match_poker(&[c(Suit::Spade, Rank::Two), c(Suit::Heart, Rank::Two), c(Suit::Club, Rank::Five), c(Suit::Spade, Rank::Five), c(Suit::Diamond, Rank::Five)]),
        hc | PokerHand::FullHouse.bit()
    );
    assert_eq!(match_poker(&[c(Suit::Spade, Rank::Ace), c(Suit::Heart, Rank::Ace), c(Suit::Club, Rank::Ace), c(Suit::Diamond, Rank::Ace)]), hc | PokerHand::Four.bit());
    let flush = [c(Suit::Heart, Rank::Two), c(Suit::Heart, Rank::Six), c(Suit::Heart, Rank::Nine), c(Suit::Heart, Rank::Jack), c(Suit::Heart, Rank::King)];
    assert_eq!(match_poker(&flush), hc | PokerHand::Flush.bit());
    let straight = [c(Suit::Heart, Rank::Six), c(Suit::Spade, Rank::Seven), c(Suit::Heart, Rank::Eight), c(Suit::Club, Rank::Nine), c(Suit::Heart, Rank::Ten)];
    assert_eq!(match_poker(&straight), hc | PokerHand::Straight.bit());
    let sf = [c(Suit::Club, Rank::Ten), c(Suit::Club, Rank::Jack), c(Suit::Club, Rank::Queen), c(Suit::Club, Rank::King), c(Suit::Club, Rank::Ace)];
    assert_eq!(match_poker(&sf), hc | PokerHand::Straight.bit() | PokerHand::Flush.bit());
    assert_eq!(Score::from_flags(match_poker(&sf)), Some(Score { points: 100, mult: 8 }));
    let gap = [c(Suit::Club, Rank::Two), c(Suit::Spade, Rank::Three), c(Suit::Club, Rank::Four), c(Suit::Club, Rank::Five), c(Suit::Club, Rank::Seven)];
    assert_eq!(match_poker(&gap), hc);
}

#[test]
fn fill_deals_from_the_top() {
    let mut hand = HandState::new();
    let mut deck = Deck::new();
    let mut rng = SmallRng::seed_from_u64(1);
    hand.fill(&mut deck, &mut rng, 10);
    assert_eq!(deck.get(43), Some(&c(Suit::Diamond, Rank::Six)));
    assert_eq!(deck.get(44), None);
    let played = {
        let mut h = hand;
        for i in 0..8 {
            h.toggle(i);
        }
        h.played()
    };
    assert_eq!(played.len(), 5);
    assert_eq!(played[0], c(Suit::Diamond, Rank::Ace));
    assert_eq!(played[4], c(Suit::Diamond, Rank::Ten));
}

#[test]
fn fill_lays_out_slots_and_ids() {
    let mut hand = HandState::new();
    let mut deck = Deck::new();
    let mut rng = SmallRng::seed_from_u64(2);
    hand.fill(&mut deck, &mut rng, 0);
    let mut mouse_tx = Writer::new();
    let mut mouse_tx_buf = MessageBuffer::new();
    // Card 3 rests at (20 + 3 * 8 * 130 / 60, 140) = (72, 140).
    let m = MouseCompound::new(MouseState { x: 72, y: 140, left: true }, MouseState { x: 72, y: 140, left: false });
    hand.handle_input(&m, &mut mouse_tx, &mut mouse_tx_buf);
    assert_eq!(mouse_tx_buf.message, Some(Message::CardClicked(3)));
}

#[test]
fn selection_toggles() {
    let mut hand = HandState::new();
    hand.toggle(2);
    hand.toggle(5);
    assert!(hand.is_selected(2));
    assert_eq!(hand.selected_count(), 2);
    hand.toggle(2);
    assert!(!hand.is_selected(2));
    assert!(hand.is_selected(5));
    for i in 10..20 {
        hand.toggle(i);
    }
    assert_eq!(hand.selected_count(), 5);
    hand.handle_message(&Reader::new(), &MessageBuffer { message: Some(Message::CardClicked(5)) }, 0);
    assert!(!hand.is_selected(5));
    hand.handle_message(&Reader::new(), &MessageBuffer { message: Some(Message::CardClicked(0x1FF)) }, 0);
    assert!(!hand.is_selected(0x1FF));
}

#[test]
fn discard_drops_selected_ids() {
    let mut hand = HandState::new();
    let mut deck = Deck::new();
    let mut rng = SmallRng::seed_from_u64(3);
    hand.fill(&mut deck, &mut rng, 0);
    hand.toggle(0);
    hand.toggle(7);
    hand.discard_selected();
    assert_eq!(hand.selected_count(), 0);
    for i in 0..6 {
        hand.toggle(i);
    }
    let left = hand.played();
    assert_eq!(left[0], c(Suit::Diamond, Rank::King));
    hand.discard_selected();
    hand.fill(&mut deck, &mut rng, 5);
    for i in 0..5 {
        hand.toggle(i);
    }
    assert_eq!(hand.played().len(), 5);
}

#[test]
fn play_moves_selected_cards() {
    let mut hand = HandState::new();
    let mut deck = Deck::new();
    let mut rng = SmallRng::seed_from_u64(4);
    hand.fill(&mut deck, &mut rng, 0);
    hand.toggle(1);
    hand.toggle(4);
    hand.handle_message(&Reader::new(), &MessageBuffer { message: Some(Message::PlayHand) }, 20);
    // With two played: x = 75 / 2 + i * 160 / 2, at y = 90.
    let mut tx = Writer::new();
    let mut tx_buf = MessageBuffer::new();
    let m = MouseCompound::new(MouseState { x: 37, y: 90, left: false }, MouseState { x: 37, y: 90, left: false });
    hand.handle_input(&m, &mut tx, &mut tx_buf);
    assert_eq!(tx_buf.message, Some(Message::CardHovered(1)));
    let mut tx2 = Writer::new();
    let mut tx2_buf = MessageBuffer::new();
    let m2 = MouseCompound::new(MouseState { x: 117, y: 90, left: false }, MouseState { x: 117, y: 90, left: false });
    hand.handle_input(&m2, &mut tx2, &mut tx2_buf);
    assert_eq!(tx2_buf.message, Some(Message::CardHovered(4)));
}

#[test]
fn jokers_start_with_one() {
    let mut j = Jokers::new();
    j.update(3);
    let mut tx = Writer::new();
    let mut tx_buf = MessageBuffer::new();
    let m = MouseCompound::new(MouseState { x: 80, y: 44, left: false }, MouseState { x: 80, y: 44, left: false });
    j.handle_input(&m, &mut tx, &mut tx_buf);
    assert_eq!(tx_buf.message, Some(Message::CardHovered(0x100)));
    j.handle_message(&Reader::new(), &MessageBuffer { message: Some(Message::CardHovered(0x100)) }, 4);
}

#[test]
fn button_click() {
    let b = Button::new([30, 100], "Start", DrawIndex::Third, DrawIndex::Second, Message::Start);
    assert_eq!(b.get_shape(), [43, 11]);
    let inside = MouseCompound::new(MouseState { x: 40, y: 105, left: true }, MouseState { x: 40, y: 105, left: false });
    let mut tx = Writer::new();
    let mut tx_buf = MessageBuffer::new();
    b.handle_input(&inside, &mut tx, &mut tx_buf);
    assert_eq!(tx_buf.message, Some(Message::Start));
    let held = MouseCompound::new(MouseState { x: 40, y: 105, left: true }, MouseState { x: 40, y: 105, left: true });
    let mut tx2 = Writer::new();
    let mut tx2_buf = MessageBuffer::new();
    b.handle_input(&held, &mut tx2, &mut tx2_buf);
    assert_eq!(tx2_buf.message, None);
    let edge = MouseCompound::new(MouseState { x: 73, y: 105, left: true }, MouseState { x: 73, y: 105, left: false });
    let mut tx3 = Writer::new();
    let mut tx3_buf = MessageBuffer::new();
    b.handle_input(&edge, &mut tx3, &mut tx3_buf);
    assert_eq!(tx3_buf.message, None);
}

#[test]
fn scene_switching() {
    assert_eq!(scene_after(ActiveScene::Menu, Some(Message::Start)), (ActiveScene::Demo, true));
    assert_eq!(scene_after(ActiveScene::Menu, Some(Message::BackToGame)), (ActiveScene::Demo, false));
    assert_eq!(scene_after(ActiveScene::Menu, Some(Message::PlayHand)), (ActiveScene::Menu, false));
    assert_eq!(scene_after(ActiveScene::Demo, None), (ActiveScene::Demo, false));
}

#[test]
fn menu_ace() {
    let mut menu = Menu::new(0);
    menu.update(1);
    let mut tx = Writer::new();
    let mut tx_buf = MessageBuffer::new();
    let m = MouseCompound::new(MouseState { x: 35, y: 105, left: true }, MouseState { x: 35, y: 105, left: false });
    menu.handle_input(&m, &mut tx, &mut tx_buf);
    assert_eq!(tx_buf.message, Some(Message::Start));
    menu.handle_message(&Reader::new(), &MessageBuffer { message: Some(Message::CardHovered(0)) }, 2);
    assert_eq!(menu.ace.animation.as_ref().unwrap().start, 2);
}

#[test]
fn round_flow() {
    let e = Entropy::new();
    let mut demo = Demo::new(&e);
    assert_eq!(demo.state, DemoState::Init);
    demo.update(0, &e);
    assert_eq!(demo.state, DemoState::Idle);
    assert_eq!(demo.rem_hands, 4);
    assert_eq!(demo.rem_discards, 3);
    demo.hand.toggle(0);
    demo.handle_message(&Reader::new(), &MessageBuffer { message: Some(Message::DiscardHand) }, 1);
    assert_eq!(demo.rem_discards, 2);
    assert_eq!(demo.hand.selected_count(), 0);
    demo.handle_message(&Reader::new(), &MessageBuffer { message: Some(Message::DiscardHand) }, 2);
    assert_eq!(demo.rem_discards, 2);
    demo.hand.toggle(0);
    demo.handle_message(&Reader::new(), &MessageBuffer { message: Some(Message::PlayHand) }, 3);
    assert_eq!(demo.state, DemoState::InitPlay);
    assert_eq!(demo.rem_hands, 3);
    demo.update(4, &e);
    assert_eq!(demo.state, DemoState::Play(Score { points: 5, mult: 1 }));
    let mut tx = Writer::new();
    let mut tx_buf = MessageBuffer::new();
    let m = MouseCompound::new(MouseState { x: 130, y: 70, left: true }, MouseState { x: 130, y: 70, left: false });
    demo.handle_input(&m, &mut tx, &mut tx_buf);
    assert_eq!(tx_buf.message, None);
    assert!(matches!(demo.hand.played()[0], Card { .. }));
    let _ = CardData::Playing(c(Suit::Club, Rank::Two));
}

#[test]
fn defaults() {
    let h = HandState::default();
    assert_eq!(h.size, 8);
    assert_eq!(h.selected_count(), 0);
    assert!(h.played().is_empty());
    let j = Jokers::default();
    assert_eq!(j.size, 5);
    assert_eq!(blazen::hand::card_count(&j.jokers), 1);
    assert_eq!(blazen::hand::card_at(&j.jokers, 0).id(), 0x100);
}
