//! The menu and the game scene: buttons, the state of a round, and which
//! scene is shown.
use vstd::prelude::*;
use crate::animation::{idle1, NextAnimation};
use crate::card::{Card, CardData, CardState, Rank, Suit};
use crate::deck::Deck;
use crate::gfx::DrawIndex;
use crate::hand::{card_row, lemma_deal_conserves, lemma_playing_cards_same, playing_cards, selection, HandState, Jokers};
use crate::message::{Message, MessageBuffer, Reader, Writer};
use crate::poker::{flags_score, lemma_flags_have_high_card, lemma_high_card_scores, poker_flags, Score};
use crate::util::{Entropy, MouseCompound};

verus! {

/// A clickable labelled rectangle that sends one message.
#[derive(Clone, Copy, Debug)]
pub struct Button {
    pub start: [i32; 2],
    pub text: &'static str,
    pub fill: DrawIndex,
    pub outline: DrawIndex,
    pub onclick: Message,
}

impl Button {
    pub fn new(start: [i32; 2], text: &'static str, fill: DrawIndex, outline: DrawIndex, onclick: Message) -> (r: Button)
        ensures
            r.start == start,
            r.text == text,
            r.fill == fill,
            r.outline == outline,
            r.onclick == onclick,
    {
        Button { start, text, fill, outline, onclick }
    }

    pub open spec fn shape_spec(&self) -> [u32; 2] {
        let n = self.text.len();
        [if n < 0x1000_0000 { (n * 8 + 3) as u32 } else { u32::MAX }, 11u32]
    }

    /// Width and height: eight pixels per byte of text plus three (held to
    /// `u32::MAX` for absurdly long labels), by eleven.
    pub fn get_shape(&self) -> (r: [u32; 2])
        ensures
            r == self.shape_spec(),
    {
        let n = self.text.len();
        let w = if n < 0x1000_0000 { (n * 8 + 3) as u32 } else { u32::MAX };
        let r = [w, 11];
        assert(r =~= self.shape_spec());
        r
    }

    /// Whether `(x, y)` lies strictly inside the button.
    pub open spec fn contains(&self, x: int, y: int) -> bool {
        let s = self.shape_spec();
        &&& self.start[0] < x < self.start[0] + s[0]
        &&& self.start[1] < y < self.start[1] + s[1]
    }

    /// A fresh click inside the button sends its message.
    pub fn handle_input(&self, mouse: &MouseCompound, tx: &mut Writer, buf: &mut MessageBuffer)
        ensures
            (mouse.clicked() && self.contains(mouse.current.x as int, mouse.current.y as int) && !old(tx).lock) ==> final(tx).lock && final(buf).message == Some(self.onclick),
            !(mouse.clicked() && self.contains(mouse.current.x as int, mouse.current.y as int)) ==> *final(tx) == *old(tx) && *final(buf) == *old(buf),
            old(tx).lock ==> *final(tx) == *old(tx) && *final(buf) == *old(buf),
    {
        let m = mouse.state();
        if !m.left || mouse.prev().left {
            return;
        }
        let shape = self.get_shape();
        let x = m.x as i64;
        let y = m.y as i64;
        let sx = self.start[0] as i64;
        let sy = self.start[1] as i64;
        if x > sx && x < sx + shape[0] as i64 && y > sy && y < sy + shape[1] as i64 {
            let _ = tx.write(buf, self.onclick);
        }
    }
}

/// The title screen: an ace of spades and a start button.
pub struct Menu {
    pub ace: CardState,
    pub start: Button,
}

impl Menu {
    pub fn new(now: u32) -> (r: Menu)
        ensures
            r.ace.card == CardData::Playing(Card { suit: Suit::Spade, rank: Rank::Ace, enhancement: None }),
            r.ace.origin == [80i32, 60i32],
            r.ace.animation is Some && r.ace.animation->Some_0.is_fresh(NextAnimation::Idle1, now),
            r.start.onclick == Message::Start,
    {
        Menu {
            ace: CardState::new(0, CardData::Playing(Card::new(Suit::Spade, Rank::Ace)), [80, 60], Some(idle1(now))),
            start: Button::new([30, 100], "Start", DrawIndex::Third, DrawIndex::Second, Message::Start),
        }
    }

    /// The ace pops when hovered (see `CardState::handle_message`).
    pub fn handle_message(&mut self, rx: &Reader, buf: &MessageBuffer, now: u32)
        ensures
            final(self).start == old(self).start,
            final(self).ace.card == old(self).ace.card,
            final(self).ace.origin == old(self).ace.origin,
    {
        self.ace.handle_message(rx, buf, now);
    }

    /// The ace, then the start button, take the mouse.
    pub fn handle_input(&self, mouse: &MouseCompound, tx: &mut Writer, buf: &mut MessageBuffer)
        ensures
            old(tx).lock ==> *final(tx) == *old(tx) && *final(buf) == *old(buf),
    {
        self.ace.handle_input(mouse, tx, buf);
        self.start.handle_input(mouse, tx, buf);
    }

    /// The ace keeps idling (see `CardState::update`).
    pub fn update(&mut self, now: u32)
        ensures
            final(self).start == old(self).start,
            final(self).ace.card == old(self).ace.card,
            final(self).ace.origin == old(self).ace.origin,
            final(self).ace.animation is Some,
    {
        self.ace.update(now);
    }
}

/// Where a round stands.
#[derive(Clone, Copy, Debug, PartialEq, Eq, Structural)]
pub enum DemoState {
    Init,
    Idle,
    InitPlay,
    Play(Score),
    HandEnd,
}

/// One round: the deck, the hand, the jokers, the buttons and the counters.
pub struct Demo {
    pub state: DemoState,
    pub rng: rand::rngs::SmallRng,
    pub deck: Deck,
    pub deck_button: Button,
    pub jokers: Jokers,
    pub hand: HandState,
    pub play_button: Button,
    pub discard_button: Button,
    pub target: u32,
    pub score: u32,
    pub max_hands: u8,
    pub rem_hands: u8,
    pub max_discards: u8,
    pub rem_discards: u8,
}

/// Relies on rand's SeedableRng::seed_from_u64 for SmallRng: a generator from
/// a 64-bit seed, on every target.
#[verifier::external_body]
fn rng_from_u64(seed: u64) -> (r: rand::rngs::SmallRng) {
    <rand::rngs::SmallRng as rand::SeedableRng>::seed_from_u64(seed)
}

/// The first `n` seed bytes, each the xor of entropy bytes `i` and `i + 8`,
/// read as a big-endian number.
pub open spec fn seed_value(e: Entropy, n: int) -> int
    decreases n,
{
    if n <= 0 {
        0
    } else {
        seed_value(e, n - 1) * 256 + (e.bytes[n - 1] ^ e.bytes[n + 7]) as int
    }
}

/// The 64-bit seed folded from the sixteen entropy bytes.
pub fn seed_of(e: &Entropy) -> (r: u64)
    ensures
        r == seed_value(*e, 8),
{
    let mut seed: u64 = 0;
    let mut i: usize = 0;
    proof {
        vstd::arithmetic::power2::lemma2_to64();
    }
    while i < 8
        invariant
            i <= 8,
            seed == seed_value(*e, i as int),
            seed < vstd::arithmetic::power2::pow2(8 * i as nat),
        decreases 8 - i,
    {
        let b = e.bytes[i] ^ e.bytes[i + 8];
        proof {
            vstd::arithmetic::power2::lemma_pow2_adds(8 * i as nat, 8);
            vstd::arithmetic::power2::lemma2_to64();
            vstd::arithmetic::power2::lemma_pow2_strictly_increases(8 * i as nat, 64);
            assert(seed * 256 + b < vstd::arithmetic::power2::pow2(8 * i as nat) * 256) by (nonlinear_arith)
                requires seed < vstd::arithmetic::power2::pow2(8 * i as nat), b < 256;
            if i < 7 {
                vstd::arithmetic::power2::lemma_pow2_strictly_increases(8 * (i + 1) as nat, 64);
            }
        }
        seed = seed * 256 + b as u64;
        i = i + 1;
    }
    seed
}

impl Demo {
    pub open spec fn wf(&self) -> bool {
        self.hand.wf()
    }

    /// A round about to start: a fresh deck, one joker, four hands and three
    /// discards to come, and a target of 400.
    pub fn new(entropy: &Entropy) -> (r: Demo)
        ensures
            r.wf(),
            r.state == DemoState::Init,
            r.target == 400,
            r.score == 0,
            r.max_hands == 4,
            r.max_discards == 3,
            r.rem_hands == 0,
            r.rem_discards == 0,
            card_row(r.hand.cards).len() == 0,
    {
        Demo {
            state: DemoState::Init,
            rng: rng_from_u64(seed_of(entropy)),
            deck: Deck::new(),
            deck_button: Button::new([125, 104], "Deck", DrawIndex::First, DrawIndex::Fourth, Message::DeckClicked),
            jokers: Jokers::new(),
            hand: HandState::new(),
            play_button: Button::new([125, 68], "Play", DrawIndex::Third, DrawIndex::Second, Message::PlayHand),
            discard_button: Button::new([0, 68], "Discard", DrawIndex::Second, DrawIndex::Third, Message::DiscardHand),
            target: 400,
            score: 0,
            max_hands: 4,
            rem_hands: 0,
            max_discards: 3,
            rem_discards: 0,
        }
    }

    pub fn get_deck(&self) -> (r: &Deck)
        ensures
            *r == self.deck,
    {
        &self.deck
    }

    /// One tick at frame `now`. At the start of a round the generator is
    /// seeded from `entropy`, the deck shuffled and the hand dealt, and the
    /// counters reset; while idle the selected cards stay raised; a hand
    /// being played is scored. Then every card and joker ticks.
    pub fn update(&mut self, now: u32, entropy: &Entropy)
        requires
            old(self).wf(),
        ensures
            final(self).wf(),
            old(self).state == DemoState::Init ==> final(self).state == DemoState::Idle
                && final(self).rem_hands == old(self).max_hands
                && final(self).rem_discards == old(self).max_discards
                && card_row(final(self).hand.cards).len() == (if card_row(old(self).hand.cards).len() + old(self).deck.view().len() < old(self).hand.size {
                    card_row(old(self).hand.cards).len() + old(self).deck.view().len() as int
                } else {
                    old(self).hand.size as int
                })
                && final(self).deck.view().to_multiset().add(playing_cards(card_row(final(self).hand.cards)).to_multiset())
                    == old(self).deck.view().to_multiset().add(playing_cards(card_row(old(self).hand.cards)).to_multiset()),
            old(self).state == DemoState::InitPlay ==> final(self).state == DemoState::Play(flags_score(poker_flags(old(self).hand.played_view()))->Some_0),
            (old(self).state != DemoState::Init && old(self).state != DemoState::InitPlay) ==> final(self).state == old(self).state,
    {
        let ghost row0 = card_row(self.hand.cards);
        let ghost deck0 = self.deck.view();
        match self.state {
            DemoState::Init => {
                self.rng = rng_from_u64(seed_of(entropy));
                self.deck.shuffle(&mut self.rng);
                let ghost deck1 = self.deck.view();
                self.hand.fill(&mut self.deck, &mut self.rng, now);
                proof {
                    lemma_deal_conserves(row0, card_row(self.hand.cards), deck1, self.deck.view());
                }
                self.state = DemoState::Idle;
                self.rem_discards = self.max_discards;
                self.rem_hands = self.max_hands;
            },
            DemoState::Idle => {
                self.hand.update(now);
            },
            DemoState::InitPlay => {
                let flags = self.hand.match_poker();
                proof {
                    lemma_flags_have_high_card(self.hand.played_view());
                    lemma_high_card_scores(flags);
                }
                match Score::from_flags(flags) {
                    Some(score) => self.state = DemoState::Play(score),
                    None => vstd::pervasive::unreached(),
                }
            },
            _ => {},
        }
        let ghost row1 = card_row(self.hand.cards);
        self.hand.tick(now);
        proof {
            lemma_playing_cards_same(card_row(self.hand.cards), row1);
        }
        self.jokers.update(now);
    }
}

impl Demo {
    /// Mouse input, except while a hand is being scored: the cards, the
    /// jokers, then the deck, play and discard buttons.
    pub fn handle_input(&self, mouse: &MouseCompound, tx: &mut Writer, buf: &mut MessageBuffer)
        ensures
            self.state is Play ==> *final(tx) == *old(tx) && *final(buf) == *old(buf),
            old(tx).lock ==> *final(tx) == *old(tx) && *final(buf) == *old(buf),
    {
        if let DemoState::Play(_) = self.state {
            return;
        }
        self.hand.handle_input(mouse, tx, buf);
        self.jokers.handle_input(mouse, tx, buf);
        self.deck_button.handle_input(mouse, tx, buf);
        self.play_button.handle_input(mouse, tx, buf);
        self.discard_button.handle_input(mouse, tx, buf);
    }

    /// Reacts to the frame's message at `now`. The hand and the jokers take
    /// it first. While idle, playing the hand (with a hand left to play)
    /// starts scoring it and uses up a hand; discarding (with a discard left
    /// and some card selected) uses up a discard, drops the selected cards
    /// and deals again.
    pub fn handle_message(&mut self, rx: &Reader, buf: &MessageBuffer, now: u32)
        requires
            old(self).wf(),
        ensures
            final(self).wf(),
            (old(self).state == DemoState::Idle && buf.message == Some(Message::PlayHand) && old(self).rem_hands > 0) ==> final(self).state == DemoState::InitPlay && final(self).rem_hands == old(self).rem_hands - 1,
            !(old(self).state == DemoState::Idle && buf.message == Some(Message::PlayHand) && old(self).rem_hands > 0) ==> final(self).state == old(self).state && final(self).rem_hands == old(self).rem_hands,
            (old(self).state == DemoState::Idle && buf.message == Some(Message::DiscardHand) && old(self).rem_discards > 0 && selection(old(self).hand.selected).len() > 0) ==> final(self).rem_discards == old(self).rem_discards - 1 && selection(final(self).hand.selected).len() == 0,
            !(old(self).state == DemoState::Idle && buf.message == Some(Message::DiscardHand) && old(self).rem_discards > 0 && selection(old(self).hand.selected).len() > 0) ==> final(self).rem_discards == old(self).rem_discards,
    {
        self.hand.handle_message(rx, buf, now);
        self.jokers.handle_message(rx, buf, now);
        if let DemoState::Idle = self.state {
            match rx.read(buf) {
                Some(Message::PlayHand) => {
                    if self.rem_hands > 0 {
                        self.state = DemoState::InitPlay;
                        self.rem_hands = self.rem_hands - 1;
                    }
                },
                Some(Message::DiscardHand) => {
                    if self.rem_discards > 0 && self.hand.selected_count() > 0 {
                        self.rem_discards = self.rem_discards - 1;
                        self.hand.discard_selected();
                        self.hand.fill(&mut self.deck, &mut self.rng, now);
                    }
                },
                _ => {},
            }
        }
    }
}

/// The scene on screen.
#[derive(Clone, Copy, Debug, PartialEq, Eq, Structural)]
pub enum ActiveScene {
    Menu,
    Demo,
}

/// The scene after the frame's message, and whether a new round starts:
/// start begins a new round, back-to-game returns to the round, anything
/// else keeps the scene.
pub fn scene_after(current: ActiveScene, msg: Option<Message>) -> (r: (ActiveScene, bool))
    ensures
        msg == Some(Message::Start) ==> r == (ActiveScene::Demo, true),
        msg == Some(Message::BackToGame) ==> r == (ActiveScene::Demo, false),
        (msg != Some(Message::Start) && msg != Some(Message::BackToGame)) ==> r == (current, false),
{
    match msg {
        Some(Message::Start) => (ActiveScene::Demo, true),
        Some(Message::BackToGame) => (ActiveScene::Demo, false),
        _ => (current, false),
    }
}

} // verus!
