//! The cards in hand and the jokers: selection, layout and their animations.
use vstd::prelude::*;
use crate::animation::{AnimationState, NextAnimation};
use crate::card::{Card, CardData, CardState, Joker, JokerType};
use crate::poker::{match_poker, poker_flags};
use crate::deck::{draw_u32, random_idle, Deck};
use crate::linalg::ONE;
use crate::message::{Message, MessageBuffer, Reader, Writer};
use crate::transform::{Rotate, Transformation, Translate};
use crate::util::{Duration, MouseCompound};

verus! {

/// What a bounded row of cards holds, left to right.
pub uninterp spec fn card_row(v: heapless::Vec<CardState, 10>) -> Seq<CardState>;

/// What a bounded selection holds, in the order it was made.
pub uninterp spec fn selection(v: heapless::Vec<usize, 5>) -> Seq<usize>;

/// Relies on heapless::Vec::new: an empty row.
#[verifier::external_body]
fn row_new() -> (r: heapless::Vec<CardState, 10>)
    ensures
        card_row(r) == Seq::<CardState>::empty(),
{
    heapless::Vec::new()
}

/// Relies on heapless::Vec's dereference to a slice, whose `len` counts the
/// cards; a heapless vector never holds more than its capacity of 10.
#[verifier::external_body]
fn row_len(v: &heapless::Vec<CardState, 10>) -> (r: usize)
    ensures
        r == card_row(*v).len(),
        r <= 10,
{
    v.len()
}

/// Relies on heapless::Vec::push: appends while below the capacity of 10,
/// otherwise hands the card back and leaves the row as it was.
#[verifier::external_body]
fn row_push(v: &mut heapless::Vec<CardState, 10>, c: CardState) -> (r: Result<(), CardState>)
    ensures
        r is Ok <==> card_row(*old(v)).len() < 10,
        r is Ok ==> card_row(*final(v)) == card_row(*old(v)).push(c),
        r is Err ==> card_row(*final(v)) == card_row(*old(v)),
{
    v.push(c)
}

/// Relies on slice indexing through heapless::Vec's dereference.
#[verifier::external_body]
fn row_at(v: &heapless::Vec<CardState, 10>, i: usize) -> (r: &CardState)
    requires
        i < card_row(*v).len(),
    ensures
        *r == card_row(*v)[i as int],
{
    &v[i]
}

/// Relies on mutable slice indexing through heapless::Vec's dereference: the
/// card at `i` is lent out, and whatever it becomes is what the row holds there.
#[verifier::external_body]
fn row_at_mut(v: &mut heapless::Vec<CardState, 10>, i: usize) -> (r: &mut CardState)
    requires
        i < card_row(*old(v)).len(),
    ensures
        *r == card_row(*old(v))[i as int],
        card_row(*final(v)) == card_row(*old(v)).update(i as int, *final(r)),
{
    &mut v[i]
}

/// Relies on heapless::Vec::remove: takes out the card at `i`, keeping the
/// order of the others.
#[verifier::external_body]
fn row_remove(v: &mut heapless::Vec<CardState, 10>, i: usize) -> (r: CardState)
    requires
        i < card_row(*old(v)).len(),
    ensures
        r == card_row(*old(v))[i as int],
        card_row(*final(v)) == card_row(*old(v)).remove(i as int),
{
    v.remove(i)
}

/// Relies on heapless::Vec::new: an empty selection.
#[verifier::external_body]
fn selection_new() -> (r: heapless::Vec<usize, 5>)
    ensures
        selection(r) == Seq::<usize>::empty(),
{
    heapless::Vec::new()
}

/// Relies on heapless::Vec's dereference to a slice, whose `len` counts the
/// entries; a heapless vector never holds more than its capacity of 5.
#[verifier::external_body]
fn selection_len(v: &heapless::Vec<usize, 5>) -> (r: usize)
    ensures
        r == selection(*v).len(),
        r <= 5,
{
    v.len()
}

/// Relies on slice indexing through heapless::Vec's dereference.
#[verifier::external_body]
fn selection_at(v: &heapless::Vec<usize, 5>, i: usize) -> (r: usize)
    requires
        i < selection(*v).len(),
    ensures
        r == selection(*v)[i as int],
{
    v[i]
}

/// Relies on heapless::Vec::push: appends while below the capacity of 5,
/// otherwise leaves the selection as it was.
#[verifier::external_body]
fn selection_push(v: &mut heapless::Vec<usize, 5>, x: usize) -> (r: Result<(), usize>)
    ensures
        r is Ok <==> selection(*old(v)).len() < 5,
        r is Ok ==> selection(*final(v)) == selection(*old(v)).push(x),
        r is Err ==> selection(*final(v)) == selection(*old(v)),
{
    v.push(x)
}

/// Relies on heapless::Vec::remove: takes out the entry at `i`, keeping the
/// order of the others.
#[verifier::external_body]
fn selection_remove(v: &mut heapless::Vec<usize, 5>, i: usize) -> (r: usize)
    requires
        i < selection(*old(v)).len(),
    ensures
        r == selection(*old(v))[i as int],
        selection(*final(v)) == selection(*old(v)).remove(i as int),
{
    v.remove(i)
}

/// How many cards a row holds.
pub fn card_count(v: &heapless::Vec<CardState, 10>) -> (r: usize)
    ensures
        r == card_row(*v).len(),
{
    row_len(v)
}

/// The card at position `i` of a row.
pub fn card_at(v: &heapless::Vec<CardState, 10>, i: usize) -> (r: &CardState)
    requires
        i < card_row(*v).len(),
    ensures
        *r == card_row(*v)[i as int],
{
    row_at(v, i)
}

/// The first position of `x` in `s`, if any.
pub open spec fn first_index(s: Seq<usize>, x: usize) -> Option<int>
    decreases s.len(),
{
    if s.len() == 0 {
        None
    } else if s[0] == x {
        Some(0)
    } else {
        match first_index(s.drop_first(), x) {
            Some(i) => Some(i + 1),
            None => None,
        }
    }
}

/// The selection after clicking card `idx`: a selected card is unselected,
/// another one is added while fewer than five are selected.
pub open spec fn toggled(s: Seq<usize>, idx: usize) -> Seq<usize> {
    match first_index(s, idx) {
        Some(i) => s.remove(i),
        None => if s.len() < 5 { s.push(idx) } else { s },
    }
}

/// Where the card at position `i` of a hand of `size` rests.
pub open spec fn hand_slot(i: int, size: int) -> [i32; 2] {
    [(20 + i * size * 130 / 60) as i32, 140i32]
}

/// Where the `i`-th of `n` played cards goes.
pub open spec fn play_slot(i: int, n: int) -> [i32; 2] {
    [((75 as int) / n + i * 160 / n) as i32, 90i32]
}

/// A slide from `from` back to the card's own origin `to`.
pub open spec fn slide_from(from: [i32; 2], to: [i32; 2]) -> Transformation {
    Transformation::Translate(Translate {
        start: [((from[0] - to[0]) * ONE) as i64, ((from[1] - to[1]) * ONE) as i64],
        end: [0, 0],
    })
}

/// Frames a card takes to move to its slot in the hand.
pub const LAYOUT_FRAMES: u32 = 12;

/// Frames a selected card takes to rise.
pub const RAISE_FRAMES: u32 = 6;

/// How far a selected card stands above the others, in pixels.
pub const RAISE_HEIGHT: i64 = 10;

/// Cards a full hand holds.
pub const HAND_SIZE: usize = 8;

/// A slide whose offsets fit: `AnimationState::new` with one or two
/// transformations always succeeds.
fn single(op: Transformation, duration: Duration, next: Option<NextAnimation>, now: u32) -> (r: AnimationState)
    ensures
        r.ops() == seq![op],
        r.start == now,
        r.duration == duration,
        r.next == next,
{
    let ops = [op];
    match AnimationState::new(&ops, duration, next, now) {
        Some(a) => {
            assert(ops@ =~= seq![op]);
            a
        },
        None => vstd::pervasive::unreached(),
    }
}

fn slide(from: [i32; 2], to: [i32; 2]) -> (r: Transformation)
    ensures
        r == slide_from(from, to),
{
    let dx = (from[0] as i64 - to[0] as i64) * ONE;
    let dy = (from[1] as i64 - to[1] as i64) * ONE;
    Transformation::Translate(Translate::new([dx, dy], [0, 0]))
}

/// The cards in hand and which of them are selected (by position).
pub struct HandState {
    pub size: usize,
    pub cards: heapless::Vec<CardState, 10>,
    pub selected: heapless::Vec<usize, 5>,
}

impl HandState {
    pub open spec fn wf(&self) -> bool {
        &&& self.size <= 10
        &&& card_row(self.cards).len() <= self.size
    }

    /// An empty hand of eight.
    pub fn new() -> (r: HandState)
        ensures
            r.wf(),
            r.size == HAND_SIZE,
            card_row(r.cards).len() == 0,
            selection(r.selected).len() == 0,
    {
        HandState { size: HAND_SIZE, cards: row_new(), selected: selection_new() }
    }

    /// Selects card `idx`, or unselects it when it already is.
    pub fn toggle(&mut self, idx: usize)
        ensures
            selection(final(self).selected) == toggled(selection(old(self).selected), idx),
            card_row(final(self).cards) == card_row(old(self).cards),
            final(self).size == old(self).size,
    {
        let n = selection_len(&self.selected);
        let mut i: usize = 0;
        let ghost s = selection(self.selected);
        while i < n
            invariant
                n == s.len(),
                s == selection(self.selected),
                s == selection(old(self).selected),
                card_row(self.cards) == card_row(old(self).cards),
                self.size == old(self).size,
                i <= n,
                forall|j: int| 0 <= j < i ==> s[j] != idx,
            decreases n - i,
        {
            if selection_at(&self.selected, i) == idx {
                proof {
                    lemma_first_index_at(s, idx, i as int);
                }
                let _ = selection_remove(&mut self.selected, i);
                return;
            }
            i = i + 1;
        }
        proof {
            lemma_first_index_none(s, idx);
        }
        let _ = selection_push(&mut self.selected, idx);
    }

    /// Reacts to the frame's message at `now`: every card takes it; a click
    /// on a card toggles its selection; playing the hand lines the selected
    /// cards up in the play area.
    pub fn handle_message(&mut self, rx: &Reader, buf: &MessageBuffer, now: u32)
        requires
            old(self).wf(),
        ensures
            final(self).wf(),
            final(self).size == old(self).size,
            card_row(final(self).cards).len() == card_row(old(self).cards).len(),
            forall|k: int| 0 <= k < card_row(final(self).cards).len() ==> (#[trigger] card_row(final(self).cards)[k]).card == card_row(old(self).cards)[k].card,
            (buf.message matches Some(Message::CardClicked(i)) && i < 0xFF) ==> selection(final(self).selected) == toggled(selection(old(self).selected), buf.message->Some_0->CardClicked_0),
            !(buf.message matches Some(Message::CardClicked(i)) && i < 0xFF) ==> selection(final(self).selected) == selection(old(self).selected),
    {
        let n = row_len(&self.cards);
        let mut k: usize = 0;
        while k < n
            invariant
                self.wf(),
                self.size == old(self).size,
                n == card_row(self.cards).len(),
                n == card_row(old(self).cards).len(),
                k <= n,
                forall|j: int| 0 <= j < n ==> (#[trigger] card_row(self.cards)[j]).card == card_row(old(self).cards)[j].card,
                selection(self.selected) == selection(old(self).selected),
            decreases n - k,
        {
            let c = row_at_mut(&mut self.cards, k);
            c.handle_message(rx, buf, now);
            k = k + 1;
        }
        match rx.read(buf) {
            Some(Message::CardClicked(i)) => {
                if i < 0xFF {
                    self.toggle(i);
                }
            },
            Some(Message::PlayHand) => {
                self.play(now);
            },
            _ => {},
        }
    }

    /// Moves the selected cards to the play area, the `i`-th of `n` to
    /// `play_slot(i, n)`, each sliding in over `5 i` frames. A selected
    /// position with no card is passed over.
    pub fn play(&mut self, now: u32)
        requires
            old(self).wf(),
        ensures
            final(self).wf(),
            final(self).size == old(self).size,
            selection(final(self).selected) == selection(old(self).selected),
            card_row(final(self).cards).len() == card_row(old(self).cards).len(),
            forall|k: int| 0 <= k < card_row(final(self).cards).len() ==> (#[trigger] card_row(final(self).cards)[k]).card == card_row(old(self).cards)[k].card,
    {
        let n = selection_len(&self.selected);
        let len = row_len(&self.cards);
        let mut i: usize = 0;
        while i < n
            invariant
                self.wf(),
                self.size == old(self).size,
                n == selection(self.selected).len(),
                n <= 5,
                selection(self.selected) == selection(old(self).selected),
                len == card_row(self.cards).len(),
                len == card_row(old(self).cards).len(),
                i <= n,
                forall|j: int| 0 <= j < len ==> (#[trigger] card_row(self.cards)[j]).card == card_row(old(self).cards)[j].card,
            decreases n - i,
        {
            let idx = selection_at(&self.selected, i);
            if idx < len {
                let c = row_at_mut(&mut self.cards, idx);
                let old_origin = c.origin();
                let x = (15 * 5 / n + i * 32 * 5 / n) as i32;
                let to = [x, 90];
                c.set_origin(to);
                c.set_animation(single(slide(old_origin, to), Duration::from_frames(i as u32 * 5), None, now));
            }
            i = i + 1;
        }
    }

    /// Holds every selected card raised above the others, restarting at `now`.
    pub fn update(&mut self, now: u32)
        requires
            old(self).wf(),
        ensures
            final(self).wf(),
            final(self).size == old(self).size,
            selection(final(self).selected) == selection(old(self).selected),
            card_row(final(self).cards).len() == card_row(old(self).cards).len(),
            forall|k: int| 0 <= k < card_row(final(self).cards).len() ==> (#[trigger] card_row(final(self).cards)[k]).card == card_row(old(self).cards)[k].card,
    {
        let n = selection_len(&self.selected);
        let len = row_len(&self.cards);
        let mut i: usize = 0;
        while i < n
            invariant
                self.wf(),
                self.size == old(self).size,
                n == selection(self.selected).len(),
                selection(self.selected) == selection(old(self).selected),
                len == card_row(self.cards).len(),
                len == card_row(old(self).cards).len(),
                i <= n,
                forall|j: int| 0 <= j < len ==> (#[trigger] card_row(self.cards)[j]).card == card_row(old(self).cards)[j].card,
            decreases n - i,
        {
            let idx = selection_at(&self.selected, i);
            if idx < len {
                let c = row_at_mut(&mut self.cards, idx);
                let raise = Transformation::Translate(Translate::new([0, -RAISE_HEIGHT * ONE], [0, 0]));
                c.set_animation(single(raise, Duration::from_frames(RAISE_FRAMES), None, now));
            }
            i = i + 1;
        }
    }

    /// Per-tick upkeep of every card (see `CardState::update`).
    pub fn tick(&mut self, now: u32)
        requires
            old(self).wf(),
        ensures
            final(self).wf(),
            final(self).size == old(self).size,
            selection(final(self).selected) == selection(old(self).selected),
            card_row(final(self).cards).len() == card_row(old(self).cards).len(),
            forall|k: int| 0 <= k < card_row(final(self).cards).len() ==> (#[trigger] card_row(final(self).cards)[k]).card == card_row(old(self).cards)[k].card,
    {
        let len = row_len(&self.cards);
        let mut k: usize = 0;
        while k < len
            invariant
                self.wf(),
                self.size == old(self).size,
                selection(self.selected) == selection(old(self).selected),
                len == card_row(self.cards).len(),
                len == card_row(old(self).cards).len(),
                k <= len,
                forall|j: int| 0 <= j < len ==> (#[trigger] card_row(self.cards)[j]).card == card_row(old(self).cards)[j].card,
            decreases len - k,
        {
            let c = row_at_mut(&mut self.cards, k);
            c.update(now);
            k = k + 1;
        }
    }

    /// Mouse input for every card, rightmost first: the card on top of a
    /// pile speaks first.
    pub fn handle_input(&self, mouse: &MouseCompound, tx: &mut Writer, buf: &mut MessageBuffer)
        ensures
            old(tx).lock ==> *final(tx) == *old(tx) && *final(buf) == *old(buf),
    {
        let len = row_len(&self.cards);
        let mut k: usize = len;
        while k > 0
            invariant
                k <= len,
                len == card_row(self.cards).len(),
                old(tx).lock ==> *tx == *old(tx) && *buf == *old(buf),
            decreases k,
        {
            k = k - 1;
            row_at(&self.cards, k).handle_input(mouse, tx, buf);
        }
    }
}

/// A fresh card flies in from the deck at `(160, 80)` turning from 90°.
pub open spec fn deal_ops(slot: [i32; 2]) -> Seq<Transformation> {
    seq![
        slide_from([160i32, 80i32], slot),
        Transformation::Rotate(Rotate { start_angle: (90 * ONE) as i64, end_angle: 0 }),
    ]
}

/// Frames of the move of a card already in hand to its new slot.
pub open spec fn is_layout(c: CardState, from: [i32; 2], now: u32) -> bool {
    &&& c.animation is Some
    &&& c.animation->Some_0.ops() == seq![slide_from(from, c.origin)]
    &&& c.animation->Some_0.start == now
    &&& c.animation->Some_0.duration.0 == LAYOUT_FRAMES
    &&& c.animation->Some_0.next is Some
}

/// A card just dealt to its slot.
pub open spec fn is_dealt(c: CardState, now: u32) -> bool {
    &&& c.animation is Some
    &&& c.animation->Some_0.ops() == deal_ops(c.origin)
    &&& c.animation->Some_0.start == now
    &&& 10 <= c.animation->Some_0.duration.0 < 20
    &&& c.animation->Some_0.next is Some
}

impl HandState {
    /// Lays the hand out again and deals from the top of the deck until the
    /// hand is full or the deck is empty. Every card goes to its slot with
    /// its position as id; the cards already held slide there, the new ones
    /// fly in from the deck. Durations of dealing and the idles that follow
    /// are drawn from `rng`.
    pub fn fill(&mut self, deck: &mut Deck, rng: &mut rand::rngs::SmallRng, now: u32)
        requires
            old(self).wf(),
        ensures
            final(self).wf(),
            final(self).size == old(self).size,
            selection(final(self).selected) == selection(old(self).selected),
            final(deck).kind == old(deck).kind,
            ({
                let before = card_row(old(self).cards);
                let after = card_row(final(self).cards);
                let dealt = after.len() - before.len();
                &&& after.len() == (if before.len() + old(deck).view().len() < old(self).size {
                    before.len() + old(deck).view().len() as int
                } else {
                    old(self).size as int
                })
                &&& final(deck).view() == old(deck).view().subrange(0, old(deck).view().len() - dealt)
                &&& forall|k: int| 0 <= k < after.len() ==> (#[trigger] after[k]).id == k && after[k].origin == hand_slot(k, old(self).size as int)
                &&& forall|k: int| 0 <= k < before.len() ==> (#[trigger] after[k]).card == before[k].card && is_layout(after[k], before[k].origin, now)
                &&& forall|k: int| before.len() <= k < after.len() ==> (#[trigger] after[k]).card == CardData::Playing(old(deck).view()[old(deck).view().len() - 1 - (k - before.len())]) && is_dealt(after[k], now)
            }),
    {
        let size = self.size;
        let len = row_len(&self.cards);
        let ghost before = card_row(self.cards);
        let mut k: usize = 0;
        while k < len
            invariant
                self.wf(),
                self.size == size,
                size <= 10,
                len == before.len(),
                before == card_row(old(self).cards),
                len == card_row(self.cards).len(),
                selection(self.selected) == selection(old(self).selected),
                k <= len,
                forall|j: int| k <= j < len ==> #[trigger] card_row(self.cards)[j] == before[j],
                forall|j: int| 0 <= j < k ==> (#[trigger] card_row(self.cards)[j]).id == j
                    && card_row(self.cards)[j].origin == hand_slot(j, size as int)
                    && card_row(self.cards)[j].card == before[j].card
                    && is_layout(card_row(self.cards)[j], before[j].origin, now),
            decreases len - k,
        {
            let next = random_idle(rng);
            let c = row_at_mut(&mut self.cards, k);
            let from = c.origin();
            proof {
                assert(k * size * 130 <= 10 * 10 * 130) by (nonlinear_arith)
                    requires k <= 10, size <= 10;
            }
            let to = [(20 + k * size * 130 / 60) as i32, 140];
            assert(to =~= hand_slot(k as int, size as int));
            c.set_origin(to);
            c.set_animation(single(slide(from, to), Duration::from_frames(LAYOUT_FRAMES), Some(next), now));
            c.set_id(k);
            k = k + 1;
        }
        let ghost deck0 = deck.view();
        let mut more = true;
        while more && row_len(&self.cards) != size
            invariant
                self.wf(),
                self.size == size,
                size <= 10,
                len == before.len(),
                before == card_row(old(self).cards),
                deck0 == old(deck).view(),
                deck.kind == old(deck).kind,
                selection(self.selected) == selection(old(self).selected),
                len <= card_row(self.cards).len() <= size,
                card_row(self.cards).len() - len <= deck0.len(),
                deck.view() == deck0.subrange(0, deck0.len() - (card_row(self.cards).len() - len)),
                !more ==> deck.view().len() == 0,
                forall|j: int| 0 <= j < card_row(self.cards).len() ==> (#[trigger] card_row(self.cards)[j]).id == j
                    && card_row(self.cards)[j].origin == hand_slot(j, size as int),
                forall|j: int| 0 <= j < len ==> (#[trigger] card_row(self.cards)[j]).card == before[j].card
                    && is_layout(card_row(self.cards)[j], before[j].origin, now),
                forall|j: int| len <= j < card_row(self.cards).len() ==> (#[trigger] card_row(self.cards)[j]).card == CardData::Playing(deck0[deck0.len() - 1 - (j - len)])
                    && is_dealt(card_row(self.cards)[j], now),
            decreases size - card_row(self.cards).len() + (if more { 1int } else { 0int }),
        {
            let ghost d_before = deck.view();
            match deck.draw() {
                Some(card) => {
                    let pos = row_len(&self.cards);
                    proof {
                        assert(pos * size * 130 <= 10 * 10 * 130) by (nonlinear_arith)
                            requires pos <= 10, size <= 10;
                        let m = deck0.len() - (pos - len);
                        assert(d_before == deck0.subrange(0, m));
                        assert(d_before.len() > 0);
                        assert(deck.view() == d_before.drop_last());
                        assert(deck.view() =~= deck0.subrange(0, m - 1));
                        assert(card == d_before.last());
                        assert(card == deck0[deck0.len() - 1 - (pos - len)]);
                    }
                    let origin = [(20 + pos * size * 130 / 60) as i32, 140];
                    assert(origin =~= hand_slot(pos as int, size as int));
                    let frames = draw_u32(rng) % 10 + 10;
                    let next = random_idle(rng);
                    let ops = [
                        slide([160, 80], origin),
                        Transformation::Rotate(Rotate::new(90 * ONE, 0)),
                    ];
                    assert(ops@ =~= deal_ops(origin));
                    let anim = match AnimationState::new(&ops, Duration::from_frames(frames), Some(next), now) {
                        Some(a) => a,
                        None => vstd::pervasive::unreached(),
                    };
                    let ghost row_before = card_row(self.cards);
                    let pushed = row_push(&mut self.cards, CardState::new(pos, CardData::Playing(card), origin, Some(anim)));
                    proof {
                        assert(pushed is Ok);
                        assert(card_row(self.cards)[pos as int].card == CardData::Playing(deck0[deck0.len() - 1 - (pos - len)]));
                        assert forall|j: int| 0 <= j < pos implies #[trigger] card_row(self.cards)[j] == row_before[j] by {}
                    }
                },
                None => {
                    more = false;
                },
            }
        }
    }

    /// Drops every card whose id is selected and clears the selection.
    pub fn discard_selected(&mut self)
        requires
            old(self).wf(),
        ensures
            final(self).wf(),
            final(self).size == old(self).size,
            card_row(final(self).cards) == kept(card_row(old(self).cards), selection(old(self).selected)),
            selection(final(self).selected).len() == 0,
    {
        let len = row_len(&self.cards);
        let ghost row0 = card_row(self.cards);
        let ghost sel = selection(self.selected);
        let mut i: usize = len;
        while i > 0
            invariant
                self.wf(),
                self.size == old(self).size,
                row0 == card_row(old(self).cards),
                sel == selection(self.selected),
                sel == selection(old(self).selected),
                i <= len,
                len == row0.len(),
                card_row(self.cards) == row0.subrange(0, i as int) + kept(row0.subrange(i as int, len as int), sel),
            decreases i,
        {
            i = i - 1;
            let id = row_at(&self.cards, i).id();
            let drop = self.is_selected(id);
            proof {
                assert(row0.subrange(i as int, len as int).drop_first() =~= row0.subrange(i + 1, len as int));
                assert(card_row(self.cards)[i as int] == row0[i as int]);
            }
            if drop {
                let _ = row_remove(&mut self.cards, i);
                proof {
                    assert(card_row(self.cards) =~= row0.subrange(0, i as int) + kept(row0.subrange(i as int, len as int), sel));
                }
            } else {
                proof {
                    assert(row0.subrange(0, i + 1) + kept(row0.subrange(i + 1, len as int), sel) =~= row0.subrange(0, i as int) + kept(row0.subrange(i as int, len as int), sel));
                }
            }
        }
        proof {
            assert(row0.subrange(i as int, len as int) =~= row0);
            assert(row0.subrange(0, 0) + kept(row0, sel) =~= kept(row0, sel));
            lemma_kept_len(row0, sel);
        }
        self.selected = selection_new();
    }

    /// Whether the hand keeps its bounds: at most ten places, and no more
    /// cards than places.
    pub fn is_wf(&self) -> (r: bool)
        ensures
            r == self.wf(),
    {
        self.size <= 10 && row_len(&self.cards) <= self.size
    }

    /// How many cards are selected.
    pub fn selected_count(&self) -> (r: usize)
        ensures
            r == selection(self.selected).len(),
    {
        selection_len(&self.selected)
    }

    /// Whether `id` is among the selected positions.
    pub fn is_selected(&self, id: usize) -> (r: bool)
        ensures
            r == selection(self.selected).contains(id),
    {
        let n = selection_len(&self.selected);
        let mut i: usize = 0;
        while i < n
            invariant
                n == selection(self.selected).len(),
                i <= n,
                forall|j: int| 0 <= j < i ==> selection(self.selected)[j] != id,
            decreases n - i,
        {
            if selection_at(&self.selected, i) == id {
                return true;
            }
            i = i + 1;
        }
        false
    }
}

/// The playing cards at the selected positions, in the order selected; a
/// position with no card, or with a joker, adds nothing.
pub open spec fn played_spec(row: Seq<CardState>, sel: Seq<usize>) -> Seq<Card>
    decreases sel.len(),
{
    if sel.len() == 0 {
        Seq::empty()
    } else {
        let rest = played_spec(row, sel.drop_last());
        let i = sel.last() as int;
        if i < row.len() {
            match row[i].card {
                CardData::Playing(c) => rest.push(c),
                CardData::Joker(_) => rest,
            }
        } else {
            rest
        }
    }
}

impl HandState {
    pub open spec fn played_view(&self) -> Seq<Card> {
        played_spec(card_row(self.cards), selection(self.selected))
    }

    /// The selected playing cards, in the order selected.
    pub fn played(&self) -> (r: Vec<Card>)
        ensures
            r@ == self.played_view(),
    {
        let n = selection_len(&self.selected);
        let len = row_len(&self.cards);
        let mut out: Vec<Card> = Vec::new();
        let mut i: usize = 0;
        while i < n
            invariant
                n == selection(self.selected).len(),
                len == card_row(self.cards).len(),
                i <= n,
                out@ == played_spec(card_row(self.cards), selection(self.selected).subrange(0, i as int)),
            decreases n - i,
        {
            let idx = selection_at(&self.selected, i);
            proof {
                assert(selection(self.selected).subrange(0, i + 1).drop_last() =~= selection(self.selected).subrange(0, i as int));
            }
            if idx < len {
                match row_at(&self.cards, idx).card {
                    CardData::Playing(c) => out.push(c),
                    CardData::Joker(_) => {},
                }
            }
            i = i + 1;
        }
        proof {
            assert(selection(self.selected).subrange(0, n as int) =~= selection(self.selected));
        }
        out
    }

    /// The kinds the selected cards make (see `match_poker`).
    pub fn match_poker(&self) -> (r: u16)
        ensures
            r == poker_flags(self.played_view()),
    {
        let cards = self.played();
        match_poker(cards.as_slice())
    }
}

/// The playing cards of a row, in order; jokers are passed over.
pub open spec fn playing_cards(row: Seq<CardState>) -> Seq<Card>
    decreases row.len(),
{
    if row.len() == 0 {
        Seq::empty()
    } else {
        match row.last().card {
            CardData::Playing(c) => playing_cards(row.drop_last()).push(c),
            CardData::Joker(_) => playing_cards(row.drop_last()),
        }
    }
}

proof fn lemma_playing_cards_add(a: Seq<CardState>, b: Seq<CardState>)
    ensures
        playing_cards(a + b) == playing_cards(a) + playing_cards(b),
    decreases b.len(),
{
    if b.len() == 0 {
        assert(a + b =~= a);
        assert(playing_cards(a) + playing_cards(b) =~= playing_cards(a));
    } else {
        assert((a + b).drop_last() =~= a + b.drop_last());
        lemma_playing_cards_add(a, b.drop_last());
        match b.last().card {
            CardData::Playing(c) => {
                assert(playing_cards(a) + playing_cards(b.drop_last()).push(c) =~= (playing_cards(a) + playing_cards(b.drop_last())).push(c));
            },
            CardData::Joker(_) => {},
        }
    }
}

/// Rows that show the same cards position by position hold the same playing cards.
pub proof fn lemma_playing_cards_same(a: Seq<CardState>, b: Seq<CardState>)
    requires
        a.len() == b.len(),
        forall|k: int| 0 <= k < a.len() ==> (#[trigger] a[k]).card == b[k].card,
    ensures
        playing_cards(a) == playing_cards(b),
    decreases a.len(),
{
    if a.len() > 0 {
        lemma_playing_cards_same(a.drop_last(), b.drop_last());
    }
}

proof fn lemma_playing_cards_all(s: Seq<CardState>, t: Seq<Card>)
    requires
        s.len() == t.len(),
        forall|k: int| 0 <= k < s.len() ==> (#[trigger] s[k]).card == CardData::Playing(t[k]),
    ensures
        playing_cards(s) == t,
    decreases s.len(),
{
    if s.len() > 0 {
        lemma_playing_cards_all(s.drop_last(), t.drop_last());
        assert(t.drop_last().push(t.last()) =~= t);
    }
}

/// Dealing keeps the cards: what stays in the deck and the playing cards in
/// hand are, together, the old deck and the old hand.
pub proof fn lemma_deal_conserves(before: Seq<CardState>, after: Seq<CardState>, d: Seq<Card>, d2: Seq<Card>)
    requires
        before.len() <= after.len(),
        after.len() - before.len() <= d.len(),
        d2 == d.subrange(0, d.len() - (after.len() - before.len())),
        forall|k: int| 0 <= k < before.len() ==> (#[trigger] after[k]).card == before[k].card,
        forall|k: int| before.len() <= k < after.len() ==> (#[trigger] after[k]).card == CardData::Playing(d[d.len() - 1 - (k - before.len())]),
    ensures
        d2.to_multiset().add(playing_cards(after).to_multiset()) == d.to_multiset().add(playing_cards(before).to_multiset()),
{
    let b = before.len() as int;
    let n = after.len() - b;
    let l = d.len() as int;
    let top = d.subrange(l - n, l);
    assert(d =~= d2 + top);
    vstd::seq_lib::lemma_multiset_commutative(d2, top);
    let head = after.subrange(0, b);
    let tail = after.subrange(b, after.len() as int);
    assert(after =~= head + tail);
    lemma_playing_cards_add(head, tail);
    lemma_playing_cards_same(head, before);
    let rev = top.reverse();
    assert forall|k: int| 0 <= k < tail.len() implies (#[trigger] tail[k]).card == CardData::Playing(rev[k]) by {
        assert(after[b + k].card == CardData::Playing(d[l - 1 - k]));
    }
    lemma_playing_cards_all(tail, rev);
    top.lemma_reverse_to_multiset();
    vstd::seq_lib::lemma_multiset_commutative(playing_cards(before), rev);
    let m2 = d2.to_multiset();
    let mt = top.to_multiset();
    let mb = playing_cards(before).to_multiset();
    assert(m2.add(mb.add(mt)) =~= m2.add(mt).add(mb));
}

/// The cards whose id is not selected, in order.
pub open spec fn kept(s: Seq<CardState>, sel: Seq<usize>) -> Seq<CardState>
    decreases s.len(),
{
    if s.len() == 0 {
        s
    } else if sel.contains(s[0].id) {
        kept(s.drop_first(), sel)
    } else {
        seq![s[0]] + kept(s.drop_first(), sel)
    }
}

proof fn lemma_kept_len(s: Seq<CardState>, sel: Seq<usize>)
    ensures
        kept(s, sel).len() <= s.len(),
    decreases s.len(),
{
    if s.len() > 0 {
        lemma_kept_len(s.drop_first(), sel);
    }
}

impl Default for HandState {
    /// An empty hand of eight.
    fn default() -> (r: HandState)
        ensures
            r.wf(),
            r.size == HAND_SIZE,
            card_row(r.cards).len() == 0,
            selection(r.selected).len() == 0,
    {
        HandState::new()
    }
}

/// The jokers in play.
pub struct Jokers {
    pub size: usize,
    pub jokers: heapless::Vec<CardState, 10>,
}

/// Jokers' ids start here, above any position in the hand.
pub const JOKER_ID_BASE: usize = 0x100;

impl Jokers {
    /// One joker resting at `(80, 44)`, in room for five.
    pub fn new() -> (r: Jokers)
        ensures
            r.size == 5,
            card_row(r.jokers).len() == 1,
            card_row(r.jokers)[0].id == JOKER_ID_BASE,
            card_row(r.jokers)[0].card == CardData::Joker(Joker { kind: JokerType::Jimbo, proc_type: crate::card::ProcType::Normal }),
            card_row(r.jokers)[0].origin == [80i32, 44i32],
            card_row(r.jokers)[0].animation is None,
    {
        let mut jokers = row_new();
        let _ = row_push(&mut jokers, CardState::new(JOKER_ID_BASE, CardData::Joker(Joker::new(JokerType::Jimbo)), [80, 44], None));
        Jokers { size: 5, jokers }
    }

    /// Per-tick upkeep of every joker.
    pub fn update(&mut self, now: u32)
        ensures
            card_row(final(self).jokers).len() == card_row(old(self).jokers).len(),
    {
        let len = row_len(&self.jokers);
        let mut k: usize = 0;
        while k < len
            invariant
                len == card_row(self.jokers).len(),
                len == card_row(old(self).jokers).len(),
                k <= len,
            decreases len - k,
        {
            row_at_mut(&mut self.jokers, k).update(now);
            k = k + 1;
        }
    }

    /// Every joker takes the frame's message.
    pub fn handle_message(&mut self, rx: &Reader, buf: &MessageBuffer, now: u32)
        ensures
            card_row(final(self).jokers).len() == card_row(old(self).jokers).len(),
    {
        let len = row_len(&self.jokers);
        let mut k: usize = 0;
        while k < len
            invariant
                len == card_row(self.jokers).len(),
                len == card_row(old(self).jokers).len(),
                k <= len,
            decreases len - k,
        {
            row_at_mut(&mut self.jokers, k).handle_message(rx, buf, now);
            k = k + 1;
        }
    }

    /// Mouse input for every joker.
    pub fn handle_input(&self, mouse: &MouseCompound, tx: &mut Writer, buf: &mut MessageBuffer)
        ensures
            old(tx).lock ==> *final(tx) == *old(tx) && *final(buf) == *old(buf),
    {
        let len = row_len(&self.jokers);
        let mut k: usize = 0;
        while k < len
            invariant
                len == card_row(self.jokers).len(),
                k <= len,
                old(tx).lock ==> *tx == *old(tx) && *buf == *old(buf),
            decreases len - k,
        {
            row_at(&self.jokers, k).handle_input(mouse, tx, buf);
            k = k + 1;
        }
    }
}

impl Default for Jokers {
    /// One joker resting at `(80, 44)` (see `Jokers::new`).
    fn default() -> (r: Jokers)
        ensures
            r.size == 5,
            card_row(r.jokers).len() == 1,
            card_row(r.jokers)[0].id == JOKER_ID_BASE,
    {
        Jokers::new()
    }
}

proof fn lemma_first_index_at(s: Seq<usize>, x: usize, i: int)
    requires
        0 <= i < s.len(),
        s[i] == x,
        forall|j: int| 0 <= j < i ==> s[j] != x,
    ensures
        first_index(s, x) == Some(i),
    decreases i,
{
    if i > 0 {
        lemma_first_index_at(s.drop_first(), x, i - 1);
    }
}

proof fn lemma_first_index_none(s: Seq<usize>, x: usize)
    requires
        forall|j: int| 0 <= j < s.len() ==> s[j] != x,
    ensures
        first_index(s, x) is None,
    decreases s.len(),
{
    if s.len() > 0 {
        lemma_first_index_none(s.drop_first(), x);
    }
}

} // verus!
