//! The draw pile: a bounded list of cards, built in order and shuffled.
use vstd::prelude::*;
use rand::seq::SliceRandom;
use rand::RngCore;
use crate::animation::{idle_for, NextAnimation};
use crate::card::{Card, DeckType, Rank, Suit};

verus! {

#[verifier::external_type_specification]
#[verifier::external_body]
pub struct ExSmallRng(rand::rngs::SmallRng);

/// What a bounded list of cards holds, bottom first.
pub uninterp spec fn card_list(v: heapless::Vec<Card, 256>) -> Seq<Card>;

/// Relies on heapless::Vec::new: an empty list.
#[verifier::external_body]
fn cards_new() -> (r: heapless::Vec<Card, 256>)
    ensures
        card_list(r) == Seq::<Card>::empty(),
{
    heapless::Vec::new()
}

/// Relies on heapless::Vec::push: appends while below the capacity of 256,
/// otherwise hands the card back and leaves the list as it was.
#[verifier::external_body]
fn cards_push(v: &mut heapless::Vec<Card, 256>, c: Card) -> (r: Result<(), Card>)
    ensures
        r is Ok <==> card_list(*old(v)).len() < 256,
        r is Ok ==> card_list(*final(v)) == card_list(*old(v)).push(c),
        r is Err ==> r->Err_0 == c && card_list(*final(v)) == card_list(*old(v)),
{
    v.push(c)
}

/// Relies on heapless::Vec::pop: removes and returns the last card, if any.
#[verifier::external_body]
fn cards_pop(v: &mut heapless::Vec<Card, 256>) -> (r: Option<Card>)
    ensures
        r is None <==> card_list(*old(v)).len() == 0,
        r is None ==> card_list(*final(v)) == card_list(*old(v)),
        r is Some ==> r == Some(card_list(*old(v)).last()) && card_list(*final(v)) == card_list(*old(v)).drop_last(),
{
    v.pop()
}

/// Relies on slice::get through heapless::Vec's dereference to a slice.
#[verifier::external_body]
fn cards_get(v: &heapless::Vec<Card, 256>, idx: usize) -> (r: Option<&Card>)
    ensures
        r is Some <==> idx < card_list(*v).len(),
        r is Some ==> *r->Some_0 == card_list(*v)[idx as int],
{
    v.get(idx)
}

/// Relies on rand's SliceRandom::shuffle, a Fisher-Yates pass of swaps: the
/// cards come back in some order, none lost and none added.
#[verifier::external_body]
fn cards_shuffle(v: &mut heapless::Vec<Card, 256>, rng: &mut rand::rngs::SmallRng)
    ensures
        card_list(*final(v)).to_multiset() == card_list(*old(v)).to_multiset(),
        card_list(*final(v)).len() == card_list(*old(v)).len(),
{
    v.shuffle(rng)
}

/// Relies on rand's RngCore::next_u32 for SmallRng: any `u32` may come back.
#[verifier::external_body]
pub(crate) fn draw_u32(rng: &mut rand::rngs::SmallRng) -> (r: u32) {
    rng.next_u32()
}

/// An idle animation picked by the generator.
pub fn random_idle(rng: &mut rand::rngs::SmallRng) -> (r: NextAnimation) {
    let n = draw_u32(rng);
    idle_for(n)
}

/// Whether `s` is the 52 cards, suit after suit (spade, heart, club,
/// diamond), each from two to ace, none enhanced.
pub open spec fn is_standard_deck(s: Seq<Card>) -> bool {
    &&& s.len() == 52
    &&& forall|i: int| 0 <= i < 52 ==> {
        &&& (#[trigger] s[i]).suit.spec_index() == i / 13
        &&& s[i].rank.spec_index() == i % 13
        &&& s[i].enhancement is None
    }
}

pub struct Deck {
    pub cards: heapless::Vec<Card, 256>,
    pub kind: DeckType,
}

impl Deck {
    pub open spec fn view(&self) -> Seq<Card> {
        card_list(self.cards)
    }

    /// The standard 52-card deck, unshuffled.
    pub fn new() -> (r: Deck)
        ensures
            is_standard_deck(r.view()),
            r.kind == DeckType::Default,
    {
        let mut cards = cards_new();
        let mut s: usize = 0;
        while s < 4
            invariant
                s <= 4,
                card_list(cards).len() == s * 13,
                forall|i: int| 0 <= i < s * 13 ==> {
                    &&& (#[trigger] card_list(cards)[i]).suit.spec_index() == i / 13
                    &&& card_list(cards)[i].rank.spec_index() == i % 13
                    &&& card_list(cards)[i].enhancement is None
                },
            decreases 4 - s,
        {
            let suit = Suit::from_index(s);
            let mut r: usize = 0;
            while r < 13
                invariant
                    s < 4,
                    r <= 13,
                    suit.spec_index() == s,
                    card_list(cards).len() == s * 13 + r,
                    forall|i: int| 0 <= i < s * 13 + r ==> {
                        &&& (#[trigger] card_list(cards)[i]).suit.spec_index() == i / 13
                        &&& card_list(cards)[i].rank.spec_index() == i % 13
                        &&& card_list(cards)[i].enhancement is None
                    },
                decreases 13 - r,
            {
                let ghost before = card_list(cards);
                let pushed = cards_push(&mut cards, Card::new(suit, Rank::from_index(r)));
                proof {
                    let k = s * 13 + r;
                    assert(k / 13 == s && k % 13 == r) by {
                        vstd::arithmetic::div_mod::lemma_fundamental_div_mod_converse(k as int, 13, s as int, r as int);
                    }
                    assert(card_list(cards) == before.push(Card { suit, rank: Rank::from_index_spec(r as nat), enhancement: None }));
                }
                r = r + 1;
            }
            s = s + 1;
        }
        Deck { cards, kind: DeckType::Default }
    }

    /// The card at position `idx` from the bottom, if there is one.
    pub fn get(&self, idx: usize) -> (r: Option<&Card>)
        ensures
            idx < self.view().len() ==> r == Some(&self.view()[idx as int]),
            idx >= self.view().len() ==> r is None,
    {
        cards_get(&self.cards, idx)
    }

    /// Takes the top card, if any.
    pub fn draw(&mut self) -> (r: Option<Card>)
        ensures
            old(self).view().len() == 0 ==> r is None && final(self).view() == old(self).view(),
            old(self).view().len() > 0 ==> r == Some(old(self).view().last()) && final(self).view() == old(self).view().drop_last(),
            final(self).kind == old(self).kind,
    {
        cards_pop(&mut self.cards)
    }

    /// Puts the cards in a random order: the same cards, in some order.
    pub fn shuffle(&mut self, rng: &mut rand::rngs::SmallRng)
        ensures
            final(self).view().to_multiset() == old(self).view().to_multiset(),
            final(self).view().len() == old(self).view().len(),
            final(self).kind == old(self).kind,
    {
        cards_shuffle(&mut self.cards, rng)
    }
}

} // verus!
