//! Poker hand kinds and their base scores.
use vstd::prelude::*;

verus! {

/// Hand kinds, weakest first.
#[derive(Clone, Copy, Debug, PartialEq, Eq, Structural)]
pub enum PokerHand {
    HighCard,
    Pair,
    TwoPair,
    Three,
    Straight,
    Flush,
    FullHouse,
    Four,
    Five,
}

impl PokerHand {
    /// Position from high card (0) up to five of a kind (8).
    pub open spec fn spec_index(self) -> nat {
        match self {
            PokerHand::HighCard => 0,
            PokerHand::Pair => 1,
            PokerHand::TwoPair => 2,
            PokerHand::Three => 3,
            PokerHand::Straight => 4,
            PokerHand::Flush => 5,
            PokerHand::FullHouse => 6,
            PokerHand::Four => 7,
            PokerHand::Five => 8,
        }
    }

    pub open spec fn spec_min_cards(self) -> usize {
        match self {
            PokerHand::HighCard => 1,
            PokerHand::Pair => 2,
            PokerHand::Three => 3,
            PokerHand::TwoPair | PokerHand::Four => 4,
            _ => 5,
        }
    }

    /// The fewest cards that can make the hand.
    pub fn min_cards(&self) -> (r: usize)
        ensures
            r == self.spec_min_cards(),
    {
        match self {
            PokerHand::HighCard => 1,
            PokerHand::Pair => 2,
            PokerHand::Three => 3,
            PokerHand::TwoPair | PokerHand::Four => 4,
            PokerHand::Straight | PokerHand::Flush | PokerHand::FullHouse | PokerHand::Five => 5,
        }
    }

    /// The flag bit of this kind in a set of kinds.
    pub fn bit(&self) -> (r: u16)
        ensures
            r == 1u16 << (self.spec_index() as u16),
    {
        proof {
            lemma_flag_bits();
        }
        match self {
            PokerHand::HighCard => 1,
            PokerHand::Pair => 2,
            PokerHand::TwoPair => 4,
            PokerHand::Three => 8,
            PokerHand::Straight => 16,
            PokerHand::Flush => 32,
            PokerHand::FullHouse => 64,
            PokerHand::Four => 128,
            PokerHand::Five => 256,
        }
    }
}

proof fn lemma_flag_bits()
    ensures
        1u16 << 0u16 == 1,
        1u16 << 1u16 == 2,
        1u16 << 2u16 == 4,
        1u16 << 3u16 == 8,
        1u16 << 4u16 == 16,
        1u16 << 5u16 == 32,
        1u16 << 6u16 == 64,
        1u16 << 7u16 == 128,
        1u16 << 8u16 == 256,
{
    assert(1u16 << 0u16 == 1) by (bit_vector);
    assert(1u16 << 1u16 == 2) by (bit_vector);
    assert(1u16 << 2u16 == 4) by (bit_vector);
    assert(1u16 << 3u16 == 8) by (bit_vector);
    assert(1u16 << 4u16 == 16) by (bit_vector);
    assert(1u16 << 5u16 == 32) by (bit_vector);
    assert(1u16 << 6u16 == 64) by (bit_vector);
    assert(1u16 << 7u16 == 128) by (bit_vector);
    assert(1u16 << 8u16 == 256) by (bit_vector);
}

/// Base points and multiplier.
#[derive(Clone, Copy, Debug, PartialEq, Eq, Structural)]
pub struct Score {
    pub points: u32,
    pub mult: u32,
}

pub open spec fn hand_score(h: PokerHand) -> Score {
    match h {
        PokerHand::HighCard => Score { points: 5, mult: 1 },
        PokerHand::Pair => Score { points: 10, mult: 2 },
        PokerHand::TwoPair => Score { points: 20, mult: 2 },
        PokerHand::Three => Score { points: 30, mult: 3 },
        PokerHand::Straight => Score { points: 30, mult: 4 },
        PokerHand::Flush => Score { points: 35, mult: 4 },
        PokerHand::FullHouse => Score { points: 40, mult: 4 },
        PokerHand::Four => Score { points: 60, mult: 7 },
        PokerHand::Five => Score { points: 120, mult: 12 },
    }
}

pub open spec fn has_kind(flags: u16, i: nat) -> bool {
    flags & (1u16 << (i as u16)) != 0
}

/// Index of the strongest kind set in `flags` below position `n`.
pub open spec fn strongest_below(flags: u16, n: nat) -> Option<nat>
    decreases n,
{
    if n == 0 {
        None
    } else if has_kind(flags, (n - 1) as nat) {
        Some((n - 1) as nat)
    } else {
        strongest_below(flags, (n - 1) as nat)
    }
}

pub open spec fn kind_at(i: nat) -> PokerHand {
    if i == 0 { PokerHand::HighCard }
    else if i == 1 { PokerHand::Pair }
    else if i == 2 { PokerHand::TwoPair }
    else if i == 3 { PokerHand::Three }
    else if i == 4 { PokerHand::Straight }
    else if i == 5 { PokerHand::Flush }
    else if i == 6 { PokerHand::FullHouse }
    else if i == 7 { PokerHand::Four }
    else { PokerHand::Five }
}

/// The score of a set of matched kinds: the flush combinations first
/// (straight flush, flush house, flush five), else the strongest kind set.
pub open spec fn flags_score(flags: u16) -> Option<Score> {
    if has_kind(flags, 5) && has_kind(flags, 4) {
        Some(Score { points: 100, mult: 8 })
    } else if has_kind(flags, 5) && has_kind(flags, 6) {
        Some(Score { points: 140, mult: 14 })
    } else if has_kind(flags, 5) && has_kind(flags, 8) {
        Some(Score { points: 160, mult: 16 })
    } else {
        match strongest_below(flags, 9) {
            Some(i) => Some(hand_score(kind_at(i))),
            None => None,
        }
    }
}

fn kind_from_index(i: usize) -> (r: PokerHand)
    requires
        i < 9,
    ensures
        r == kind_at(i as nat),
        r.spec_index() == i,
{
    if i == 0 { PokerHand::HighCard }
    else if i == 1 { PokerHand::Pair }
    else if i == 2 { PokerHand::TwoPair }
    else if i == 3 { PokerHand::Three }
    else if i == 4 { PokerHand::Straight }
    else if i == 5 { PokerHand::Flush }
    else if i == 6 { PokerHand::FullHouse }
    else if i == 7 { PokerHand::Four }
    else { PokerHand::Five }
}

impl Score {
    /// The base score of one hand kind.
    pub fn from_hand(h: PokerHand) -> (r: Score)
        ensures
            r == hand_score(h),
    {
        match h {
            PokerHand::HighCard => Score { points: 5, mult: 1 },
            PokerHand::Pair => Score { points: 10, mult: 2 },
            PokerHand::TwoPair => Score { points: 20, mult: 2 },
            PokerHand::Three => Score { points: 30, mult: 3 },
            PokerHand::Straight => Score { points: 30, mult: 4 },
            PokerHand::Flush => Score { points: 35, mult: 4 },
            PokerHand::FullHouse => Score { points: 40, mult: 4 },
            PokerHand::Four => Score { points: 60, mult: 7 },
            PokerHand::Five => Score { points: 120, mult: 12 },
        }
    }

    /// The score of a set of matched kinds (bit `i` for the kind at position
    /// `i`); `None` when no kind is set.
    pub fn from_flags(flags: u16) -> (r: Option<Score>)
        ensures
            r == flags_score(flags),
    {
        let flush = flags & (1u16 << 5u16) != 0;
        assert(has_kind(flags, 5) == flush);
        assert(has_kind(flags, 4) == (flags & (1u16 << 4u16) != 0));
        assert(has_kind(flags, 6) == (flags & (1u16 << 6u16) != 0));
        assert(has_kind(flags, 8) == (flags & (1u16 << 8u16) != 0));
        if flush && flags & (1u16 << 4u16) != 0 {
            return Some(Score { points: 100, mult: 8 });
        }
        if flush && flags & (1u16 << 6u16) != 0 {
            return Some(Score { points: 140, mult: 14 });
        }
        if flush && flags & (1u16 << 8u16) != 0 {
            return Some(Score { points: 160, mult: 16 });
        }
        let mut n: usize = 9;
        while n > 0
            invariant
                n <= 9,
                strongest_below(flags, 9) == strongest_below(flags, n as nat),
                !(has_kind(flags, 5) && has_kind(flags, 4)),
                !(has_kind(flags, 5) && has_kind(flags, 6)),
                !(has_kind(flags, 5) && has_kind(flags, 8)),
            decreases n,
        {
            let i = n - 1;
            assert(has_kind(flags, i as nat) == (flags & (1u16 << (i as u16)) != 0));
            if flags & (1u16 << (i as u16)) != 0 {
                assert(strongest_below(flags, n as nat) == Some(i as nat));
                return Some(Score::from_hand(kind_from_index(i)));
            }
            n = i;
        }
        None
    }
}

} // verus!

verus! {

use crate::card::{Card, Suit};

/// How many of the cards have the rank at position `r`.
pub open spec fn count_rank(cards: Seq<Card>, r: int) -> nat
    decreases cards.len(),
{
    if cards.len() == 0 {
        0
    } else {
        count_rank(cards.drop_last(), r) + (if cards.last().rank.spec_index() == r { 1nat } else { 0nat })
    }
}

/// How many of the ranks below position `upto` occur exactly `k` times.
pub open spec fn ranks_with(cards: Seq<Card>, k: nat, upto: int) -> nat
    decreases upto,
{
    if upto <= 0 {
        0
    } else {
        ranks_with(cards, k, upto - 1) + (if count_rank(cards, upto - 1) == k { 1nat } else { 0nat })
    }
}

/// The kind of a set of cards by how often their ranks repeat.
pub open spec fn group_kind(cards: Seq<Card>) -> PokerHand {
    if ranks_with(cards, 5, 13) > 0 {
        PokerHand::Five
    } else if ranks_with(cards, 4, 13) > 0 {
        PokerHand::Four
    } else if ranks_with(cards, 3, 13) > 0 && ranks_with(cards, 2, 13) > 0 {
        PokerHand::FullHouse
    } else if ranks_with(cards, 3, 13) > 0 {
        PokerHand::Three
    } else if ranks_with(cards, 2, 13) >= 2 {
        PokerHand::TwoPair
    } else if ranks_with(cards, 2, 13) == 1 {
        PokerHand::Pair
    } else {
        PokerHand::HighCard
    }
}

/// Five cards of one suit.
pub open spec fn is_flush(cards: Seq<Card>) -> bool {
    cards.len() == 5 && forall|i: int| 0 <= i < 5 ==> #[trigger] cards[i].suit == cards[0].suit
}

/// Five cards of five consecutive ranks.
pub open spec fn is_straight(cards: Seq<Card>) -> bool {
    cards.len() == 5 && exists|lo: int| 0 <= lo <= 8 && #[trigger] run_at(cards, lo)
}

/// Each of the five ranks from position `lo` occurs once.
pub open spec fn run_at(cards: Seq<Card>, lo: int) -> bool {
    forall|r: int| lo <= r < lo + 5 ==> #[trigger] count_rank(cards, r) == 1
}

/// The kinds a set of played cards makes: always high card, the kind of its
/// repeated ranks, and for five cards flush and straight.
pub open spec fn poker_flags(cards: Seq<Card>) -> u16 {
    (1u16 | (1u16 << (group_kind(cards).spec_index() as u16))
        | (if is_flush(cards) { 32u16 } else { 0u16 })
        | (if is_straight(cards) { 16u16 } else { 0u16 })) as u16
}

/// The kinds the played cards make, as a set of flags (bit `i` for the kind
/// at position `i`).
pub fn match_poker(cards: &[Card]) -> (r: u16)
    ensures
        r == poker_flags(cards@),
{
    let mut counts = [0usize; 13];
    let mut i: usize = 0;
    while i < cards.len()
        invariant
            i <= cards@.len(),
            forall|r: int| 0 <= r < 13 ==> #[trigger] counts[r] == count_rank(cards@.subrange(0, i as int), r),
            forall|r: int| 0 <= r < 13 ==> counts[r] <= i,
        decreases cards@.len() - i,
    {
        let k = cards[i].rank.index();
        proof {
            assert(cards@.subrange(0, i + 1).drop_last() =~= cards@.subrange(0, i as int));
        }
        counts[k] = counts[k] + 1;
        i = i + 1;
    }
    proof {
        assert(cards@.subrange(0, cards@.len() as int) =~= cards@);
    }
    let n5 = ranks_with_exec(&counts, 5, Ghost(cards@));
    let n4 = ranks_with_exec(&counts, 4, Ghost(cards@));
    let n3 = ranks_with_exec(&counts, 3, Ghost(cards@));
    let n2 = ranks_with_exec(&counts, 2, Ghost(cards@));
    let kind = if n5 > 0 {
        PokerHand::Five
    } else if n4 > 0 {
        PokerHand::Four
    } else if n3 > 0 && n2 > 0 {
        PokerHand::FullHouse
    } else if n3 > 0 {
        PokerHand::Three
    } else if n2 >= 2 {
        PokerHand::TwoPair
    } else if n2 == 1 {
        PokerHand::Pair
    } else {
        PokerHand::HighCard
    };
    let b = kind.bit();
    let mut flags: u16 = 1 | b;
    let mut flush = false;
    let mut straight = false;
    if cards.len() == 5 {
        flush = true;
        let mut j: usize = 0;
        while j < 5
            invariant
                cards@.len() == 5,
                j <= 5,
                flush == forall|m: int| 0 <= m < j ==> #[trigger] cards@[m].suit == cards@[0].suit,
            decreases 5 - j,
        {
            if !same_suit(cards[j].suit, cards[0].suit) {
                flush = false;
            }
            j = j + 1;
        }
        let mut lo: usize = 0;
        while lo <= 8
            invariant
                cards@.len() == 5,
                lo <= 9,
                forall|r: int| 0 <= r < 13 ==> #[trigger] counts[r] == count_rank(cards@, r),
                straight == exists|l: int| 0 <= l < lo && #[trigger] run_at(cards@, l),
            decreases 9 - lo,
        {
            let mut run = true;
            let mut r: usize = lo;
            while r < lo + 5
                invariant
                    lo <= 8,
                    lo <= r <= lo + 5,
                    forall|q: int| 0 <= q < 13 ==> #[trigger] counts[q] == count_rank(cards@, q),
                    run == forall|q: int| lo <= q < r ==> #[trigger] count_rank(cards@, q) == 1,
                decreases lo + 5 - r,
            {
                if counts[r] != 1 {
                    run = false;
                }
                r = r + 1;
            }
            assert(run == run_at(cards@, lo as int));
            if run {
                straight = true;
            }
            lo = lo + 1;
        }
    }
    let f: u16 = if flush { 32 } else { 0 };
    let s: u16 = if straight { 16 } else { 0 };
    if flush {
        flags = flags | 32;
    }
    if straight {
        flags = flags | 16;
    }
    assert(flags == (1u16 | b | f | s) as u16) by (bit_vector)
        requires
            f == (if flush { 32u16 } else { 0u16 }),
            s == (if straight { 16u16 } else { 0u16 }),
            flags == (if straight { (if flush { (1u16 | b) | 32u16 } else { 1u16 | b }) | 16u16 } else { if flush { (1u16 | b) | 32u16 } else { 1u16 | b } });
    proof {
        assert(is_flush(cards@) == flush);
        assert(is_straight(cards@) == straight);
        assert(kind == group_kind(cards@));
    }
    flags
}

/// A set of kinds that holds high card always has a score.
pub proof fn lemma_high_card_scores(flags: u16)
    requires
        has_kind(flags, 0),
    ensures
        flags_score(flags) is Some,
{
    lemma_strongest_found(flags, 9);
}

proof fn lemma_strongest_found(flags: u16, n: nat)
    requires
        has_kind(flags, 0),
        n >= 1,
    ensures
        strongest_below(flags, n) is Some,
    decreases n,
{
    if n > 1 && !has_kind(flags, (n - 1) as nat) {
        lemma_strongest_found(flags, (n - 1) as nat);
    }
}

/// Every set of played cards matches at least high card.
pub proof fn lemma_flags_have_high_card(cards: Seq<Card>)
    ensures
        has_kind(poker_flags(cards), 0),
{
    let g = group_kind(cards).spec_index() as u16;
    let f: u16 = if is_flush(cards) { 32u16 } else { 0u16 };
    let s: u16 = if is_straight(cards) { 16u16 } else { 0u16 };
    assert(((1u16 | (1u16 << g) | f | s) as u16) & (1u16 << 0u16) != 0) by (bit_vector);
}

fn same_suit(a: Suit, b: Suit) -> (r: bool)
    ensures
        r == (a == b),
{
    a.index() == b.index()
}

fn ranks_with_exec(counts: &[usize; 13], k: usize, Ghost(cards): Ghost<Seq<Card>>) -> (r: usize)
    requires
        forall|q: int| 0 <= q < 13 ==> #[trigger] counts[q] == count_rank(cards, q),
    ensures
        r == ranks_with(cards, k as nat, 13),
{
    let mut n: usize = 0;
    let mut q: usize = 0;
    while q < 13
        invariant
            q <= 13,
            n <= q,
            forall|p: int| 0 <= p < 13 ==> #[trigger] counts[p] == count_rank(cards, p),
            n == ranks_with(cards, k as nat, q as int),
        decreases 13 - q,
    {
        if counts[q] == k {
            n = n + 1;
        }
        q = q + 1;
    }
    n
}

} // verus!
