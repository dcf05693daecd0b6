//! A participant's hand and the scoring rule: every card scores its face
//! value capped at 10, except aces, which score 11 until the total passes 21
//! and are then softened to 1, one at a time.

use vstd::prelude::*;

use crate::card::Card;
use crate::card::Rank;
use crate::card::rank_number;
use crate::cards::Cards;

verus! {

/// The scoring value of one card: numbered ranks 2-10 and faces score their
/// face value capped at 10; an ace scores 11 before any softening.
pub open spec fn card_score(c: Card) -> int {
    if c.rank == Rank::ACE {
        11
    } else if rank_number(c.rank) >= 10 {
        10
    } else {
        rank_number(c.rank)
    }
}

/// The sum of the scoring values of a hand, every ace still counted as 11.
pub open spec fn base_sum(s: Seq<Card>) -> int
    decreases s.len(),
{
    if s.len() == 0 {
        0
    } else {
        base_sum(s.drop_last()) + card_score(s.last())
    }
}

/// How many aces a hand holds.
pub open spec fn ace_count(s: Seq<Card>) -> int
    decreases s.len(),
{
    if s.len() == 0 {
        0
    } else {
        ace_count(s.drop_last()) + if s.last().rank == Rank::ACE {
            1int
        } else {
            0int
        }
    }
}

/// The ace-softening reduction: while the total exceeds 21 and a soft ace
/// remains, one ace is downgraded from 11 to 1. The result may still exceed
/// 21 (a bust); it is never capped.
pub open spec fn soften(total: int, aces: int) -> int
    decreases aces,
{
    if total > 21 && aces > 0 {
        soften(total - 10, aces - 1)
    } else {
        total
    }
}

/// The value of a hand: the base sum after ace softening.
pub open spec fn hand_value(s: Seq<Card>) -> int {
    soften(base_sum(s), ace_count(s))
}

/// Every card scores at least 2, so the base sum of a prefix never exceeds
/// the base sum of the whole hand, and counts stay within the hand's length.
proof fn lemma_prefix_bounds(s: Seq<Card>, i: int)
    requires
        0 <= i <= s.len(),
    ensures
        0 <= base_sum(s.take(i)) <= base_sum(s),
        0 <= ace_count(s.take(i)) <= i,
    decreases s.len() - i,
{
    if i == s.len() {
        assert(s.take(i) =~= s);
        lemma_base_sum_nonneg(s.take(i));
        lemma_ace_count_range(s.take(i));
    } else {
        lemma_prefix_bounds(s, i + 1);
        lemma_take_step(s, i);
        lemma_base_sum_nonneg(s.take(i));
        lemma_ace_count_range(s.take(i));
    }
}

/// The base sum of a hand is never negative.
proof fn lemma_base_sum_nonneg(s: Seq<Card>)
    ensures
        base_sum(s) >= 0,
    decreases s.len(),
{
    if s.len() > 0 {
        lemma_base_sum_nonneg(s.drop_last());
    }
}

/// A hand holds between zero aces and as many aces as cards.
proof fn lemma_ace_count_range(s: Seq<Card>)
    ensures
        0 <= ace_count(s) <= s.len(),
    decreases s.len(),
{
    if s.len() > 0 {
        lemma_ace_count_range(s.drop_last());
    }
}

/// Extending a prefix by one card adds that card's score to the base sum and
/// counts it if it is an ace.
proof fn lemma_take_step(s: Seq<Card>, i: int)
    requires
        0 <= i < s.len(),
    ensures
        base_sum(s.take(i + 1)) == base_sum(s.take(i)) + card_score(s[i]),
        ace_count(s.take(i + 1)) == ace_count(s.take(i)) + if s[i].rank == Rank::ACE {
            1int
        } else {
            0int
        },
{
    assert(s.take(i + 1).drop_last() =~= s.take(i));
    assert(s.take(i + 1).last() == s[i]);
}

/// A participant in the round. Its view is the hand's sequence of cards in
/// the order they were dealt.
#[derive(Debug)]
pub struct Player {
    pub hand: Cards,
}

impl Player {
    /// A participant holding no cards yet.
    pub fn new() -> (p: Player)
        ensures
            p.hand@ == Seq::<Card>::empty(),
    {
        let hand = Cards::new();
        Player { hand }
    }

    /// Appends a dealt card to the hand. Dealing an absent card would mean
    /// the deck ran out mid-deal, so callers must hand a present one.
    pub fn add_card(&mut self, card: Option<Card>)
        requires
            card is Some,
        ensures
            final(self).hand@ == old(self).hand@.push(card.unwrap()),
    {
        self.hand.0.push(card.unwrap())
    }

    /// The hand's score under the softening rule: aces score 11, everything
    /// else at most 10, then one ace at a time is downgraded to 1 while the
    /// total exceeds 21. A bust is returned as is, never capped at 21.
    pub fn get_hand_value(&mut self) -> (v: u8)
        requires
            base_sum(old(self).hand@) <= u8::MAX,
        ensures
            final(self).hand@ == old(self).hand@,
            v == hand_value(old(self).hand@),
    {
        let ghost s = self.hand@;
        let mut value: u8 = 0;
        let mut aces: usize = 0;
        let n = self.hand.len();
        let mut i: usize = 0;
        while i < n
            invariant
                self.hand@ == s,
                n == s.len(),
                i <= n,
                base_sum(s) <= u8::MAX,
                value == base_sum(s.take(i as int)),
                aces == ace_count(s.take(i as int)),
            decreases n - i,
        {
            proof {
                lemma_take_step(s, i as int);
                lemma_prefix_bounds(s, i + 1);
            }
            let card = self.hand.get(i);
            let mut card_value: u8 = card.rank.as_number();
            if card_value >= 10 {
                card_value = 10;
            } else if card_value == 1 {
                aces = aces + 1;
                card_value = 11;
            }
            value = value + card_value;
            i = i + 1;
        }
        proof {
            assert(s.take(n as int) =~= s);
        }
        while value > 21 && aces > 0
            invariant
                soften(value as int, aces as int) == hand_value(s),
            decreases aces,
        {
            value = value - 10;
            aces = aces - 1;
        }
        value
    }
}

} // verus!
