//! The deck: all 52 cards in a fixed construction order, an in-place uniform
//! shuffle, and drawing from the top.

use vstd::prelude::*;

use crate::card::Card;
use crate::card::Rank;
use crate::card::Suit;
use crate::card::lemma_rank_order_bijective;
use crate::card::lemma_suit_order_bijective;
use crate::card::rank_index;
use crate::card::rank_order;
use crate::card::suit_index;
use crate::card::suit_order;
use crate::cards::Cards;

verus! {

/// The 52 cards of a fresh deck in construction order: for each suit in
/// enumeration order, each rank in enumeration order.
pub open spec fn full_deck() -> Seq<Card> {
    Seq::new(
        52,
        |k: int| Card { rank: rank_order()[k % 13], suit: suit_order()[k / 13] },
    )
}

/// The position a card occupies in a fresh deck.
pub open spec fn deck_position(c: Card) -> int {
    13 * suit_index(c.suit) + rank_index(c.rank)
}

/// A fresh deck holds 52 cards; every card appears in it, at its
/// `deck_position`, and no card appears twice.
pub proof fn lemma_full_deck_complete()
    ensures
        full_deck().len() == 52,
        forall|c: Card| 0 <= deck_position(c) < 52 && full_deck()[deck_position(c)] == c,
        forall|c: Card| #[trigger] full_deck().contains(c),
        full_deck().no_duplicates(),
{
    lemma_rank_order_bijective();
    lemma_suit_order_bijective();
    assert forall|c: Card| 0 <= deck_position(c) < 52 && full_deck()[deck_position(c)] == c by {
        let k = deck_position(c);
        assert(k % 13 == rank_index(c.rank) && k / 13 == suit_index(c.suit)) by (nonlinear_arith)
            requires
                k == 13 * suit_index(c.suit) + rank_index(c.rank),
                0 <= rank_index(c.rank) < 13,
                0 <= suit_index(c.suit) < 4,
        ;
    }
    assert forall|c: Card| #[trigger] full_deck().contains(c) by {
        assert(full_deck()[deck_position(c)] == c);
    }
    assert forall|i: int, j: int|
        0 <= i < 52 && 0 <= j < 52 && i != j implies full_deck()[i] != full_deck()[j] by {
        if i / 13 == j / 13 {
            assert(i % 13 != j % 13) by (nonlinear_arith)
                requires
                    0 <= i < 52,
                    0 <= j < 52,
                    i != j,
                    i / 13 == j / 13,
            ;
        }
    }
}

/// Any permutation of a fresh deck — a shuffled deck in particular — still
/// holds 52 cards, each of the 52 cards exactly once.
pub proof fn lemma_permutation_of_full_deck(s: Seq<Card>)
    requires
        s.to_multiset() == full_deck().to_multiset(),
    ensures
        s.len() == 52,
        forall|c: Card| #[trigger] s.to_multiset().count(c) == 1,
        s.no_duplicates(),
{
    broadcast use vstd::seq_lib::group_to_multiset_ensures;

    lemma_full_deck_complete();
    full_deck().lemma_multiset_has_no_duplicates();
    assert forall|c: Card| #[trigger] s.to_multiset().count(c) == 1 by {
        assert(full_deck().contains(c));
        assert(full_deck().to_multiset().count(c) > 0);
        assert(full_deck().to_multiset().contains(c));
    }
    assert(s.len() == s.to_multiset().len());
    assert(full_deck().len() == full_deck().to_multiset().len());
    s.lemma_multiset_has_no_duplicates_conv();
}

/// The deck the round is dealt from. Its view is the sequence of cards still
/// in it, bottom first; the top of the deck is the last element.
#[derive(Debug)]
pub struct Deck {
    pub cards: Cards,
}

/// Relies on rand's `SliceRandom::shuffle` (a Fisher-Yates swap loop) driven
/// by `rand::thread_rng`: it permutes the slice in place, so the multiset of
/// elements and the length are unchanged, whatever order comes out.
#[verifier::external_body]
fn shuffle_in_place(v: &mut Vec<Card>)
    ensures
        final(v)@.to_multiset() == old(v)@.to_multiset(),
        final(v)@.len() == old(v)@.len(),
{
    rand::seq::SliceRandom::shuffle(v.as_mut_slice(), &mut rand::thread_rng());
}

impl Deck {
    /// The deck never grows past its initial 52 cards.
    pub open spec fn wf(self) -> bool {
        self.cards@.len() <= 52
    }

    /// A fresh, unshuffled deck: exactly the 52 cards of `full_deck`, in
    /// construction order.
    pub fn new() -> (d: Deck)
        ensures
            d.cards@ == full_deck(),
            d.wf(),
    {
        proof {
            lemma_rank_order_bijective();
            lemma_suit_order_bijective();
        }
        let mut cards = Cards::new();
        let suits = Suit::iterator();
        let ranks = Rank::iterator();
        let mut i: usize = 0;
        while i < 4
            invariant
                suits@ == suit_order(),
                ranks@ == rank_order(),
                i <= 4,
                cards@ == full_deck().take(13 * i),
            decreases 4 - i,
        {
            let mut j: usize = 0;
            while j < 13
                invariant
                    suits@ == suit_order(),
                    ranks@ == rank_order(),
                    i < 4,
                    j <= 13,
                    cards@ == full_deck().take(13 * i + j),
                decreases 13 - j,
            {
                let card = Card::new(ranks[j], suits[i]);
                cards.0.push(card);
                proof {
                    let k = 13 * (i as int) + j;
                    assert(k % 13 == j && k / 13 == i) by (nonlinear_arith)
                        requires
                            k == 13 * (i as int) + j,
                            0 <= j < 13,
                            0 <= (i as int) < 4,
                    ;
                    assert(cards@ =~= full_deck().take(13 * i + j + 1));
                }
                j = j + 1;
            }
            i = i + 1;
        }
        proof {
            assert(cards@ =~= full_deck());
        }
        Deck { cards }
    }

    /// Permutes the cards still in the deck, in place: no card is added,
    /// removed or duplicated, only the order may change.
    pub fn shuffle(&mut self)
        ensures
            final(self).cards@.to_multiset() == old(self).cards@.to_multiset(),
            final(self).cards@.len() == old(self).cards@.len(),
    {
        shuffle_in_place(&mut self.cards.0);
    }

    /// Removes and returns the top card. On an empty deck the result is
    /// absent and the deck is unchanged; otherwise the count drops by one.
    pub fn draw_card(&mut self) -> (c: Option<Card>)
        ensures
            old(self).cards@.len() > 0 ==> c == Some(old(self).cards@.last())
                && final(self).cards@ == old(self).cards@.drop_last()
                && final(self).cards@.len() == old(self).cards@.len() - 1,
            old(self).cards@.len() == 0 ==> c is None && final(self).cards@ == old(self).cards@,
    {
        self.cards.0.pop()
    }

    /// How many cards are left: 52 minus the number of successful draws.
    pub fn number_of_cards(&self) -> (n: u8)
        requires
            self.wf(),
        ensures
            n == self.cards@.len(),
    {
        self.cards.0.len() as u8
    }
}

} // verus!
