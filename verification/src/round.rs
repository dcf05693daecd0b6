//! Comparing the two hands: the dealer must strictly exceed the player to
//! win; any tie, mutual busts included, goes to the player.

use vstd::prelude::*;

use crate::card::Card;
use crate::deck::Deck;
use crate::player::Player;

verus! {

/// Deals one card: removes the top card of the deck and appends it to the
/// participant's hand. An empty deck deals nothing and leaves both
/// unchanged; either way the combined multiset of deck and hand is kept.
pub fn deal_one(deck: &mut Deck, who: &mut Player) -> (dealt: bool)
    ensures
        old(deck).cards@.len() > 0 ==> dealt
            && final(deck).cards@ == old(deck).cards@.drop_last()
            && final(who).hand@ == old(who).hand@.push(old(deck).cards@.last()),
        old(deck).cards@.len() == 0 ==> !dealt
            && final(deck).cards@ == old(deck).cards@
            && final(who).hand@ == old(who).hand@,
        final(deck).cards@.to_multiset().add(final(who).hand@.to_multiset())
            == old(deck).cards@.to_multiset().add(old(who).hand@.to_multiset()),
{
    proof {
        if old(deck).cards@.len() > 0 {
            lemma_deal_conserves_cards(old(deck).cards@, old(who).hand@);
        }
    }
    match deck.draw_card() {
        Some(card) => {
            who.add_card(Some(card));
            true
        },
        None => false,
    }
}

/// Dealing conserves the cards: drawing the top card of a deck and appending
/// it to a hand leaves the combined multiset of deck and hand unchanged, so
/// no card is lost or duplicated however many cards are dealt.
pub proof fn lemma_deal_conserves_cards(deck: Seq<Card>, hand: Seq<Card>)
    requires
        deck.len() > 0,
    ensures
        deck.drop_last().to_multiset().add(hand.push(deck.last()).to_multiset())
            == deck.to_multiset().add(hand.to_multiset()),
{
    broadcast use vstd::seq_lib::group_to_multiset_ensures;

    assert(deck.drop_last().push(deck.last()) =~= deck);
    assert(deck.to_multiset() =~= deck.drop_last().to_multiset().insert(deck.last()));
    assert(hand.push(deck.last()).to_multiset() =~= hand.to_multiset().insert(deck.last()));
    assert(deck.drop_last().to_multiset().add(hand.to_multiset().insert(deck.last()))
        =~= deck.drop_last().to_multiset().insert(deck.last()).add(hand.to_multiset()));
}

/// The declared outcome of a round.
#[derive(Copy, Clone, Debug, PartialEq, Eq, Structural)]
pub enum Winner {
    Dealer,
    Player,
}

/// The comparison rule on the two computed hand values: the dealer wins only
/// with a strictly greater value; on equality, busts included, the player
/// wins.
pub open spec fn winner_of(dealer_value: int, player_value: int) -> Winner {
    if dealer_value > player_value {
        Winner::Dealer
    } else {
        Winner::Player
    }
}

/// Declares the winner of a round from the two computed hand values.
pub fn determine_winner(dealer_value: u8, player_value: u8) -> (w: Winner)
    ensures
        w == winner_of(dealer_value as int, player_value as int),
{
    if dealer_value > player_value {
        Winner::Dealer
    } else {
        Winner::Player
    }
}

/// Winner determination is a pure function of the two hand values: equal
/// inputs always produce the same declared outcome.
pub proof fn lemma_winner_deterministic(
    dealer_a: int,
    player_a: int,
    dealer_b: int,
    player_b: int,
)
    requires
        dealer_a == dealer_b,
        player_a == player_b,
    ensures
        winner_of(dealer_a, player_a) == winner_of(dealer_b, player_b),
{
}

} // verus!
