//! An ordered collection of cards, shared by the deck and by each hand.

use vstd::prelude::*;

use crate::card::Card;

verus! {

/// An ordered, growable sequence of cards. The deck and each player's hand
/// are both a `Cards`; its view is the sequence of cards it holds.
#[derive(Debug, PartialEq)]
pub struct Cards(pub Vec<Card>);

impl View for Cards {
    type V = Seq<Card>;

    open spec fn view(&self) -> Seq<Card> {
        self.0@
    }
}

impl Cards {
    /// An empty collection.
    pub fn new() -> (c: Cards)
        ensures
            c@ == Seq::<Card>::empty(),
    {
        Cards(Vec::new())
    }

    /// How many cards are held.
    pub fn len(&self) -> (n: usize)
        ensures
            n == self@.len(),
    {
        self.0.len()
    }

    /// The card at position `i`, counted from the bottom.
    pub fn get(&self, i: usize) -> (c: Card)
        requires
            i < self@.len(),
        ensures
            c == self@[i as int],
    {
        self.0[i]
    }
}

} // verus!
