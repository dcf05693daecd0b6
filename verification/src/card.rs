//! Card identity: the closed `Rank` and `Suit` enumerations and the `Card`
//! pair, with their display forms and the fixed enumeration orders that deck
//! construction relies on.

#![allow(non_camel_case_types)]

use vstd::prelude::*;

verus! {

/// The thirteen ranks, in their fixed enumeration order, `ACE` first.
#[derive(Copy, Clone, Debug, PartialEq, Eq, Structural)]
pub enum Rank {
    ACE,
    TWO,
    THREE,
    FOUR,
    FIVE,
    SIX,
    SEVEN,
    EIGHT,
    NINE,
    TEN,
    JACK,
    QUEEN,
    KING,
}

/// The four suits, in their fixed enumeration order, `HEARTS` first.
#[derive(Copy, Clone, Debug, PartialEq, Eq, Structural)]
pub enum Suit {
    HEARTS,
    DIAMONDS,
    CLUBS,
    SPADES,
}

/// The canonical numeric value of a rank: `ACE` is 1, numbered ranks equal
/// their face number, `JACK`, `QUEEN`, `KING` are 11, 12, 13.
pub open spec fn rank_number(r: Rank) -> int {
    match r {
        Rank::ACE => 1,
        Rank::TWO => 2,
        Rank::THREE => 3,
        Rank::FOUR => 4,
        Rank::FIVE => 5,
        Rank::SIX => 6,
        Rank::SEVEN => 7,
        Rank::EIGHT => 8,
        Rank::NINE => 9,
        Rank::TEN => 10,
        Rank::JACK => 11,
        Rank::QUEEN => 12,
        Rank::KING => 13,
    }
}

/// The full word form of a rank.
pub open spec fn rank_name(r: Rank) -> Seq<char> {
    match r {
        Rank::ACE => "ACE"@,
        Rank::TWO => "TWO"@,
        Rank::THREE => "THREE"@,
        Rank::FOUR => "FOUR"@,
        Rank::FIVE => "FIVE"@,
        Rank::SIX => "SIX"@,
        Rank::SEVEN => "SEVEN"@,
        Rank::EIGHT => "EIGHT"@,
        Rank::NINE => "NINE"@,
        Rank::TEN => "TEN"@,
        Rank::JACK => "JACK"@,
        Rank::QUEEN => "QUEEN"@,
        Rank::KING => "KING"@,
    }
}

/// The one-character form of a rank; `TEN` is the single digit '0' so that
/// every rank prints in exactly one character.
pub open spec fn rank_glyph(r: Rank) -> Seq<char> {
    match r {
        Rank::ACE => "A"@,
        Rank::TWO => "2"@,
        Rank::THREE => "3"@,
        Rank::FOUR => "4"@,
        Rank::FIVE => "5"@,
        Rank::SIX => "6"@,
        Rank::SEVEN => "7"@,
        Rank::EIGHT => "8"@,
        Rank::NINE => "9"@,
        Rank::TEN => "0"@,
        Rank::JACK => "J"@,
        Rank::QUEEN => "Q"@,
        Rank::KING => "K"@,
    }
}

/// The full word form of a suit.
pub open spec fn suit_name(s: Suit) -> Seq<char> {
    match s {
        Suit::HEARTS => "HEARTS"@,
        Suit::DIAMONDS => "DIAMONDS"@,
        Suit::CLUBS => "CLUBS"@,
        Suit::SPADES => "SPADES"@,
    }
}

/// The one-character symbol of a suit.
pub open spec fn suit_glyph(s: Suit) -> Seq<char> {
    match s {
        Suit::HEARTS => "♥"@,
        Suit::DIAMONDS => "♦"@,
        Suit::CLUBS => "♣"@,
        Suit::SPADES => "♠"@,
    }
}

/// The ranks in enumeration order: position of each rank in iteration and in
/// deck construction.
pub open spec fn rank_order() -> Seq<Rank> {
    seq![
        Rank::ACE,
        Rank::TWO,
        Rank::THREE,
        Rank::FOUR,
        Rank::FIVE,
        Rank::SIX,
        Rank::SEVEN,
        Rank::EIGHT,
        Rank::NINE,
        Rank::TEN,
        Rank::JACK,
        Rank::QUEEN,
        Rank::KING,
    ]
}

/// The suits in enumeration order.
pub open spec fn suit_order() -> Seq<Suit> {
    seq![Suit::HEARTS, Suit::DIAMONDS, Suit::CLUBS, Suit::SPADES]
}

/// The position of a rank in the enumeration order.
pub open spec fn rank_index(r: Rank) -> int {
    rank_number(r) - 1
}

/// The position of a suit in the enumeration order.
pub open spec fn suit_index(s: Suit) -> int {
    match s {
        Suit::HEARTS => 0,
        Suit::DIAMONDS => 1,
        Suit::CLUBS => 2,
        Suit::SPADES => 3,
    }
}

/// `rank_order` enumerates each rank exactly once: `rank_index` is its
/// position and indexing inverts `rank_index`.
pub proof fn lemma_rank_order_bijective()
    ensures
        rank_order().len() == 13,
        forall|r: Rank| 0 <= rank_index(r) < 13 && rank_order()[rank_index(r)] == r,
        forall|i: int| 0 <= i < 13 ==> rank_index(#[trigger] rank_order()[i]) == i,
{
    assert forall|r: Rank| 0 <= rank_index(r) < 13 && rank_order()[rank_index(r)] == r by {
        match r {
            Rank::ACE => assert(rank_order()[0] == Rank::ACE),
            Rank::TWO => assert(rank_order()[1] == Rank::TWO),
            Rank::THREE => assert(rank_order()[2] == Rank::THREE),
            Rank::FOUR => assert(rank_order()[3] == Rank::FOUR),
            Rank::FIVE => assert(rank_order()[4] == Rank::FIVE),
            Rank::SIX => assert(rank_order()[5] == Rank::SIX),
            Rank::SEVEN => assert(rank_order()[6] == Rank::SEVEN),
            Rank::EIGHT => assert(rank_order()[7] == Rank::EIGHT),
            Rank::NINE => assert(rank_order()[8] == Rank::NINE),
            Rank::TEN => assert(rank_order()[9] == Rank::TEN),
            Rank::JACK => assert(rank_order()[10] == Rank::JACK),
            Rank::QUEEN => assert(rank_order()[11] == Rank::QUEEN),
            Rank::KING => assert(rank_order()[12] == Rank::KING),
        }
    }
    assert forall|i: int| 0 <= i < 13 implies rank_index(#[trigger] rank_order()[i]) == i by {
        if i == 0 {
            assert(rank_order()[0] == Rank::ACE);
        } else if i == 1 {
            assert(rank_order()[1] == Rank::TWO);
        } else if i == 2 {
            assert(rank_order()[2] == Rank::THREE);
        } else if i == 3 {
            assert(rank_order()[3] == Rank::FOUR);
        } else if i == 4 {
            assert(rank_order()[4] == Rank::FIVE);
        } else if i == 5 {
            assert(rank_order()[5] == Rank::SIX);
        } else if i == 6 {
            assert(rank_order()[6] == Rank::SEVEN);
        } else if i == 7 {
            assert(rank_order()[7] == Rank::EIGHT);
        } else if i == 8 {
            assert(rank_order()[8] == Rank::NINE);
        } else if i == 9 {
            assert(rank_order()[9] == Rank::TEN);
        } else if i == 10 {
            assert(rank_order()[10] == Rank::JACK);
        } else if i == 11 {
            assert(rank_order()[11] == Rank::QUEEN);
        } else {
            assert(rank_order()[12] == Rank::KING);
        }
    }
}

/// `suit_order` enumerates each suit exactly once: `suit_index` is its
/// position and indexing inverts `suit_index`.
pub proof fn lemma_suit_order_bijective()
    ensures
        suit_order().len() == 4,
        forall|s: Suit| 0 <= suit_index(s) < 4 && suit_order()[suit_index(s)] == s,
        forall|i: int| 0 <= i < 4 ==> suit_index(#[trigger] suit_order()[i]) == i,
{
    assert forall|s: Suit| 0 <= suit_index(s) < 4 && suit_order()[suit_index(s)] == s by {
        match s {
            Suit::HEARTS => assert(suit_order()[0] == Suit::HEARTS),
            Suit::DIAMONDS => assert(suit_order()[1] == Suit::DIAMONDS),
            Suit::CLUBS => assert(suit_order()[2] == Suit::CLUBS),
            Suit::SPADES => assert(suit_order()[3] == Suit::SPADES),
        }
    }
    assert forall|i: int| 0 <= i < 4 implies suit_index(#[trigger] suit_order()[i]) == i by {
        if i == 0 {
            assert(suit_order()[0] == Suit::HEARTS);
        } else if i == 1 {
            assert(suit_order()[1] == Suit::DIAMONDS);
        } else if i == 2 {
            assert(suit_order()[2] == Suit::CLUBS);
        } else {
            assert(suit_order()[3] == Suit::SPADES);
        }
    }
}

impl Rank {
    /// The canonical numeric value, 1 for `ACE` through 13 for `KING`.
    pub fn as_number(&self) -> (n: u8)
        ensures
            n == rank_number(*self),
    {
        match self {
            Rank::ACE => 1,
            Rank::TWO => 2,
            Rank::THREE => 3,
            Rank::FOUR => 4,
            Rank::FIVE => 5,
            Rank::SIX => 6,
            Rank::SEVEN => 7,
            Rank::EIGHT => 8,
            Rank::NINE => 9,
            Rank::TEN => 10,
            Rank::JACK => 11,
            Rank::QUEEN => 12,
            Rank::KING => 13,
        }
    }

    /// The full word form, for verbose output.
    pub fn as_string(&self) -> (s: String)
        ensures
            s@ == rank_name(*self),
    {
        match self {
            Rank::ACE => "ACE".to_owned(),
            Rank::TWO => "TWO".to_owned(),
            Rank::THREE => "THREE".to_owned(),
            Rank::FOUR => "FOUR".to_owned(),
            Rank::FIVE => "FIVE".to_owned(),
            Rank::SIX => "SIX".to_owned(),
            Rank::SEVEN => "SEVEN".to_owned(),
            Rank::EIGHT => "EIGHT".to_owned(),
            Rank::NINE => "NINE".to_owned(),
            Rank::TEN => "TEN".to_owned(),
            Rank::JACK => "JACK".to_owned(),
            Rank::QUEEN => "QUEEN".to_owned(),
            Rank::KING => "KING".to_owned(),
        }
    }

    /// The one-character form, for compact output.
    pub fn as_character(&self) -> (s: String)
        ensures
            s@ == rank_glyph(*self),
    {
        match self {
            Rank::ACE => "A".to_owned(),
            Rank::TWO => "2".to_owned(),
            Rank::THREE => "3".to_owned(),
            Rank::FOUR => "4".to_owned(),
            Rank::FIVE => "5".to_owned(),
            Rank::SIX => "6".to_owned(),
            Rank::SEVEN => "7".to_owned(),
            Rank::EIGHT => "8".to_owned(),
            Rank::NINE => "9".to_owned(),
            Rank::TEN => "0".to_owned(),
            Rank::JACK => "J".to_owned(),
            Rank::QUEEN => "Q".to_owned(),
            Rank::KING => "K".to_owned(),
        }
    }

    /// All ranks in enumeration order, `ACE` to `KING`.
    pub fn iterator() -> (v: Vec<Rank>)
        ensures
            v@ == rank_order(),
    {
        let mut v: Vec<Rank> = Vec::new();
        v.push(Rank::ACE);
        v.push(Rank::TWO);
        v.push(Rank::THREE);
        v.push(Rank::FOUR);
        v.push(Rank::FIVE);
        v.push(Rank::SIX);
        v.push(Rank::SEVEN);
        v.push(Rank::EIGHT);
        v.push(Rank::NINE);
        v.push(Rank::TEN);
        v.push(Rank::JACK);
        v.push(Rank::QUEEN);
        v.push(Rank::KING);
        proof {
            assert(v@ =~= rank_order());
        }
        v
    }
}

impl Suit {
    /// The full word form, for verbose output.
    pub fn as_string(&self) -> (s: String)
        ensures
            s@ == suit_name(*self),
    {
        match self {
            Suit::HEARTS => "HEARTS".to_owned(),
            Suit::DIAMONDS => "DIAMONDS".to_owned(),
            Suit::CLUBS => "CLUBS".to_owned(),
            Suit::SPADES => "SPADES".to_owned(),
        }
    }

    /// The one-character symbol, for compact output.
    pub fn as_character(&self) -> (s: String)
        ensures
            s@ == suit_glyph(*self),
    {
        match self {
            Suit::HEARTS => "♥".to_owned(),
            Suit::DIAMONDS => "♦".to_owned(),
            Suit::CLUBS => "♣".to_owned(),
            Suit::SPADES => "♠".to_owned(),
        }
    }

    /// All suits in enumeration order, `HEARTS` to `SPADES`.
    pub fn iterator() -> (v: Vec<Suit>)
        ensures
            v@ == suit_order(),
    {
        let mut v: Vec<Suit> = Vec::new();
        v.push(Suit::HEARTS);
        v.push(Suit::DIAMONDS);
        v.push(Suit::CLUBS);
        v.push(Suit::SPADES);
        proof {
            assert(v@ =~= suit_order());
        }
        v
    }
}

/// A playing card: a rank paired with a suit. Two cards are equal exactly
/// when both fields match.
#[derive(Copy, Clone, Debug, PartialEq, Eq, Structural)]
pub struct Card {
    pub rank: Rank,
    pub suit: Suit,
}

impl Card {
    /// Pairs a rank with a suit.
    pub fn new(rank: Rank, suit: Suit) -> (c: Card)
        ensures
            c == (Card { rank, suit }),
    {
        Card { rank, suit }
    }
}

} // verus!
