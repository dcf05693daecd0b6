use blackjack::Card;
use blackjack::Rank;
use blackjack::Suit;

#[test]
fn card_creation() {
    let card = Card::new(Rank::ACE, Suit::DIAMONDS);
    assert_eq!(card.suit.as_string(), "DIAMONDS");
    assert_eq!(card.rank.as_string(), "ACE");
}

#[test]
fn rank_numbers_run_from_ace_to_king() {
    let ranks = Rank::iterator();
    assert_eq!(ranks.len(), 13);
    for (i, rank) in ranks.iter().enumerate() {
        assert_eq!(rank.as_number() as usize, i + 1);
    }
    assert_eq!(Rank::ACE.as_number(), 1);
    assert_eq!(Rank::JACK.as_number(), 11);
    assert_eq!(Rank::QUEEN.as_number(), 12);
    assert_eq!(Rank::KING.as_number(), 13);
}

#[test]
fn rank_glyphs_are_single_characters() {
    assert_eq!(Rank::ACE.as_character(), "A");
    assert_eq!(Rank::TWO.as_character(), "2");
    assert_eq!(Rank::NINE.as_character(), "9");
    // TEN prints as the single digit '0', not "10".
    assert_eq!(Rank::TEN.as_character(), "0");
    assert_eq!(Rank::JACK.as_character(), "J");
    assert_eq!(Rank::QUEEN.as_character(), "Q");
    assert_eq!(Rank::KING.as_character(), "K");
}

#[test]
fn suit_names_and_glyphs() {
    let suits = Suit::iterator();
    assert_eq!(suits.len(), 4);
    assert_eq!(
        suits,
        vec![Suit::HEARTS, Suit::DIAMONDS, Suit::CLUBS, Suit::SPADES]
    );
    assert_eq!(Suit::HEARTS.as_string(), "HEARTS");
    assert_eq!(Suit::SPADES.as_string(), "SPADES");
    assert_eq!(Suit::HEARTS.as_character(), "\u{2665}");
    assert_eq!(Suit::DIAMONDS.as_character(), "\u{2666}");
    assert_eq!(Suit::CLUBS.as_character(), "\u{2663}");
    assert_eq!(Suit::SPADES.as_character(), "\u{2660}");
}

#[test]
fn cards_are_equal_exactly_when_both_fields_match() {
    let a = Card::new(Rank::ACE, Suit::DIAMONDS);
    assert_eq!(a, Card::new(Rank::ACE, Suit::DIAMONDS));
    assert_ne!(a, Card::new(Rank::ACE, Suit::HEARTS));
    assert_ne!(a, Card::new(Rank::TWO, Suit::DIAMONDS));
}
