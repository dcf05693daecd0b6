use blackjack::Card;
use blackjack::Deck;
use blackjack::Rank;
use blackjack::Suit;

fn all_ranks() -> Vec<Rank> {
    Rank::iterator()
}

fn all_suits() -> Vec<Suit> {
    Suit::iterator()
}

#[test]
fn deck_has_52_cards() {
    let deck = Deck::new();
    assert_eq!(deck.number_of_cards(), 52);
}

#[test]
fn deck_has_been_shuffled() {
    let mut deck = Deck::new();
    assert_eq!(deck.cards.0[0], Card::new(Rank::ACE, Suit::HEARTS));
    // The shuffled order is random: the top card may land back where it was,
    // so assert statistically that some shuffle moves it. The chance that
    // 100 uniform shuffles all leave the ace of hearts first is (1/52)^100.
    let mut moved = false;
    for _ in 0..100 {
        deck.shuffle();
        if deck.cards.0[0] != Card::new(Rank::ACE, Suit::HEARTS) {
            moved = true;
            break;
        }
    }
    assert!(moved);
}

#[test]
fn drawing_card_removes_from_deck() {
    let mut deck = Deck::new();
    deck.draw_card();
    assert_eq!(deck.number_of_cards(), 51);
}

#[test]
fn fresh_deck_holds_every_card_exactly_once() {
    let deck = Deck::new();
    assert_eq!(deck.cards.0.len(), 52);
    for suit in all_suits() {
        for rank in all_ranks() {
            let wanted = Card::new(rank, suit);
            let count = deck.cards.0.iter().filter(|c| **c == wanted).count();
            assert_eq!(count, 1);
        }
    }
}

#[test]
fn fresh_deck_is_in_construction_order() {
    let deck = Deck::new();
    let mut k = 0;
    for suit in all_suits() {
        for rank in all_ranks() {
            assert_eq!(deck.cards.0[k], Card::new(rank, suit));
            k += 1;
        }
    }
}

#[test]
fn shuffle_keeps_the_multiset_of_cards() {
    let mut deck = Deck::new();
    deck.shuffle();
    assert_eq!(deck.number_of_cards(), 52);
    for suit in all_suits() {
        for rank in all_ranks() {
            let wanted = Card::new(rank, suit);
            let count = deck.cards.0.iter().filter(|c| **c == wanted).count();
            assert_eq!(count, 1);
        }
    }
}

#[test]
fn drawing_52_cards_exhausts_the_deck() {
    let mut deck = Deck::new();
    let mut drawn: Vec<Card> = Vec::new();
    for i in 0..52u8 {
        let card = deck.draw_card();
        assert!(card.is_some());
        drawn.push(card.unwrap());
        assert_eq!(deck.number_of_cards(), 51 - i);
    }
    assert_eq!(deck.number_of_cards(), 0);
    assert_eq!(deck.draw_card(), None);
    // The 52 drawn cards are pairwise distinct.
    for i in 0..52 {
        for j in 0..52 {
            if i != j {
                assert_ne!(drawn[i], drawn[j]);
            }
        }
    }
}
