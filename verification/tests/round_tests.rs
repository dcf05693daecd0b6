use blackjack::round::deal_one;
use blackjack::round::determine_winner;
use blackjack::Card;
use blackjack::Deck;
use blackjack::Player;
use blackjack::Rank;
use blackjack::Suit;
use blackjack::Winner;

#[test]
fn dealer_wins_only_with_a_strictly_greater_value() {
    assert_eq!(determine_winner(21, 20), Winner::Dealer);
    assert_eq!(determine_winner(20, 21), Winner::Player);
    assert_eq!(determine_winner(2, 21), Winner::Player);
}

#[test]
fn ties_go_to_the_player() {
    assert_eq!(determine_winner(20, 20), Winner::Player);
    assert_eq!(determine_winner(21, 21), Winner::Player);
    // A mutual bust is an ordinary tie: the player still wins.
    assert_eq!(determine_winner(22, 22), Winner::Player);
}

#[test]
fn dealing_moves_the_top_card_into_the_hand() {
    let mut deck = Deck::new();
    let mut player = Player::new();
    // The top of a fresh, unshuffled deck is the last constructed card.
    let dealt = deal_one(&mut deck, &mut player);
    assert!(dealt);
    assert_eq!(deck.number_of_cards(), 51);
    assert_eq!(player.hand.0.len(), 1);
    assert_eq!(player.hand.0[0], Card::new(Rank::KING, Suit::SPADES));
}

#[test]
fn dealing_from_an_empty_deck_deals_nothing() {
    let mut deck = Deck::new();
    for _ in 0..52 {
        assert!(deck.draw_card().is_some());
    }
    let mut player = Player::new();
    let dealt = deal_one(&mut deck, &mut player);
    assert!(!dealt);
    assert_eq!(deck.number_of_cards(), 0);
    assert_eq!(player.hand.0.len(), 0);
}

#[test]
fn equal_inputs_always_produce_the_same_outcome() {
    for dealer in 0..=30u8 {
        for player in 0..=30u8 {
            let first = determine_winner(dealer, player);
            let second = determine_winner(dealer, player);
            assert_eq!(first, second);
        }
    }
}
