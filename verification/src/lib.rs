//! A single round of blackjack: a 52-card deck, a uniform shuffle, dealing
//! into hands, the ace-softening scoring rule, and winner selection.

pub mod card;
pub mod cards;
pub mod deck;
pub mod player;
pub mod round;

pub use card::Card;
pub use card::Rank;
pub use card::Suit;
pub use cards::Cards;
pub use deck::Deck;
pub use player::Player;
pub use round::Winner;
