//! A French deck of playing cards: a read-only, ordered, indexable container.

mod card;
mod deck;

pub use card::Card;
pub use deck::FrenchDeck;
