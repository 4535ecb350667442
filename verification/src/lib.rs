//! A card protocol for two players that tells whether both of them said yes.
//!
//! Each player encodes a yes or a no as a hand of two cards. The hands are
//! joined around a King into a deck of five, each player cuts the deck by a
//! number of places of their own choosing, and the deck is opened: seen
//! from its first Queen, it shows a match when another Queen lies next to
//! that one in the round. Opening leaves the deck as the players cut it.
//!
//! This is a teaching piece and no secure protocol: nothing holds a player
//! to these steps, and whoever watches all of them sees both answers.
//!
//! [`players`] holds the encoding, [`deck`] the joining, cutting and opening,
//! [`rotation`] the laws of cutting, [`protocol`] what a whole round comes
//! to, and [`session`] the dialogue with the two players at a console.

pub mod card;
pub mod deck;
pub mod players;
pub mod protocol;
pub mod rotation;
pub mod session;

pub use card::Card;
pub use deck::Deck;
pub use players::{Alice, Bob};
pub use session::{Player, Session, Stage, Step};
