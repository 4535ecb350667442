//! The two players and the hands that encode their answers.

use vstd::prelude::*;
use crate::card::Card;
use crate::deck::Deck;

verus! {

/// The player whose hand goes in front of the separating King.
pub struct Alice {
    pub secret_input: bool,
}

/// The player whose hand goes behind the separating King.
pub struct Bob {
    pub secret_input: bool,
}

/// Alice's hand for an answer: Queen then King for yes, King then Queen for no.
pub open spec fn alice_hand(answer: bool) -> Seq<Card> {
    if answer {
        seq![Card::Queen, Card::King]
    } else {
        seq![Card::King, Card::Queen]
    }
}

/// Bob's hand for an answer, the mirror image of Alice's: King then Queen for
/// yes, Queen then King for no.
pub open spec fn bob_hand(answer: bool) -> Seq<Card> {
    if answer {
        seq![Card::King, Card::Queen]
    } else {
        seq![Card::Queen, Card::King]
    }
}

impl Alice {
    /// Encodes Alice's answer as her hand of two cards.
    pub fn encode_alice_input(self) -> (hand: Deck)
        ensures
            hand@ == alice_hand(self.secret_input),
            hand.is_hand(),
    {
        match self.secret_input {
            true => Deck { cards: vec![Card::Queen, Card::King] },
            false => Deck { cards: vec![Card::King, Card::Queen] },
        }
    }
}

impl Bob {
    /// Encodes Bob's answer as his hand of two cards.
    pub fn encode_bob_input(self) -> (hand: Deck)
        ensures
            hand@ == bob_hand(self.secret_input),
            hand.is_hand(),
    {
        match self.secret_input {
            true => Deck { cards: vec![Card::King, Card::Queen] },
            false => Deck { cards: vec![Card::Queen, Card::King] },
        }
    }
}

} // verus!
