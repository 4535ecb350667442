//! The cards that the protocol is played with.

use vstd::prelude::*;

verus! {

/// The two faces a card can show.
#[derive(Debug, Copy, Clone, PartialEq, Eq, Structural)]
pub enum Card {
    King,
    Queen,
}

} // verus!
