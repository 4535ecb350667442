//! What a whole round comes to.
//!
//! The joined deck holds three Kings and two Queens, one Queen from each
//! hand. The hands are mirrored so that the two Queens lie at the two ends of
//! the deck, next to each other in the round, exactly when both players said
//! yes. Cutting the deck turns the round and keeps neighbours next to each
//! other, so the opened deck still tells whether the Queens are neighbours.

use vstd::prelude::*;
use crate::card::Card;
use crate::deck::{
    joined, lemma_opened_leads_with_queen, lemma_two_queens_match_iff_neighbours, opened,
    shows_match,
};
use crate::players::{alice_hand, bob_hand};
use crate::rotation::{
    lemma_rotation_composes, lemma_rotation_keeps_neighbours, lemma_rotation_moves, neighbours,
    place_after, rotated,
};

verus! {

/// The deck on the table before anybody has cut it.
pub open spec fn dealt(alice: bool, bob: bool) -> Seq<Card> {
    joined(alice_hand(alice), bob_hand(bob))
}

/// Where the dealt deck holds Alice's Queen.
pub open spec fn alice_queen(alice: bool) -> int {
    if alice {
        0
    } else {
        1
    }
}

/// Where the dealt deck holds Bob's Queen.
pub open spec fn bob_queen(bob: bool) -> int {
    if bob {
        4
    } else {
        3
    }
}

/// The deck after Bob, then Alice, has cut it.
pub open spec fn shuffled(alice: bool, bob: bool, bob_shift: nat, alice_shift: nat) -> Seq<Card> {
    rotated(rotated(dealt(alice, bob), bob_shift), alice_shift)
}

/// The dealt deck holds two Queens and no more: Alice's in front of her
/// King for a yes and behind it for a no, Bob's the other way round.
proof fn lemma_dealt_queens(alice: bool, bob: bool)
    ensures
        dealt(alice, bob).len() == 5,
        forall|k: int|
            0 <= k < 5 ==> (dealt(alice, bob)[k] == Card::Queen <==> k == alice_queen(alice) || k
                == bob_queen(bob)),
        neighbours(alice_queen(alice), bob_queen(bob)) == (alice && bob),
{
}

/// A cut takes the two Queens round with it and brings no other.
proof fn lemma_cut_moves_queens(deck: Seq<Card>, first: int, second: int, cut: nat)
    requires
        deck.len() == 5,
        0 <= first < 5,
        0 <= second < 5,
        forall|k: int| 0 <= k < 5 ==> (deck[k] == Card::Queen <==> k == first || k == second),
    ensures
        rotated(deck, cut).len() == 5,
        forall|k: int|
            0 <= k < 5 ==> (rotated(deck, cut)[k] == Card::Queen <==> k == place_after(first, cut)
                || k == place_after(second, cut)),
{
    let cut_deck = rotated(deck, cut);
    assert forall|k: int| 0 <= k < 5 implies (cut_deck[k] == Card::Queen <==> k == place_after(
        first,
        cut,
    ) || k == place_after(second, cut)) by {
        lemma_rotation_moves(deck, cut, k);
        lemma_rotation_moves(deck, cut, first);
        lemma_rotation_moves(deck, cut, second);
    }
}

/// The dealt deck, cut once, opens to a match exactly when both players
/// said yes: the two Queens go round with the cut, which keeps neighbours
/// together, and they were dealt as neighbours only where both hands said
/// yes.
proof fn lemma_one_cut(alice: bool, bob: bool, cut: nat)
    ensures
        shows_match(rotated(dealt(alice, bob), cut)) == (alice && bob),
{
    let first = alice_queen(alice);
    let second = bob_queen(bob);
    lemma_dealt_queens(alice, bob);
    lemma_cut_moves_queens(dealt(alice, bob), first, second, cut);
    lemma_rotation_keeps_neighbours(first, second, cut);
    lemma_two_queens_match_iff_neighbours(
        rotated(dealt(alice, bob), cut),
        place_after(first, cut),
        place_after(second, cut),
    );
}

/// However the two players cut the deck, it opens to a match exactly when
/// both of them said yes.
pub proof fn lemma_match_iff_both_yes(alice: bool, bob: bool, bob_shift: nat, alice_shift: nat)
    ensures
        shuffled(alice, bob, bob_shift, alice_shift).len() == 5,
        shows_match(shuffled(alice, bob, bob_shift, alice_shift)) == (alice && bob),
{
    lemma_dealt_queens(alice, bob);
    lemma_rotation_composes(dealt(alice, bob), bob_shift, alice_shift);
    lemma_one_cut(alice, bob, bob_shift + alice_shift);
}

/// Cards are neither gained nor lost on the way: every hand holds two cards,
/// two hands join to a deck of five, and a deck of five is still five cards
/// after a cut and when it is looked at to be opened.
pub proof fn lemma_sizes_are_kept(
    answer: bool,
    first: Seq<Card>,
    second: Seq<Card>,
    deck: Seq<Card>,
    shift: nat,
)
    requires
        first.len() == 2,
        second.len() == 2,
        deck.len() == 5,
    ensures
        alice_hand(answer).len() == 2,
        bob_hand(answer).len() == 2,
        joined(first, second).len() == 5,
        rotated(deck, shift).len() == deck.len(),
        opened(deck).len() == deck.len(),
{
    lemma_opened_leads_with_queen(deck);
}

/// Nothing in a round is left to chance. What each operation gives back is a
/// function of what it is given, so equal answers give equal hands, equal
/// hands join to equal decks, and equal decks are equal after equal cuts,
/// open alike and show the same verdict.
pub proof fn lemma_same_input_same_result(
    answer: bool,
    answer_again: bool,
    first: Seq<Card>,
    first_again: Seq<Card>,
    second: Seq<Card>,
    second_again: Seq<Card>,
    deck: Seq<Card>,
    deck_again: Seq<Card>,
    shift: nat,
    shift_again: nat,
)
    requires
        answer == answer_again,
        first == first_again,
        second == second_again,
        deck == deck_again,
        shift == shift_again,
    ensures
        alice_hand(answer) == alice_hand(answer_again),
        bob_hand(answer) == bob_hand(answer_again),
        joined(first, second) == joined(first_again, second_again),
        rotated(deck, shift) == rotated(deck_again, shift_again),
        opened(deck) == opened(deck_again),
        shows_match(deck) == shows_match(deck_again),
{
}

} // verus!
