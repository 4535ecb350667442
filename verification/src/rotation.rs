//! Cyclic rotation of a deck of five cards, as a mathematical function, and
//! the laws it obeys.

use vstd::prelude::*;
use vstd::seq_lib::lemma_seq_union_to_multiset_commutative;
use crate::card::Card;

verus! {

/// The deck `s` turned left by `shift` places. Only `shift mod 5` matters: that
/// many cards are taken off the front and put behind the others, and both
/// parts keep their order.
pub open spec fn rotated(s: Seq<Card>, shift: nat) -> Seq<Card>
    recommends
        s.len() == 5,
{
    let cut = (shift % 5) as int;
    s.subrange(cut, 5) + s.subrange(0, cut)
}

/// Where the card at `place` lies once the deck is turned left by `shift`:
/// at `(place - shift) mod 5`.
pub open spec fn place_after(place: int, shift: nat) -> int {
    (place - shift) % 5
}

/// Whether two places of the deck are next to each other in the round, in
/// which the first place follows the last.
pub open spec fn neighbours(i: int, j: int) -> bool {
    (j - i) % 5 == 1 || (i - j) % 5 == 1
}

/// Position `i` of the rotated deck holds what stood at `(i + shift) mod 5`;
/// put the other way, the card at `i` moves to `(i - shift) mod 5`.
pub proof fn lemma_rotation_moves(s: Seq<Card>, shift: nat, i: int)
    requires
        s.len() == 5,
        0 <= i < 5,
    ensures
        rotated(s, shift).len() == 5,
        rotated(s, shift)[i] == s[(i + shift) % 5],
        rotated(s, shift)[place_after(i, shift)] == s[i],
        0 <= place_after(i, shift) < 5,
        place_after((i + shift) % 5, shift) == i,
{
}

/// Cards that are neighbours in the round stay neighbours when the deck is
/// turned, and cards that are not do not become neighbours.
pub proof fn lemma_rotation_keeps_neighbours(i: int, j: int, shift: nat)
    ensures
        neighbours(place_after(i, shift), place_after(j, shift)) == neighbours(i, j),
{
}

/// Only the shift modulo five matters.
pub proof fn lemma_rotation_periodic(s: Seq<Card>, shift: nat)
    requires
        s.len() == 5,
    ensures
        rotated(s, shift) == rotated(s, shift % 5),
{
}

/// Turning by nothing, or by a whole round, changes nothing.
pub proof fn lemma_rotation_identity(s: Seq<Card>)
    requires
        s.len() == 5,
    ensures
        rotated(s, 0) == s,
        rotated(s, 5) == s,
{
}

/// Two rotations in a row are one rotation by the sum of the shifts.
pub proof fn lemma_rotation_composes(s: Seq<Card>, first: nat, second: nat)
    requires
        s.len() == 5,
    ensures
        rotated(rotated(s, first), second) == rotated(s, first + second),
{
    let cuts = first % 5 + second % 5;
    assert((first + second) % 5 == if cuts < 5 {
        cuts
    } else {
        (cuts - 5) as nat
    });
}

/// The order of two rotations does not matter.
pub proof fn lemma_rotation_commutes(s: Seq<Card>, first: nat, second: nat)
    requires
        s.len() == 5,
    ensures
        rotated(rotated(s, first), second) == rotated(rotated(s, second), first),
{
    lemma_rotation_composes(s, first, second);
    lemma_rotation_composes(s, second, first);
}

/// A rotation is undone by the rotation that completes the round.
pub proof fn lemma_rotation_cancels(s: Seq<Card>, shift: nat)
    requires
        s.len() == 5,
    ensures
        rotated(rotated(s, shift), (5 - shift % 5) as nat) == s,
{
}

/// A rotation reorders the cards and neither adds nor drops one.
pub proof fn lemma_rotation_keeps_cards(s: Seq<Card>, shift: nat)
    requires
        s.len() == 5,
    ensures
        rotated(s, shift).len() == s.len(),
        rotated(s, shift).to_multiset() == s.to_multiset(),
{
    let cut = (shift % 5) as int;
    lemma_seq_union_to_multiset_commutative(s.subrange(cut, 5), s.subrange(0, cut));
    assert(s.subrange(0, cut) + s.subrange(cut, 5) =~= s);
}

} // verus!
