//! The cards that the two players pass between them: a hand of two while it
//! encodes one answer, a deck of five once two hands are joined.

use vstd::prelude::*;
use crate::card::Card;
use crate::rotation::{
    lemma_rotation_identity, lemma_rotation_keeps_cards, lemma_rotation_moves, neighbours, rotated,
};

verus! {

/// An ordered run of cards.
pub struct Deck {
    pub cards: Vec<Card>,
}

impl View for Deck {
    type V = Seq<Card>;

    open spec fn view(&self) -> Seq<Card> {
        self.cards@
    }
}

impl Clone for Deck {
    /// A second deck that holds the same cards in the same order.
    fn clone(&self) -> (copy: Self)
        ensures
            copy@ == self@,
    {
        Deck { cards: self.cards.clone() }
    }
}

impl PartialEq for Deck {
    /// Two decks are equal when they hold the same cards in the same order.
    fn eq(&self, other: &Self) -> (same: bool) {
        if self.cards.len() != other.cards.len() {
            return false;
        }
        let mut i: usize = 0;
        while i < self.cards.len()
            invariant
                i <= self@.len(),
                self@.len() == other@.len(),
                self@.subrange(0, i as int) == other@.subrange(0, i as int),
            decreases self@.len() - i,
        {
            if self.cards[i] != other.cards[i] {
                return false;
            }
            i += 1;
        }
        assert(self@ =~= self@.subrange(0, i as int));
        assert(other@ =~= other@.subrange(0, i as int));
        true
    }
}

impl vstd::std_specs::cmp::PartialEqSpecImpl for Deck {
    open spec fn obeys_eq_spec() -> bool {
        true
    }

    open spec fn eq_spec(&self, other: &Self) -> bool {
        self@ == other@
    }
}

/// Two hands joined into one deck: the first hand, a King to part them, the
/// second hand.
pub open spec fn joined(first: Seq<Card>, second: Seq<Card>) -> Seq<Card> {
    first + seq![Card::King] + second
}

/// Position of the first Queen at or after `from`; the length of `s` where
/// none follows.
pub open spec fn next_queen(s: Seq<Card>, from: int) -> int
    decreases s.len() - from,
{
    if from >= s.len() {
        s.len() as int
    } else if s[from] == Card::Queen {
        from
    } else {
        next_queen(s, from + 1)
    }
}

/// Position of the first Queen in `s`; the length of `s` where it holds none.
pub open spec fn first_queen(s: Seq<Card>) -> int {
    next_queen(s, 0)
}

/// The deck as it is looked at when it is opened: turned so that its first
/// Queen leads, or as it is where it holds no Queen. It is lined up on a
/// Queen and not on the King that parts the hands, which nothing tells from
/// the Kings in the hands.
pub open spec fn opened(s: Seq<Card>) -> Seq<Card>
    recommends
        s.len() == 5,
{
    rotated(s, first_queen(s) as nat)
}

/// Whether the deck opens to a match: seen from its first Queen, another
/// Queen lies next to it in the round, which is in the second place or in
/// the last.
pub open spec fn shows_match(s: Seq<Card>) -> bool
    recommends
        s.len() == 5,
{
    opened(s)[1] == Card::Queen || opened(s)[4] == Card::Queen
}

/// What `next_queen` finds: nothing but Kings from `from` up to the result,
/// and a Queen at the result unless the cards ran out first.
pub proof fn lemma_next_queen(s: Seq<Card>, from: int)
    requires
        0 <= from <= s.len(),
    ensures
        from <= next_queen(s, from) <= s.len(),
        forall|i: int| from <= i < next_queen(s, from) ==> s[i] == Card::King,
        next_queen(s, from) < s.len() ==> s[next_queen(s, from)] == Card::Queen,
    decreases s.len() - from,
{
    if from < s.len() && s[from] != Card::Queen {
        lemma_next_queen(s, from + 1);
    }
}

/// How a deck is looked at when it is opened: still five cards; its first
/// Queen in front where it holds one; as it is, and showing no match, where
/// it holds none.
pub proof fn lemma_opened_leads_with_queen(s: Seq<Card>)
    requires
        s.len() == 5,
    ensures
        opened(s).len() == 5,
        first_queen(s) < 5 ==> opened(s)[0] == Card::Queen,
        first_queen(s) == 5 ==> opened(s) == s && !shows_match(s),
{
    lemma_next_queen(s, 0);
    if first_queen(s) == 5 {
        lemma_rotation_identity(s);
    }
}

/// A deck whose only Queens lie at `i` and `j` opens to a match exactly when
/// those two places are next to each other in the round.
pub proof fn lemma_two_queens_match_iff_neighbours(s: Seq<Card>, i: int, j: int)
    requires
        s.len() == 5,
        0 <= i < 5,
        0 <= j < 5,
        i != j,
        forall|k: int| 0 <= k < 5 ==> (s[k] == Card::Queen <==> k == i || k == j),
    ensures
        first_queen(s) == if i < j { i } else { j },
        shows_match(s) == neighbours(i, j),
{
    let first = first_queen(s);
    lemma_next_queen(s, 0);
    assert(s[i] == Card::Queen && s[j] == Card::Queen);
    assert(first == i || first == j);
    lemma_rotation_moves(s, first as nat, 1);
    lemma_rotation_moves(s, first as nat, 4);
}

impl Deck {
    /// Whether these cards are one player's hand: two cards.
    pub open spec fn is_hand(&self) -> bool {
        self@.len() == 2
    }

    /// Whether these cards are a whole deck: five cards.
    pub open spec fn is_whole(&self) -> bool {
        self@.len() == 5
    }

    /// Joins the two players' hands, Alice's first, with a King between them.
    pub fn join_decks(deck_alice: Self, deck_bob: Self) -> (deck: Self)
        requires
            deck_alice.is_hand(),
            deck_bob.is_hand(),
        ensures
            deck@ == joined(deck_alice@, deck_bob@),
            deck.is_whole(),
    {
        let mut new_deck = deck_alice;
        let mut rest = deck_bob;
        new_deck.cards.push(Card::King);
        new_deck.cards.append(&mut rest.cards);
        new_deck
    }

    /// Turns the deck left by `shift` places; only `shift mod 5` matters.
    pub fn cyclic_shift(&mut self, shift: usize)
        requires
            old(self).is_whole(),
        ensures
            final(self)@ == rotated(old(self)@, shift as nat),
            final(self).is_whole(),
            final(self)@.to_multiset() == old(self)@.to_multiset(),
    {
        proof {
            lemma_rotation_keeps_cards(self@, shift as nat);
        }
        let cut = shift % 5;
        let mut turned: Vec<Card> = Vec::with_capacity(5);
        let mut i: usize = cut;
        while i < 5
            invariant
                cut <= i <= 5,
                self.is_whole(),
                turned@ == self@.subrange(cut as int, i as int),
            decreases 5 - i,
        {
            turned.push(self.cards[i]);
            i += 1;
        }
        let mut j: usize = 0;
        while j < cut
            invariant
                j <= cut < 5,
                self.is_whole(),
                turned@ == self@.subrange(cut as int, 5) + self@.subrange(0, j as int),
            decreases cut - j,
        {
            turned.push(self.cards[j]);
            j += 1;
        }
        self.cards = turned;
    }

    /// Position of the first Queen, or the number of cards where none is a Queen.
    fn find_queen(&self) -> (at: usize)
        ensures
            at == first_queen(self@),
            at <= self@.len(),
    {
        let mut i: usize = 0;
        while i < self.cards.len()
            invariant
                i <= self@.len(),
                next_queen(self@, i as int) == first_queen(self@),
            decreases self@.len() - i,
        {
            if self.cards[i] == Card::Queen {
                return i;
            }
            i += 1;
        }
        i
    }

    /// Opens the deck: tells whether, seen from its first Queen, another
    /// Queen lies next to that one in the round. The deck itself stays as it
    /// is: a copy of it is turned so that the first Queen leads, and the
    /// second and the last card of that copy are looked at. A deck without
    /// a Queen shows no match.
    pub fn decode(&mut self) -> (matched: bool)
        requires
            old(self).is_whole(),
        ensures
            matched == shows_match(old(self)@),
            final(self)@ == old(self)@,
            first_queen(old(self)@) == 5 ==> !matched,
    {
        proof {
            lemma_opened_leads_with_queen(self@);
        }
        let mut turned = self.clone();
        let first = turned.find_queen();
        turned.cyclic_shift(first);
        turned.cards[1] == Card::Queen || turned.cards[4] == Card::Queen
    }
}

} // verus!
