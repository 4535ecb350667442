//! The dialogue with the two players: one line of input at a time, each line
//! either taking the round one stage further or ending it.

use vstd::prelude::*;
use crate::card::Card;
use crate::deck::{joined, shows_match, Deck};
use crate::players::{alice_hand, bob_hand, Alice, Bob};
use crate::protocol::lemma_match_iff_both_yes;
use crate::rotation::rotated;

verus! {

/// One of the two players.
#[derive(Debug, Copy, Clone, PartialEq, Eq, Structural)]
pub enum Player {
    Alice,
    Bob,
}

/// What the dialogue waits for next.
#[derive(Debug, Copy, Clone, PartialEq, Eq, Structural)]
pub enum Stage {
    /// Alice's yes or no.
    AliceAnswer,
    /// Bob's yes or no.
    BobAnswer,
    /// The number of places by which Bob cuts the deck.
    BobCut,
    /// The number of places by which Alice cuts the deck.
    AliceCut,
}

/// The answer that a line of input gives: `yes` or `no`, each closed by a
/// line feed, and nothing else.
pub open spec fn answer_of(line: Seq<char>) -> Option<bool> {
    if line == seq!['y', 'e', 's', '\n'] {
        Some(true)
    } else if line == seq!['n', 'o', '\n'] {
        Some(false)
    } else {
        None
    }
}

/// The cut that a line of input asks for: one digit from 1 to 5, closed by a
/// line feed, and nothing else.
pub open spec fn cut_of(line: Seq<char>) -> Option<usize> {
    if line == seq!['1', '\n'] {
        Some(1usize)
    } else if line == seq!['2', '\n'] {
        Some(2usize)
    } else if line == seq!['3', '\n'] {
        Some(3usize)
    } else if line == seq!['4', '\n'] {
        Some(4usize)
    } else if line == seq!['5', '\n'] {
        Some(5usize)
    } else {
        None
    }
}

/// Reads a player's yes or no.
pub fn parse_answer(line: &str) -> (answer: Option<bool>)
    ensures
        answer == answer_of(line@),
{
    let len = line.unicode_len();
    if len == 4 && line.get_char(0) == 'y' && line.get_char(1) == 'e' && line.get_char(2) == 's'
        && line.get_char(3) == '\n' {
        assert(line@ =~= seq!['y', 'e', 's', '\n']);
        Some(true)
    } else if len == 3 && line.get_char(0) == 'n' && line.get_char(1) == 'o' && line.get_char(2)
        == '\n' {
        assert(line@ =~= seq!['n', 'o', '\n']);
        Some(false)
    } else {
        None
    }
}

/// Reads the number of places by which a player cuts the deck.
pub fn parse_cut(line: &str) -> (cut: Option<usize>)
    ensures
        cut == cut_of(line@),
{
    if line.unicode_len() != 2 || line.get_char(1) != '\n' {
        return None;
    }
    let digit = line.get_char(0);
    assert(line@ =~= seq![digit, '\n']);
    if digit == '1' {
        Some(1)
    } else if digit == '2' {
        Some(2)
    } else if digit == '3' {
        Some(3)
    } else if digit == '4' {
        Some(4)
    } else if digit == '5' {
        Some(5)
    } else {
        None
    }
}

/// A round in progress: the stage it has reached and the cards on the table.
pub struct Session {
    stage: Stage,
    deck: Deck,
}

/// What one line of input leads to.
pub enum Step {
    /// The line was understood and the round goes on.
    Next(Session),
    /// The line was not understood; the round ends on that player's input.
    Rejected(Player),
    /// Both players have cut; the deck was opened and shows a match or none.
    Verdict(bool),
}

/// `Step` as a plain value: the round that goes on is given by its stage and
/// the cards on the table.
pub enum Outcome {
    Next(Stage, Seq<Card>),
    Rejected(Player),
    Verdict(bool),
}

/// What a line of input leads to, at a stage and with given cards on the table.
pub open spec fn outcome_of(stage: Stage, table: Seq<Card>, line: Seq<char>) -> Outcome {
    match stage {
        Stage::AliceAnswer => match answer_of(line) {
            Some(answer) => Outcome::Next(Stage::BobAnswer, alice_hand(answer)),
            None => Outcome::Rejected(Player::Alice),
        },
        Stage::BobAnswer => match answer_of(line) {
            Some(answer) => Outcome::Next(Stage::BobCut, joined(table, bob_hand(answer))),
            None => Outcome::Rejected(Player::Bob),
        },
        Stage::BobCut => match cut_of(line) {
            Some(cut) => Outcome::Next(Stage::AliceCut, rotated(table, cut as nat)),
            None => Outcome::Rejected(Player::Bob),
        },
        Stage::AliceCut => match cut_of(line) {
            Some(cut) => Outcome::Verdict(shows_match(rotated(table, cut as nat))),
            None => Outcome::Rejected(Player::Alice),
        },
    }
}

impl View for Step {
    type V = Outcome;

    open spec fn view(&self) -> Outcome {
        match *self {
            Step::Next(session) => Outcome::Next(session.stage(), session.table()),
            Step::Rejected(player) => Outcome::Rejected(player),
            Step::Verdict(matched) => Outcome::Verdict(matched),
        }
    }
}

impl Stage {
    /// How many cards lie on the table at this stage: none before Alice has
    /// answered, her hand until Bob has, the whole deck from then on.
    pub open spec fn cards_on_table(self) -> nat {
        match self {
            Stage::AliceAnswer => 0,
            Stage::BobAnswer => 2,
            Stage::BobCut | Stage::AliceCut => 5,
        }
    }
}

impl Session {
    #[verifier::type_invariant]
    spec fn well_formed(self) -> bool {
        self.deck@.len() == self.stage.cards_on_table()
    }

    /// The stage that the round has reached.
    pub closed spec fn stage(&self) -> Stage {
        self.stage
    }

    /// The cards on the table.
    pub closed spec fn table(&self) -> Seq<Card> {
        self.deck@
    }

    /// A round at its start: nothing on the table, Alice's answer awaited.
    pub fn new() -> (session: Session)
        ensures
            session.stage() == Stage::AliceAnswer,
            session.table() == Seq::<Card>::empty(),
    {
        Session { stage: Stage::AliceAnswer, deck: Deck { cards: Vec::new() } }
    }

    /// The stage that the round has reached, which says whom to ask and what.
    pub fn awaits(&self) -> (stage: Stage)
        ensures
            stage == self.stage(),
    {
        self.stage
    }

    /// Takes the line that the awaited player typed and moves the round on.
    pub fn feed(self, line: &str) -> (step: Step)
        ensures
            step@ == outcome_of(self.stage(), self.table(), line@),
            self.table().len() == self.stage().cards_on_table(),
    {
        proof {
            use_type_invariant(&self);
        }
        match self.stage {
            Stage::AliceAnswer => match parse_answer(line) {
                Some(answer) => {
                    let hand = Alice { secret_input: answer }.encode_alice_input();
                    Step::Next(Session { stage: Stage::BobAnswer, deck: hand })
                },
                None => Step::Rejected(Player::Alice),
            },
            Stage::BobAnswer => match parse_answer(line) {
                Some(answer) => {
                    let hand = Bob { secret_input: answer }.encode_bob_input();
                    let deck = Deck::join_decks(self.deck, hand);
                    Step::Next(Session { stage: Stage::BobCut, deck })
                },
                None => Step::Rejected(Player::Bob),
            },
            Stage::BobCut => match parse_cut(line) {
                Some(cut) => {
                    let mut deck = self.deck;
                    deck.cyclic_shift(cut);
                    Step::Next(Session { stage: Stage::AliceCut, deck })
                },
                None => Step::Rejected(Player::Bob),
            },
            Stage::AliceCut => match parse_cut(line) {
                Some(cut) => {
                    let mut deck = self.deck;
                    deck.cyclic_shift(cut);
                    Step::Verdict(deck.decode())
                },
                None => Step::Rejected(Player::Alice),
            },
        }
    }
}

/// A round in which every line is understood ends, after four lines, in the
/// verdict that both players said yes.
pub proof fn lemma_round_tells_mutual_yes(
    alice_line: Seq<char>,
    bob_line: Seq<char>,
    bob_cut_line: Seq<char>,
    alice_cut_line: Seq<char>,
)
    requires
        answer_of(alice_line) is Some,
        answer_of(bob_line) is Some,
        cut_of(bob_cut_line) is Some,
        cut_of(alice_cut_line) is Some,
    ensures
        ({
            let alice = answer_of(alice_line)->0;
            let bob = answer_of(bob_line)->0;
            let hand = alice_hand(alice);
            let deck = joined(hand, bob_hand(bob));
            let cut_once = rotated(deck, cut_of(bob_cut_line)->0 as nat);
            &&& outcome_of(Stage::AliceAnswer, Seq::empty(), alice_line) == Outcome::Next(
                Stage::BobAnswer,
                hand,
            )
            &&& outcome_of(Stage::BobAnswer, hand, bob_line) == Outcome::Next(Stage::BobCut, deck)
            &&& outcome_of(Stage::BobCut, deck, bob_cut_line) == Outcome::Next(
                Stage::AliceCut,
                cut_once,
            )
            &&& outcome_of(Stage::AliceCut, cut_once, alice_cut_line) == Outcome::Verdict(
                alice && bob,
            )
        }),
{
    lemma_match_iff_both_yes(
        answer_of(alice_line)->0,
        answer_of(bob_line)->0,
        cut_of(bob_cut_line)->0 as nat,
        cut_of(alice_cut_line)->0 as nat,
    );
}

} // verus!
