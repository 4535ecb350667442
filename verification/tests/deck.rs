use match_maker::Card::{King, Queen};
use match_maker::{Alice, Bob, Card, Deck};

fn dealt(alice: bool, bob: bool) -> Deck {
    Deck::join_decks(
        Alice { secret_input: alice }.encode_alice_input(),
        Bob { secret_input: bob }.encode_bob_input(),
    )
}

fn deck_of(cards: [Card; 5]) -> Deck {
    Deck { cards: cards.to_vec() }
}

#[test]
fn alice_says_yes_with_queen_then_king() {
    let hand = Alice { secret_input: true }.encode_alice_input();
    assert_eq!(hand.cards, vec![Queen, King]);
}

#[test]
fn alice_says_no_with_king_then_queen() {
    let hand = Alice { secret_input: false }.encode_alice_input();
    assert_eq!(hand.cards, vec![King, Queen]);
}

#[test]
fn bob_says_yes_with_king_then_queen() {
    let hand = Bob { secret_input: true }.encode_bob_input();
    assert_eq!(hand.cards, vec![King, Queen]);
}

#[test]
fn bob_says_no_with_queen_then_king() {
    let hand = Bob { secret_input: false }.encode_bob_input();
    assert_eq!(hand.cards, vec![Queen, King]);
}

#[test]
fn the_two_players_encode_the_same_answer_in_mirrored_hands() {
    for answer in [true, false] {
        let alice = Alice { secret_input: answer }.encode_alice_input();
        let bob = Bob { secret_input: answer }.encode_bob_input();
        assert_eq!(alice.cards[0], bob.cards[1]);
        assert_eq!(alice.cards[1], bob.cards[0]);
        assert_ne!(alice.cards, bob.cards);
    }
}

#[test]
fn every_hand_has_two_cards() {
    for answer in [true, false] {
        assert_eq!(Alice { secret_input: answer }.encode_alice_input().cards.len(), 2);
        assert_eq!(Bob { secret_input: answer }.encode_bob_input().cards.len(), 2);
    }
}

#[test]
fn join_puts_a_king_between_the_hands() {
    assert_eq!(dealt(true, true).cards, vec![Queen, King, King, King, Queen]);
    assert_eq!(dealt(true, false).cards, vec![Queen, King, King, Queen, King]);
    assert_eq!(dealt(false, true).cards, vec![King, Queen, King, King, Queen]);
    assert_eq!(dealt(false, false).cards, vec![King, Queen, King, Queen, King]);
}

#[test]
fn join_keeps_each_hand_in_its_place() {
    let first = Deck { cards: vec![Queen, Queen] };
    let second = Deck { cards: vec![King, King] };
    let deck = Deck::join_decks(first, second);
    assert_eq!(deck.cards, vec![Queen, Queen, King, King, King]);
    let first = Deck { cards: vec![King, King] };
    let second = Deck { cards: vec![Queen, Queen] };
    let deck = Deck::join_decks(first, second);
    assert_eq!(deck.cards, vec![King, King, King, Queen, Queen]);
}

#[test]
fn every_joined_deck_has_five_cards() {
    for alice in [true, false] {
        for bob in [true, false] {
            assert_eq!(dealt(alice, bob).cards.len(), 5);
        }
    }
}

#[test]
fn shift_by_one_moves_the_first_card_to_the_back() {
    let mut deck = deck_of([Queen, King, King, King, King]);
    deck.cyclic_shift(1);
    assert_eq!(deck.cards, vec![King, King, King, King, Queen]);
}

#[test]
fn shift_by_four_moves_the_last_card_to_the_front() {
    let mut deck = deck_of([King, Queen, Queen, King, Queen]);
    deck.cyclic_shift(4);
    assert_eq!(deck.cards, vec![Queen, King, Queen, Queen, King]);
}

#[test]
fn shift_by_nothing_or_by_a_whole_round_changes_nothing() {
    for shift in [0, 5, 10, 5000] {
        let mut deck = deck_of([Queen, King, Queen, King, King]);
        deck.cyclic_shift(shift);
        assert_eq!(deck.cards, vec![Queen, King, Queen, King, King]);
    }
}

#[test]
fn only_the_shift_modulo_five_matters() {
    for shift in 0..40usize {
        let mut once = deck_of([Queen, King, Queen, King, King]);
        let mut reduced = deck_of([Queen, King, Queen, King, King]);
        once.cyclic_shift(shift);
        reduced.cyclic_shift(shift % 5);
        assert_eq!(once.cards, reduced.cards);
    }
    let mut deck = deck_of([Queen, King, Queen, King, King]);
    deck.cyclic_shift(usize::MAX);
    let mut same = deck_of([Queen, King, Queen, King, King]);
    same.cyclic_shift(usize::MAX % 5);
    assert_eq!(deck.cards, same.cards);
}

#[test]
fn shifted_card_comes_from_the_position_shift_places_on() {
    let before = [Queen, King, King, Queen, Queen];
    for shift in 0..12usize {
        let mut deck = deck_of(before);
        deck.cyclic_shift(shift);
        for i in 0..5usize {
            assert_eq!(deck.cards[i], before[(i + shift) % 5]);
        }
    }
}

#[test]
fn complementary_shifts_cancel() {
    let before = [Queen, King, King, Queen, King];
    for shift in 0..25usize {
        let mut deck = deck_of(before);
        deck.cyclic_shift(shift);
        deck.cyclic_shift(5 - shift % 5);
        assert_eq!(deck.cards, before.to_vec());
    }
}

#[test]
fn two_shifts_are_one_shift_by_the_sum() {
    let before = [King, Queen, King, King, Queen];
    for first in 0..7usize {
        for second in 0..7usize {
            let mut twice = deck_of(before);
            twice.cyclic_shift(first);
            twice.cyclic_shift(second);
            let mut once = deck_of(before);
            once.cyclic_shift(first + second);
            assert_eq!(twice.cards, once.cards);
            let mut swapped = deck_of(before);
            swapped.cyclic_shift(second);
            swapped.cyclic_shift(first);
            assert_eq!(twice.cards, swapped.cards);
        }
    }
}

#[test]
fn shift_keeps_length_and_cards() {
    let before = [Queen, King, King, Queen, King];
    for shift in 0..10usize {
        let mut deck = deck_of(before);
        deck.cyclic_shift(shift);
        assert_eq!(deck.cards.len(), 5);
        let queens = deck.cards.iter().filter(|card| **card == Queen).count();
        assert_eq!(queens, 2);
    }
}

#[test]
fn decode_leaves_the_deck_as_it_was() {
    let mut deck = deck_of([King, King, Queen, King, Queen]);
    assert_eq!(deck.decode(), false);
    assert_eq!(deck.cards, vec![King, King, Queen, King, Queen]);
}

#[test]
fn decode_lines_up_on_the_first_queen() {
    let mut deck = deck_of([King, King, Queen, Queen, King]);
    assert_eq!(deck.decode(), true);
    let mut deck = deck_of([King, King, King, Queen, Queen]);
    assert_eq!(deck.decode(), true);
    let mut deck = deck_of([King, Queen, King, King, Queen]);
    assert_eq!(deck.decode(), false);
}

#[test]
fn decode_twice_tells_the_same() {
    for cards in [
        [King, King, Queen, King, Queen],
        [King, Queen, Queen, King, King],
        [Queen, King, King, King, Queen],
        [King, King, King, King, King],
    ] {
        let mut deck = deck_of(cards);
        let first = deck.decode();
        let second = deck.decode();
        assert_eq!(first, second);
        assert_eq!(deck.cards, cards.to_vec());
    }
}

#[test]
fn decode_sees_a_queen_right_behind_the_first() {
    let mut deck = deck_of([King, Queen, Queen, King, King]);
    assert_eq!(deck.decode(), true);
    assert_eq!(deck.cards, vec![King, Queen, Queen, King, King]);
}

#[test]
fn decode_sees_a_queen_at_the_end_of_the_round() {
    let mut deck = deck_of([Queen, King, King, King, Queen]);
    assert_eq!(deck.decode(), true);
    assert_eq!(deck.cards, vec![Queen, King, King, King, Queen]);
}

#[test]
fn decode_looks_only_at_the_neighbours_of_the_first_queen() {
    let mut deck = deck_of([Queen, King, Queen, Queen, King]);
    assert_eq!(deck.decode(), false);
    assert_eq!(deck.cards, vec![Queen, King, Queen, Queen, King]);
}

#[test]
fn decode_of_a_single_queen_is_no_match() {
    let mut deck = deck_of([King, King, King, King, Queen]);
    assert_eq!(deck.decode(), false);
    assert_eq!(deck.cards, vec![King, King, King, King, Queen]);
}

#[test]
fn decode_without_a_queen_is_no_match_and_leaves_the_deck() {
    let mut deck = deck_of([King, King, King, King, King]);
    assert_eq!(deck.decode(), false);
    assert_eq!(deck.cards, vec![King, King, King, King, King]);
}

#[test]
fn decode_of_five_queens_is_a_match() {
    let mut deck = deck_of([Queen, Queen, Queen, Queen, Queen]);
    assert_eq!(deck.decode(), true);
    assert_eq!(deck.cards, vec![Queen, Queen, Queen, Queen, Queen]);
}

#[test]
fn clone_holds_the_same_cards() {
    let deck = deck_of([King, Queen, King, King, Queen]);
    let copy = deck.clone();
    assert_eq!(copy.cards, vec![King, Queen, King, King, Queen]);
    assert!(copy == deck);
}

#[test]
fn decks_are_equal_when_cards_and_order_agree() {
    let deck = deck_of([King, Queen, King, King, Queen]);
    assert!(deck == deck_of([King, Queen, King, King, Queen]));
    assert!(deck != deck_of([King, Queen, King, Queen, King]));
    assert!(deck != Deck { cards: vec![King, Queen] });
    assert!(Deck { cards: vec![] } == Deck { cards: vec![] });
}
