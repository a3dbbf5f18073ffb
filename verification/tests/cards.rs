use tunebot::commands::games::{card_face, card_suit, card_val};

#[test]
fn faces_of_all_ranks() {
    let expected = ["A", "1", "2", "3", "4", "5", "6", "7", "8", "9", "J", "Q", "K"];
    for rank in 0..13i8 {
        assert_eq!(card_face(rank), expected[rank as usize]);
    }
}

#[test]
fn values_are_capped_at_ten() {
    assert_eq!(card_val(0), 1);
    assert_eq!(card_val(8), 9);
    assert_eq!(card_val(9), 10);
    assert_eq!(card_val(12), 10);
    assert_eq!(card_val(13), 1);
    assert_eq!(card_val(51), 10);
    assert_eq!(card_val(127), 10);
}

#[test]
fn values_of_negative_numbers() {
    assert_eq!(card_val(-1), 0);
    assert_eq!(card_val(-12), -11);
    assert_eq!(card_val(-13), 1);
    assert_eq!(card_val(-128), -10);
}

#[test]
fn suits_in_deck_order() {
    assert_eq!(card_suit(0), 'S');
    assert_eq!(card_suit(12), 'S');
    assert_eq!(card_suit(13), 'D');
    assert_eq!(card_suit(25), 'D');
    assert_eq!(card_suit(26), 'H');
    assert_eq!(card_suit(38), 'H');
    assert_eq!(card_suit(39), 'C');
    assert_eq!(card_suit(51), 'C');
}

#[test]
fn fresh_deck_runs_twice_through_the_cards() {
    let deck = tunebot::commands::games::new_deck();
    assert_eq!(deck.len(), 102);
    assert_eq!(deck[0], 0);
    assert_eq!(deck[50], 50);
    assert_eq!(deck[51], 0);
    assert_eq!(deck[101], 50);
    let expected: Vec<i8> = (0..51).chain(0..51).collect();
    assert_eq!(deck, expected);
}

#[test]
fn mentions_and_announcement() {
    assert_eq!(tunebot::commands::games::mention(42), "<@!42>");
    assert_eq!(
        tunebot::commands::games::announcement(123456789012345678),
        "<@!123456789012345678> has started a new blackjack game!"
    );
}

#[test]
fn players_join_once() {
    let mut players = tunebot::commands::games::Players::new(1);
    assert_eq!(players.len(), 1);
    assert!(players.contains(1));
    assert!(!players.contains(2));
    assert_eq!(players.mentions(), "<@!1>");
    assert!(players.insert(2));
    assert!(!players.insert(1));
    assert!(!players.insert(2));
    assert!(players.insert(3));
    assert_eq!(players.len(), 3);
    assert_eq!(players.mentions(), "<@!1> <@!2> <@!3>");
}
