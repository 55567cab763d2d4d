use french_deck::{Card, FrenchDeck};

fn card(rank: &str, suit: &str) -> Card {
    Card { rank: rank.into(), suit: suit.into() }
}

#[test]
fn initialize_deck() {
    let deck = FrenchDeck::new();
    assert_eq!(52, deck.len());
}

#[test]
fn index_deck() {
    let deck = FrenchDeck::new();
    assert_eq!(
        Card {
            rank: "2".into(),
            suit: "spades".into()
        },
        deck[0]
    )
}

#[test]
fn index_range_deck() {
    let deck = FrenchDeck::new();
    assert_eq!(
        [
            Card {
                rank: "2".into(),
                suit: "spades".into()
            },
            Card {
                rank: "3".into(),
                suit: "spades".into()
            }
        ],
        deck[0..2]
    )
}

#[test]
fn first_second_and_last_cards() {
    let deck = FrenchDeck::new();
    assert_eq!(card("2", "spades"), deck[0]);
    assert_eq!(card("3", "spades"), deck[1]);
    assert_eq!(card("A", "hearts"), deck[51]);
}

#[test]
fn suits_follow_one_another() {
    let deck = FrenchDeck::new();
    assert_eq!(card("10", "spades"), deck[8]);
    assert_eq!(card("A", "spades"), deck[12]);
    assert_eq!(card("2", "diamonds"), deck[13]);
    assert_eq!(card("J", "diamonds"), deck[22]);
    assert_eq!(card("Q", "clubs"), deck[36]);
    assert_eq!(card("K", "hearts"), deck[50]);
}

#[test]
fn every_card_appears_once() {
    let deck = FrenchDeck::new();
    let ranks = ["2", "3", "4", "5", "6", "7", "8", "9", "10", "J", "Q", "K", "A"];
    let suits = ["spades", "diamonds", "clubs", "hearts"];
    for suit in suits.iter() {
        for rank in ranks.iter() {
            let c = card(rank, suit);
            let n = (&deck).into_iter().filter(|d| **d == c).count();
            assert_eq!(1, n);
        }
    }
}

#[test]
fn full_range_matches_iteration() {
    let deck = FrenchDeck::new();
    let all = &deck[0..deck.len()];
    let iterated: Vec<&Card> = (&deck).into_iter().collect();
    assert_eq!(all.len(), iterated.len());
    for i in 0..all.len() {
        assert_eq!(&all[i], iterated[i]);
    }
}

#[test]
fn iteration_yields_every_index_in_order() {
    let deck = FrenchDeck::new();
    let mut n: usize = 0;
    for c in &deck {
        assert_eq!(&deck[n], c);
        n += 1;
    }
    assert_eq!(52, n);
}

#[test]
fn iteration_can_be_repeated() {
    let deck = FrenchDeck::new();
    let first: Vec<&Card> = (&deck).into_iter().collect();
    let second: Vec<&Card> = (&deck).into_iter().collect();
    assert_eq!(first, second);
}

#[test]
fn reads_do_not_change_the_deck() {
    let deck = FrenchDeck::new();
    assert_eq!(deck.len(), deck.len());
    assert_eq!(deck[7], deck[7]);
    let _ = &deck[3..9];
    for _ in &deck {}
    assert_eq!(52, deck.len());
    assert_eq!(card("9", "spades"), deck[7]);
}

#[test]
fn empty_and_middle_ranges() {
    let deck = FrenchDeck::new();
    assert_eq!(0, deck[0..0].len());
    assert_eq!(0, deck[52..52].len());
    let middle = &deck[12..15];
    assert_eq!(
        [card("A", "spades"), card("2", "diamonds"), card("3", "diamonds")],
        middle
    );
    assert_eq!([card("A", "hearts")], deck[51..52]);
}

#[test]
fn card_equality_compares_both_fields() {
    assert_eq!(card("Q", "clubs"), card("Q", "clubs"));
    assert_ne!(card("Q", "clubs"), card("Q", "hearts"));
    assert_ne!(card("Q", "clubs"), card("K", "clubs"));
}
