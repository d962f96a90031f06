use std::collections::HashSet;

use card_deck::card::{Card, Rank, Royalty, Suit};
use card_deck::deck::Deck;
use card_deck::fatal::Fatal;
use card_deck::player::Player;

#[test]
fn should_have_52_cards() {
    let deck = Deck::new();
    assert_eq!(deck.cards().len(), 52);
}

#[test]
fn should_have_unique_cards() {
    let deck = Deck::new();
    let unique_cards: HashSet<_> = deck.cards().into_iter().collect();
    assert_eq!(unique_cards.len(), 52);
}

#[test]
fn fresh_deck_holds_every_suit_and_rank() {
    let deck = Deck::new();
    for suit in Suit::all() {
        for rank in Rank::all() {
            assert!(deck.cards().contains(&Card::new(suit, rank)));
        }
    }
    assert_eq!(deck.len(), 52);
    assert!(!deck.is_empty());
}

#[test]
fn ordered_deck_lists_suits_then_ranks() {
    let deck = Deck::ordered();
    let cards = deck.cards();
    assert_eq!(cards.len(), 52);
    assert_eq!(cards[0], Card::new(Suit::Hearts, Rank::Num(2)));
    assert_eq!(cards[8], Card::new(Suit::Hearts, Rank::Num(10)));
    assert_eq!(cards[9], Card::new(Suit::Hearts, Rank::Face(Royalty::Jack)));
    assert_eq!(cards[12], Card::new(Suit::Hearts, Rank::Ace));
    assert_eq!(cards[13], Card::new(Suit::Diamonds, Rank::Num(2)));
    assert_eq!(cards[26], Card::new(Suit::Clubs, Rank::Num(2)));
    assert_eq!(cards[37], Card::new(Suit::Clubs, Rank::Face(Royalty::King)));
    assert_eq!(cards[39], Card::new(Suit::Spades, Rank::Num(2)));
    assert_eq!(cards[51], Card::new(Suit::Spades, Rank::Ace));
    let suits = Suit::all();
    let ranks = Rank::all();
    for (place, card) in cards.iter().enumerate() {
        assert_eq!(*card, Card::new(suits[place / 13], ranks[place % 13]));
    }
}

#[test]
fn shuffle_changes_the_order_and_keeps_the_cards() {
    let ordered = Deck::ordered();
    let shuffled = Deck::new();
    assert_ne!(shuffled.cards(), ordered.cards());
    let place = |card: &Card| ordered.cards().iter().position(|other| other == card).unwrap();
    let mut places: Vec<usize> = shuffled.cards().iter().map(place).collect();
    places.sort();
    assert_eq!(places, (0..52).collect::<Vec<usize>>());
}

#[test]
fn two_fresh_decks_differ_in_order() {
    let one = Deck::new();
    let other = Deck::new();
    assert_ne!(one.cards(), other.cards());
}

#[test]
fn deal_moves_the_last_card_to_the_hand() {
    let mut deck = Deck::ordered();
    let mut player = Player::new("Ann".to_owned());
    player.take_card(Card::new(Suit::Hearts, Rank::Num(2)));
    let before: Vec<Card> = deck.cards().clone();
    deck.deal(&mut player);
    assert_eq!(deck.len(), 51);
    assert_eq!(deck.cards()[..], before[..51]);
    assert_eq!(player.hand().len(), 2);
    assert_eq!(player.hand()[0], Card::new(Suit::Hearts, Rank::Num(2)));
    assert_eq!(player.hand()[1], Card::new(Suit::Spades, Rank::Ace));
    assert!(!deck.cards().contains(&Card::new(Suit::Spades, Rank::Ace)));
    assert_eq!(player.name(), "Ann");
}

#[test]
fn deal_from_a_fresh_deck_shrinks_it_by_one() {
    let mut deck = Deck::new();
    let mut player = Player::new("Ann".to_owned());
    for dealt in 1..=52usize {
        let top = *deck.cards().last().unwrap();
        deck.deal(&mut player);
        assert_eq!(deck.len(), 52 - dealt);
        assert_eq!(player.hand().len(), dealt);
        assert_eq!(*player.hand().last().unwrap(), top);
        assert!(!deck.cards().contains(&top));
    }
    assert!(deck.is_empty());
}

#[test]
fn dealing_a_whole_deck_reverses_it() {
    let mut deck = Deck::new();
    let mut start: Vec<Card> = deck.cards().clone();
    let mut player = Player::new("Ann".to_owned());
    while !deck.is_empty() {
        deck.deal(&mut player);
    }
    start.reverse();
    assert_eq!(*player.hand(), start);
}

#[test]
fn fifty_third_deal_finds_the_deck_exhausted() {
    let mut deck = Deck::new();
    let mut player = Player::new("Ann".to_owned());
    for _ in 0..52 {
        assert_eq!(deck.try_deal(&mut player), Ok(()));
    }
    assert!(deck.is_empty());
    let hand: Vec<Card> = player.hand().clone();
    assert_eq!(deck.try_deal(&mut player), Err(Fatal::DeckExhausted));
    assert_eq!(deck.len(), 0);
    assert_eq!(*player.hand(), hand);
    assert_eq!(player.hand().len(), 52);
    assert_eq!(deck.try_deal(&mut player), Err(Fatal::DeckExhausted));
}

#[test]
fn try_deal_deals_as_deal_does() {
    let mut deck = Deck::ordered();
    let mut player = Player::new("Ann".to_owned());
    assert_eq!(deck.try_deal(&mut player), Ok(()));
    assert_eq!(deck.len(), 51);
    assert_eq!(*player.hand(), vec![Card::new(Suit::Spades, Rank::Ace)]);
}
