use card_deck::card::{Card, Rank, Royalty, Suit};
use card_deck::fatal::Fatal;
use card_deck::player::Player;

#[test]
fn new_player_has_the_name_and_no_cards() {
    let player = Player::new("Dealer".to_owned());
    assert_eq!(player.name(), "Dealer");
    assert!(player.hand().is_empty());
    assert_eq!(player.fmt_hand(), "");
    assert_eq!(player.hand_line(), "Dealer ");
    assert_eq!(player.check_hand(), Ok(()));
}

#[test]
fn take_card_keeps_the_order_of_receipt() {
    let mut player = Player::new("Ann".to_owned());
    let cards = [
        Card::new(Suit::Clubs, Rank::Num(9)),
        Card::new(Suit::Hearts, Rank::Ace),
        Card::new(Suit::Clubs, Rank::Num(9)),
        Card::new(Suit::Spades, Rank::Face(Royalty::Jack)),
    ];
    for (taken, card) in cards.iter().enumerate() {
        player.take_card(*card);
        assert_eq!(player.hand().len(), taken + 1);
        assert_eq!(player.hand()[..], cards[..taken + 1]);
    }
    assert_eq!(player.name(), "Ann");
}

#[test]
fn hand_is_rendered_without_separator() {
    let mut player = Player::new("Ann".to_owned());
    player.take_card(Card::new(Suit::Hearts, Rank::Face(Royalty::Queen)));
    assert_eq!(player.fmt_hand(), "[\u{2665}Q]");
    player.take_card(Card::new(Suit::Spades, Rank::Num(10)));
    player.take_card(Card::new(Suit::Clubs, Rank::Ace));
    player.take_card(Card::new(Suit::Diamonds, Rank::Num(2)));
    assert_eq!(player.fmt_hand(), "[\u{2665}Q][\u{2660}T][\u{2663}A][\u{2666}2]");
}

#[test]
fn hand_line_is_name_space_hand() {
    let mut dealer = Player::new("Dealer".to_owned());
    dealer.take_card(Card::new(Suit::Hearts, Rank::Face(Royalty::King)));
    dealer.take_card(Card::new(Suit::Diamonds, Rank::Num(10)));
    assert_eq!(dealer.hand_line(), "Dealer [\u{2665}K][\u{2666}T]");
}

#[test]
fn hand_line_keeps_a_name_with_spaces() {
    let mut player = Player::new("Ann Lee".to_owned());
    player.take_card(Card::new(Suit::Clubs, Rank::Num(5)));
    assert_eq!(player.hand_line(), "Ann Lee [\u{2663}5]");
}

#[test]
fn check_hand_names_the_first_invalid_rank() {
    let mut player = Player::new("Ann".to_owned());
    player.take_card(Card::new(Suit::Clubs, Rank::Num(5)));
    assert_eq!(player.check_hand(), Ok(()));
    player.take_card(Card::new(Suit::Clubs, Rank::Num(12)));
    player.take_card(Card::new(Suit::Hearts, Rank::Ace));
    player.take_card(Card::new(Suit::Hearts, Rank::Num(1)));
    assert_eq!(player.check_hand(), Err(Fatal::InvalidRank(12)));
}
