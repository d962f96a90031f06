//! The opening of a game: a fresh deck, the dealer and a guest, and two
//! cards for each.

use vstd::prelude::*;
use vstd::string::*;
use crate::card::{Card, all_cards_wf, distinct_cards, full_deck};
use crate::deck::Deck;
use crate::player::{Player, PlayerView};

verus! {

/// Deals four cards from the end of the deck, one at a time and in turn:
/// to the first player, to the second, to the first, to the second. The
/// deck must have four cards left.
///
/// The four cards dealt are distinct and none of them stays in the deck.
pub fn deal_opening_hands(deck: &mut Deck, first: &mut Player, second: &mut Player)
    requires
        old(deck).wf(),
        old(deck)@.len() >= 4,
    ensures
        final(deck).wf(),
        final(deck)@ == old(deck)@.take(old(deck)@.len() - 4),
        final(first)@ == (PlayerView {
            name: old(first)@.name,
            hand: old(first)@.hand + seq![
                old(deck)@[old(deck)@.len() - 1],
                old(deck)@[old(deck)@.len() - 3],
            ],
        }),
        final(second)@ == (PlayerView {
            name: old(second)@.name,
            hand: old(second)@.hand + seq![
                old(deck)@[old(deck)@.len() - 2],
                old(deck)@[old(deck)@.len() - 4],
            ],
        }),
        distinct_cards(old(deck)@.skip(old(deck)@.len() - 4)),
        forall|k: int|
            old(deck)@.len() - 4 <= k < old(deck)@.len() ==> !final(deck)@.contains(
                #[trigger] old(deck)@[k],
            ),
{
    let ghost start = deck@;
    let ghost n = deck@.len() as int;
    let ghost first_hand = first@.hand;
    let ghost second_hand = second@.hand;
    for round in 0..2usize
        invariant
            n == start.len(),
            n >= 4,
            distinct_cards(start),
            deck.wf(),
            deck@ == start.take(n - 2 * round),
            first@.name == old(first)@.name,
            first@.hand == first_hand + Seq::new(round as nat, |t: int| start[n - 1 - 2 * t]),
            second@.name == old(second)@.name,
            second@.hand == second_hand + Seq::new(round as nat, |t: int| start[n - 2 - 2 * t]),
    {
        deck.deal(first);
        deck.deal(second);
    }
}

/// A game after its opening: the dealer and the guest with their first
/// hands, and the deck with the cards that are left.
pub struct Opening {
    pub dealer: Player,
    pub guest: Player,
    pub deck: Deck,
}

impl Opening {
    /// The deck as it lay before the opening hands were dealt from it: the
    /// cards that are left, and after them the four cards dealt, the one
    /// dealt last first.
    pub open spec fn deck_before(&self) -> Seq<Card> {
        self.deck@ + seq![
            self.dealer@.hand[1],
            self.guest@.hand[1],
            self.dealer@.hand[0],
            self.guest@.hand[0],
        ]
    }
}

/// Opens a game: shuffles a fresh deck, seats the dealer, who is named
/// `Dealer`, and a guest of the given name, and deals two cards to each in
/// turn, the guest first.
///
/// Which cards they hold is up to the shuffle. Whatever it gave, the deck
/// before the deal held each card of a deck once; so the four cards dealt
/// are distinct cards of a deck, none of them is left in the deck, and both
/// hands can be rendered.
pub fn opening(guest_name: String) -> (game: Opening)
    ensures
        game.dealer@.name == "Dealer"@,
        game.guest@.name == guest_name@,
        game.dealer@.hand.len() == 2,
        game.guest@.hand.len() == 2,
        game.deck.wf(),
        game.deck@.len() == 48,
        game.deck_before().to_multiset() == full_deck().to_multiset(),
        distinct_cards(game.guest@.hand + game.dealer@.hand),
        forall|i: int|
            0 <= i < 2 ==> !game.deck@.contains(#[trigger] game.guest@.hand[i])
                && !game.deck@.contains(#[trigger] game.dealer@.hand[i]),
        all_cards_wf(game.dealer@.hand),
        all_cards_wf(game.guest@.hand),
{
    let mut deck = Deck::new();
    let mut dealer = Player::new(String::from_str("Dealer"));
    let mut guest = Player::new(guest_name);
    let ghost start = deck@;
    deal_opening_hands(&mut deck, &mut guest, &mut dealer);
    let game = Opening { dealer, guest, deck };
    proof {
        assert(game.deck_before() == start);
    }
    game
}

} // verus!
