//! The deck: fifty-two distinct cards, shuffled once and then dealt from
//! the end.

use vstd::prelude::*;
use crate::card::{Card, Rank, Suit, distinct_cards, full_deck, lemma_full_deck};
use crate::fatal::Fatal;
use crate::player::{Player, PlayerView};
use crate::random::shuffle;

verus! {

/// The cards that are left to deal, in order; the last one is dealt next.
pub struct Deck {
    cards: Vec<Card>,
}

impl View for Deck {
    type V = Seq<Card>;

    closed spec fn view(&self) -> Seq<Card> {
        self.cards@
    }
}

/// A sequence with the same items as the full deck, each as often, is a
/// full deck in some order: fifty-two cards, none twice, and every card of
/// a deck among them.
pub proof fn lemma_permutation_of_full_deck(cards: Seq<Card>)
    requires
        cards.to_multiset() == full_deck().to_multiset(),
    ensures
        cards.len() == 52,
        distinct_cards(cards),
        forall|card: Card| card.wf() <==> #[trigger] cards.contains(card),
{
    let full = full_deck();
    lemma_full_deck();
    assert(cards.len() == 52) by {
        vstd::seq_lib::to_multiset_len(cards);
        vstd::seq_lib::to_multiset_len(full);
    }
    full.lemma_multiset_has_no_duplicates();
    cards.lemma_multiset_has_no_duplicates_conv();
    assert forall|card: Card| card.wf() <==> #[trigger] cards.contains(card) by {
        vstd::seq_lib::to_multiset_contains(cards, card);
        vstd::seq_lib::to_multiset_contains(full, card);
    }
    assert forall|i: int| 0 <= i < cards.len() implies (#[trigger] cards[i]).wf() by {
        assert(cards.contains(cards[i]));
    }
}

/// No deck holds more than fifty-two cards: its cards are distinct cards
/// of the full deck.
pub proof fn lemma_at_most_full(cards: Seq<Card>)
    requires
        distinct_cards(cards),
    ensures
        cards.len() <= 52,
{
    let full = full_deck();
    lemma_full_deck();
    cards.unique_seq_to_set();
    full.unique_seq_to_set();
    vstd::set_lib::lemma_len_subset(cards.to_set(), full.to_set());
}

impl Deck {
    /// What every deck keeps: its cards are cards of a deck, and no card
    /// is in it twice.
    pub open spec fn wf(&self) -> bool {
        distinct_cards(self@)
    }

    /// The full deck in its fixed order, not shuffled: hearts, diamonds,
    /// clubs, spades, and within each suit from 2 up to the ace.
    pub fn ordered() -> (deck: Deck)
        ensures
            deck.wf(),
            deck@ == full_deck(),
            deck@.len() == 52,
            deck@.no_duplicates(),
            forall|card: Card| card.wf() <==> #[trigger] deck@.contains(card),
    {
        let suits = Suit::all();
        let ranks = Rank::all();
        let mut cards: Vec<Card> = Vec::with_capacity(52);
        for i in 0..4usize
            invariant
                cards@ == full_deck().take(13 * i),
                forall|s: int| 0 <= s < 4 ==> suits@[s] == Suit::nth(s),
                forall|r: int| 0 <= r < 13 ==> ranks@[r] == Rank::nth(r),
        {
            for j in 0..13usize
                invariant
                    0 <= i < 4,
                    cards@ == full_deck().take(13 * i + j),
                    forall|s: int| 0 <= s < 4 ==> suits@[s] == Suit::nth(s),
                    forall|r: int| 0 <= r < 13 ==> ranks@[r] == Rank::nth(r),
            {
                cards.push(Card::new(suits[i], ranks[j]));
            }
        }
        proof {
            lemma_full_deck();
            assert(cards@ == full_deck());
        }
        Deck { cards }
    }

    /// A fresh deck: the fifty-two cards in an order that the thread's
    /// random source picks. Whatever the order, the deck holds each card of
    /// a deck exactly once.
    pub fn new() -> (deck: Deck)
        ensures
            deck.wf(),
            deck@.len() == 52,
            deck@.no_duplicates(),
            forall|card: Card| card.wf() <==> #[trigger] deck@.contains(card),
            deck@.to_multiset() == full_deck().to_multiset(),
    {
        let mut deck = Deck::ordered();
        let mut rng = rand::thread_rng();
        shuffle(&mut deck.cards, &mut rng);
        proof {
            lemma_permutation_of_full_deck(deck@);
        }
        deck
    }

    /// Deals the last card of the deck to the player: it leaves the deck
    /// and becomes the last card of the player's hand. The deck must have
    /// a card left.
    pub fn deal(&mut self, player: &mut Player)
        requires
            old(self).wf(),
            old(self)@.len() > 0,
        ensures
            final(self).wf(),
            final(self)@ == old(self)@.drop_last(),
            final(self)@.len() == old(self)@.len() - 1,
            !final(self)@.contains(old(self)@.last()),
            final(player)@ == (PlayerView {
                name: old(player)@.name,
                hand: old(player)@.hand.push(old(self)@.last()),
            }),
            final(player)@.hand.len() == old(player)@.hand.len() + 1,
    {
        let card = self.cards.pop().expect("Out of cards");
        player.take_card(card);
    }

    /// Deals as `deal` does if the deck has a card left. If it has none,
    /// says so and changes neither the deck nor the player.
    pub fn try_deal(&mut self, player: &mut Player) -> (outcome: Result<(), Fatal>)
        requires
            old(self).wf(),
        ensures
            final(self).wf(),
            old(self)@.len() > 0 ==> {
                &&& outcome is Ok
                &&& final(self)@ == old(self)@.drop_last()
                &&& !final(self)@.contains(old(self)@.last())
                &&& final(player)@ == (PlayerView {
                    name: old(player)@.name,
                    hand: old(player)@.hand.push(old(self)@.last()),
                })
            },
            old(self)@.len() == 0 ==> {
                &&& outcome == Err::<(), Fatal>(Fatal::DeckExhausted)
                &&& final(self)@ == old(self)@
                &&& final(player)@ == old(player)@
            },
    {
        if self.cards.is_empty() {
            Err(Fatal::DeckExhausted)
        } else {
            self.deal(player);
            Ok(())
        }
    }

    /// The number of cards left in the deck.
    pub fn len(&self) -> (n: usize)
        requires
            self.wf(),
        ensures
            n == self@.len(),
            n <= 52,
    {
        proof {
            lemma_at_most_full(self@);
        }
        self.cards.len()
    }

    /// Whether no card is left in the deck.
    pub fn is_empty(&self) -> (empty: bool)
        ensures
            empty <==> self@.len() == 0,
    {
        self.cards.is_empty()
    }

    /// The cards left in the deck, in order; the last one is dealt next.
    pub fn cards(&self) -> (cards: &Vec<Card>)
        ensures
            cards@ == self@,
    {
        &self.cards
    }
}

} // verus!
