//! A player: a name and the hand of cards received so far.

use vstd::prelude::*;
use vstd::string::*;
use crate::card::{Card, all_cards_wf};
use crate::fatal::Fatal;

verus! {

/// A player owns a name, which never changes, and a hand, which holds the
/// cards in the order in which they were received.
pub struct Player {
    name: String,
    hand: Vec<Card>,
}

/// What a player is to the contracts: the characters of the name and the
/// cards of the hand, first received first.
#[verifier::ext_equal]
pub struct PlayerView {
    pub name: Seq<char>,
    pub hand: Seq<Card>,
}

impl View for Player {
    type V = PlayerView;

    closed spec fn view(&self) -> PlayerView {
        PlayerView { name: self.name@, hand: self.hand@ }
    }
}

/// Whether place `i` of the hand holds the first card that is no card of a
/// deck: it is none, and all before it are.
pub open spec fn first_invalid_at(hand: Seq<Card>, i: int) -> bool {
    &&& 0 <= i < hand.len()
    &&& all_cards_wf(hand.take(i))
    &&& !hand[i].wf()
}

/// The text of a hand: the tokens of its cards in hand order, one after
/// the other with nothing between them.
pub open spec fn hand_text(hand: Seq<Card>) -> Seq<char>
    decreases hand.len(),
{
    if hand.len() == 0 {
        Seq::empty()
    } else {
        hand_text(hand.drop_last()) + hand.last().token()
    }
}

impl Player {
    /// A player of the given name with an empty hand.
    pub fn new(name: String) -> (player: Player)
        ensures
            player@ == (PlayerView { name: name@, hand: Seq::empty() }),
    {
        Player { name, hand: Vec::new() }
    }

    /// Puts the card at the end of the hand; the name and the cards
    /// received before stay as they are.
    pub fn take_card(&mut self, card: Card)
        ensures
            final(self)@ == (PlayerView { name: old(self)@.name, hand: old(self)@.hand.push(card) }),
    {
        self.hand.push(card);
    }

    /// Renders the hand: the token of each card, in hand order, without a
    /// separator. Every card of the hand must be a card of a deck.
    pub fn fmt_hand(&self) -> (text: String)
        requires
            all_cards_wf(self@.hand),
        ensures
            text@ == hand_text(self@.hand),
    {
        let mut text = String::new();
        for i in 0..self.hand.len()
            invariant
                all_cards_wf(self.hand@),
                text@ == hand_text(self.hand@.take(i as int)),
        {
            let token = self.hand[i].to_string();
            text.append(token.as_str());
            assert(self.hand@.take(i + 1).drop_last() == self.hand@.take(i as int));
        }
        assert(self.hand@.take(self.hand@.len() as int) == self.hand@);
        text
    }

    /// The line that shows the player: the name, a space, and the hand as
    /// `fmt_hand` renders it.
    pub fn hand_line(&self) -> (line: String)
        requires
            all_cards_wf(self@.hand),
        ensures
            line@ == self@.name + seq![' '] + hand_text(self@.hand),
    {
        proof {
            reveal_strlit(" ");
        }
        let hand = self.fmt_hand();
        let mut line = self.name.clone();
        line.append(" ");
        line.append(hand.as_str());
        line
    }

    /// Tells whether the hand can be rendered. If it cannot, names the
    /// number held by the first card of the hand that is no card of a deck.
    pub fn check_hand(&self) -> (outcome: Result<(), Fatal>)
        ensures
            outcome is Ok <==> all_cards_wf(self@.hand),
            outcome is Err ==> exists|i: int|
                #[trigger] first_invalid_at(self@.hand, i) && outcome == Err::<(), Fatal>(
                    Fatal::InvalidRank(self@.hand[i].rank->Num_0),
                ),
    {
        for i in 0..self.hand.len()
            invariant
                all_cards_wf(self.hand@.take(i as int)),
        {
            let outcome = self.hand[i].rank.check();
            if outcome.is_err() {
                assert(first_invalid_at(self@.hand, i as int));
                return outcome;
            }
        }
        assert(self.hand@.take(self.hand@.len() as int) == self.hand@);
        Ok(())
    }

    /// The player's name.
    pub fn name(&self) -> (name: &str)
        ensures
            name@ == self@.name,
    {
        self.name.as_str()
    }

    /// The cards of the hand, first received first.
    pub fn hand(&self) -> (hand: &Vec<Card>)
        ensures
            hand@ == self@.hand,
    {
        &self.hand
    }
}

} // verus!
