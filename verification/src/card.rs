//! Suits, ranks and cards, and the text that a card is shown as.

use vstd::prelude::*;
use vstd::string::*;
use crate::fatal::Fatal;

verus! {

/// The four suits, in the order in which a fresh deck lists them.
#[derive(Copy, Clone, Debug, Hash, PartialEq, Eq, Structural)]
pub enum Suit {
    Hearts,
    Diamonds,
    Clubs,
    Spades,
}

impl Suit {
    /// The place of the suit in the fixed order of suits, from 0.
    pub open spec fn index(self) -> int {
        match self {
            Suit::Hearts => 0,
            Suit::Diamonds => 1,
            Suit::Clubs => 2,
            Suit::Spades => 3,
        }
    }

    /// The suit at place `i` of the fixed order of suits.
    pub open spec fn nth(i: int) -> Suit {
        if i == 0 {
            Suit::Hearts
        } else if i == 1 {
            Suit::Diamonds
        } else if i == 2 {
            Suit::Clubs
        } else {
            Suit::Spades
        }
    }

    /// The character that stands for the suit.
    pub open spec fn spec_glyph(self) -> char {
        match self {
            Suit::Hearts => '\u{2665}',
            Suit::Diamonds => '\u{2666}',
            Suit::Clubs => '\u{2663}',
            Suit::Spades => '\u{2660}',
        }
    }

    /// All suits in their fixed order.
    pub fn all() -> (suits: [Suit; 4])
        ensures
            forall|i: int| 0 <= i < 4 ==> suits@[i] == Suit::nth(i),
    {
        [Suit::Hearts, Suit::Diamonds, Suit::Clubs, Suit::Spades]
    }

    /// The suit's glyph as text of one character.
    pub fn glyph(&self) -> (g: &'static str)
        ensures
            g@ == seq![self.spec_glyph()],
    {
        match self {
            Suit::Hearts => {
                proof {
                    reveal_strlit("\u{2665}");
                }
                "\u{2665}"
            },
            Suit::Diamonds => {
                proof {
                    reveal_strlit("\u{2666}");
                }
                "\u{2666}"
            },
            Suit::Clubs => {
                proof {
                    reveal_strlit("\u{2663}");
                }
                "\u{2663}"
            },
            Suit::Spades => {
                proof {
                    reveal_strlit("\u{2660}");
                }
                "\u{2660}"
            },
        }
    }
}

/// The three court cards.
#[derive(Copy, Clone, Debug, Hash, PartialEq, Eq, Structural)]
pub enum Royalty {
    Jack,
    Queen,
    King,
}

impl Royalty {
    /// The character that stands for the court card.
    pub open spec fn spec_glyph(self) -> char {
        match self {
            Royalty::Jack => 'J',
            Royalty::Queen => 'Q',
            Royalty::King => 'K',
        }
    }

    /// The court card's glyph as text of one character.
    pub fn glyph(&self) -> (g: &'static str)
        ensures
            g@ == seq![self.spec_glyph()],
    {
        match self {
            Royalty::Jack => {
                proof {
                    reveal_strlit("J");
                }
                "J"
            },
            Royalty::Queen => {
                proof {
                    reveal_strlit("Q");
                }
                "Q"
            },
            Royalty::King => {
                proof {
                    reveal_strlit("K");
                }
                "K"
            },
        }
    }
}

/// A card's face value: a number from 2 to 10, a court card, or the ace.
///
/// `Num` can hold any `u8`; only the values from 2 to 10 are ranks of a
/// deck, and `wf` tells them apart.
#[derive(Copy, Clone, Debug, Hash, PartialEq, Eq, Structural)]
pub enum Rank {
    Num(u8),
    Face(Royalty),
    Ace,
}

impl Rank {
    /// Whether the rank is one of the thirteen ranks of a deck.
    pub open spec fn wf(self) -> bool {
        self matches Rank::Num(n) ==> 2 <= n <= 10
    }

    /// The place of the rank in the fixed order of ranks, from 0: the
    /// numbers from 2 to 10, then jack, queen, king, and the ace last.
    pub open spec fn index(self) -> int {
        match self {
            Rank::Num(n) => n - 2,
            Rank::Face(Royalty::Jack) => 9,
            Rank::Face(Royalty::Queen) => 10,
            Rank::Face(Royalty::King) => 11,
            Rank::Ace => 12,
        }
    }

    /// The rank at place `j` of the fixed order of ranks.
    pub open spec fn nth(j: int) -> Rank {
        if 0 <= j <= 8 {
            Rank::Num((j + 2) as u8)
        } else if j == 9 {
            Rank::Face(Royalty::Jack)
        } else if j == 10 {
            Rank::Face(Royalty::Queen)
        } else if j == 11 {
            Rank::Face(Royalty::King)
        } else {
            Rank::Ace
        }
    }

    /// The character that stands for the rank: the digit of a number from 2
    /// to 9, `T` for 10, the court card's letter, `A` for the ace.
    pub open spec fn spec_glyph(self) -> char {
        match self {
            Rank::Num(n) => if n == 10 {
                'T'
            } else {
                ('0' as int + n) as char
            },
            Rank::Face(royalty) => royalty.spec_glyph(),
            Rank::Ace => 'A',
        }
    }

    /// All ranks of a deck in their fixed order.
    pub fn all() -> (ranks: [Rank; 13])
        ensures
            forall|j: int| 0 <= j < 13 ==> ranks@[j] == Rank::nth(j),
    {
        [
            Rank::Num(2),
            Rank::Num(3),
            Rank::Num(4),
            Rank::Num(5),
            Rank::Num(6),
            Rank::Num(7),
            Rank::Num(8),
            Rank::Num(9),
            Rank::Num(10),
            Rank::Face(Royalty::Jack),
            Rank::Face(Royalty::Queen),
            Rank::Face(Royalty::King),
            Rank::Ace,
        ]
    }

    /// Tells whether the rank is a rank of a deck, and if it is not, names
    /// the number that it holds.
    pub fn check(&self) -> (outcome: Result<(), Fatal>)
        ensures
            outcome is Ok <==> self.wf(),
            outcome is Err ==> *self is Num && outcome == Err::<(), Fatal>(
                Fatal::InvalidRank(self->Num_0),
            ),
    {
        match self {
            Rank::Num(num) => {
                if 2 <= *num && *num <= 10 {
                    Ok(())
                } else {
                    Err(Fatal::InvalidRank(*num))
                }
            },
            _ => Ok(()),
        }
    }

    /// The rank's glyph as text of one character. A `Num` outside 2 to 10
    /// has no glyph and is not accepted.
    pub fn glyph(&self) -> (g: &'static str)
        requires
            self.wf(),
        ensures
            g@ == seq![self.spec_glyph()],
    {
        match self {
            Rank::Num(10) => {
                proof {
                    reveal_strlit("T");
                }
                "T"
            },
            Rank::Num(num) => digit_glyph(*num),
            Rank::Face(royalty) => royalty.glyph(),
            Rank::Ace => {
                proof {
                    reveal_strlit("A");
                }
                "A"
            },
        }
    }
}

/// The decimal digit `num`, from 2 to 9, as text of one character.
fn digit_glyph(num: u8) -> (g: &'static str)
    requires
        2 <= num <= 9,
    ensures
        g@ == seq![('0' as int + num) as char],
{
    proof {
        reveal_strlit("2");
        reveal_strlit("3");
        reveal_strlit("4");
        reveal_strlit("5");
        reveal_strlit("6");
        reveal_strlit("7");
        reveal_strlit("8");
        reveal_strlit("9");
    }
    if num == 2 {
        "2"
    } else if num == 3 {
        "3"
    } else if num == 4 {
        "4"
    } else if num == 5 {
        "5"
    } else if num == 6 {
        "6"
    } else if num == 7 {
        "7"
    } else if num == 8 {
        "8"
    } else {
        "9"
    }
}

/// A playing card: a suit and a rank. Two cards are equal when both agree.
#[derive(Copy, Clone, Debug, Hash, PartialEq, Eq, Structural)]
pub struct Card {
    pub suit: Suit,
    pub rank: Rank,
}

impl Card {
    /// Whether the card is one of the fifty-two cards of a deck.
    pub open spec fn wf(self) -> bool {
        self.rank.wf()
    }

    /// The place of the card in a deck in its fixed order, from 0: suit by
    /// suit, and within a suit rank by rank.
    pub open spec fn index(self) -> int {
        13 * self.suit.index() + self.rank.index()
    }

    /// The card at place `k` of a deck in its fixed order.
    pub open spec fn nth(k: int) -> Card {
        Card { suit: Suit::nth(k / 13), rank: Rank::nth(k % 13) }
    }

    /// Makes the card of the given suit and rank. Nothing is checked: a
    /// `Num` outside 2 to 10 gives a card that no deck holds.
    pub fn new(suit: Suit, rank: Rank) -> (card: Card)
        ensures
            card == (Card { suit, rank }),
    {
        Card { suit, rank }
    }

    /// The text of the card: an opening bracket, the suit's glyph, the
    /// rank's glyph and a closing bracket.
    pub open spec fn token(self) -> Seq<char> {
        seq!['[', self.suit.spec_glyph(), self.rank.spec_glyph(), ']']
    }

    /// Renders the card as its token. The rank must be a rank of a deck.
    pub fn to_string(&self) -> (text: String)
        requires
            self.wf(),
        ensures
            text@ == self.token(),
    {
        proof {
            reveal_strlit("[");
            reveal_strlit("]");
        }
        let mut text = String::from_str("[");
        text.append(self.suit.glyph());
        text.append(self.rank.glyph());
        text.append("]");
        text
    }
}

/// The fifty-two cards in their fixed order: hearts, diamonds, clubs,
/// spades, and within each suit 2 to 10, jack, queen, king, ace.
pub open spec fn full_deck() -> Seq<Card> {
    Seq::new(52, |k: int| Card::nth(k))
}

/// Whether every one of the cards is a card of a deck, so that each can be
/// rendered.
pub open spec fn all_cards_wf(cards: Seq<Card>) -> bool {
    forall|i: int| 0 <= i < cards.len() ==> (#[trigger] cards[i]).wf()
}

/// A sequence of cards that a deck can hold: each is one of the fifty-two,
/// and none occurs twice.
pub open spec fn distinct_cards(cards: Seq<Card>) -> bool {
    &&& cards.no_duplicates()
    &&& all_cards_wf(cards)
}

/// The full deck has fifty-two cards, no card twice, and holds exactly the
/// cards whose rank is a rank of a deck: all pairs of the four suits and
/// the thirteen ranks.
pub proof fn lemma_full_deck()
    ensures
        full_deck().len() == 52,
        full_deck().no_duplicates(),
        distinct_cards(full_deck()),
        forall|card: Card| card.wf() <==> #[trigger] full_deck().contains(card),
{
    let full = full_deck();
    assert forall|card: Card| card.wf() <==> #[trigger] full.contains(card) by {
        if card.wf() {
            assert(full[card.index()] == card);
        }
    }
}

} // verus!
