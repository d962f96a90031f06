//! The two conditions that stop the program.

use vstd::prelude::*;

verus! {

/// A condition under which the program cannot go on. Neither arises when a
/// deck is dealt to players as intended; each marks a mistake of the caller.
#[derive(Copy, Clone, Debug, PartialEq, Eq, Structural)]
pub enum Fatal {
    /// A card was asked of a deck that has none left.
    DeckExhausted,
    /// A `Num` rank outside 2 to 10 was to be rendered; it held this number.
    InvalidRank(u8),
}

} // verus!
