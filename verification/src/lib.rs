//! A standard deck of fifty-two playing cards that is built, shuffled and
//! dealt to players, with the behaviour of every function stated as a
//! contract and proved.

pub mod card;
pub mod deck;
pub mod fatal;
pub mod game;
pub mod player;
pub mod random;
