//! Pebbles: a two-player take-away game played against a program.
//!
//! A pile starts with `N` pebbles. The user and the program take turns
//! removing between one and `K` pebbles; whoever removes the last pebble
//! loses the round. The crate holds the rules of the game, the program's
//! strategy at two difficulty levels, and a container that a host drives
//! with one message at a time. Every function is verified against a
//! contract over the models defined next to it.
//!
//! - `messages`: the values that travel between the game and its host.
//! - `error`: the reasons for which a message is refused.
//! - `random`: the queue of random draws that the host hands over.
//! - `strategy`: how the program chooses its move.
//! - `game`: the rules of a round, as operations on the record of a game.
//! - `adapter`: the container that a host holds, and its entry points.
//! - `laws`: what holds of every game, stated and proved.

pub mod adapter;
pub mod error;
pub mod game;
pub mod laws;
pub mod messages;
pub mod random;
pub mod strategy;
