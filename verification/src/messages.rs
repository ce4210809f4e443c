//! The typed values exchanged between the game and its host.

use vstd::prelude::*;

verus! {

/// How well the program plays.
#[derive(Clone, Copy, Debug, PartialEq, Eq, Structural)]
pub enum DifficultyLevel {
    /// The program removes a random number of pebbles.
    Easy,
    /// The program plays the winning strategy whenever one exists.
    Hard,
}

/// One of the two participants of a round.
#[derive(Clone, Copy, Debug, PartialEq, Eq, Structural)]
pub enum Player {
    User,
    Program,
}

/// The parameters of a game, sent once when the game is created and again
/// with every restart.
#[derive(Clone, Copy, Debug, PartialEq, Eq, Structural)]
pub struct PebblesInit {
    pub difficulty: DifficultyLevel,
    /// Size of the pile at the start of every round.
    pub pebbles_count: u32,
    /// Largest number of pebbles that may be removed in one turn.
    pub max_pebbles_per_turn: u32,
}

/// What the user asks of a running game.
#[derive(Clone, Copy, Debug, PartialEq, Eq, Structural)]
pub enum PebblesAction {
    /// Remove this many pebbles.
    Turn(u32),
    /// Concede the round.
    GiveUp,
    /// Start over with new parameters.
    Restart { difficulty: DifficultyLevel, pebbles_count: u32, max_pebbles_per_turn: u32 },
}

/// What the game reports after a turn.
#[derive(Clone, Copy, Debug, PartialEq, Eq, Structural)]
pub enum PebblesEvent {
    /// The program answered by removing this many pebbles.
    CounterTurn(u32),
    /// The round is over and this player has won it.
    Won(Player),
}

/// The record of a game between two messages.
#[derive(Clone, Copy, Debug, PartialEq, Eq, Structural)]
pub struct GameState {
    pub pebbles_count: u32,
    pub max_pebbles_per_turn: u32,
    pub pebbles_remaining: u32,
    pub difficulty: DifficultyLevel,
    pub first_player: Player,
    pub winner: Option<Player>,
}

} // verus!
