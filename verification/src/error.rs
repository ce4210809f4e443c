//! Why a message was turned down.

use vstd::prelude::*;

verus! {

/// The reasons for which the game refuses a message. A refused message
/// never changes the game.
#[derive(Clone, Copy, Debug, PartialEq, Eq, Structural)]
pub enum GameError {
    /// The parameters allow no pebble to be removed in a turn.
    ZeroTurnLimit,
    /// The parameters give a pile that one turn could empty.
    PileTooSmall,
    /// The user asked to remove no pebble.
    EmptyTurn,
    /// The user asked to remove more pebbles than one turn allows.
    TurnTooLarge,
    /// The game was addressed before it was created.
    NotInitialized,
    /// The game was asked to come into being a second time.
    AlreadyInitialized,
    /// A random draw was needed and the source had none left.
    OracleFailure,
}

impl GameError {
    /// The text that `message` returns for each error.
    pub open spec fn spec_message(self) -> Seq<char> {
        match self {
            GameError::ZeroTurnLimit => "Max pebbles per turn must be at least one."@,
            GameError::PileTooSmall => "Pebbles count must be greater than max pebbles per turn."@,
            GameError::EmptyTurn => "At least one pebble must be removed."@,
            GameError::TurnTooLarge => "Pebbles count exceeds the maximum allowed"@,
            GameError::NotInitialized => "Game state not initialized."@,
            GameError::AlreadyInitialized => "Game state already initialized."@,
            GameError::OracleFailure => "Random source failed."@,
        }
    }

    /// Whether the error faults the parameters of a game.
    pub open spec fn is_config_error(self) -> bool {
        self == GameError::ZeroTurnLimit || self == GameError::PileTooSmall
    }

    /// Whether the error faults the number of pebbles in a turn.
    pub open spec fn is_turn_error(self) -> bool {
        self == GameError::EmptyTurn || self == GameError::TurnTooLarge
    }

    /// The sentence that tells the user what went wrong.
    pub fn message(&self) -> (text: &'static str)
        ensures
            text@ == self.spec_message(),
    {
        match self {
            GameError::ZeroTurnLimit => "Max pebbles per turn must be at least one.",
            GameError::PileTooSmall => "Pebbles count must be greater than max pebbles per turn.",
            GameError::EmptyTurn => "At least one pebble must be removed.",
            GameError::TurnTooLarge => "Pebbles count exceeds the maximum allowed",
            GameError::NotInitialized => "Game state not initialized.",
            GameError::AlreadyInitialized => "Game state already initialized.",
            GameError::OracleFailure => "Random source failed.",
        }
    }
}

} // verus!
