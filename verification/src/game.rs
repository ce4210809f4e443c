//! The rules of a round: creating a game, applying the user's turn and
//! the program's answer, conceding, restarting, and starting the next
//! round.
//!
//! Every operation is described by a spec function from the game, the
//! message and the draws at hand to the game afterwards, the reply and the
//! draws left over. The executable operations are proved to compute
//! exactly that.

use vstd::prelude::*;
use crate::error::GameError;
use crate::messages::{GameState, PebblesEvent, PebblesInit, Player};
use crate::random::RandomSource;
use crate::strategy::{program_move, spec_program_move};

verus! {

impl PebblesInit {
    /// Whether a game can be played with these parameters: a turn removes
    /// at least one pebble, and no single turn can empty the full pile.
    pub open spec fn valid(&self) -> bool {
        self.max_pebbles_per_turn >= 1 && self.pebbles_count > self.max_pebbles_per_turn
    }

    /// The fault of these parameters, if they have one.
    pub open spec fn fault(&self) -> Option<GameError> {
        if self.max_pebbles_per_turn == 0 {
            Some(GameError::ZeroTurnLimit)
        } else if self.pebbles_count <= self.max_pebbles_per_turn {
            Some(GameError::PileTooSmall)
        } else {
            None
        }
    }

    /// Checks the parameters and names their fault, if they have one.
    pub fn validate(&self) -> (result: Result<(), GameError>)
        ensures
            result is Ok <==> self.valid(),
            result matches Err(fault) ==> self.fault() == Some(fault),
    {
        if self.max_pebbles_per_turn == 0 {
            Err(GameError::ZeroTurnLimit)
        } else if self.pebbles_count <= self.max_pebbles_per_turn {
            Err(GameError::PileTooSmall)
        } else {
            Ok(())
        }
    }
}

/// The fault of a turn that removes `n` pebbles where `max_per_turn` are
/// allowed, if it has one.
pub open spec fn turn_fault(n: u32, max_per_turn: u32) -> Option<GameError> {
    if n == 0 {
        Some(GameError::EmptyTurn)
    } else if n > max_per_turn {
        Some(GameError::TurnTooLarge)
    } else {
        None
    }
}

/// The game at the start of a round that `first_player` opens, before
/// anybody has moved.
pub open spec fn spec_fresh(cfg: PebblesInit, first_player: Player) -> GameState {
    GameState {
        pebbles_count: cfg.pebbles_count,
        max_pebbles_per_turn: cfg.max_pebbles_per_turn,
        pebbles_remaining: cfg.pebbles_count,
        difficulty: cfg.difficulty,
        first_player,
        winner: None,
    }
}

/// Who opens the first round, decided by the parity of a draw.
pub open spec fn spec_first_player(coin: u32) -> Player {
    if coin % 2 == 0 {
        Player::User
    } else {
        Player::Program
    }
}

/// Creating a game: the result and the draws left over.
///
/// Faulty parameters are refused before any draw is taken. Otherwise the
/// first draw decides who opens. If the program opens, it moves at once,
/// which may take a second draw. A draw that is missing fails the
/// creation.
pub open spec fn spec_init(cfg: PebblesInit, draws: Seq<u32>) -> (
    Result<GameState, GameError>,
    Seq<u32>,
) {
    if let Some(fault) = cfg.fault() {
        (Err(fault), draws)
    } else if draws.len() == 0 {
        (Err(GameError::OracleFailure), draws)
    } else if spec_first_player(draws[0]) == Player::User {
        (Ok(spec_fresh(cfg, Player::User)), draws.skip(1))
    } else {
        let (opening, rest) = spec_program_move(
            cfg.pebbles_count,
            cfg.max_pebbles_per_turn,
            cfg.difficulty,
            draws.skip(1),
        );
        match opening {
            Some(p) => (
                Ok(
                    GameState {
                        pebbles_remaining: (cfg.pebbles_count - p) as u32,
                        ..spec_fresh(cfg, Player::Program)
                    },
                ),
                rest,
            ),
            None => (Err(GameError::OracleFailure), rest),
        }
    }
}

impl GameState {
    /// The invariant of a game between two messages: the parameters are
    /// valid, the pile is no larger than at the start of the round, and no
    /// winner is recorded.
    pub open spec fn wf(&self) -> bool {
        &&& self.max_pebbles_per_turn >= 1
        &&& self.pebbles_count > self.max_pebbles_per_turn
        &&& self.pebbles_remaining <= self.pebbles_count
        &&& self.winner is None
    }

    /// The parameters that the game was created with.
    pub open spec fn config(&self) -> PebblesInit {
        PebblesInit {
            difficulty: self.difficulty,
            pebbles_count: self.pebbles_count,
            max_pebbles_per_turn: self.max_pebbles_per_turn,
        }
    }

    /// The game at the start of its next round: the pile is full again and
    /// no winner is recorded. The parameters stay, and so does the record
    /// of who opened the first round. In every later round the user moves
    /// first.
    pub open spec fn spec_reset(self) -> GameState {
        GameState { pebbles_remaining: self.pebbles_count, winner: None, ..self }
    }

    /// The user's turn: the game afterwards, the reply and the draws left
    /// over.
    ///
    /// A faulty turn is refused. A turn that takes the last pebble loses
    /// the round to the program. Otherwise the program answers: if its
    /// answer takes the last pebble the user wins the round, else the
    /// answer is reported. The end of a round starts the next one. If
    /// the program needs a draw and none is left, the turn fails and the
    /// user's pebbles stay on the pile.
    pub open spec fn spec_turn(self, n: u32, draws: Seq<u32>) -> (
        GameState,
        Result<PebblesEvent, GameError>,
        Seq<u32>,
    ) {
        if let Some(fault) = turn_fault(n, self.max_pebbles_per_turn) {
            (self, Err(fault), draws)
        } else if n >= self.pebbles_remaining {
            (self.spec_reset(), Ok(PebblesEvent::Won(Player::Program)), draws)
        } else {
            let left = (self.pebbles_remaining - n) as u32;
            let (answer, rest) = spec_program_move(
                left,
                self.max_pebbles_per_turn,
                self.difficulty,
                draws,
            );
            match answer {
                None => (self, Err(GameError::OracleFailure), rest),
                Some(p) => if p >= left {
                    (self.spec_reset(), Ok(PebblesEvent::Won(Player::User)), rest)
                } else {
                    (
                        GameState { pebbles_remaining: (left - p) as u32, ..self },
                        Ok(PebblesEvent::CounterTurn(p)),
                        rest,
                    )
                },
            }
        }
    }

    /// Restarting: the game afterwards, the result and the draws left
    /// over. A game created from the new parameters takes the place of the
    /// old one; if it cannot be created, the old one stays.
    pub open spec fn spec_restart(self, cfg: PebblesInit, draws: Seq<u32>) -> (
        GameState,
        Result<(), GameError>,
        Seq<u32>,
    ) {
        match spec_init(cfg, draws) {
            (Ok(game), rest) => (game, Ok(()), rest),
            (Err(fault), rest) => (self, Err(fault), rest),
        }
    }

    /// Creates a game from `cfg`, drawing from `rng` to decide who opens
    /// and, if the program opens, to let it make its first move.
    pub fn init(cfg: PebblesInit, rng: &mut RandomSource) -> (result: Result<GameState, GameError>)
        ensures
            (result, final(rng)@) == spec_init(cfg, old(rng)@),
            result matches Ok(game) ==> game.wf() && game.config() == cfg && 1
                <= game.pebbles_remaining,
            result matches Err(fault) ==> {
                ||| {
                    &&& fault.is_config_error()
                    &&& cfg.fault() == Some(fault)
                    &&& final(rng)@ == old(rng)@
                }
                ||| fault == GameError::OracleFailure && cfg.valid() && final(rng)@.len() == 0
            },
            cfg.pebbles_count <= cfg.max_pebbles_per_turn ==> result is Err,
            cfg.valid() && old(rng)@.len() >= 2 ==> result is Ok,
    {
        if let Err(fault) = cfg.validate() {
            return Err(fault);
        }
        let coin: u32 = match rng.next_u32() {
            Some(coin) => coin,
            None => {
                return Err(GameError::OracleFailure);
            },
        };
        let mut game = GameState {
            pebbles_count: cfg.pebbles_count,
            max_pebbles_per_turn: cfg.max_pebbles_per_turn,
            pebbles_remaining: cfg.pebbles_count,
            difficulty: cfg.difficulty,
            first_player: Player::User,
            winner: None,
        };
        if coin % 2 != 0 {
            game.first_player = Player::Program;
            match program_move(cfg.pebbles_count, cfg.max_pebbles_per_turn, cfg.difficulty, rng) {
                Some(p) => {
                    game.pebbles_remaining = cfg.pebbles_count - p;
                },
                None => {
                    return Err(GameError::OracleFailure);
                },
            }
        }
        Ok(game)
    }

    /// Tells whether the record satisfies the invariant of a game.
    pub fn is_valid(&self) -> (ok: bool)
        ensures
            ok == self.wf(),
    {
        self.max_pebbles_per_turn >= 1 && self.pebbles_count > self.max_pebbles_per_turn
            && self.pebbles_remaining <= self.pebbles_count && self.winner.is_none()
    }

    /// Starts the next round.
    pub fn reset(&mut self)
        ensures
            *final(self) == old(self).spec_reset(),
    {
        self.pebbles_remaining = self.pebbles_count;
        self.winner = None;
    }

    /// Applies the user's turn of `n` pebbles and the program's answer. A
    /// turn that is refused, or that fails for want of a draw, leaves the
    /// game as it was.
    pub fn handle_turn(&mut self, n: u32, rng: &mut RandomSource) -> (result: Result<
        PebblesEvent,
        GameError,
    >)
        ensures
            (*final(self), result, final(rng)@) == old(self).spec_turn(n, old(rng)@),
            old(self).wf() ==> final(self).wf(),
            result matches Err(fault) ==> {
                &&& *final(self) == *old(self)
                &&& fault.is_turn_error() ==> final(rng)@ == old(rng)@
                &&& fault.is_turn_error() || fault == GameError::OracleFailure
            },
            result matches Ok(PebblesEvent::Won(_)) ==> *final(self) == old(self).spec_reset(),
            result matches Ok(PebblesEvent::CounterTurn(p)) ==> {
                &&& 1 <= p <= old(self).max_pebbles_per_turn
                &&& final(self).pebbles_remaining == old(self).pebbles_remaining - n - p
                &&& final(self).pebbles_remaining >= 1
            },
    {
        if n == 0 {
            return Err(GameError::EmptyTurn);
        }
        if n > self.max_pebbles_per_turn {
            return Err(GameError::TurnTooLarge);
        }
        if n >= self.pebbles_remaining {
            self.winner = Some(Player::Program);
            self.reset();
            return Ok(PebblesEvent::Won(Player::Program));
        }
        let left: u32 = self.pebbles_remaining - n;
        match program_move(left, self.max_pebbles_per_turn, self.difficulty, rng) {
            None => Err(GameError::OracleFailure),
            Some(p) => {
                if p >= left {
                    self.winner = Some(Player::User);
                    self.reset();
                    Ok(PebblesEvent::Won(Player::User))
                } else {
                    self.pebbles_remaining = left - p;
                    Ok(PebblesEvent::CounterTurn(p))
                }
            },
        }
    }

    /// Concedes the round to the program and starts the next one.
    pub fn handle_giveup(&mut self) -> (event: PebblesEvent)
        ensures
            event == PebblesEvent::Won(Player::Program),
            *final(self) == old(self).spec_reset(),
    {
        self.winner = Some(Player::Program);
        self.reset();
        PebblesEvent::Won(Player::Program)
    }

    /// Replaces the game by one created from `cfg`. If that game cannot be
    /// created, the present one stays as it is.
    pub fn handle_restart(&mut self, cfg: PebblesInit, rng: &mut RandomSource) -> (result: Result<
        (),
        GameError,
    >)
        ensures
            (*final(self), result, final(rng)@) == old(self).spec_restart(cfg, old(rng)@),
            result is Ok ==> final(self).wf() && final(self).config() == cfg,
            result is Err ==> *final(self) == *old(self),
    {
        match GameState::init(cfg, rng) {
            Ok(game) => {
                *self = game;
                Ok(())
            },
            Err(fault) => Err(fault),
        }
    }
}

} // verus!
