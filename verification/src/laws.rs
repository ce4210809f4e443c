//! What holds of every game, proved from the definitions of the
//! operations.
//!
//! The laws speak of a host that receives a trace of messages while it
//! draws from a script of random numbers. `spec_run` gives the replies
//! to such a trace; `Pebbles::run` computes it, and each entry point
//! computes one step of it.

use vstd::prelude::*;
use vstd::arithmetic::div_mod::lemma_fundamental_div_mod;
use vstd::arithmetic::div_mod::lemma_fundamental_div_mod_converse;
use vstd::arithmetic::div_mod::lemma_small_mod;
use crate::adapter::{
    spec_deliver,
    spec_run,
    turn_reply,
    Inbound,
    Reply,
    Run,
    MAX_DRAWS_PER_MESSAGE,
};
use crate::error::GameError;
use crate::game::spec_init;
use crate::messages::{DifficultyLevel, GameState, PebblesAction, PebblesEvent, PebblesInit, Player};
use crate::strategy::{
    is_target,
    lemma_hard_move_reaches_target,
    lemma_random_move_is_legal,
    needs_draw,
    spec_program_move,
};

verus! {

// ----------------------------------------------------------------------
// The pile stays within its bounds
// ----------------------------------------------------------------------

/// A game in which the user is to move: the invariant holds and the pile
/// is not empty.
pub open spec fn in_play(state: Option<GameState>) -> bool {
    state matches Some(game) ==> game.wf() && game.pebbles_remaining >= 1
}

/// The program's move is legal whenever it comes about, and takes at most
/// one draw.
pub proof fn lemma_program_move_is_legal(
    remaining: u32,
    max_per_turn: u32,
    difficulty: DifficultyLevel,
    draws: Seq<u32>,
)
    requires
        remaining >= 1,
        max_per_turn >= 1,
    ensures
        spec_program_move(remaining, max_per_turn, difficulty, draws).0 matches Some(p) ==> 1 <= p
            <= max_per_turn && p <= remaining,
        spec_program_move(remaining, max_per_turn, difficulty, draws).1.len() <= draws.len(),
        spec_program_move(remaining, max_per_turn, difficulty, draws).1.len() + 1 >= draws.len(),
{
    lemma_hard_move_reaches_target(remaining, max_per_turn);
    if draws.len() > 0 {
        lemma_random_move_is_legal(draws[0], remaining, max_per_turn);
    }
}

/// A game that has just been created is in play, and its creation has
/// taken at most two draws.
pub proof fn lemma_init_yields_game_in_play(cfg: PebblesInit, draws: Seq<u32>)
    ensures
        spec_init(cfg, draws).0 matches Ok(game) ==> game.wf() && 1 <= game.pebbles_remaining,
        spec_init(cfg, draws).1.len() <= draws.len(),
        spec_init(cfg, draws).1.len() + 2 >= draws.len(),
{
    if cfg.valid() && draws.len() > 0 {
        lemma_program_move_is_legal(
            cfg.pebbles_count,
            cfg.max_pebbles_per_turn,
            cfg.difficulty,
            draws.skip(1),
        );
    }
}

/// A turn keeps a game in play, and takes at most one draw.
pub proof fn lemma_turn_keeps_in_play(game: GameState, n: u32, draws: Seq<u32>)
    requires
        game.wf(),
        game.pebbles_remaining >= 1,
    ensures
        game.spec_turn(n, draws).0.wf(),
        game.spec_turn(n, draws).0.pebbles_remaining >= 1,
        game.spec_turn(n, draws).2.len() <= draws.len(),
        game.spec_turn(n, draws).2.len() + 1 >= draws.len(),
{
    if 1 <= n <= game.max_pebbles_per_turn && n < game.pebbles_remaining {
        lemma_program_move_is_legal(
            (game.pebbles_remaining - n) as u32,
            game.max_pebbles_per_turn,
            game.difficulty,
            draws,
        );
    }
}

/// One message keeps a game in play, and takes at most two draws.
pub proof fn lemma_deliver_keeps_in_play(
    state: Option<GameState>,
    message: Inbound,
    draws: Seq<u32>,
)
    requires
        in_play(state),
    ensures
        in_play(spec_deliver(state, message, draws).0),
        spec_deliver(state, message, draws).2.len() <= draws.len(),
        spec_deliver(state, message, draws).2.len() + 2 >= draws.len(),
{
    match message {
        Inbound::Init(cfg) => {
            lemma_init_yields_game_in_play(cfg, draws);
        },
        Inbound::Handle(action) => {
            if let Some(game) = state {
                match action {
                    PebblesAction::Turn(n) => {
                        lemma_turn_keeps_in_play(game, n, draws);
                    },
                    PebblesAction::GiveUp => {},
                    PebblesAction::Restart { difficulty, pebbles_count, max_pebbles_per_turn } => {
                        lemma_init_yields_game_in_play(
                            PebblesInit { difficulty, pebbles_count, max_pebbles_per_turn },
                            draws,
                        );
                    },
                }
            }
        },
    }
}

/// A trace of messages keeps a game in play.
pub proof fn lemma_run_keeps_in_play(
    state: Option<GameState>,
    messages: Seq<Inbound>,
    draws: Seq<u32>,
)
    requires
        in_play(state),
    ensures
        in_play(spec_run(state, messages, draws).state),
    decreases messages.len(),
{
    if messages.len() > 0 {
        lemma_deliver_keeps_in_play(state, messages[0], draws);
        let (next, reply, rest) = spec_deliver(state, messages[0], draws);
        lemma_run_keeps_in_play(next, messages.skip(1), rest);
    }
}

/// Whatever messages a host receives and whatever it draws, the pile of
/// its game never holds more pebbles than at the start of a round, and
/// never fewer than one.
pub proof fn lemma_reachable_pile_is_bounded(messages: Seq<Inbound>, draws: Seq<u32>)
    ensures
        spec_run(None, messages, draws).state matches Some(game) ==> {
            &&& game.wf()
            &&& 1 <= game.pebbles_remaining <= game.pebbles_count
        },
{
    lemma_run_keeps_in_play(None, messages, draws);
}

// ----------------------------------------------------------------------
// What a turn brings about
// ----------------------------------------------------------------------

/// Whether a turn of `n` pebbles fails for want of a draw: the program
/// has to answer, its answer is random, and the script is empty.
pub open spec fn turn_lacks_draw(game: GameState, n: u32, draws: Seq<u32>) -> bool {
    &&& n < game.pebbles_remaining
    &&& needs_draw(
        (game.pebbles_remaining - n) as u32,
        game.max_pebbles_per_turn,
        game.difficulty,
    )
    &&& draws.len() == 0
}

/// A turn of a legal size either ends the round, after which the next
/// round starts with a full pile, or is answered by exactly one counter
/// turn of a legal size, after which the pile is smaller by what the two
/// have removed. The one exception is a turn that fails for want of a
/// draw.
pub proof fn lemma_valid_turn_outcome(game: GameState, n: u32, draws: Seq<u32>)
    requires
        1 <= n <= game.max_pebbles_per_turn,
        !turn_lacks_draw(game, n, draws),
    ensures
        ({
            let (next, result, rest) = game.spec_turn(n, draws);
            ||| {
                &&& result matches Ok(PebblesEvent::Won(_))
                &&& next == game.spec_reset()
            }
            ||| {
                &&& result matches Ok(PebblesEvent::CounterTurn(p))
                &&& 1 <= p <= game.max_pebbles_per_turn
                &&& next.pebbles_remaining == game.pebbles_remaining - n - p
                &&& next == (GameState { pebbles_remaining: next.pebbles_remaining, ..game })
            }
        }),
{
    if n < game.pebbles_remaining {
        lemma_program_move_is_legal(
            (game.pebbles_remaining - n) as u32,
            game.max_pebbles_per_turn,
            game.difficulty,
            draws,
        );
    }
}

// ----------------------------------------------------------------------
// Replies are a function of the trace and the script
// ----------------------------------------------------------------------

/// Every message of a trace gets one reply.
pub proof fn lemma_run_replies_to_each(
    state: Option<GameState>,
    messages: Seq<Inbound>,
    draws: Seq<u32>,
)
    ensures
        spec_run(state, messages, draws).replies.len() == messages.len(),
    decreases messages.len(),
{
    if messages.len() > 0 {
        let (next, reply, rest) = spec_deliver(state, messages[0], draws);
        lemma_run_replies_to_each(next, messages.skip(1), rest);
    }
}

/// The replies to a trace are a function of the game at its start, the
/// messages and the script: two runs that agree on these agree on every
/// reply, on the game at the end and on the draws left over.
pub proof fn lemma_replay_is_deterministic(
    state_a: Option<GameState>,
    messages_a: Seq<Inbound>,
    draws_a: Seq<u32>,
    state_b: Option<GameState>,
    messages_b: Seq<Inbound>,
    draws_b: Seq<u32>,
)
    requires
        state_a == state_b,
        messages_a =~= messages_b,
        draws_a =~= draws_b,
    ensures
        spec_run(state_a, messages_a, draws_a) == spec_run(state_b, messages_b, draws_b),
{
}

/// A script of `MAX_DRAWS_PER_MESSAGE` draws is enough for any one
/// message: no message fails for want of a draw when that many are at
/// hand.
pub proof fn lemma_full_script_suffices(
    state: Option<GameState>,
    message: Inbound,
    draws: Seq<u32>,
)
    requires
        draws.len() >= MAX_DRAWS_PER_MESSAGE,
    ensures
        spec_deliver(state, message, draws).1 != Reply::Rejected(GameError::OracleFailure),
{
}

/// No reply of the sequence reports a missing draw.
pub open spec fn no_draw_was_missing(replies: Seq<Reply>) -> bool {
    forall|i: int|
        0 <= i < replies.len() ==> #[trigger] replies[i] != Reply::Rejected(
            GameError::OracleFailure,
        )
}

/// One message that did not fail for want of a draw is answered in the
/// same way when draws are added at the end of the script.
pub proof fn lemma_deliver_ignores_draws_it_leaves(
    state: Option<GameState>,
    message: Inbound,
    draws: Seq<u32>,
    more: Seq<u32>,
)
    requires
        spec_deliver(state, message, draws).1 != Reply::Rejected(GameError::OracleFailure),
    ensures
        spec_deliver(state, message, draws + more) == (
            spec_deliver(state, message, draws).0,
            spec_deliver(state, message, draws).1,
            spec_deliver(state, message, draws).2 + more,
        ),
{
    if draws.len() > 0 {
        assert((draws + more).skip(1) == draws.skip(1) + more);
        if draws.len() > 1 {
            assert((draws.skip(1) + more).skip(1) == draws.skip(1).skip(1) + more);
        }
    }
}

/// The game takes its draws from the front of the script and looks at no
/// draw before it takes it: where no message failed for want of a draw,
/// draws added at the end of the script change no reply and no state, and
/// are all left over.
pub proof fn lemma_run_ignores_draws_it_leaves(
    state: Option<GameState>,
    messages: Seq<Inbound>,
    draws: Seq<u32>,
    more: Seq<u32>,
)
    requires
        no_draw_was_missing(spec_run(state, messages, draws).replies),
    ensures
        spec_run(state, messages, draws + more) == (Run {
            draws: spec_run(state, messages, draws).draws + more,
            ..spec_run(state, messages, draws)
        }),
    decreases messages.len(),
{
    if messages.len() > 0 {
        let (next, reply, rest) = spec_deliver(state, messages[0], draws);
        let run = spec_run(state, messages, draws);
        let tail = spec_run(next, messages.skip(1), rest);
        lemma_run_replies_to_each(next, messages.skip(1), rest);
        assert(run.replies == seq![reply] + tail.replies);
        assert(run.replies[0] == reply);
        assert forall|i: int| 0 <= i < tail.replies.len() implies #[trigger] tail.replies[i]
            != Reply::Rejected(GameError::OracleFailure) by {
            assert(tail.replies[i] == run.replies[i + 1]);
        }
        lemma_deliver_ignores_draws_it_leaves(state, messages[0], draws, more);
        lemma_run_ignores_draws_it_leaves(next, messages.skip(1), rest, more);
    } else {
        assert(draws + more == spec_run(state, messages, draws).draws + more);
    }
}

// ----------------------------------------------------------------------
// A round comes to an end
// ----------------------------------------------------------------------

/// Every message of the trace is a turn of a legal size, where
/// `max_per_turn` pebbles are allowed.
pub open spec fn all_valid_turns(messages: Seq<Inbound>, max_per_turn: u32) -> bool {
    forall|i: int|
        0 <= i < messages.len() ==> (#[trigger] messages[i] matches Inbound::Handle(
            PebblesAction::Turn(n),
        ) && 1 <= n <= max_per_turn)
}

/// The tail of a trace of legal turns is a trace of legal turns.
pub proof fn lemma_valid_turns_after_first(messages: Seq<Inbound>, max_per_turn: u32)
    requires
        messages.len() > 0,
        all_valid_turns(messages, max_per_turn),
    ensures
        all_valid_turns(messages.skip(1), max_per_turn),
{
    assert forall|i: int| 0 <= i < messages.skip(1).len() implies (
    #[trigger] messages.skip(1)[i] matches Inbound::Handle(PebblesAction::Turn(n)) && 1 <= n
        <= max_per_turn) by {
        assert(messages.skip(1)[i] == messages[i + 1]);
    }
}

/// The reply announces the end of a round.
pub open spec fn ends_round(reply: Reply) -> bool {
    reply matches Reply::Event(PebblesEvent::Won(_))
}

/// The reply ends a run of turns: it announces the end of a round, or it
/// reports that a draw was missing.
pub open spec fn ends_round_or_lacks_draw(reply: Reply) -> bool {
    ends_round(reply) || reply == Reply::Rejected(GameError::OracleFailure)
}

/// A round ends within `bound` turns, where the pile holds no more than
/// `bound` pebbles, unless a turn before that fails for want of a draw.
pub proof fn lemma_round_ends_within(
    game: GameState,
    messages: Seq<Inbound>,
    draws: Seq<u32>,
    bound: nat,
)
    requires
        all_valid_turns(messages, game.max_pebbles_per_turn),
        bound >= 1,
        bound >= game.pebbles_remaining,
        messages.len() >= bound,
    ensures
        exists|i: int|
            0 <= i < bound && ends_round_or_lacks_draw(
                #[trigger] spec_run(Some(game), messages, draws).replies[i],
            ),
    decreases bound,
{
    let n = messages[0]->Handle_0->Turn_0;
    let (next, result, rest) = game.spec_turn(n, draws);
    let run = spec_run(Some(game), messages, draws);
    let tail = spec_run(Some(next), messages.skip(1), rest);
    lemma_run_replies_to_each(Some(next), messages.skip(1), rest);
    assert(run.replies == seq![turn_reply(result)] + tail.replies);
    if turn_lacks_draw(game, n, draws) {
        assert(ends_round_or_lacks_draw(run.replies[0]));
    } else {
        lemma_valid_turn_outcome(game, n, draws);
        if result matches Ok(PebblesEvent::Won(_)) {
            assert(ends_round_or_lacks_draw(run.replies[0]));
        } else {
            // The two moves have taken at least two pebbles.
            lemma_valid_turns_after_first(messages, game.max_pebbles_per_turn);
            lemma_round_ends_within(next, messages.skip(1), rest, (bound - 1) as nat);
            let i = choose|i: int|
                0 <= i < bound - 1 && ends_round_or_lacks_draw(#[trigger] tail.replies[i]);
            assert(run.replies[i + 1] == tail.replies[i]);
            assert(ends_round_or_lacks_draw(run.replies[i + 1]));
        }
    }
}

/// Every turn of a legal size shrinks the pile or ends the round, so a
/// round cannot go on for ever: among the replies to as many turns as
/// a full pile has pebbles, one announces a winner, unless a turn before
/// it fails for want of a draw.
pub proof fn lemma_round_terminates(game: GameState, messages: Seq<Inbound>, draws: Seq<u32>)
    requires
        game.wf(),
        all_valid_turns(messages, game.max_pebbles_per_turn),
        messages.len() >= game.pebbles_count,
    ensures
        exists|i: int|
            0 <= i < game.pebbles_count && ends_round_or_lacks_draw(
                #[trigger] spec_run(Some(game), messages, draws).replies[i],
            ),
{
    lemma_round_ends_within(game, messages, draws, game.pebbles_count as nat);
}

// ----------------------------------------------------------------------
// The hard level plays the winning strategy
// ----------------------------------------------------------------------

/// At the hard level, on a pile that is no target, the program takes no
/// draw and leaves a target: a pile of one more than a multiple of
/// `max_per_turn + 1`.
pub proof fn lemma_hard_strategy_leaves_target(remaining: u32, max_per_turn: u32, draws: Seq<u32>)
    requires
        remaining >= 1,
        max_per_turn >= 1,
        (remaining - 1) % (max_per_turn + 1) != 0,
    ensures
        ({
            let (answer, rest) = spec_program_move(
                remaining,
                max_per_turn,
                DifficultyLevel::Hard,
                draws,
            );
            &&& rest == draws
            &&& answer matches Some(p)
            &&& 1 <= p <= max_per_turn
            &&& p < remaining
            &&& (remaining - p) % (max_per_turn + 1) == 1
        }),
{
    if remaining == 1 {
        lemma_small_mod(0, (max_per_turn + 1) as nat);
    }
    lemma_hard_move_reaches_target(remaining, max_per_turn);
}

/// In a game at the hard level, where the user's turn leaves a pile that
/// is no target, the program answers with a counter turn, takes no draw,
/// and the pile of the game is a target afterwards.
pub proof fn lemma_hard_answer_leaves_target(game: GameState, n: u32, draws: Seq<u32>)
    requires
        game.difficulty == DifficultyLevel::Hard,
        1 <= n <= game.max_pebbles_per_turn,
        n < game.pebbles_remaining,
        (game.pebbles_remaining - n - 1) % (game.max_pebbles_per_turn + 1) != 0,
    ensures
        ({
            let (next, result, rest) = game.spec_turn(n, draws);
            &&& result matches Ok(PebblesEvent::CounterTurn(_))
            &&& rest == draws
            &&& is_target(next.pebbles_remaining as int, game.max_pebbles_per_turn as int)
        }),
{
    lemma_hard_strategy_leaves_target(
        (game.pebbles_remaining - n) as u32,
        game.max_pebbles_per_turn,
        draws,
    );
}

/// Whatever the player who faces a target pile removes, short of the last
/// pebble, the pile that is left is no target and holds at least two
/// pebbles.
pub proof fn lemma_target_has_no_move_to_target(pile: u32, n: u32, max_per_turn: u32)
    requires
        max_per_turn >= 1,
        is_target(pile as int, max_per_turn as int),
        1 <= n <= max_per_turn,
        n < pile,
    ensures
        !is_target(pile - n, max_per_turn as int),
        (pile - n - 1) % (max_per_turn + 1) != 0,
        pile - n >= 2,
{
    let m = max_per_turn + 1;
    let q = pile as int / m;
    lemma_fundamental_div_mod(pile as int, m);
    assert(pile == m * q + 1);
    if n == 1 {
        lemma_fundamental_div_mod_converse(pile - n, m, q, 0);
    } else {
        assert(pile - n == (q - 1) * m + (m + 1 - n)) by (nonlinear_arith)
            requires
                pile == m * q + 1,
        ;
        lemma_fundamental_div_mod_converse(pile - n, m, q - 1, m + 1 - n);
    }
    if pile - n == 1 {
        lemma_small_mod(1, m as nat);
    }
    lemma_hard_move_reaches_target((pile - n) as u32, max_per_turn);
}

/// The user is to move on a target pile against the program at the hard
/// level.
pub open spec fn user_faces_target(game: GameState) -> bool {
    &&& game.difficulty == DifficultyLevel::Hard
    &&& game.max_pebbles_per_turn >= 1
    &&& game.pebbles_remaining >= 1
    &&& is_target(game.pebbles_remaining as int, game.max_pebbles_per_turn as int)
}

/// No reply before the one at `end` announces the end of a round.
pub open spec fn round_is_open_until(replies: Seq<Reply>, end: int) -> bool {
    forall|j: int| 0 <= j < end ==> !ends_round(#[trigger] replies[j])
}

/// At the hard level the program does not lose a round in which the user
/// has to move on a target pile: whatever the user removes, turn after
/// turn, the program answers without a draw until the user takes the
/// last pebble. No reply up to the end of the round is a refusal, and
/// none names the user as the winner.
pub proof fn lemma_hard_program_wins_from_target(
    game: GameState,
    messages: Seq<Inbound>,
    draws: Seq<u32>,
    i: int,
)
    requires
        user_faces_target(game),
        all_valid_turns(messages, game.max_pebbles_per_turn),
        0 <= i < messages.len(),
        round_is_open_until(spec_run(Some(game), messages, draws).replies, i),
    ensures
        ({
            let reply = spec_run(Some(game), messages, draws).replies[i];
            ||| reply == Reply::Event(PebblesEvent::Won(Player::Program))
            ||| reply matches Reply::Event(PebblesEvent::CounterTurn(_))
        }),
    decreases i,
{
    let n = messages[0]->Handle_0->Turn_0;
    let (next, result, rest) = game.spec_turn(n, draws);
    let run = spec_run(Some(game), messages, draws);
    let tail = spec_run(Some(next), messages.skip(1), rest);
    lemma_run_replies_to_each(Some(next), messages.skip(1), rest);
    assert(run.replies == seq![turn_reply(result)] + tail.replies);
    if n < game.pebbles_remaining {
        // The user leaves a pile that is no target, and the program makes
        // it one again.
        let left = (game.pebbles_remaining - n) as u32;
        lemma_target_has_no_move_to_target(game.pebbles_remaining, n, game.max_pebbles_per_turn);
        lemma_hard_strategy_leaves_target(left, game.max_pebbles_per_turn, draws);
        assert(result matches Ok(PebblesEvent::CounterTurn(_)));
        assert(user_faces_target(next));
    }
    if i > 0 {
        assert(!ends_round(run.replies[0]));
        lemma_valid_turns_after_first(messages, game.max_pebbles_per_turn);
        assert forall|j: int| 0 <= j < i - 1 implies !ends_round(#[trigger] tail.replies[j]) by {
            assert(tail.replies[j] == run.replies[j + 1]);
        }
        lemma_hard_program_wins_from_target(next, messages.skip(1), rest, i - 1);
        assert(run.replies[i] == tail.replies[i - 1]);
    }
}

} // verus!
