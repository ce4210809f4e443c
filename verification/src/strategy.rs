//! How the program chooses its move.
//!
//! With at most `K` pebbles per turn, a pile whose size is one more than a
//! multiple of `K + 1` is lost for the player who has to move, provided
//! the opponent makes no mistake. At the hard level the program therefore
//! leaves such a pile whenever it can. At the easy level, and at the hard
//! level when no such move exists, it removes a random number of pebbles.

use vstd::prelude::*;
use vstd::arithmetic::div_mod::lemma_fundamental_div_mod;
use vstd::arithmetic::div_mod::lemma_fundamental_div_mod_converse;
use crate::messages::DifficultyLevel;
use crate::random::{spec_bounded, RandomSource};

verus! {

/// A pile that the player to move cannot win from against perfect play:
/// its size is one more than a multiple of `max_per_turn + 1`.
pub open spec fn is_target(pile: int, max_per_turn: int) -> bool {
    pile % (max_per_turn + 1) == 1
}

/// `p` pebbles may be removed from a pile of `remaining`.
pub open spec fn is_legal_move(p: int, remaining: int, max_per_turn: int) -> bool {
    1 <= p <= max_per_turn && p <= remaining
}

/// The number of pebbles that a draw stands for at the easy level: the
/// draw brought below `max_per_turn`, capped by the pile, and raised to one
/// where that gives zero. It never reaches `max_per_turn` itself.
pub open spec fn spec_random_move(draw: u32, remaining: u32, max_per_turn: u32) -> u32 {
    let reduced = spec_bounded(draw, max_per_turn);
    let capped = if reduced <= remaining { reduced } else { remaining };
    if capped >= 1 { capped } else { 1 }
}

/// The move at the easy level and the draws left over, given the draws at
/// hand: the first draw decides, and without a draw there is no move.
pub open spec fn spec_easy_move(remaining: u32, max_per_turn: u32, draws: Seq<u32>) -> (
    Option<u32>,
    Seq<u32>,
) {
    if draws.len() == 0 {
        (None, draws)
    } else {
        (Some(spec_random_move(draws[0], remaining, max_per_turn)), draws.skip(1))
    }
}

/// The move that the winning strategy prescribes, where it prescribes
/// one: the single pebble of a pile of one, and otherwise the move that
/// leaves a target pile. `None` where the pile is itself a target, so that
/// every move leaves a pile the opponent can win from.
pub open spec fn spec_hard_move(remaining: u32, max_per_turn: u32) -> Option<u32> {
    let offset = ((remaining - 1) % (max_per_turn + 1)) as u32;
    if remaining == 1 {
        Some(1u32)
    } else if offset == 0 {
        None
    } else {
        Some(offset)
    }
}

/// Whether the program has to take a draw to decide its move.
pub open spec fn needs_draw(
    remaining: u32,
    max_per_turn: u32,
    difficulty: DifficultyLevel,
) -> bool {
    match difficulty {
        DifficultyLevel::Easy => true,
        DifficultyLevel::Hard => spec_hard_move(remaining, max_per_turn) is None,
    }
}

/// The program's move and the draws left over, given the draws at hand.
/// At the hard level the winning strategy decides wherever it prescribes
/// a move, and no draw is taken. Everywhere else the move is that of the
/// easy level.
pub open spec fn spec_program_move(
    remaining: u32,
    max_per_turn: u32,
    difficulty: DifficultyLevel,
    draws: Seq<u32>,
) -> (Option<u32>, Seq<u32>) {
    match difficulty {
        DifficultyLevel::Easy => spec_easy_move(remaining, max_per_turn, draws),
        DifficultyLevel::Hard => match spec_hard_move(remaining, max_per_turn) {
            Some(p) => (Some(p), draws),
            None => spec_easy_move(remaining, max_per_turn, draws),
        },
    }
}

/// Whatever the draw, the move it stands for is legal on a pile that
/// holds a pebble.
pub proof fn lemma_random_move_is_legal(draw: u32, remaining: u32, max_per_turn: u32)
    requires
        remaining >= 1,
        max_per_turn >= 1,
    ensures
        is_legal_move(
            spec_random_move(draw, remaining, max_per_turn) as int,
            remaining as int,
            max_per_turn as int,
        ),
{
}

/// A pile is a target exactly when it is a multiple of `max_per_turn + 1`
/// after one pebble is set aside. The winning strategy prescribes a move
/// on every pile but the targets of more than one pebble. Its move is
/// legal, and on a pile of more than one pebble it leaves a target with
/// at least one pebble in it.
pub proof fn lemma_hard_move_reaches_target(remaining: u32, max_per_turn: u32)
    requires
        remaining >= 1,
        max_per_turn >= 1,
    ensures
        is_target(remaining as int, max_per_turn as int) <==> (remaining - 1) % (max_per_turn + 1)
            == 0,
        spec_hard_move(remaining, max_per_turn) is None <==> remaining > 1 && is_target(
            remaining as int,
            max_per_turn as int,
        ),
        spec_hard_move(remaining, max_per_turn) matches Some(p) ==> {
            &&& is_legal_move(p as int, remaining as int, max_per_turn as int)
            &&& remaining > 1 ==> p < remaining && is_target(remaining - p, max_per_turn as int)
        },
{
    let m = max_per_turn + 1;
    let q = (remaining - 1) / m;
    let t = (remaining - 1) % m;
    lemma_fundamental_div_mod(remaining - 1, m);
    assert(remaining - 1 == m * q + t);
    assert(0 <= t < m);
    assert(q >= 0) by (nonlinear_arith)
        requires
            remaining - 1 >= 0,
            m > 0,
            q == (remaining - 1) / m,
    ;
    assert(m * q >= 0) by (nonlinear_arith)
        requires
            m > 0,
            q >= 0,
    ;
    // The pile is q * m + t + 1: a target exactly when t is zero.
    if t + 1 < m {
        lemma_fundamental_div_mod_converse(remaining as int, m, q, t + 1);
    } else {
        assert(remaining == (q + 1) * m) by (nonlinear_arith)
            requires
                remaining - 1 == m * q + t,
                t + 1 == m,
        ;
        lemma_fundamental_div_mod_converse(remaining as int, m, q + 1, 0);
    }
    if t != 0 {
        lemma_fundamental_div_mod_converse(remaining - t, m, q, 1);
    }
}

/// Makes the random move: takes a draw from `rng` and turns it into a
/// number of pebbles. Returns `None` where `rng` has run dry.
pub fn easy_move(remaining: u32, max_per_turn: u32, rng: &mut RandomSource) -> (p: Option<u32>)
    requires
        max_per_turn >= 1,
    ensures
        (p, final(rng)@) == spec_easy_move(remaining, max_per_turn, old(rng)@),
        p is None <==> old(rng)@.len() == 0,
        p matches Some(v) ==> 1 <= v <= max_per_turn && (remaining >= 1 ==> v <= remaining),
{
    match rng.next_below(max_per_turn) {
        Some(reduced) => {
            let capped: u32 = if reduced <= remaining { reduced } else { remaining };
            Some(if capped >= 1 { capped } else { 1 })
        },
        None => None,
    }
}

/// Computes the move of the winning strategy, or `None` where the pile is
/// a target and the strategy prescribes nothing.
pub fn hard_move(remaining: u32, max_per_turn: u32) -> (p: Option<u32>)
    requires
        remaining >= 1,
        max_per_turn >= 1,
    ensures
        p == spec_hard_move(remaining, max_per_turn),
        p matches Some(v) ==> 1 <= v <= max_per_turn && v <= remaining,
{
    proof {
        lemma_hard_move_reaches_target(remaining, max_per_turn);
    }
    if remaining == 1 {
        return Some(1);
    }
    let modulus: u64 = max_per_turn as u64 + 1;
    let offset: u64 = (remaining - 1) as u64 % modulus;
    if offset == 0 {
        None
    } else {
        Some(offset as u32)
    }
}

/// Chooses the program's move on a pile of `remaining` pebbles, taking a
/// draw from `rng` only where the choice is random. Returns `None`
/// where a draw is needed and `rng` has run dry.
pub fn program_move(
    remaining: u32,
    max_per_turn: u32,
    difficulty: DifficultyLevel,
    rng: &mut RandomSource,
) -> (p: Option<u32>)
    requires
        remaining >= 1,
        max_per_turn >= 1,
    ensures
        (p, final(rng)@) == spec_program_move(remaining, max_per_turn, difficulty, old(rng)@),
        p is None <==> needs_draw(remaining, max_per_turn, difficulty) && old(rng)@.len() == 0,
        p matches Some(v) ==> 1 <= v <= max_per_turn && v <= remaining,
{
    match difficulty {
        DifficultyLevel::Easy => easy_move(remaining, max_per_turn, rng),
        DifficultyLevel::Hard => match hard_move(remaining, max_per_turn) {
            Some(decided) => Some(decided),
            None => easy_move(remaining, max_per_turn, rng),
        },
    }
}

} // verus!
