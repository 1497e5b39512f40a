//! The automated opponent's move selection: a random move at Easy, the
//! optimal subtraction-game strategy at Hard.

use vstd::prelude::*;
use vstd::arithmetic::div_mod::{
    lemma_fundamental_div_mod,
    lemma_mod_bound,
    lemma_mod_multiples_basic,
    lemma_small_mod,
};
use crate::types::DifficultyLevel;

verus! {

/// The move the Hard strategy picks: with cap `k` and pile `n`, remove
/// `n % (k + 1)` pebbles when that is non-zero (leaving the opponent a
/// multiple of `k + 1`, a lost position), else the full cap `k`.
pub open spec fn hard_move(max_per_turn: u32, remaining: u32) -> int {
    if remaining as int % (max_per_turn as int + 1) != 0 {
        remaining as int % (max_per_turn as int + 1)
    } else {
        max_per_turn as int
    }
}

/// The move the Easy strategy picks from one random draw: uniform in
/// `[1, max_per_turn]`, independent of the pile.
pub open spec fn easy_move(max_per_turn: u32, rand: u32) -> int {
    rand % max_per_turn + 1
}

/// The move chosen at the given difficulty. Only Easy consumes the random
/// draw; Hard depends on the cap and the pile alone.
pub open spec fn chosen_move(
    difficulty: DifficultyLevel,
    max_per_turn: u32,
    remaining: u32,
    rand: u32,
) -> int {
    match difficulty {
        DifficultyLevel::Easy => easy_move(max_per_turn, rand),
        DifficultyLevel::Hard => hard_move(max_per_turn, remaining),
    }
}

/// Optimal move for the subtraction game with cap `max_pebbles_per_turn`.
pub fn find_best_move(max_pebbles_per_turn: u32, pebbles_remaining: u32) -> (r: u32)
    requires
        max_pebbles_per_turn >= 1,
    ensures
        r == hard_move(max_pebbles_per_turn, pebbles_remaining),
        1 <= r <= max_pebbles_per_turn,
        pebbles_remaining >= 1 ==> r <= pebbles_remaining,
{
    let divisor: u64 = max_pebbles_per_turn as u64 + 1;
    let m: u64 = pebbles_remaining as u64 % divisor;
    proof {
        lemma_hard_move_in_pile(max_pebbles_per_turn, pebbles_remaining);
    }
    if m > 0 {
        m as u32
    } else {
        max_pebbles_per_turn
    }
}

/// The move the automated opponent plays, at either difficulty. The random
/// draw `rand` is supplied by the caller and consumed only at Easy. Every
/// move lies in `[1, max_pebbles_per_turn]`; a Hard move never exceeds a
/// non-empty pile.
pub fn choose_move(
    difficulty: DifficultyLevel,
    max_pebbles_per_turn: u32,
    pebbles_remaining: u32,
    rand: u32,
) -> (r: u32)
    requires
        max_pebbles_per_turn >= 1,
    ensures
        r == chosen_move(difficulty, max_pebbles_per_turn, pebbles_remaining, rand),
        1 <= r <= max_pebbles_per_turn,
        difficulty is Hard && pebbles_remaining >= 1 ==> r <= pebbles_remaining,
{
    match difficulty {
        DifficultyLevel::Easy => (rand % max_pebbles_per_turn) + 1,
        DifficultyLevel::Hard => find_best_move(max_pebbles_per_turn, pebbles_remaining),
    }
}

/// Law: every Easy move lies in `[1, max_per_turn]`, whatever the random
/// draw.
pub proof fn lemma_easy_move_bounds(max_per_turn: u32, rand: u32)
    requires
        max_per_turn >= 1,
    ensures
        1 <= easy_move(max_per_turn, rand) <= max_per_turn,
{
}

/// The Hard move never exceeds the cap, and never exceeds a non-empty pile.
pub proof fn lemma_hard_move_in_pile(max_per_turn: u32, remaining: u32)
    requires
        max_per_turn >= 1,
    ensures
        1 <= hard_move(max_per_turn, remaining) <= max_per_turn,
        remaining >= 1 ==> hard_move(max_per_turn, remaining) <= remaining,
{
    let d = max_per_turn as int + 1;
    let n = remaining as int;
    lemma_mod_bound(n, d);
    if n < d {
        lemma_small_mod(remaining as nat, d as nat);
        assert(n % d == n);
    }
}

/// Law: with cap `k`, a Hard move from a pile that is not a multiple of
/// `k + 1` leaves exactly a multiple of `k + 1`; from a pile that is such a
/// multiple it removes exactly `k`.
pub proof fn lemma_hard_move_optimal(max_per_turn: u32, remaining: u32)
    requires
        max_per_turn >= 1,
    ensures
        remaining as int % (max_per_turn as int + 1) != 0 ==> (remaining - hard_move(
            max_per_turn,
            remaining,
        )) % (max_per_turn as int + 1) == 0,
        remaining as int % (max_per_turn as int + 1) == 0 ==> hard_move(max_per_turn, remaining)
            == max_per_turn,
{
    let d = max_per_turn as int + 1;
    let n = remaining as int;
    lemma_fundamental_div_mod(n, d);
    assert(n - n % d == (n / d) * d);
    lemma_mod_multiples_basic(n / d, d);
}

} // verus!
