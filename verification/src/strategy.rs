//! The automated opponent: first-mover selection and move selection.
//!
//! Both are pure functions once the random draw they consume is passed
//! in as an argument, so a fixed sequence of draws makes every game
//! fully deterministic.

use vstd::prelude::*;
use crate::game::{DifficultyLevel, Player};

verus! {

/// The party that moves first, as an unweighted coin flip over the low
/// bit of one random draw: even picks User, odd picks Program.
pub open spec fn spec_first_player(random: u32) -> Player {
    if random % 2 == 0 {
        Player::User
    } else {
        Player::Program
    }
}

/// How many pebbles the automated opponent removes from a pile of
/// `pebbles_remaining` under a per-turn bound of `max_pebbles_per_turn`.
///
/// Easy draws a value in `[1, max_pebbles_per_turn]` from `random` and
/// clamps it to the pile. Hard takes the pile's residue modulo
/// `max_pebbles_per_turn + 1`, falling back to the minimal move when the
/// residue is zero (no forced win from such a position).
pub open spec fn spec_strategy(
    pebbles_remaining: u32,
    max_pebbles_per_turn: u32,
    difficulty: DifficultyLevel,
    random: u32,
) -> int {
    match difficulty {
        DifficultyLevel::Easy => vstd::math::min(
            random as int % (max_pebbles_per_turn as int) + 1,
            pebbles_remaining as int,
        ),
        DifficultyLevel::Hard => {
            let residue = pebbles_remaining as int % (max_pebbles_per_turn as int + 1);
            if residue == 0 {
                1
            } else {
                residue
            }
        },
    }
}

/// Law: whatever the difficulty and the draw, the strategy's pick lies
/// between one pebble and the smaller of the pile and the per-turn
/// bound, so the opponent's move is always legal.
pub proof fn lemma_strategy_bounds(
    pebbles_remaining: u32,
    max_pebbles_per_turn: u32,
    difficulty: DifficultyLevel,
    random: u32,
)
    requires
        1 <= pebbles_remaining,
        1 <= max_pebbles_per_turn,
        max_pebbles_per_turn < u32::MAX,
    ensures
        1 <= spec_strategy(pebbles_remaining, max_pebbles_per_turn, difficulty, random)
            <= pebbles_remaining,
        spec_strategy(pebbles_remaining, max_pebbles_per_turn, difficulty, random)
            <= max_pebbles_per_turn,
{
    match difficulty {
        DifficultyLevel::Easy => {
            vstd::arithmetic::div_mod::lemma_mod_bound(
                random as int,
                max_pebbles_per_turn as int,
            );
        },
        DifficultyLevel::Hard => {
            vstd::arithmetic::div_mod::lemma_mod_bound(
                pebbles_remaining as int,
                max_pebbles_per_turn as int + 1,
            );
            vstd::arithmetic::div_mod::lemma_mod_decreases(
                pebbles_remaining as nat,
                (max_pebbles_per_turn + 1) as nat,
            );
        },
    }
}

/// Law: under Hard difficulty, when the pile's residue modulo
/// `max_pebbles_per_turn + 1` is nonzero, the opponent's move leaves the
/// other party a pile that is a multiple of that modulus — the losing
/// residue of the subtraction game.
pub proof fn lemma_hard_move_leaves_losing_residue(
    pebbles_remaining: u32,
    max_pebbles_per_turn: u32,
    random: u32,
)
    requires
        1 <= pebbles_remaining,
        1 <= max_pebbles_per_turn,
        max_pebbles_per_turn < u32::MAX,
        pebbles_remaining as int % (max_pebbles_per_turn as int + 1) != 0,
    ensures
        (pebbles_remaining - spec_strategy(
            pebbles_remaining,
            max_pebbles_per_turn,
            DifficultyLevel::Hard,
            random,
        )) % (max_pebbles_per_turn as int + 1) == 0,
{
    let modulus = max_pebbles_per_turn as int + 1;
    let pile = pebbles_remaining as int;
    vstd::arithmetic::div_mod::lemma_fundamental_div_mod(pile, modulus);
    assert(pile - pile % modulus == (pile / modulus) * modulus);
    vstd::arithmetic::div_mod::lemma_mod_multiples_basic(pile / modulus, modulus);
}

/// Law: a party facing a pile that is a positive multiple of
/// `max_pebbles_per_turn + 1` cannot hand such a pile back: every legal
/// removal breaks the residue.
pub proof fn lemma_multiple_pile_always_breaks(
    pebbles_remaining: u32,
    max_pebbles_per_turn: u32,
    amount: u32,
)
    requires
        max_pebbles_per_turn < u32::MAX,
        pebbles_remaining as int % (max_pebbles_per_turn as int + 1) == 0,
        1 <= amount <= max_pebbles_per_turn,
        amount <= pebbles_remaining,
    ensures
        (pebbles_remaining - amount) % (max_pebbles_per_turn as int + 1) != 0,
{
    let modulus = max_pebbles_per_turn as int + 1;
    let pile = pebbles_remaining as int;
    let quotient = pile / modulus;
    vstd::arithmetic::div_mod::lemma_fundamental_div_mod(pile, modulus);
    assert(pile - amount == (quotient - 1) * modulus + (modulus - amount)) by (nonlinear_arith)
        requires
            pile == modulus * quotient,
    ;
    vstd::arithmetic::div_mod::lemma_fundamental_div_mod_converse_mod(
        pile - amount,
        modulus,
        quotient - 1,
        modulus - amount,
    );
}

/// Maps one random draw to the party that moves first.
pub fn get_first_player(random: u32) -> (p: Player)
    ensures
        p == spec_first_player(random),
{
    if random % 2 == 0 {
        Player::User
    } else {
        Player::Program
    }
}

/// The automated opponent's move. It always removes at least one pebble
/// and never more than the per-turn bound or the pile itself.
pub fn get_contract_pebbles_taken(
    pebbles_remaining: u32,
    max_pebbles_per_turn: u32,
    difficulty: DifficultyLevel,
    random: u32,
) -> (taken: u32)
    requires
        1 <= pebbles_remaining,
        1 <= max_pebbles_per_turn,
        max_pebbles_per_turn < u32::MAX,
    ensures
        taken as int == spec_strategy(pebbles_remaining, max_pebbles_per_turn, difficulty, random),
        1 <= taken <= pebbles_remaining,
        taken <= max_pebbles_per_turn,
{
    match difficulty {
        DifficultyLevel::Easy => {
            let pick = random % max_pebbles_per_turn + 1;
            if pick <= pebbles_remaining {
                pick
            } else {
                pebbles_remaining
            }
        },
        DifficultyLevel::Hard => {
            let residue = pebbles_remaining % (max_pebbles_per_turn + 1);
            proof {
                vstd::arithmetic::div_mod::lemma_mod_decreases(
                    pebbles_remaining as nat,
                    (max_pebbles_per_turn + 1) as nat,
                );
            }
            if residue == 0 {
                1
            } else {
                residue
            }
        },
    }
}

} // verus!
