//! Row budget of the move grid.
//!
//! Both games of a report share one grid height: enough move pairs for the
//! longer game, never fewer than sixty pairs, and snapped up to the next
//! multiple of ten so the printed page keeps a round height.

use vstd::prelude::*;

verus! {

/// The largest of two move-pair counts and the fixed floor of sixty pairs.
pub open spec fn spec_pair_budget(a: nat, b: nat) -> nat {
    let m = if a >= b {
        a
    } else {
        b
    };
    if m >= 60 {
        m
    } else {
        60
    }
}

/// `n` rounded up to the next multiple of ten.
pub open spec fn spec_round_up_to_ten(n: nat) -> nat {
    (n + (10 - n % 10) % 10) as nat
}

/// The shared row count of the move grid for two games of `a` and `b` plies.
pub open spec fn spec_row_count(a: nat, b: nat) -> nat {
    spec_round_up_to_ten(spec_pair_budget(a / 2, b / 2))
}

/// Row budget shared by both games of a report: whichever game has more
/// full move pairs drives the height, with a floor of sixty pairs, rounded
/// up to the next multiple of ten.
pub fn calc_row_count(moves_white: usize, moves_black: usize) -> (r: u32)
    requires
        moves_white <= u32::MAX,
        moves_black <= u32::MAX,
    ensures
        r == spec_row_count(moves_white as nat, moves_black as nat),
        r % 10 == 0,
        60 <= r,
{
    let x: u32 = (moves_white / 2) as u32;
    let y: u32 = (moves_black / 2) as u32;

    let larger: u32 = if x >= y {
        x
    } else {
        y
    };
    let moves: u32 = if larger >= 60 {
        larger
    } else {
        60
    };

    let v: u32 = moves % 10;
    let remaining: u32 = (10 - v) % 10;

    moves + remaining
}

/// The row count is always a multiple of ten and never below sixty,
/// whatever the two ply counts are.
pub proof fn lemma_row_count_bounds(a: nat, b: nat)
    ensures
        spec_row_count(a, b) % 10 == 0,
        60 <= spec_row_count(a, b),
{
}

/// When one game is long enough to beat the sixty-pair floor, the row count
/// is exactly its own pair count rounded up to the next multiple of ten.
pub proof fn lemma_row_count_long_game(x: nat)
    requires
        x / 2 > 60,
    ensures
        spec_row_count(x, x) == spec_round_up_to_ten(x / 2),
{
}

/// The row count is always even, so the two stacked sub-blocks of the grid
/// cover a whole number of move pairs each.
pub proof fn lemma_row_count_even(a: nat, b: nat)
    ensures
        spec_row_count(a, b) % 2 == 0,
{
}

} // verus!
