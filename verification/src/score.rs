//! The Brier rule in basis points.
//!
//! A forecast is a probability in basis points, 0 to 10000; the outcome is
//! 0 or 10000. The score of one forecast is the squared distance between
//! the two, brought back to basis points by one division that rounds down.
//! Everything is integer arithmetic, so a score is the same on every
//! machine. Lower is better: 0 is a perfect call, 10000 the worst one.

use vstd::prelude::*;

verus! {

/// One hundred percent, in basis points.
pub const BASIS_POINTS: u16 = 10000;

/// Where the realised outcome lies on the scale of estimates.
pub open spec fn outcome_scaled(outcome: bool) -> int {
    if outcome {
        10000
    } else {
        0
    }
}

/// The Brier contribution of one forecast: `(estimate - outcome)^2 / 10000`,
/// rounded down.
pub open spec fn brier_contribution(estimate: int, outcome: bool) -> int {
    ((estimate - outcome_scaled(outcome)) * (estimate - outcome_scaled(outcome))) / 10000
}

/// A contribution is never negative, and that of an estimate within the
/// scale is within the scale.
pub proof fn lemma_brier_contribution_bounds(estimate: int, outcome: bool)
    ensures
        0 <= brier_contribution(estimate, outcome),
        0 <= estimate <= 10000 ==> brier_contribution(estimate, outcome) <= 10000,
{
    let d = estimate - outcome_scaled(outcome);
    assert(0 <= d * d) by (nonlinear_arith);
    if 0 <= estimate <= 10000 {
        assert(d * d <= 10000 * 10000) by (nonlinear_arith)
            requires
                -10000 <= d <= 10000,
        ;
    }
}

/// Computes the Brier contribution of `estimate` against `outcome`.
///
/// Defined for every `u16`; for an estimate within the scale the result is
/// within the scale too.
pub fn brier_score(estimate: u16, outcome: bool) -> (score: u64)
    ensures
        score == brier_contribution(estimate as int, outcome),
        estimate <= BASIS_POINTS ==> score <= BASIS_POINTS,
{
    let e: u64 = estimate as u64;
    let distance: u64 = if !outcome {
        e
    } else if e <= 10000 {
        10000 - e
    } else {
        e - 10000
    };
    proof {
        let d = estimate - outcome_scaled(outcome);
        assert(distance == d || distance == -d);
        assert(distance * distance == d * d) by (nonlinear_arith)
            requires
                distance == d || distance == -d,
        ;
        assert(distance * distance <= 65535 * 65535) by (nonlinear_arith)
            requires
                0 <= distance <= 65535,
        ;
        lemma_brier_contribution_bounds(estimate as int, outcome);
    }
    distance * distance / 10000
}

} // verus!
