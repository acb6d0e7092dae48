//! Proved properties of the narrowing schedule: the sampling window of a cell
//! never widens, it closes after a bounded number of attempts, a closed
//! window forces convergence, and a converged cell is never touched again.

use vstd::prelude::*;
use vstd::arithmetic::div_mod::lemma_div_is_ordered_by_denominator;
use vstd::arithmetic::mul::lemma_mul_inequality;
use vstd::arithmetic::power::{lemma_pow_increases, pow};
use crate::engine::{
    lemma_sat_mul_grows, sat_mul_u32, spec_vicinity, step_rel, RevealEngine, StepOutcome,
};

verus! {

/// A larger narrowing coefficient never gives a larger vicinity.
pub proof fn lemma_vicinity_monotonic(range: u32, c1: u32, c2: u32)
    requires
        1 <= c1 <= c2,
    ensures
        spec_vicinity(range, c2) <= spec_vicinity(range, c1),
{
    lemma_div_is_ordered_by_denominator(range as int, c1 as int, c2 as int);
}

/// Monotonic narrowing: a sampling attempt at a cell never decreases its
/// coefficient and never increases its vicinity, so across the non-skipped
/// attempts of one cell the vicinity is non-increasing.
pub proof fn lemma_step_narrows(
    pre: RevealEngine,
    post: RevealEngine,
    i: int,
    outcome: StepOutcome,
)
    requires
        pre.wf(),
        step_rel(pre, post, i, outcome),
        !pre.cells@[i].ready,
    ensures
        post.cells@[i].narrowing_coefficient >= pre.cells@[i].narrowing_coefficient,
        spec_vicinity(post.config.initial_char_range, post.cells@[i].narrowing_coefficient)
            <= spec_vicinity(pre.config.initial_char_range, pre.cells@[i].narrowing_coefficient),
{
    lemma_sat_mul_grows(
        pre.cells@[i].narrowing_coefficient,
        pre.config.char_range_reduction_factor,
    );
    lemma_vicinity_monotonic(
        pre.config.initial_char_range,
        pre.cells@[i].narrowing_coefficient,
        post.cells@[i].narrowing_coefficient,
    );
}

/// The narrowing coefficient of a cell after a number of attempts: it starts
/// at 1 and each attempt multiplies it by the reduction factor, saturating.
pub open spec fn coeff_after(factor: u32, attempts: nat) -> u32
    decreases attempts,
{
    if attempts == 0 {
        1
    } else {
        sat_mul_u32(coeff_after(factor, (attempts - 1) as nat), factor)
    }
}

/// A sampling attempt moves a cell's coefficient one place along the
/// schedule `coeff_after`.
pub proof fn lemma_step_advances_schedule(
    pre: RevealEngine,
    post: RevealEngine,
    i: int,
    outcome: StepOutcome,
    attempts: nat,
)
    requires
        step_rel(pre, post, i, outcome),
        !pre.cells@[i].ready,
        pre.cells@[i].narrowing_coefficient == coeff_after(
            pre.config.char_range_reduction_factor,
            attempts,
        ),
    ensures
        post.cells@[i].narrowing_coefficient == coeff_after(
            pre.config.char_range_reduction_factor,
            attempts + 1,
        ),
{
}

/// The saturating schedule stays above the exact geometric schedule, up to
/// the saturation ceiling.
proof fn lemma_coeff_after_lower_bound(factor: u32, attempts: nat)
    requires
        factor >= 1,
    ensures
        coeff_after(factor, attempts) as int >= if pow(factor as int, attempts) <= u32::MAX as int {
            pow(factor as int, attempts)
        } else {
            u32::MAX as int
        },
    decreases attempts,
{
    reveal(pow);
    if attempts > 0 {
        let prev: nat = (attempts - 1) as nat;
        lemma_coeff_after_lower_bound(factor, prev);
        let c = coeff_after(factor, prev);
        lemma_pow_increases(factor as nat, prev, attempts);
        assert(pow(factor as int, attempts) == factor as int * pow(factor as int, prev));
        assert(coeff_after(factor, attempts) == sat_mul_u32(c, factor));
        if pow(factor as int, prev) <= u32::MAX as int {
            assert(c as int >= pow(factor as int, prev));
            lemma_mul_inequality(pow(factor as int, prev), c as int, factor as int);
            assert(c as int * factor as int >= pow(factor as int, attempts));
        } else {
            assert(c == u32::MAX);
            lemma_sat_mul_grows(c, factor);
            assert(pow(factor as int, attempts) > u32::MAX as int);
        }
    }
}

/// Bounded narrowing: with a reduction factor of at least 2 and an initial
/// range below the coefficient's ceiling, a cell's vicinity is 0 after any
/// number of attempts whose geometric growth passes the range — that is,
/// after at most logarithmically many attempts.
pub proof fn lemma_vicinity_reaches_zero(range: u32, factor: u32, attempts: nat)
    requires
        factor >= 2,
        range < u32::MAX,
        pow(factor as int, attempts) > range as int,
    ensures
        spec_vicinity(range, coeff_after(factor, attempts)) == 0,
{
    lemma_coeff_after_lower_bound(factor, attempts);
    let c = coeff_after(factor, attempts);
    assert(range as int / c as int == 0) by {
        vstd::arithmetic::div_mod::lemma_basic_div_specific_divisor(c as int);
    }
}

/// A closed window forces convergence: a sampling attempt at a cell whose
/// vicinity is 0 always converges the cell onto its target character.
pub proof fn lemma_zero_vicinity_converges(
    pre: RevealEngine,
    post: RevealEngine,
    i: int,
    outcome: StepOutcome,
)
    requires
        pre.wf(),
        step_rel(pre, post, i, outcome),
        !pre.cells@[i].ready,
        spec_vicinity(pre.config.initial_char_range, pre.cells@[i].narrowing_coefficient) == 0,
    ensures
        outcome == StepOutcome::Converged(
            pre.cells@[i].row,
            pre.cells@[i].column,
            pre.cells@[i].required_char,
        ),
        post.cells@[i].ready,
{
    // The window is [target, target], so the drawn character of a `Sampled`
    // outcome would both equal and differ from the target.
}

/// Convergence is certain after boundedly many attempts: with a reduction
/// factor of at least 2 and an initial range below the coefficient's
/// ceiling, a cell whose schedule has passed the range — after at most
/// logarithmically many attempts — converges on its very next attempt.
/// Reaching completion of the whole reveal additionally depends on the
/// random cell selection, which is why the engine's blocking run reports
/// whether it is done rather than promising it.
pub proof fn lemma_cell_converges_after_bounded_attempts(
    pre: RevealEngine,
    post: RevealEngine,
    i: int,
    outcome: StepOutcome,
    attempts: nat,
)
    requires
        pre.wf(),
        step_rel(pre, post, i, outcome),
        !pre.cells@[i].ready,
        pre.config.char_range_reduction_factor >= 2,
        pre.config.initial_char_range < u32::MAX,
        pre.cells@[i].narrowing_coefficient == coeff_after(
            pre.config.char_range_reduction_factor,
            attempts,
        ),
        pow(pre.config.char_range_reduction_factor as int, attempts)
            > pre.config.initial_char_range as int,
    ensures
        outcome == StepOutcome::Converged(
            pre.cells@[i].row,
            pre.cells@[i].column,
            pre.cells@[i].required_char,
        ),
        post.cells@[i].ready,
{
    lemma_vicinity_reaches_zero(
        pre.config.initial_char_range,
        pre.config.char_range_reduction_factor,
        attempts,
    );
    lemma_zero_vicinity_converges(pre, post, i, outcome);
}

/// No double convergence: once a cell is ready, a sampling attempt leaves it
/// untouched and never emits an event referencing its coordinate.
pub proof fn lemma_no_double_convergence(
    pre: RevealEngine,
    post: RevealEngine,
    i: int,
    outcome: StepOutcome,
    j: int,
)
    requires
        pre.wf(),
        step_rel(pre, post, i, outcome),
        0 <= j < pre.cells@.len(),
        pre.cells@[j].ready,
    ensures
        !outcome.mentions(pre.cells@[j].row, pre.cells@[j].column),
        post.cells@[j] == pre.cells@[j],
{
    if i != j && !pre.cells@[i].ready {
        assert(post.cells@ == pre.cells@.update(i, post.cells@[i]));
        if i < j {
            assert((pre.cells@[i].row, pre.cells@[i].column) != (
                pre.cells@[j].row,
                pre.cells@[j].column,
            ));
        } else {
            assert((pre.cells@[j].row, pre.cells@[j].column) != (
                pre.cells@[i].row,
                pre.cells@[i].column,
            ));
        }
    }
}

} // verus!
