//! Fixed-point exponential approximator.
//!
//! `exp_scaled(x)` computes `e^(x / FP_SCALE) * FP_SCALE` by a truncated
//! Taylor series evaluated entirely in `u128`:
//!
//! ```text
//! term_0 = FP_SCALE
//! term_i = term_{i-1} * x / (i * FP_SCALE)      (every division truncates)
//! result = term_0 + term_1 + ... + term_N
//! ```
//!
//! The series self-terminates once a term truncates to zero, and the term
//! count is capped at `EXP_TERMS`, trading a small bounded truncation error
//! for guaranteed termination and bounded intermediates.  The argument is
//! limited to `EXP_ARG_MAX` (an exponent of 4): growth constants are derived
//! so that the whole curve stays inside this regime, where `EXP_TERMS` terms
//! leave a relative truncation error far below one part in `FP_SCALE` and no
//! intermediate product can leave `u128`.

use vstd::prelude::*;
use crate::fixed_point::{FP_SCALE, EXP_ARG_MAX};

verus! {

use vstd::arithmetic::div_mod::{
    lemma_div_is_ordered,
    lemma_div_is_ordered_by_denominator,
    lemma_div_pos_is_pos,
    lemma_div_multiples_vanish,
    lemma_div_of0,
};
use vstd::arithmetic::mul::{lemma_mul_upper_bound, lemma_mul_nonnegative};

/// Number of series terms after the leading 1.
pub const EXP_TERMS: u32 = 20;

/// The `i`-th term of the truncated series, scaled by `FP_SCALE`.
pub open spec fn exp_term(x: int, i: nat) -> int
    decreases i,
{
    if i == 0 {
        FP_SCALE as int
    } else {
        exp_term(x, (i - 1) as nat) * x / (i * (FP_SCALE as int))
    }
}

/// Sum of the truncated series through term `n`.
pub open spec fn exp_series(x: int, n: nat) -> int
    decreases n,
{
    if n == 0 {
        FP_SCALE as int
    } else {
        exp_series(x, (n - 1) as nat) + exp_term(x, n)
    }
}

/// Upper bound on a term of the series for arguments within `EXP_ARG_MAX`.
pub open spec fn exp_term_cap(i: nat) -> int {
    if i == 0 {
        FP_SCALE as int
    } else if i == 1 {
        4 * (FP_SCALE as int)
    } else if i == 2 {
        8 * (FP_SCALE as int)
    } else {
        16 * (FP_SCALE as int)
    }
}

/// Every term is non-negative for a non-negative argument.
pub proof fn lemma_exp_term_nonneg(x: int, i: nat)
    requires
        0 <= x,
    ensures
        0 <= exp_term(x, i),
    decreases i,
{
    if i > 0 {
        lemma_exp_term_nonneg(x, (i - 1) as nat);
        lemma_mul_nonnegative(exp_term(x, (i - 1) as nat), x);
        lemma_div_pos_is_pos(exp_term(x, (i - 1) as nat) * x, i * (FP_SCALE as int));
    }
}

/// For arguments within `EXP_ARG_MAX` every term stays under its cap.
pub proof fn lemma_exp_term_cap(x: int, i: nat)
    requires
        0 <= x <= EXP_ARG_MAX,
    ensures
        0 <= exp_term(x, i) <= exp_term_cap(i),
    decreases i,
{
    let fp = FP_SCALE as int;
    lemma_exp_term_nonneg(x, i);
    if i > 0 {
        let prev = exp_term(x, (i - 1) as nat);
        lemma_exp_term_cap(x, (i - 1) as nat);
        lemma_mul_upper_bound(prev, exp_term_cap((i - 1) as nat), x, EXP_ARG_MAX as int);
        if i == 1 {
            // term_1 == (FP_SCALE * x) / FP_SCALE == x
            lemma_div_multiples_vanish(x, fp);
        } else if i == 2 {
            lemma_div_is_ordered(prev * x, 4 * fp * (EXP_ARG_MAX as int), 2 * fp);
        } else if i == 3 {
            lemma_div_is_ordered(prev * x, 8 * fp * (EXP_ARG_MAX as int), 3 * fp);
        } else {
            lemma_div_is_ordered(prev * x, 16 * fp * (EXP_ARG_MAX as int), i * fp);
            lemma_div_is_ordered_by_denominator(16 * fp * (EXP_ARG_MAX as int), 4 * fp, i * fp);
        }
    }
}

/// The series stays non-negative and under a linear cap.
pub proof fn lemma_exp_series_bounds(x: int, n: nat)
    requires
        0 <= x <= EXP_ARG_MAX,
    ensures
        FP_SCALE as int <= exp_series(x, n) <= (FP_SCALE as int) + n * (16 * (FP_SCALE as int)),
    decreases n,
{
    if n > 0 {
        lemma_exp_series_bounds(x, (n - 1) as nat);
        lemma_exp_term_cap(x, n);
        assert((n - 1) * (16 * (FP_SCALE as int)) + 16 * (FP_SCALE as int) == n * (16
            * (FP_SCALE as int))) by {
            vstd::arithmetic::mul::lemma_mul_is_distributive_add_other_way(
                16 * (FP_SCALE as int),
                n - 1,
                1,
            );
        }
    }
}

/// Once a term truncates to zero, every later term is zero as well.
pub proof fn lemma_exp_term_zero_stays(x: int, i: nat, n: nat)
    requires
        0 <= x,
        exp_term(x, i) == 0,
        i <= n,
    ensures
        exp_term(x, n) == 0,
    decreases n - i,
{
    if n > i {
        lemma_exp_term_zero_stays(x, i, (n - 1) as nat);
        lemma_div_of0((n * (FP_SCALE as int)) as int);
    }
}

/// Once a term truncates to zero, the series has converged.
pub proof fn lemma_exp_series_converged(x: int, i: nat, n: nat)
    requires
        0 <= x,
        exp_term(x, i) == 0,
        i <= n,
    ensures
        exp_series(x, n) == exp_series(x, i),
    decreases n - i,
{
    if n > i {
        lemma_exp_series_converged(x, i, (n - 1) as nat);
        lemma_exp_term_zero_stays(x, i, n);
    }
}

/// At argument zero the series is exactly one: every term after the leading
/// `FP_SCALE` truncates to zero.
pub proof fn lemma_exp_series_at_zero(n: nat)
    ensures
        exp_series(0, n) == FP_SCALE as int,
        exp_term(0, n) == if n == 0 { FP_SCALE as int } else { 0 },
    decreases n,
{
    if n > 0 {
        lemma_exp_series_at_zero((n - 1) as nat);
        vstd::arithmetic::mul::lemma_mul_basics(exp_term(0, (n - 1) as nat));
        lemma_div_of0((n * (FP_SCALE as int)) as int);
    }
}

/// Terms grow monotonically with the argument.
pub proof fn lemma_exp_term_mono(x1: int, x2: int, i: nat)
    requires
        0 <= x1 <= x2,
    ensures
        exp_term(x1, i) <= exp_term(x2, i),
    decreases i,
{
    if i > 0 {
        let p1 = exp_term(x1, (i - 1) as nat);
        let p2 = exp_term(x2, (i - 1) as nat);
        lemma_exp_term_mono(x1, x2, (i - 1) as nat);
        lemma_exp_term_nonneg(x1, (i - 1) as nat);
        lemma_mul_upper_bound(p1, p2, x1, x2);
        lemma_div_is_ordered(p1 * x1, p2 * x2, i * (FP_SCALE as int));
    }
}

/// The series grows monotonically with the argument, and for at least one
/// term it grows by at least the difference of the arguments (the first
/// term of the series is exactly the argument).
pub proof fn lemma_exp_series_mono(x1: int, x2: int, n: nat)
    requires
        0 <= x1 <= x2,
        1 <= n,
    ensures
        exp_series(x1, n) + (x2 - x1) <= exp_series(x2, n),
    decreases n,
{
    let fp = FP_SCALE as int;
    if n == 1 {
        // exp_term(x, 1) == (FP_SCALE * x) / FP_SCALE == x
        assert(exp_term(x1, 0) == fp);
        assert(exp_term(x2, 0) == fp);
        assert(exp_term(x1, 1) == fp * x1 / (1 * fp));
        assert(exp_term(x2, 1) == fp * x2 / (1 * fp));
        assert(1 * fp == fp);
        lemma_div_multiples_vanish(x1, fp);
        lemma_div_multiples_vanish(x2, fp);
        assert(exp_term(x1, 1) == x1);
        assert(exp_term(x2, 1) == x2);
        assert(exp_series(x1, 0) == fp);
        assert(exp_series(x2, 0) == fp);
        assert(exp_series(x1, 1) == fp + x1);
        assert(exp_series(x2, 1) == fp + x2);
    } else {
        lemma_exp_series_mono(x1, x2, (n - 1) as nat);
        lemma_exp_term_mono(x1, x2, n);
    }
}

/// `e^(x / FP_SCALE) * FP_SCALE`, by the truncated Taylor series.
///
/// The result is exactly `exp_series(x, EXP_TERMS)`: the same argument gives
/// the same answer on every machine, and no intermediate step can overflow
/// within the accepted argument range.
pub fn exp_scaled(x: u128) -> (r: u128)
    requires
        x <= EXP_ARG_MAX,
    ensures
        r == exp_series(x as int, EXP_TERMS as nat),
        FP_SCALE <= r <= FP_SCALE + (EXP_TERMS as int) * (16 * (FP_SCALE as int)),
{
    proof {
        lemma_exp_series_bounds(x as int, EXP_TERMS as nat);
    }
    let mut acc: u128 = FP_SCALE;
    let mut term: u128 = FP_SCALE;
    let mut i: u32 = 1;
    while i <= EXP_TERMS
        invariant
            x <= EXP_ARG_MAX,
            1 <= i <= EXP_TERMS + 1,
            term == exp_term(x as int, (i - 1) as nat),
            acc == exp_series(x as int, (i - 1) as nat),
        decreases EXP_TERMS + 1 - i,
    {
        if term == 0 {
            proof {
                lemma_exp_series_converged(x as int, (i - 1) as nat, EXP_TERMS as nat);
                lemma_exp_series_bounds(x as int, EXP_TERMS as nat);
            }
            return acc;
        }
        proof {
            lemma_exp_term_cap(x as int, (i - 1) as nat);
            lemma_mul_upper_bound(term as int, 16 * (FP_SCALE as int), x as int, EXP_ARG_MAX as int);
        }
        let num: u128 = term * x;
        let den: u128 = (i as u128) * FP_SCALE;
        term = num / den;
        proof {
            lemma_exp_series_bounds(x as int, i as nat);
            lemma_exp_term_cap(x as int, i as nat);
        }
        acc = acc + term;
        i = i + 1;
    }
    acc
}

} // verus!
