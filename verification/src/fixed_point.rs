//! Scaled-integer fixed-point primitives.
//!
//! A fixed-point value represents the real number `v / FP_SCALE` as the
//! integer `v`.  The curve math runs entirely on such integers so that every
//! result is reproducible bit-for-bit; anything that could overflow is either
//! proved in range or checked and reported as `MathOverflow`.

use vstd::prelude::*;
use crate::errors::LaunchpadError;

verus! {

/// Scale of the fixed-point numbers used by the exponential and logarithm
/// routines: one unit is `1 / FP_SCALE`.
pub const FP_SCALE: u128 = 1_000_000_000_000_000_000;

/// Largest exponent argument (scaled by `FP_SCALE`) that the truncated
/// exponential series accepts: `e^4`.  Growth constants are derived so that
/// `k * supply` never exceeds this, which keeps every intermediate term of
/// the series within `u128` and the truncation error far below one part in
/// `FP_SCALE`.
pub const EXP_ARG_MAX: u128 = 4_000_000_000_000_000_000;

/// `ln 2`, scaled by `FP_SCALE` and truncated.
pub const LN2_SCALED: u128 = 693_147_180_559_945_309;

/// `a * b / c`, with the product overflow-checked.
///
/// The division itself cannot fail because `c > 0`; only a product beyond
/// `u128` is an error.
pub fn mul_div(a: u128, b: u128, c: u128) -> (r: Result<u128, LaunchpadError>)
    requires
        c > 0,
    ensures
        match r {
            Ok(v) => a * b <= u128::MAX && v == (a * b) / (c as int),
            Err(e) => e == LaunchpadError::MathOverflow && a * b > u128::MAX,
        },
{
    match a.checked_mul(b) {
        Some(p) => Ok(p / c),
        None => Err(LaunchpadError::MathOverflow),
    }
}

/// Dividing a sum distributes over at least the sum of the quotients:
/// `a / d + b / d <= (a + b) / d`.
pub proof fn lemma_div_sum_lower(a: int, b: int, d: int)
    requires
        0 <= a,
        0 <= b,
        0 < d,
    ensures
        a / d + b / d <= (a + b) / d,
{
    let qa = a / d;
    let qb = b / d;
    vstd::arithmetic::div_mod::lemma_div_pos_is_pos(a, d);
    vstd::arithmetic::div_mod::lemma_div_pos_is_pos(b, d);
    vstd::arithmetic::div_mod::lemma_remainder_lower(a, d);
    vstd::arithmetic::div_mod::lemma_remainder_lower(b, d);
    assert((qa + qb) * d == qa * d + qb * d) by {
        vstd::arithmetic::mul::lemma_mul_is_distributive_add_other_way(d, qa, qb);
    }
    vstd::arithmetic::div_mod::lemma_div_is_ordered((qa + qb) * d, a + b, d);
    vstd::arithmetic::div_mod::lemma_div_by_multiple(qa + qb, d);
}

} // verus!
