//! Fixed-point natural logarithm of a price ratio.
//!
//! `ln_ratio_scaled(end, start)` computes `ln(end / start) * FP_SCALE` for
//! `0 < start < end` without floating point, so the growth constant derived
//! from a configuration is reproducible bit-for-bit.
//!
//! The argument is range-reduced first: `y = end * FP_SCALE / start` is
//! halved `m` times until it lands in `[FP_SCALE, 2 * FP_SCALE)`, and
//! `ln y == m * ln 2 + ln z` for the reduced `z`.  The remaining logarithm
//! uses the series `ln z = 2 * atanh((z - 1) / (z + 1))`, whose argument is
//! below one half, so the series converges geometrically and a fixed number
//! of terms leaves a negligible truncation error:
//!
//! ```text
//! t_0 = w,   t_j = t_{j-1} * w / FP_SCALE * w / FP_SCALE
//! atanh(w) = t_0 + t_1 / 3 + t_2 / 5 + ...      (every division truncates)
//! ```

use vstd::prelude::*;
use crate::fixed_point::{FP_SCALE, LN2_SCALED};

verus! {

use vstd::arithmetic::div_mod::{
    lemma_div_is_ordered,
    lemma_div_pos_is_pos,
    lemma_div_nonincreasing,
    lemma_div_multiples_vanish,
    lemma_div_by_multiple,
    lemma_multiply_divide_lt,
};
use vstd::arithmetic::mul::{
    lemma_mul_inequality,
    lemma_mul_strict_inequality,
    lemma_mul_is_distributive_add_other_way,
};

/// Number of series terms used for `atanh`.
pub const ATANH_TERMS: u32 = 20;

/// How many halvings bring `y` into `[FP_SCALE, 2 * FP_SCALE)`.
pub open spec fn halvings(y: int) -> nat
    decreases y,
{
    if y < 2 * (FP_SCALE as int) {
        0
    } else {
        1 + halvings(y / 2)
    }
}

/// The value of `y` after those halvings.
pub open spec fn reduced(y: int) -> int
    decreases y,
{
    if y < 2 * (FP_SCALE as int) {
        y
    } else {
        reduced(y / 2)
    }
}

/// The `j`-th term of the `atanh` series, scaled by `FP_SCALE`.
pub open spec fn atanh_term(w: int, j: nat) -> int
    decreases j,
{
    if j == 0 {
        w
    } else {
        atanh_term(w, (j - 1) as nat) * w / (FP_SCALE as int) * w / (FP_SCALE as int)
    }
}

/// The series for `atanh(w / FP_SCALE) * FP_SCALE` through term `j`.
pub open spec fn atanh_sum(w: int, j: nat) -> int
    decreases j,
{
    if j == 0 {
        w
    } else {
        atanh_sum(w, (j - 1) as nat) + atanh_term(w, j) / (2 * (j as int) + 1)
    }
}

/// `ln(end / start) * FP_SCALE`, as the range reduction and truncated
/// series compute it.
pub open spec fn ln_ratio_spec(end_price: int, start_price: int) -> int {
    let y = end_price * (FP_SCALE as int) / start_price;
    let z = reduced(y);
    let w = (z - FP_SCALE) * (FP_SCALE as int) / (z + FP_SCALE);
    halvings(y) * (LN2_SCALED as int) + 2 * atanh_sum(w, (ATANH_TERMS - 1) as nat)
}

/// `ln(end_price / start_price) * FP_SCALE`, deterministic fixed-point.
pub fn ln_ratio_scaled(end_price: u64, start_price: u64) -> (r: u128)
    requires
        0 < start_price < end_price,
    ensures
        r == ln_ratio_spec(end_price as int, start_price as int),
{
    let ghost fp_int: int = FP_SCALE as int;
    let y: u128 = (end_price as u128) * FP_SCALE / (start_price as u128);
    proof {
        // end >= start + 1, so y >= (start * FP + FP) / start >= FP.
        lemma_mul_inequality(start_price + 1, end_price as int, fp_int);
        lemma_div_is_ordered(
            (start_price + 1) * fp_int,
            (end_price as int) * fp_int,
            start_price as int,
        );
        lemma_div_by_multiple(fp_int, start_price as int);
        lemma_div_is_ordered(
            (fp_int * (start_price as int)),
            (start_price + 1) * fp_int,
            start_price as int,
        );
        assert(fp_int * (start_price as int) == (fp_int) * (start_price as int));
        assert((start_price + 1) * fp_int == fp_int * (start_price as int) + fp_int) by {
            lemma_mul_is_distributive_add_other_way(fp_int, start_price as int, 1);
            vstd::arithmetic::mul::lemma_mul_is_commutative(start_price as int, fp_int);
        }
    }
    assert(y >= FP_SCALE);

    // Range reduction: halve until z lands in [FP_SCALE, 2 * FP_SCALE).
    let mut z: u128 = y;
    let mut m: u128 = 0;
    while z >= 2 * FP_SCALE
        invariant
            FP_SCALE <= z <= y,
            m * FP_SCALE + z <= y,
            m + halvings(z as int) == halvings(y as int),
            reduced(z as int) == reduced(y as int),
        decreases z,
    {
        proof {
            assert(halvings(z as int) == 1 + halvings(z as int / 2));
            assert(reduced(z as int) == reduced(z as int / 2));
            assert((m + 1) * FP_SCALE == m * FP_SCALE + FP_SCALE) by {
                lemma_mul_is_distributive_add_other_way(FP_SCALE as int, m as int, 1);
            }
        }
        z = z / 2;
        m = m + 1;
    }
    assert(m == halvings(y as int));
    assert(z == reduced(y as int));

    // atanh argument: w = (z - 1) / (z + 1) in fixed point, below FP_SCALE / 2.
    let w: u128 = (z - FP_SCALE) * FP_SCALE / (z + FP_SCALE);
    proof {
        lemma_mul_strict_inequality((z - FP_SCALE) as int, (z + FP_SCALE) as int, fp_int);
        lemma_multiply_divide_lt(
            ((z - FP_SCALE) * FP_SCALE) as int,
            (z + FP_SCALE) as int,
            fp_int,
        );
    }
    assert(w < FP_SCALE);

    // Truncated atanh series.
    let mut t: u128 = w;
    let mut s: u128 = w;
    let mut j: u32 = 1;
    while j < ATANH_TERMS
        invariant
            w < FP_SCALE,
            1 <= j <= ATANH_TERMS,
            t == atanh_term(w as int, (j - 1) as nat),
            s == atanh_sum(w as int, (j - 1) as nat),
            t <= w,
            s <= j * (w as int),
        decreases ATANH_TERMS - j,
    {
        proof {
            vstd::arithmetic::mul::lemma_mul_upper_bound(t as int, w as int, w as int, FP_SCALE as int);
            lemma_div_is_ordered((t * w) as int, (w as int) * (FP_SCALE as int), FP_SCALE as int);
            lemma_div_by_multiple(w as int, FP_SCALE as int);
            vstd::arithmetic::mul::lemma_mul_is_commutative(w as int, FP_SCALE as int);
        }
        let t1: u128 = t * w / FP_SCALE;
        assert(t1 <= w);
        proof {
            vstd::arithmetic::mul::lemma_mul_upper_bound(t1 as int, w as int, w as int, FP_SCALE as int);
            lemma_div_is_ordered((t1 * w) as int, (w as int) * (FP_SCALE as int), FP_SCALE as int);
        }
        let t2: u128 = t1 * w / FP_SCALE;
        assert(t2 <= w);
        t = t2;
        let odd: u32 = 2 * j + 1;
        proof {
            lemma_div_nonincreasing(t as int, odd as int);
            lemma_div_pos_is_pos(t as int, odd as int);
            assert((j + 1) * (w as int) == j * (w as int) + (w as int)) by {
                lemma_mul_is_distributive_add_other_way(w as int, j as int, 1);
            }
            lemma_mul_inequality(j + 1, 20, w as int);
        }
        s = s + t / (odd as u128);
        j = j + 1;
    }
    assert(s == atanh_sum(w as int, (ATANH_TERMS - 1) as nat));

    proof {
        // m * FP_SCALE <= y <= u128::MAX bounds the contribution of m * ln 2.
        lemma_div_by_multiple(m as int, FP_SCALE as int);
        lemma_div_is_ordered((m as int) * (FP_SCALE as int), u128::MAX as int, FP_SCALE as int);
        assert(m <= (u128::MAX as int) / (FP_SCALE as int));
        lemma_mul_inequality(
            m as int,
            (u128::MAX as int) / (FP_SCALE as int),
            LN2_SCALED as int,
        );
        assert(s <= 20 * (w as int));
        assert(m * (LN2_SCALED as int) + 2 * (s as int) <= u128::MAX as int);
    }
    m * LN2_SCALED + 2 * s
}

} // verus!
