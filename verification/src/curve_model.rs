//! The curve model: configuration, growth constant, price, and integral.
//!
//! A `CurveConfig` fixes the price range and supply of one curve.  From it a
//! `CurveModel` derives and caches the growth constant `k` such that
//! `end_price = start_price * e^(k * curve_supply)`; deriving it again from
//! the same configuration always yields the same value, because the whole
//! derivation is deterministic fixed-point arithmetic.
//!
//! The model then answers two questions, both in the configuration's price
//! scale and in whole-token supply positions:
//!
//! * `price_at(s)` — the spot price `start_price * e^(k * s)`;
//! * `integral_between(a, b)` — the closed-form cost
//!   `(start_price / k) * (e^(k*b) - e^(k*a))` of moving the sold position
//!   from `a` to `b`, which keeps a quote at two exponentiations and makes
//!   selling exactly the reverse of buying.

use vstd::prelude::*;
use crate::errors::LaunchpadError;
use crate::fixed_point::{FP_SCALE, EXP_ARG_MAX};
use crate::exponential::{
    exp_series,
    exp_scaled,
    EXP_TERMS,
    lemma_exp_series_mono,
    lemma_exp_series_at_zero,
    lemma_exp_series_bounds,
};
use crate::natural_log::{ln_ratio_spec, ln_ratio_scaled};

verus! {

use vstd::arithmetic::div_mod::{
    lemma_div_is_ordered,
    lemma_div_multiples_vanish,
    lemma_div_plus_one,
    lemma_remainder_lower,
};
use vstd::arithmetic::mul::{
    lemma_mul_left_inequality,
    lemma_mul_is_commutative,
    lemma_mul_is_distributive_add_other_way,
    lemma_mul_is_distributive_sub,
    lemma_mul_inequality,
};

/// Immutable configuration of one curve, fixed at curve creation.
///
/// Prices are scaled integers in the reference currency (`USD_SCALE` units
/// per whole currency unit); `curve_supply` counts whole tokens with the
/// decimals already normalized away; `graduation_threshold` is the minimum
/// cumulative proceeds, in the same price scale, required to graduate.
#[derive(Clone, Copy, Debug, PartialEq, Eq, Structural)]
pub struct CurveConfig {
    pub start_price: u64,
    pub end_price: u64,
    pub curve_supply: u64,
    pub graduation_threshold: u64,
}

impl CurveConfig {
    /// A usable configuration: positive supply and a strictly rising price
    /// range.
    pub open spec fn valid_spec(self) -> bool {
        0 < self.start_price && self.start_price < self.end_price && 0 < self.curve_supply
    }
}

/// A configuration together with its cached growth constant.
#[derive(Clone, Copy, Debug, PartialEq, Eq, Structural)]
pub struct CurveModel {
    pub config: CurveConfig,
    /// `k * FP_SCALE`, where `end_price = start_price * e^(k * curve_supply)`.
    pub k_scaled: u128,
}

/// What deriving a model from a configuration yields: the growth constant
/// `ln(end/start) * FP_SCALE / curve_supply`, or `InvalidCurveParameters`
/// for a configuration that is malformed or outside the fixed-point regime
/// the exponential accepts.
pub open spec fn model_spec(c: CurveConfig) -> Result<CurveModel, LaunchpadError> {
    if !c.valid_spec() {
        Err(LaunchpadError::InvalidCurveParameters)
    } else {
        let l = ln_ratio_spec(c.end_price as int, c.start_price as int);
        if l > EXP_ARG_MAX {
            Err(LaunchpadError::InvalidCurveParameters)
        } else {
            let k = l / (c.curve_supply as int);
            if k < 1 || k > EXP_ARG_MAX {
                Err(LaunchpadError::InvalidCurveParameters)
            } else {
                Ok(CurveModel { config: c, k_scaled: k as u128 })
            }
        }
    }
}

impl CurveModel {
    /// A well-formed model: valid configuration, a positive growth constant,
    /// and an exponent that stays inside the series' accepted range over the
    /// whole curve.
    pub open spec fn wf(self) -> bool {
        &&& self.config.valid_spec()
        &&& 1 <= self.k_scaled
        &&& self.k_scaled * self.config.curve_supply <= EXP_ARG_MAX
    }

    /// Derive the growth constant from a configuration and cache it.
    ///
    /// Deterministic: the same configuration always yields the same model.
    pub fn new(c: CurveConfig) -> (r: Result<CurveModel, LaunchpadError>)
        ensures
            r == model_spec(c),
            r matches Ok(m) ==> m.wf(),
    {
        if c.start_price == 0 || c.end_price <= c.start_price || c.curve_supply == 0 {
            return Err(LaunchpadError::InvalidCurveParameters);
        }
        let l: u128 = ln_ratio_scaled(c.end_price, c.start_price);
        if l > EXP_ARG_MAX {
            return Err(LaunchpadError::InvalidCurveParameters);
        }
        let k: u128 = l / (c.curve_supply as u128);
        if k == 0 || k > EXP_ARG_MAX {
            return Err(LaunchpadError::InvalidCurveParameters);
        }
        proof {
            lemma_remainder_lower(l as int, c.curve_supply as int);
            lemma_mul_is_commutative((l as int) / (c.curve_supply as int), c.curve_supply as int);
        }
        Ok(CurveModel { config: c, k_scaled: k })
    }

    /// The spot price at sold position `s`, in the configuration's price
    /// scale: `start_price * e^(k * s)`.
    pub open spec fn price_spec(self, s: int) -> int {
        (self.config.start_price as int) * exp_series(
            self.k_scaled * s,
            EXP_TERMS as nat,
        ) / (FP_SCALE as int)
    }

    /// The cost of moving the sold position from `a` to `b`, in the
    /// configuration's price scale: `start_price * (e^(k*b) - e^(k*a)) / k`.
    pub open spec fn integral_spec(self, a: int, b: int) -> int {
        let ea = exp_series(self.k_scaled * a, EXP_TERMS as nat);
        let eb = exp_series(self.k_scaled * b, EXP_TERMS as nat);
        (self.config.start_price as int) * (eb - ea) / (self.k_scaled as int)
    }

    /// Spot price at a sold position, exactly `price_spec`; fails only when
    /// the product `start_price * e^(k*s)` leaves `u128`.
    pub fn price_at(&self, tokens_sold: u64) -> (r: Result<u128, LaunchpadError>)
        requires
            self.wf(),
            tokens_sold <= self.config.curve_supply,
        ensures
            ({
                let e = exp_series(self.k_scaled * tokens_sold, EXP_TERMS as nat);
                match r {
                    Ok(p) => (self.config.start_price as int) * e <= u128::MAX && p
                        == self.price_spec(tokens_sold as int),
                    Err(err) => err == LaunchpadError::MathOverflow && (
                    self.config.start_price as int) * e > u128::MAX,
                }
            }),
    {
        proof {
            lemma_mul_left_inequality(
                self.k_scaled as int,
                tokens_sold as int,
                self.config.curve_supply as int,
            );
        }
        let x: u128 = self.k_scaled * (tokens_sold as u128);
        let e: u128 = exp_scaled(x);
        match (self.config.start_price as u128).checked_mul(e) {
            Some(p) => Ok(p / FP_SCALE),
            None => Err(LaunchpadError::MathOverflow),
        }
    }

    /// Integral of the price over `[a, b]`, exactly `integral_spec`.
    ///
    /// `InvalidRange` exactly when the interval is inverted; `MathOverflow`
    /// exactly when `start_price * (e^(k*b) - e^(k*a))` leaves `u128`.
    pub fn integral_between(&self, a: u64, b: u64) -> (r: Result<u128, LaunchpadError>)
        requires
            self.wf(),
            b <= self.config.curve_supply,
        ensures
            ({
                let ea = exp_series(self.k_scaled * a, EXP_TERMS as nat);
                let eb = exp_series(self.k_scaled * b, EXP_TERMS as nat);
                match r {
                    Ok(v) => a <= b && (self.config.start_price as int) * (eb - ea) <= u128::MAX
                        && v == self.integral_spec(a as int, b as int),
                    Err(err) => (err == LaunchpadError::InvalidRange && a > b) || (err
                        == LaunchpadError::MathOverflow && a <= b && (
                    self.config.start_price as int) * (eb - ea) > u128::MAX),
                }
            }),
    {
        if a > b {
            return Err(LaunchpadError::InvalidRange);
        }
        proof {
            lemma_mul_left_inequality(self.k_scaled as int, a as int, b as int);
            lemma_mul_left_inequality(self.k_scaled as int, b as int, self.config.curve_supply as int);
        }
        let xa: u128 = self.k_scaled * (a as u128);
        let xb: u128 = self.k_scaled * (b as u128);
        let ea: u128 = exp_scaled(xa);
        let eb: u128 = exp_scaled(xb);
        proof {
            lemma_exp_series_mono(xa as int, xb as int, EXP_TERMS as nat);
        }
        let diff: u128 = eb - ea;
        match (self.config.start_price as u128).checked_mul(diff) {
            Some(p) => Ok(p / self.k_scaled),
            None => Err(LaunchpadError::MathOverflow),
        }
    }
}

/// At a sold position of zero the spot price is exactly the configured
/// start price: the series is exactly one at exponent zero, and the scale
/// divides back out without loss.
pub proof fn lemma_price_at_zero(m: CurveModel)
    requires
        m.wf(),
    ensures
        m.price_spec(0) == m.config.start_price,
{
    let fp = FP_SCALE as int;
    let start = m.config.start_price as int;
    vstd::arithmetic::mul::lemma_mul_basics(m.k_scaled as int);
    lemma_exp_series_at_zero(EXP_TERMS as nat);
    assert(m.price_spec(0) == start * fp / fp);
    lemma_mul_is_commutative(start, fp);
    lemma_div_multiples_vanish(start, fp);
}

/// Monotonicity of the spot price in the sold position.
///
/// The scaled-integer price never decreases as supply is sold, and it
/// strictly increases as soon as the gap is wide enough that the real-valued
/// increase `start_price * k * (s2 - s1)` amounts to at least one unit of
/// the price scale; below that the two positions can round to the same
/// integer price.
pub proof fn lemma_price_monotonic(m: CurveModel, s1: u64, s2: u64)
    requires
        m.wf(),
        s1 <= s2,
        s2 <= m.config.curve_supply,
    ensures
        m.price_spec(s1 as int) <= m.price_spec(s2 as int),
        (m.config.start_price as int) * (m.k_scaled * (s2 - s1)) >= FP_SCALE
            ==> m.price_spec(s1 as int) < m.price_spec(s2 as int),
{
    let fp = FP_SCALE as int;
    let start = m.config.start_price as int;
    let k = m.k_scaled as int;
    let x1 = k * (s1 as int);
    let x2 = k * (s2 as int);
    lemma_mul_left_inequality(k, s1 as int, s2 as int);
    lemma_mul_left_inequality(k, s2 as int, m.config.curve_supply as int);
    let e1 = exp_series(x1, EXP_TERMS as nat);
    let e2 = exp_series(x2, EXP_TERMS as nat);
    lemma_exp_series_mono(x1, x2, EXP_TERMS as nat);
    lemma_exp_series_bounds(x1, EXP_TERMS as nat);
    lemma_mul_left_inequality(start, e1, e2);
    lemma_div_is_ordered(start * e1, start * e2, fp);

    if start * (k * ((s2 - s1) as int)) >= fp {
        assert(x2 - x1 == k * ((s2 - s1) as int)) by {
            lemma_mul_is_distributive_sub(k, s2 as int, s1 as int);
        }
        assert(start * e2 >= start * e1 + start * (x2 - x1)) by {
            lemma_mul_left_inequality(start, e1 + (x2 - x1), e2);
            vstd::arithmetic::mul::lemma_mul_is_distributive_add(start, e1, x2 - x1);
        }
        assert(start * e2 >= start * e1 + fp);
        lemma_div_is_ordered(start * e1 + fp, start * e2, fp);
        assert((fp + start * e1) / fp == 1 + (start * e1) / fp) by {
            lemma_div_plus_one(start * e1, fp);
        }
    }
}

} // verus!
