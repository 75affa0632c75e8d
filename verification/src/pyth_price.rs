//! Scaling and freshness rules for oracle price readings.
//!
//! The oracle hands the settlement layer a price as a positive mantissa and
//! a decimal exponent, `price * 10^exponent`, plus the time it was
//! published.  The engine's rules for that data live here, on plain values:
//! rescaling the reading to `USD_SCALE` fixed point, and deciding whether a
//! reading is fresh enough to price a trade.  Reading the oracle account
//! itself is the surrounding layer's job.

use vstd::prelude::*;
use crate::errors::LaunchpadError;
use crate::state::USD_SCALE;

verus! {

use vstd::arithmetic::div_mod::{lemma_basic_div, lemma_div_pos_is_pos, lemma_div_nonincreasing};
use vstd::arithmetic::mul::{lemma_mul_inequality, lemma_mul_upper_bound, lemma_mul_increases};

/// One oracle price reading, as plain values.
#[derive(Clone, Copy, Debug, PartialEq, Eq, Structural)]
pub struct PriceMessage {
    /// Price mantissa; positive for a usable reading.
    pub price: i64,
    /// Confidence interval around the price, in the same scale.
    pub conf: u64,
    /// Decimal exponent: the price is `price * 10^exponent`.
    pub exponent: i32,
    /// Unix timestamp the reading was published at.
    pub publish_time: i64,
}

/// Ten to the `e`-th.
pub open spec fn pow10_spec(e: nat) -> int
    decreases e,
{
    if e == 0 {
        1
    } else {
        10 * pow10_spec((e - 1) as nat)
    }
}

/// Powers of ten are positive and grow with the exponent.
pub proof fn lemma_pow10_pos(e: nat)
    ensures
        pow10_spec(e) >= 1,
    decreases e,
{
    if e > 0 {
        lemma_pow10_pos((e - 1) as nat);
    }
}

/// Monotonicity of powers of ten.
pub proof fn lemma_pow10_mono(a: nat, b: nat)
    requires
        a <= b,
    ensures
        pow10_spec(a) <= pow10_spec(b),
    decreases b,
{
    if a < b {
        lemma_pow10_mono(a, (b - 1) as nat);
        lemma_pow10_pos((b - 1) as nat);
    }
}

/// Concrete powers of ten the scaling rules pivot on.
pub proof fn lemma_pow10_values()
    ensures
        pow10_spec(8) == 100_000_000,
        pow10_spec(12) == 1_000_000_000_000,
        pow10_spec(19) == 10_000_000_000_000_000_000,
{
    reveal_with_fuel(pow10_spec, 20);
}

/// What rescaling a reading of `price * 10^exponent` to `USD_SCALE` fixed
/// point yields, for every mantissa and exponent.
///
/// A reading without a positive mantissa is `InvalidPrice`; one whose
/// scaled value cannot be represented is `MathOverflow`; one that scales
/// down to zero is `InvalidPrice`, because a zero rate cannot price a
/// trade.
pub open spec fn scaled_price_spec(price: i64, exponent: i32) -> Result<u64, LaunchpadError> {
    if price <= 0 {
        Err(LaunchpadError::InvalidPrice)
    } else if exponent >= 0 {
        let v = (price as int) * pow10_spec(exponent as nat) * (USD_SCALE as int);
        if v > u64::MAX {
            Err(LaunchpadError::MathOverflow)
        } else {
            Ok(v as u64)
        }
    } else {
        let a = -(exponent as int);
        if a <= 8 {
            let v = (price as int) * pow10_spec((8 - a) as nat);
            if v > u64::MAX {
                Err(LaunchpadError::MathOverflow)
            } else {
                Ok(v as u64)
            }
        } else {
            let v = (price as int) / pow10_spec((a - 8) as nat);
            if v == 0 {
                Err(LaunchpadError::InvalidPrice)
            } else {
                Ok(v as u64)
            }
        }
    }
}

/// Whether a reading published at `publish_time` is usable at
/// `current_time` under the staleness bound: its age must be computable,
/// non-negative, and at most `max_staleness_seconds`.
pub open spec fn freshness_spec(
    publish_time: i64,
    current_time: i64,
    max_staleness_seconds: i64,
) -> Result<(), LaunchpadError> {
    let age = current_time - publish_time;
    if age > i64::MAX || age < i64::MIN {
        Err(LaunchpadError::InvalidPrice)
    } else if 0 <= age <= max_staleness_seconds {
        Ok(())
    } else {
        Err(LaunchpadError::StalePrice)
    }
}

/// Reads oracle price data for the engine.
pub struct PythPriceReader;

/// `10^e`, for exponents whose power fits a `u64`.
fn pow10(e: u32) -> (r: u64)
    requires
        e <= 19,
    ensures
        r == pow10_spec(e as nat),
        r >= 1,
{
    proof {
        lemma_pow10_pos(e as nat);
    }
    let mut r: u64 = 1;
    let mut i: u32 = 0;
    while i < e
        invariant
            i <= e <= 19,
            r == pow10_spec(i as nat),
        decreases e - i,
    {
        proof {
            lemma_pow10_mono((i + 1) as nat, 19);
            lemma_pow10_values();
        }
        r = r * 10;
        i = i + 1;
    }
    proof {
        lemma_pow10_pos(e as nat);
    }
    r
}

impl PythPriceReader {
    /// The reading rescaled to `USD_SCALE` fixed point, exactly
    /// `scaled_price_spec` of its mantissa and exponent.
    pub fn get_sol_price_usd(msg: &PriceMessage) -> (r: Result<u64, LaunchpadError>)
        ensures
            r == scaled_price_spec(msg.price, msg.exponent),
    {
        if msg.price <= 0 {
            return Err(LaunchpadError::InvalidPrice);
        }
        let price_wide: u128 = msg.price as u128;
        if msg.exponent >= 0 {
            if msg.exponent > 11 {
                // price >= 1, so the scaled value is at least 10^12 * USD_SCALE.
                proof {
                    lemma_pow10_values();
                    lemma_pow10_mono(12, msg.exponent as nat);
                    lemma_mul_increases(msg.price as int, pow10_spec(msg.exponent as nat));
                    lemma_mul_inequality(
                        1_000_000_000_000,
                        (msg.price as int) * pow10_spec(msg.exponent as nat),
                        USD_SCALE as int,
                    );
                    assert(1_000_000_000_000 * (USD_SCALE as int) == 100_000_000_000_000_000_000int);
                }
                return Err(LaunchpadError::MathOverflow);
            }
            let mult: u64 = pow10(msg.exponent as u32);
            proof {
                lemma_pow10_values();
                lemma_pow10_mono(msg.exponent as nat, 12);
                lemma_mul_upper_bound(
                    price_wide as int,
                    i64::MAX as int,
                    mult as int,
                    1_000_000_000_000,
                );
            }
            let v1: u128 = price_wide * (mult as u128);
            if v1 > u64::MAX as u128 {
                // Scaling up by USD_SCALE only grows the value further.
                proof {
                    vstd::arithmetic::mul::lemma_mul_strictly_positive(
                        price_wide as int,
                        mult as int,
                    );
                    lemma_mul_increases(USD_SCALE as int, v1 as int);
                    vstd::arithmetic::mul::lemma_mul_is_commutative(USD_SCALE as int, v1 as int);
                }
                return Err(LaunchpadError::MathOverflow);
            }
            proof {
                lemma_mul_upper_bound(v1 as int, u64::MAX as int, USD_SCALE as int, 100_000_000);
            }
            let v: u128 = v1 * (USD_SCALE as u128);
            if v > u64::MAX as u128 {
                return Err(LaunchpadError::MathOverflow);
            }
            return Ok(v as u64);
        }
        // Negative exponent.
        let abs_exponent: u32 = if msg.exponent == i32::MIN {
            2_147_483_648u32
        } else {
            (-msg.exponent) as u32
        };
        if abs_exponent <= 8 {
            let scale: u64 = pow10(8 - abs_exponent);
            proof {
                lemma_pow10_values();
                lemma_pow10_mono((8 - abs_exponent) as nat, 8);
                lemma_mul_upper_bound(
                    price_wide as int,
                    i64::MAX as int,
                    scale as int,
                    100_000_000,
                );
            }
            let v: u128 = price_wide * (scale as u128);
            if v > u64::MAX as u128 {
                return Err(LaunchpadError::MathOverflow);
            }
            Ok(v as u64)
        } else if abs_exponent > 27 {
            // The divisor is at least 10^19, above any positive mantissa.
            proof {
                lemma_pow10_values();
                lemma_pow10_mono(19, (abs_exponent - 8) as nat);
                lemma_basic_div(msg.price as int, pow10_spec((abs_exponent - 8) as nat));
            }
            Err(LaunchpadError::InvalidPrice)
        } else {
            let divisor: u64 = pow10(abs_exponent - 8);
            let v: u64 = msg.price as u64 / divisor;
            proof {
                lemma_div_pos_is_pos(msg.price as int, divisor as int);
                lemma_div_nonincreasing(msg.price as int, divisor as int);
            }
            if v == 0 {
                Err(LaunchpadError::InvalidPrice)
            } else {
                Ok(v)
            }
        }
    }

    /// Whether the reading is fresh enough to use, without failing.
    pub fn is_price_fresh(
        msg: &PriceMessage,
        current_time: i64,
        max_staleness_seconds: i64,
    ) -> (r: bool)
        ensures
            r == (freshness_spec(msg.publish_time, current_time, max_staleness_seconds)
                == Ok::<(), LaunchpadError>(())),
    {
        match current_time.checked_sub(msg.publish_time) {
            Some(age) => 0 <= age && age <= max_staleness_seconds,
            None => false,
        }
    }

    /// Demand that the reading is fresh: `InvalidPrice` when its age cannot
    /// be computed, `StalePrice` when it is negative or above the bound.
    pub fn validate_price_freshness(
        msg: &PriceMessage,
        current_time: i64,
        max_staleness_seconds: i64,
    ) -> (r: Result<(), LaunchpadError>)
        ensures
            r == freshness_spec(msg.publish_time, current_time, max_staleness_seconds),
    {
        let age = match current_time.checked_sub(msg.publish_time) {
            Some(a) => a,
            None => {
                return Err(LaunchpadError::InvalidPrice);
            },
        };
        if 0 <= age && age <= max_staleness_seconds {
            Ok(())
        } else {
            Err(LaunchpadError::StalePrice)
        }
    }
}

} // verus!
