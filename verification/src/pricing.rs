//! The pricing engine: buy and sell quotes, spot price, slippage, and value
//! raised.
//!
//! Every operation is a pure function of the curve position, the trade
//! amount, and an explicit reference exchange rate; nothing here mutates
//! state.  Costs are priced by the closed-form integral of the exponential
//! curve and converted to the settlement currency by truncating division,
//! with a floor of one settlement unit so that no positive trade is free.
//! Selling is priced by the same integral run backward, which makes a sell
//! the exact reverse of the equivalent buy.

use vstd::prelude::*;
use crate::errors::LaunchpadError;
use crate::fixed_point::{FP_SCALE, mul_div, lemma_div_sum_lower};
use crate::exponential::{exp_series, EXP_TERMS};
use crate::curve_model::{CurveConfig, CurveModel, model_spec};
use crate::state::{
    CURVE_SUPPLY,
    START_PRICE_USD,
    END_PRICE_USD,
    GRADUATION_USD,
    USD_SCALE,
    TOKEN_DECIMALS_FACTOR,
    LAMPORTS_PER_SOL,
};

verus! {

use vstd::arithmetic::div_mod::{lemma_div_is_ordered, lemma_div_pos_is_pos};
use vstd::arithmetic::mul::{
    lemma_mul_upper_bound,
    lemma_mul_nonnegative,
    lemma_mul_left_inequality,
};

/// The fixed configuration every launchpad curve runs on.
pub open spec fn standard_config_spec() -> CurveConfig {
    CurveConfig {
        start_price: START_PRICE_USD,
        end_price: END_PRICE_USD,
        curve_supply: (CURVE_SUPPLY / TOKEN_DECIMALS_FACTOR) as u64,
        graduation_threshold: (GRADUATION_USD * USD_SCALE) as u64,
    }
}

/// The fixed launchpad configuration as a value.
pub fn standard_config() -> (c: CurveConfig)
    ensures
        c == standard_config_spec(),
{
    proof {
        assert((GRADUATION_USD as int) * (USD_SCALE as int) == 12_000 * 100_000_000int);
    }
    CurveConfig {
        start_price: START_PRICE_USD,
        end_price: END_PRICE_USD,
        curve_supply: CURVE_SUPPLY / TOKEN_DECIMALS_FACTOR,
        graduation_threshold: GRADUATION_USD * USD_SCALE,
    }
}

/// A base-unit amount as a whole-token count, decimals truncated away.
pub open spec fn to_tokens_spec(amount: u64) -> int {
    (amount as int) / (TOKEN_DECIMALS_FACTOR as int)
}

/// What a buy quote returns, in lamports, for every input.
///
/// Checks run in order: a zero amount, then the remaining supply, then the
/// exchange rate, then the curve model, then each scale conversion.  The
/// cost is the price integral over the bought interval in whole tokens,
/// converted at the given rate and floored at one lamport.
pub open spec fn buy_price_spec(tokens_sold: u64, amount: u64, sol_price_usd: u64) -> Result<
    u64,
    LaunchpadError,
> {
    if amount == 0 {
        Err(LaunchpadError::InvalidAmount)
    } else if tokens_sold + amount > CURVE_SUPPLY {
        Err(LaunchpadError::InsufficientSupply)
    } else if sol_price_usd == 0 {
        Err(LaunchpadError::InvalidPrice)
    } else {
        match model_spec(standard_config_spec()) {
            Err(e) => Err(e),
            Ok(m) => {
                let s = to_tokens_spec(tokens_sold);
                let q = to_tokens_spec(amount);
                let ea = exp_series(m.k_scaled * s, EXP_TERMS as nat);
                let eb = exp_series(m.k_scaled * (s + q), EXP_TERMS as nat);
                if (m.config.start_price as int) * (eb - ea) > u128::MAX {
                    Err(LaunchpadError::MathOverflow)
                } else {
                    let cost_ref = m.integral_spec(s, s + q);
                    if cost_ref * (LAMPORTS_PER_SOL as int) > u128::MAX {
                        Err(LaunchpadError::MathOverflow)
                    } else {
                        let lamports = cost_ref * (LAMPORTS_PER_SOL as int) / (
                        sol_price_usd as int);
                        if lamports > u64::MAX {
                            Err(LaunchpadError::MathOverflow)
                        } else if lamports == 0 {
                            Ok(1u64)
                        } else {
                            Ok(lamports as u64)
                        }
                    }
                }
            },
        }
    }
}

/// What a sell quote returns: the buy integral over the same interval, run
/// backward from the current position.
pub open spec fn sell_price_spec(tokens_sold: u64, amount: u64, sol_price_usd: u64) -> Result<
    u64,
    LaunchpadError,
> {
    if amount == 0 {
        Err(LaunchpadError::InvalidAmount)
    } else if amount > tokens_sold {
        Err(LaunchpadError::InsufficientSupply)
    } else {
        buy_price_spec((tokens_sold - amount) as u64, amount, sol_price_usd)
    }
}

/// What a spot-price query returns, in lamports per whole token, floored at
/// one lamport.
pub open spec fn spot_price_spec(tokens_sold: u64, sol_price_usd: u64) -> Result<
    u64,
    LaunchpadError,
> {
    if sol_price_usd == 0 {
        Err(LaunchpadError::InvalidPrice)
    } else {
        match model_spec(standard_config_spec()) {
            Err(e) => Err(e),
            Ok(m) => {
                let s = to_tokens_spec(tokens_sold);
                let e = exp_series(m.k_scaled * s, EXP_TERMS as nat);
                if (m.config.start_price as int) * e > u128::MAX {
                    Err(LaunchpadError::MathOverflow)
                } else {
                    let price_ref = m.price_spec(s);
                    if price_ref * (LAMPORTS_PER_SOL as int) > u128::MAX {
                        Err(LaunchpadError::MathOverflow)
                    } else {
                        let lamports = price_ref * (LAMPORTS_PER_SOL as int) / (
                        sol_price_usd as int);
                        if lamports > u64::MAX {
                            Err(LaunchpadError::MathOverflow)
                        } else if lamports == 0 {
                            Ok(1u64)
                        } else {
                            Ok(lamports as u64)
                        }
                    }
                }
            },
        }
    }
}

/// What the slippage query returns: the average executed price against the
/// pre-trade spot price, in basis points.
///
/// The ratio is measured in the reference currency, where one price unit is
/// a fraction of the token price, rather than on the settlement-currency
/// results, whose one-lamport granularity would swamp sub-percent slippage;
/// the ratio itself is the same in either currency.  A trade too small to
/// have a whole-token average, or whose rounding puts the average at or
/// below spot, reads as zero slippage.
pub open spec fn slippage_spec(tokens_sold: u64, amount: u64, sol_price_usd: u64) -> Result<
    u16,
    LaunchpadError,
> {
    match spot_price_spec(tokens_sold, sol_price_usd) {
        Err(e) => Err(e),
        Ok(spot) => match buy_price_spec(tokens_sold, amount, sol_price_usd) {
            Err(e) => Err(e),
            Ok(cost) => match model_spec(standard_config_spec()) {
                Err(e) => Err(e),
                Ok(m) => {
                    let s = to_tokens_spec(tokens_sold);
                    let q = to_tokens_spec(amount);
                    let spot_ref = m.price_spec(s);
                    let cost_ref = m.integral_spec(s, s + q);
                    if q == 0 || spot_ref == 0 {
                        Ok(0u16)
                    } else {
                        let avg_ref = cost_ref / q;
                        if avg_ref <= spot_ref {
                            Ok(0u16)
                        } else if (avg_ref - spot_ref) * 10000 > u128::MAX {
                            Err(LaunchpadError::MathOverflow)
                        } else {
                            let bps = (avg_ref - spot_ref) * 10000 / spot_ref;
                            if bps > u16::MAX {
                                Err(LaunchpadError::MathOverflow)
                            } else {
                                Ok(bps as u16)
                            }
                        }
                    }
                },
            },
        },
    }
}

/// What the value-raised query returns: the reserve converted to the
/// reference currency at the given rate.
pub open spec fn usd_raised_spec(sol_reserve: u64, sol_price_usd: u64) -> Result<
    u64,
    LaunchpadError,
> {
    let usd = (sol_reserve as int) * (sol_price_usd as int) / (LAMPORTS_PER_SOL as int);
    if usd > u64::MAX {
        Err(LaunchpadError::MathOverflow)
    } else {
        Ok(usd as u64)
    }
}

/// Stateless calculator for the launchpad's fixed exponential curve:
/// price of one whole token runs from `START_PRICE_USD` to `END_PRICE_USD`
/// over `CURVE_SUPPLY` base units.
pub struct BondingCurveCalculator;

impl BondingCurveCalculator {
    /// The curve model of the fixed configuration, growth constant derived
    /// and cached.
    fn create_curve() -> (r: Result<CurveModel, LaunchpadError>)
        ensures
            r == model_spec(standard_config_spec()),
            r matches Ok(m) ==> m.wf() && m.config == standard_config_spec(),
    {
        CurveModel::new(standard_config())
    }

    /// A base-unit amount as a whole-token count.
    fn to_token_count(amount_with_decimals: u64) -> (r: u64)
        ensures
            r == to_tokens_spec(amount_with_decimals),
    {
        amount_with_decimals / TOKEN_DECIMALS_FACTOR
    }

    /// Cost, in lamports, of buying `amount` base units with `tokens_sold`
    /// already sold, at `sol_price_usd` (scaled by `USD_SCALE`) per
    /// settlement unit.
    ///
    /// Exactly `buy_price_spec`; in particular the cost of any successful
    /// buy is at least one lamport.
    pub fn calculate_buy_price(tokens_sold: u64, amount: u64, sol_price_usd: u64) -> (r: Result<
        u64,
        LaunchpadError,
    >)
        ensures
            r == buy_price_spec(tokens_sold, amount, sol_price_usd),
            r matches Ok(cost) ==> cost >= 1,
    {
        if amount == 0 {
            return Err(LaunchpadError::InvalidAmount);
        }
        if amount > CURVE_SUPPLY || tokens_sold > CURVE_SUPPLY - amount {
            return Err(LaunchpadError::InsufficientSupply);
        }
        if sol_price_usd == 0 {
            return Err(LaunchpadError::InvalidPrice);
        }
        let m = match Self::create_curve() {
            Ok(m) => m,
            Err(e) => {
                return Err(e);
            },
        };
        let s = Self::to_token_count(tokens_sold);
        let q = Self::to_token_count(amount);
        proof {
            lemma_div_sum_lower(tokens_sold as int, amount as int, TOKEN_DECIMALS_FACTOR as int);
            lemma_div_is_ordered(
                tokens_sold + amount,
                CURVE_SUPPLY as int,
                TOKEN_DECIMALS_FACTOR as int,
            );
        }
        let cost_ref = match m.integral_between(s, s + q) {
            Ok(v) => v,
            Err(e) => {
                return Err(e);
            },
        };
        let lamports_wide = match mul_div(
            cost_ref,
            LAMPORTS_PER_SOL as u128,
            sol_price_usd as u128,
        ) {
            Ok(v) => v,
            Err(e) => {
                return Err(e);
            },
        };
        if lamports_wide > u64::MAX as u128 {
            return Err(LaunchpadError::MathOverflow);
        }
        if lamports_wide == 0 {
            Ok(1)
        } else {
            Ok(lamports_wide as u64)
        }
    }

    /// Proceeds, in lamports, of selling `amount` base units back with
    /// `tokens_sold` currently sold: the buy price of the same interval.
    pub fn calculate_sell_price(tokens_sold: u64, amount: u64, sol_price_usd: u64) -> (r: Result<
        u64,
        LaunchpadError,
    >)
        ensures
            r == sell_price_spec(tokens_sold, amount, sol_price_usd),
            r matches Ok(proceeds) ==> proceeds >= 1,
    {
        if amount == 0 {
            return Err(LaunchpadError::InvalidAmount);
        }
        if tokens_sold < amount {
            return Err(LaunchpadError::InsufficientSupply);
        }
        let new_tokens_sold = tokens_sold - amount;
        Self::calculate_buy_price(new_tokens_sold, amount, sol_price_usd)
    }

    /// Spot price, in lamports per whole token, at the given sold position.
    pub fn get_spot_price(tokens_sold: u64, sol_price_usd: u64) -> (r: Result<u64, LaunchpadError>)
        requires
            tokens_sold <= CURVE_SUPPLY,
        ensures
            r == spot_price_spec(tokens_sold, sol_price_usd),
            r matches Ok(p) ==> p >= 1,
    {
        if sol_price_usd == 0 {
            return Err(LaunchpadError::InvalidPrice);
        }
        let m = match Self::create_curve() {
            Ok(m) => m,
            Err(e) => {
                return Err(e);
            },
        };
        let s = Self::to_token_count(tokens_sold);
        proof {
            lemma_div_is_ordered(
                tokens_sold as int,
                CURVE_SUPPLY as int,
                TOKEN_DECIMALS_FACTOR as int,
            );
        }
        let price_ref = match m.price_at(s) {
            Ok(v) => v,
            Err(e) => {
                return Err(e);
            },
        };
        let lamports_wide = match mul_div(
            price_ref,
            LAMPORTS_PER_SOL as u128,
            sol_price_usd as u128,
        ) {
            Ok(v) => v,
            Err(e) => {
                return Err(e);
            },
        };
        if lamports_wide > u64::MAX as u128 {
            return Err(LaunchpadError::MathOverflow);
        }
        if lamports_wide == 0 {
            Ok(1)
        } else {
            Ok(lamports_wide as u64)
        }
    }

    /// Slippage of a buy, in basis points: average executed price per whole
    /// token against the pre-trade spot price.
    pub fn calculate_slippage(tokens_sold: u64, amount: u64, sol_price_usd: u64) -> (r: Result<
        u16,
        LaunchpadError,
    >)
        requires
            tokens_sold <= CURVE_SUPPLY,
        ensures
            r == slippage_spec(tokens_sold, amount, sol_price_usd),
    {
        let spot = match Self::get_spot_price(tokens_sold, sol_price_usd) {
            Ok(v) => v,
            Err(e) => {
                return Err(e);
            },
        };
        let cost = match Self::calculate_buy_price(tokens_sold, amount, sol_price_usd) {
            Ok(v) => v,
            Err(e) => {
                return Err(e);
            },
        };
        let m = match Self::create_curve() {
            Ok(m) => m,
            Err(e) => {
                return Err(e);
            },
        };
        let s = Self::to_token_count(tokens_sold);
        let q = Self::to_token_count(amount);
        proof {
            lemma_div_sum_lower(tokens_sold as int, amount as int, TOKEN_DECIMALS_FACTOR as int);
            lemma_div_is_ordered(
                tokens_sold + amount,
                CURVE_SUPPLY as int,
                TOKEN_DECIMALS_FACTOR as int,
            );
            lemma_div_is_ordered(
                tokens_sold as int,
                CURVE_SUPPLY as int,
                TOKEN_DECIMALS_FACTOR as int,
            );
        }
        let spot_ref = match m.price_at(s) {
            Ok(v) => v,
            Err(e) => {
                return Err(e);
            },
        };
        let cost_ref = match m.integral_between(s, s + q) {
            Ok(v) => v,
            Err(e) => {
                return Err(e);
            },
        };
        if q == 0 || spot_ref == 0 {
            return Ok(0);
        }
        let avg_ref: u128 = cost_ref / (q as u128);
        if avg_ref <= spot_ref {
            return Ok(0);
        }
        let bps = match mul_div(avg_ref - spot_ref, 10000, spot_ref) {
            Ok(v) => v,
            Err(e) => {
                return Err(e);
            },
        };
        if bps > u16::MAX as u128 {
            return Err(LaunchpadError::MathOverflow);
        }
        Ok(bps as u16)
    }

    /// The reserve converted to the reference currency at the given rate,
    /// in `USD_SCALE` units.
    pub fn calculate_usd_raised(sol_reserve: u64, sol_price_usd: u64) -> (r: Result<
        u64,
        LaunchpadError,
    >)
        ensures
            r == usd_raised_spec(sol_reserve, sol_price_usd),
    {
        proof {
            lemma_mul_upper_bound(
                sol_reserve as int,
                u64::MAX as int,
                sol_price_usd as int,
                u64::MAX as int,
            );
        }
        let usd_wide: u128 = (sol_reserve as u128) * (sol_price_usd as u128) / (
        LAMPORTS_PER_SOL as u128);
        if usd_wide > u64::MAX as u128 {
            return Err(LaunchpadError::MathOverflow);
        }
        Ok(usd_wide as u64)
    }
}

/// Buying and selling are priced by the same integral over the same
/// interval: a sell of `amount` at position `tokens_sold` quotes exactly
/// what a buy of `amount` at position `tokens_sold - amount` quotes.
pub proof fn lemma_buy_sell_symmetry(tokens_sold: u64, amount: u64, sol_price_usd: u64)
    requires
        0 < amount <= tokens_sold,
    ensures
        sell_price_spec(tokens_sold, amount, sol_price_usd) == buy_price_spec(
            (tokens_sold - amount) as u64,
            amount,
            sol_price_usd,
        ),
{
}

/// No free trade: whatever the inputs, a successful buy quote costs at
/// least one settlement unit.
pub proof fn lemma_no_free_trade(tokens_sold: u64, amount: u64, sol_price_usd: u64)
    ensures
        buy_price_spec(tokens_sold, amount, sol_price_usd) matches Ok(cost) ==> cost >= 1,
{
    if amount != 0 && tokens_sold + amount <= CURVE_SUPPLY && sol_price_usd != 0 {
        match model_spec(standard_config_spec()) {
            Ok(m) => {
                let s = to_tokens_spec(tokens_sold);
                let q = to_tokens_spec(amount);
                let x1 = m.k_scaled * s;
                let x2 = m.k_scaled * (s + q);
                lemma_div_pos_is_pos(tokens_sold as int, TOKEN_DECIMALS_FACTOR as int);
                lemma_div_pos_is_pos(amount as int, TOKEN_DECIMALS_FACTOR as int);
                lemma_mul_nonnegative(m.k_scaled as int, s);
                lemma_mul_left_inequality(m.k_scaled as int, s, s + q);
                crate::exponential::lemma_exp_series_mono(x1, x2, EXP_TERMS as nat);
                let ea = exp_series(x1, EXP_TERMS as nat);
                let eb = exp_series(x2, EXP_TERMS as nat);
                lemma_mul_nonnegative(m.config.start_price as int, eb - ea);
                lemma_div_pos_is_pos(
                    (m.config.start_price as int) * (eb - ea),
                    m.k_scaled as int,
                );
                let cost_ref = m.integral_spec(s, s + q);
                lemma_mul_nonnegative(cost_ref, LAMPORTS_PER_SOL as int);
                lemma_div_pos_is_pos(
                    cost_ref * (LAMPORTS_PER_SOL as int),
                    sol_price_usd as int,
                );
            },
            Err(_) => {},
        }
    }
}

} // verus!
