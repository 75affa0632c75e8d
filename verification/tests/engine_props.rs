//! Scenario checks for the pricing engine: exact boundary values, the
//! documented tolerance of the closed-form cost, error cases, and overflow
//! behavior at the edges of the input space.

use bonding_curve::curve_model::{CurveConfig, CurveModel};
use bonding_curve::errors::LaunchpadError;
use bonding_curve::pricing::{standard_config, BondingCurveCalculator};
use bonding_curve::state::{CURVE_SUPPLY, USD_SCALE};

const SOL_PRICE_USD: u64 = 15_000_000_000; // $150, scaled by 1e8
const ONE_TOKEN: u64 = 1_000_000_000;
const ONE_MILLION_TOKENS: u64 = 1_000_000_000_000_000;

#[test]
fn spot_price_at_zero_is_exactly_start_price() {
    // start_price / rate in lamports: 420 * 1e9 / 15e9 = 28, exactly.
    let lamports = BondingCurveCalculator::get_spot_price(0, SOL_PRICE_USD).unwrap();
    assert_eq!(lamports, 28);
}

#[test]
fn model_price_at_boundaries() {
    let model = CurveModel::new(standard_config()).unwrap();
    // Exact at the left boundary.
    let start = model.price_at(0).unwrap();
    assert_eq!(start, 420);
    // Within 1% of the configured end price at the right boundary.
    let supply = standard_config().curve_supply;
    let end = model.price_at(supply).unwrap();
    assert!(end >= 6831 && end <= 6969, "end price {} not within 1% of 6900", end);
}

#[test]
fn price_strictly_increases_across_the_curve() {
    let positions = [
        0u64,
        100 * ONE_MILLION_TOKENS,
        200 * ONE_MILLION_TOKENS,
        400 * ONE_MILLION_TOKENS,
        600 * ONE_MILLION_TOKENS,
        CURVE_SUPPLY,
    ];
    let mut last = 0u64;
    for (i, pos) in positions.iter().enumerate() {
        let p = BondingCurveCalculator::get_spot_price(*pos, SOL_PRICE_USD).unwrap();
        if i > 0 {
            assert!(p > last, "price did not increase: {} -> {} at {}", last, p, pos);
        }
        last = p;
    }
}

#[test]
fn first_million_tokens_cost_matches_closed_form() {
    // Closed form: (start/k) * (e^(k*1e6) - 1) = $4.2074 at $150/SOL,
    // which is 28,049,470 lamports; the fixed-point result must stay
    // within 1% of it.
    let cost = BondingCurveCalculator::calculate_buy_price(0, ONE_MILLION_TOKENS, SOL_PRICE_USD)
        .unwrap();
    assert!(
        cost >= 27_769_000 && cost <= 28_330_000,
        "cost {} outside 1% of the closed-form value",
        cost
    );
}

#[test]
fn whole_curve_cost_lies_between_flat_price_bounds() {
    // Buying the entire curve must cost strictly more than paying the start
    // price for every token and strictly less than paying the end price.
    let cost = BondingCurveCalculator::calculate_buy_price(0, CURVE_SUPPLY, SOL_PRICE_USD).unwrap();
    let usd_raised = BondingCurveCalculator::calculate_usd_raised(cost, SOL_PRICE_USD).unwrap();
    let supply_tokens = CURVE_SUPPLY / ONE_TOKEN;
    let lower = 420u64 * supply_tokens; // start_price * supply, USD-scaled
    let upper = 6_900u64 * supply_tokens; // end_price * supply, USD-scaled
    assert!(
        usd_raised > lower && usd_raised < upper,
        "total {} not strictly between {} and {}",
        usd_raised,
        lower,
        upper
    );
}

#[test]
fn dust_buy_costs_one_lamport() {
    // One base unit truncates to zero whole tokens; the cost floors at one
    // lamport so no trade is free.
    let cost = BondingCurveCalculator::calculate_buy_price(0, 1, SOL_PRICE_USD).unwrap();
    assert_eq!(cost, 1);
}

#[test]
fn buy_and_sell_quote_the_same_interval() {
    let s = 300 * ONE_MILLION_TOKENS;
    let amount = 25 * ONE_MILLION_TOKENS;
    let buy = BondingCurveCalculator::calculate_buy_price(s - amount, amount, SOL_PRICE_USD)
        .unwrap();
    let sell = BondingCurveCalculator::calculate_sell_price(s, amount, SOL_PRICE_USD).unwrap();
    assert_eq!(buy, sell);
}

#[test]
fn zero_amount_is_rejected() {
    assert_eq!(
        BondingCurveCalculator::calculate_buy_price(0, 0, SOL_PRICE_USD),
        Err(LaunchpadError::InvalidAmount)
    );
    assert_eq!(
        BondingCurveCalculator::calculate_sell_price(ONE_TOKEN, 0, SOL_PRICE_USD),
        Err(LaunchpadError::InvalidAmount)
    );
}

#[test]
fn buying_past_the_curve_is_rejected() {
    assert_eq!(
        BondingCurveCalculator::calculate_buy_price(CURVE_SUPPLY, 1, SOL_PRICE_USD),
        Err(LaunchpadError::InsufficientSupply)
    );
    assert_eq!(
        BondingCurveCalculator::calculate_buy_price(1, CURVE_SUPPLY, SOL_PRICE_USD),
        Err(LaunchpadError::InsufficientSupply)
    );
}

#[test]
fn selling_more_than_sold_is_rejected() {
    assert_eq!(
        BondingCurveCalculator::calculate_sell_price(ONE_TOKEN, 2 * ONE_TOKEN, SOL_PRICE_USD),
        Err(LaunchpadError::InsufficientSupply)
    );
}

#[test]
fn zero_exchange_rate_is_rejected() {
    assert_eq!(
        BondingCurveCalculator::calculate_buy_price(0, ONE_TOKEN, 0),
        Err(LaunchpadError::InvalidPrice)
    );
    assert_eq!(
        BondingCurveCalculator::get_spot_price(0, 0),
        Err(LaunchpadError::InvalidPrice)
    );
}

#[test]
fn whole_curve_at_dust_rate_overflows_checked() {
    // At a rate of one scale unit the settlement cost exceeds u64: the
    // engine reports the overflow instead of wrapping.
    assert_eq!(
        BondingCurveCalculator::calculate_buy_price(0, CURVE_SUPPLY, 1),
        Err(LaunchpadError::MathOverflow)
    );
}

#[test]
fn usd_raised_conversion_and_overflow() {
    // 80 SOL at $150 is exactly $12,000.
    let usd = BondingCurveCalculator::calculate_usd_raised(80_000_000_000, SOL_PRICE_USD).unwrap();
    assert_eq!(usd, 12_000 * USD_SCALE);
    // The maximum reserve at the maximum rate cannot be represented.
    assert_eq!(
        BondingCurveCalculator::calculate_usd_raised(u64::MAX, u64::MAX),
        Err(LaunchpadError::MathOverflow)
    );
}

#[test]
fn slippage_grows_with_trade_size_and_clamps_small_trades() {
    let s = 100 * ONE_MILLION_TOKENS;
    let small = BondingCurveCalculator::calculate_slippage(s, ONE_MILLION_TOKENS, SOL_PRICE_USD)
        .unwrap();
    let large =
        BondingCurveCalculator::calculate_slippage(s, 50 * ONE_MILLION_TOKENS, SOL_PRICE_USD)
            .unwrap();
    assert!(small < large, "slippage {} should be below {}", small, large);
    // A dust buy costs the one-lamport floor; its average price rounds
    // below spot and the slippage clamps to zero.
    let dust = BondingCurveCalculator::calculate_slippage(s, 1, SOL_PRICE_USD).unwrap();
    assert_eq!(dust, 0);
}

#[test]
fn misconfigured_curves_are_rejected() {
    // A flat or inverted price range has no growth constant.
    let flat = CurveConfig {
        start_price: 500,
        end_price: 500,
        curve_supply: 1_000,
        graduation_threshold: 0,
    };
    assert_eq!(CurveModel::new(flat), Err(LaunchpadError::InvalidCurveParameters));
    // A ratio beyond e^4 falls outside the exponential's accepted regime.
    let steep = CurveConfig {
        start_price: 1,
        end_price: 100,
        curve_supply: 1_000,
        graduation_threshold: 0,
    };
    assert_eq!(CurveModel::new(steep), Err(LaunchpadError::InvalidCurveParameters));
    // A zero supply is malformed.
    let empty = CurveConfig {
        start_price: 420,
        end_price: 6_900,
        curve_supply: 0,
        graduation_threshold: 0,
    };
    assert_eq!(CurveModel::new(empty), Err(LaunchpadError::InvalidCurveParameters));
}

#[test]
fn inverted_integral_interval_is_rejected() {
    let model = CurveModel::new(standard_config()).unwrap();
    assert_eq!(model.integral_between(10, 5), Err(LaunchpadError::InvalidRange));
}

#[test]
fn growth_constant_derivation_is_deterministic() {
    let a = CurveModel::new(standard_config()).unwrap();
    let b = CurveModel::new(standard_config()).unwrap();
    assert_eq!(a.k_scaled, b.k_scaled);
    // ln(6900/420)/8e8 in FP_SCALE units per token is about 3.4988; the
    // derived constant must land on that value.
    assert!(
        a.k_scaled >= 3_498_000_000 && a.k_scaled <= 3_499_500_000,
        "unexpected growth constant {}",
        a.k_scaled
    );
}
