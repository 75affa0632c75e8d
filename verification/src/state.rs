//! Curve state, launch records, and the graduation evaluator.
//!
//! The fixed tokenomics of the launchpad: one billion token base units per
//! launch, 800 million whole tokens sold on the curve, the rest reserved for
//! a liquidity pool, with the price running from $0.00000420 to $0.00006900
//! in `USD_SCALE` units.  Token amounts carry nine decimals; the curve math
//! works on whole-token counts with the decimals divided away.

use vstd::prelude::*;

verus! {

use vstd::arithmetic::mul::lemma_mul_upper_bound;

/// Total supply minted per launch, in token base units (9 decimals).
pub const TOTAL_SUPPLY: u64 = 1_000_000_000_000_000_000;

/// Portion of the supply sold on the bonding curve, in base units.
pub const CURVE_SUPPLY: u64 = 800_000_000_000_000_000;

/// Portion of the supply reserved for the liquidity pool, in base units.
pub const LP_SUPPLY: u64 = 200_000_000_000_000_000;

/// Graduation threshold in whole reference-currency units ($12,000).
pub const GRADUATION_USD: u64 = 12_000;

/// Price of one whole token at zero supply sold, scaled by `USD_SCALE`.
pub const START_PRICE_USD: u64 = 420;

/// Price of one whole token at full curve supply sold, scaled by `USD_SCALE`.
pub const END_PRICE_USD: u64 = 6_900;

/// Scale of reference-currency amounts: $1 is `USD_SCALE` units.
pub const USD_SCALE: u64 = 100_000_000;

/// Token base units per whole token (9 decimals).
pub const TOKEN_DECIMALS_FACTOR: u64 = 1_000_000_000;

/// Settlement-currency base units (lamports) per whole settlement unit.
pub const LAMPORTS_PER_SOL: u64 = 1_000_000_000;

/// Longest accepted token name, in characters.
pub const MAX_NAME_LEN: usize = 32;

/// Longest accepted token symbol, in characters.
pub const MAX_SYMBOL_LEN: usize = 10;

/// Longest accepted metadata URI, in characters.
pub const MAX_URI_LEN: usize = 200;

/// Platform-wide configuration of the launchpad.
#[derive(Clone, Copy, Debug, PartialEq, Eq, Structural)]
pub struct LaunchpadConfig {
    /// Platform fee in basis points (100 = 1%).
    pub platform_fee_bps: u16,
    /// Address-derivation bump of the configuration record.
    pub bump: u8,
}

/// One token launch on the platform.
#[derive(Clone, Debug)]
pub struct TokenLaunch {
    /// Token name.
    pub name: String,
    /// Token symbol.
    pub symbol: String,
    /// Token metadata URI.
    pub metadata_uri: String,
    /// Total supply minted for the launch, in base units.
    pub total_supply: u64,
    /// Base units currently circulating outside the curve.
    pub circulating_supply: u64,
    /// Timestamp of the launch.
    pub launch_timestamp: i64,
    /// Whether trading is active.
    pub is_active: bool,
    /// Address-derivation bump of the launch record.
    pub bump: u8,
}

/// Mutable state of one bonding curve.
#[derive(Clone, Copy, Debug, PartialEq, Eq, Structural)]
pub struct BondingCurve {
    /// Settlement currency held against sold tokens, in lamports.
    pub sol_reserve: u64,
    /// Token base units still available on the curve.
    pub token_reserve: u64,
    /// Token base units sold so far.
    pub tokens_sold: u64,
    /// Last known settlement-currency price in `USD_SCALE` units, refreshed
    /// from an oracle; may be stale.
    pub sol_price_usd: u64,
    /// Cumulative traded volume in lamports.
    pub total_volume: u64,
    /// Number of committed trades.
    pub trade_count: u64,
    /// One-way graduation flag: false to true only.
    pub is_graduated: bool,
    /// Address-derivation bump of the curve record.
    pub bump: u8,
}

/// A user's running position in one launch.
#[derive(Clone, Copy, Debug, PartialEq, Eq, Structural)]
pub struct UserPosition {
    /// Token base units held.
    pub token_amount: u64,
    /// Total lamports spent on buys, fees included.
    pub sol_invested: u64,
    /// Total lamports received from sells, net of fees.
    pub sol_received: u64,
    /// Number of buys.
    pub buy_count: u32,
    /// Number of sells.
    pub sell_count: u32,
    /// Timestamp of the last interaction.
    pub last_interaction: i64,
    /// Address-derivation bump of the position record.
    pub bump: u8,
}

/// A buy quote: cost, the spot price it was quoted against, and slippage.
#[derive(Clone, Copy, Debug, PartialEq, Eq, Structural)]
pub struct BuyQuote {
    /// Total cost in lamports.
    pub cost: u64,
    /// Spot price per whole token in lamports, at the pre-trade position.
    pub spot_price: u64,
    /// Slippage of the trade in basis points.
    pub slippage: u16,
}

/// A spot-price reading together with the curve position it was taken at.
#[derive(Clone, Copy, Debug, PartialEq, Eq, Structural)]
pub struct SpotPrice {
    /// Spot price per whole token in lamports.
    pub spot_price: u64,
    /// Token base units sold so far.
    pub tokens_sold: u64,
    /// Settlement currency held by the curve, in lamports.
    pub sol_reserve: u64,
}

impl BondingCurve {
    /// The curve's accounting invariant: what is sold and what remains
    /// always partition the curve supply.
    pub open spec fn wf(self) -> bool {
        self.tokens_sold + self.token_reserve == CURVE_SUPPLY
    }

    /// The graduation predicate: not yet graduated, the full curve supply
    /// sold, and the reserve worth at least the graduation threshold at the
    /// last known price.
    pub open spec fn should_graduate_spec(self) -> bool {
        &&& !self.is_graduated
        &&& self.tokens_sold >= CURVE_SUPPLY
        &&& (self.sol_reserve as int) * (self.sol_price_usd as int) / (LAMPORTS_PER_SOL as int)
            >= (GRADUATION_USD as int) * (USD_SCALE as int)
    }

    /// Whether the curve should graduate: both the supply condition and the
    /// value-raised condition must hold, and a graduated curve never
    /// graduates again.
    pub fn should_graduate(&self) -> (r: bool)
        ensures
            r == self.should_graduate_spec(),
    {
        if self.is_graduated {
            return false;
        }
        let tokens_sold_check = self.tokens_sold >= CURVE_SUPPLY;
        proof {
            lemma_mul_upper_bound(
                self.sol_reserve as int,
                u64::MAX as int,
                self.sol_price_usd as int,
                u64::MAX as int,
            );
        }
        let usd_raised: u128 = (self.sol_reserve as u128) * (self.sol_price_usd as u128) / (
        LAMPORTS_PER_SOL as u128);
        assert((GRADUATION_USD as u128) * (USD_SCALE as u128) == 12_000u128 * 100_000_000u128);
        let usd_threshold: u128 = (GRADUATION_USD as u128) * (USD_SCALE as u128);
        tokens_sold_check && usd_raised >= usd_threshold
    }
}

/// Flipping only one of the two graduation conditions keeps the predicate
/// false: a curve graduates only when the full supply is sold *and* the
/// reserve meets the threshold, and never a second time.
pub proof fn lemma_graduation_requires_both(c: BondingCurve)
    ensures
        c.tokens_sold < CURVE_SUPPLY ==> !c.should_graduate_spec(),
        (c.sol_reserve as int) * (c.sol_price_usd as int) / (LAMPORTS_PER_SOL as int) < (
        GRADUATION_USD as int) * (USD_SCALE as int) ==> !c.should_graduate_spec(),
        c.is_graduated ==> !c.should_graduate_spec(),
{
}

} // verus!
