//! Committing trades against a curve, and the read-only quote queries.
//!
//! `BuyTokens` and `SellTokens` bundle the records one trade touches; their
//! `execute` methods validate the trade, price it through the calculator,
//! take the platform fee, hold the result against the caller's slippage
//! bound, and apply all state deltas at once.  A failed trade changes
//! nothing except, for a buy or sell quoted against a fresh oracle price,
//! the recorded reference price.  The settlement layer around the engine
//! performs the actual currency and token transfers and commits these
//! records atomically.

use vstd::prelude::*;
use crate::errors::LaunchpadError;
use crate::pricing::{
    BondingCurveCalculator,
    buy_price_spec,
    sell_price_spec,
    spot_price_spec,
    slippage_spec,
};
use crate::state::{BondingCurve, TokenLaunch, UserPosition, LaunchpadConfig, BuyQuote, SpotPrice,
    CURVE_SUPPLY};

verus! {

/// The records a buy touches: the launch, its curve, the buyer's position,
/// and the platform configuration for the fee.
#[derive(Clone, Debug)]
pub struct BuyTokens {
    pub launch: TokenLaunch,
    pub curve: BondingCurve,
    pub position: UserPosition,
    pub config: LaunchpadConfig,
}

/// The records a sell touches.
#[derive(Clone, Debug)]
pub struct SellTokens {
    pub launch: TokenLaunch,
    pub curve: BondingCurve,
    pub position: UserPosition,
    pub config: LaunchpadConfig,
}

/// The exchange rate a trade is priced at: the fresh oracle price when one
/// is given, else the curve's last known price.
pub open spec fn rate_of(curve: BondingCurve, oracle_price: Option<u64>) -> u64 {
    match oracle_price {
        Some(p) => p,
        None => curve.sol_price_usd,
    }
}

/// The curve with its reference price refreshed from the oracle, when a
/// fresh price was given; this happens whether or not the trade succeeds.
pub open spec fn refresh_spec(curve: BondingCurve, oracle_price: Option<u64>) -> BondingCurve {
    match oracle_price {
        Some(p) => BondingCurve { sol_price_usd: p, ..curve },
        None => curve,
    }
}

/// Everything a successful buy changes, and every way it can fail.
///
/// On success: the curve gains the cost in reserve and volume, moves the
/// bought base units from its reserve to its sold count, counts the trade,
/// graduates if the updated state meets the graduation predicate; the
/// launch's circulating supply and the buyer's position grow accordingly.
/// The fee is `cost * platform_fee_bps / 10000` and the caller's bound is
/// held against cost plus fee.
pub open spec fn buy_spec(
    pre: BuyTokens,
    amount: u64,
    max_sol_cost: u64,
    oracle_price: Option<u64>,
    timestamp: i64,
) -> Result<(BuyTokens, u64, u64), LaunchpadError> {
    let rate = rate_of(pre.curve, oracle_price);
    let curve0 = refresh_spec(pre.curve, oracle_price);
    if amount == 0 {
        Err(LaunchpadError::InvalidAmount)
    } else if pre.curve.token_reserve < amount {
        Err(LaunchpadError::InsufficientLiquidity)
    } else if oracle_price is None && pre.curve.sol_price_usd == 0 {
        Err(LaunchpadError::InvalidPrice)
    } else {
        match buy_price_spec(pre.curve.tokens_sold, amount, rate) {
            Err(e) => Err(e),
            Ok(cost) => {
                if (cost as int) * (pre.config.platform_fee_bps as int) > u64::MAX {
                    Err(LaunchpadError::MathOverflow)
                } else {
                    let fee = ((cost as int) * (pre.config.platform_fee_bps as int) / 10000) as u64;
                    if cost + fee > u64::MAX {
                        Err(LaunchpadError::MathOverflow)
                    } else if cost + fee > max_sol_cost {
                        Err(LaunchpadError::SlippageExceeded)
                    } else if curve0.sol_reserve + cost > u64::MAX || curve0.total_volume + cost
                        > u64::MAX || curve0.trade_count + 1 > u64::MAX
                        || pre.launch.circulating_supply + amount > u64::MAX
                        || pre.position.token_amount + amount > u64::MAX
                        || pre.position.sol_invested + cost + fee > u64::MAX
                        || pre.position.buy_count + 1 > u32::MAX {
                        Err(LaunchpadError::MathOverflow)
                    } else {
                        let curve1 = BondingCurve {
                            sol_reserve: (curve0.sol_reserve + cost) as u64,
                            token_reserve: (curve0.token_reserve - amount) as u64,
                            tokens_sold: (curve0.tokens_sold + amount) as u64,
                            total_volume: (curve0.total_volume + cost) as u64,
                            trade_count: (curve0.trade_count + 1) as u64,
                            ..curve0
                        };
                        let curve2 = BondingCurve {
                            is_graduated: curve1.is_graduated || curve1.should_graduate_spec(),
                            ..curve1
                        };
                        let post = BuyTokens {
                            launch: TokenLaunch {
                                circulating_supply: (pre.launch.circulating_supply + amount) as u64,
                                ..pre.launch
                            },
                            curve: curve2,
                            position: UserPosition {
                                token_amount: (pre.position.token_amount + amount) as u64,
                                sol_invested: (pre.position.sol_invested + cost + fee) as u64,
                                buy_count: (pre.position.buy_count + 1) as u32,
                                last_interaction: timestamp,
                                ..pre.position
                            },
                            config: pre.config,
                        };
                        Ok((post, cost, fee))
                    }
                }
            },
        }
    }
}

/// Everything a successful sell changes, and every way it can fail.
///
/// On success: proceeds are the buy integral run backward, the fee comes
/// out of the proceeds, and the caller's bound is held against the net
/// payout; the curve gives back the proceeds from its reserve, takes the
/// base units back, and the seller's position shrinks accordingly.
pub open spec fn sell_spec(
    pre: SellTokens,
    amount: u64,
    min_sol_output: u64,
    oracle_price: Option<u64>,
    timestamp: i64,
) -> Result<(SellTokens, u64, u64), LaunchpadError> {
    let rate = rate_of(pre.curve, oracle_price);
    let curve0 = refresh_spec(pre.curve, oracle_price);
    if amount == 0 {
        Err(LaunchpadError::InvalidAmount)
    } else if pre.position.token_amount < amount {
        Err(LaunchpadError::InsufficientBalance)
    } else if oracle_price is None && pre.curve.sol_price_usd == 0 {
        Err(LaunchpadError::InvalidPrice)
    } else {
        match sell_price_spec(pre.curve.tokens_sold, amount, rate) {
            Err(e) => Err(e),
            Ok(proceeds) => {
                if (proceeds as int) * (pre.config.platform_fee_bps as int) > u64::MAX {
                    Err(LaunchpadError::MathOverflow)
                } else {
                    let fee = ((proceeds as int) * (pre.config.platform_fee_bps as int)
                        / 10000) as u64;
                    if fee > proceeds {
                        Err(LaunchpadError::MathOverflow)
                    } else if proceeds - fee < min_sol_output {
                        Err(LaunchpadError::SlippageExceeded)
                    } else if curve0.sol_reserve < proceeds {
                        Err(LaunchpadError::InsufficientLiquidity)
                    } else if curve0.token_reserve + amount > u64::MAX || curve0.tokens_sold
                        < amount || curve0.total_volume + proceeds > u64::MAX || curve0.trade_count
                        + 1 > u64::MAX || pre.launch.circulating_supply < amount
                        || pre.position.sol_received + (proceeds - fee) > u64::MAX
                        || pre.position.sell_count + 1 > u32::MAX {
                        Err(LaunchpadError::MathOverflow)
                    } else {
                        let post = SellTokens {
                            launch: TokenLaunch {
                                circulating_supply: (pre.launch.circulating_supply - amount) as u64,
                                ..pre.launch
                            },
                            curve: BondingCurve {
                                sol_reserve: (curve0.sol_reserve - proceeds) as u64,
                                token_reserve: (curve0.token_reserve + amount) as u64,
                                tokens_sold: (curve0.tokens_sold - amount) as u64,
                                total_volume: (curve0.total_volume + proceeds) as u64,
                                trade_count: (curve0.trade_count + 1) as u64,
                                ..curve0
                            },
                            position: UserPosition {
                                token_amount: (pre.position.token_amount - amount) as u64,
                                sol_received: (pre.position.sol_received + (proceeds - fee)) as u64,
                                sell_count: (pre.position.sell_count + 1) as u32,
                                last_interaction: timestamp,
                                ..pre.position
                            },
                            config: pre.config,
                        };
                        Ok((post, proceeds, fee))
                    }
                }
            },
        }
    }
}

impl BuyTokens {
    /// Price, validate, and commit a buy of `amount` base units, bounded by
    /// `max_sol_cost` lamports including the fee.
    ///
    /// `oracle_price` is a fresh oracle reading, or `None` when the oracle
    /// is stale and the last known price must serve.  Returns the cost and
    /// the fee, both in lamports.  On failure nothing changes except the
    /// refreshed reference price, and the curve's accounting invariant is
    /// preserved either way.
    pub fn execute(
        &mut self,
        amount: u64,
        max_sol_cost: u64,
        oracle_price: Option<u64>,
        timestamp: i64,
    ) -> (r: Result<(u64, u64), LaunchpadError>)
        ensures
            ({
                let pre = *old(self);
                match buy_spec(pre, amount, max_sol_cost, oracle_price, timestamp) {
                    Ok((post, cost, fee)) => r == Ok::<(u64, u64), LaunchpadError>((cost, fee))
                        && *final(self) == post,
                    Err(e) => r == Err::<(u64, u64), LaunchpadError>(e) && *final(self)
                        == (BuyTokens { curve: refresh_spec(pre.curve, oracle_price), ..pre }),
                }
            }),
            old(self).curve.wf() ==> final(self).curve.wf(),
            // Graduation is one-way: a graduated curve stays graduated.
            old(self).curve.is_graduated ==> final(self).curve.is_graduated,
    {
        let rate: u64 = match oracle_price {
            Some(p) => {
                self.curve.sol_price_usd = p;
                p
            },
            None => self.curve.sol_price_usd,
        };
        if amount == 0 {
            return Err(LaunchpadError::InvalidAmount);
        }
        if self.curve.token_reserve < amount {
            return Err(LaunchpadError::InsufficientLiquidity);
        }
        if oracle_price.is_none() && rate == 0 {
            return Err(LaunchpadError::InvalidPrice);
        }
        let cost = match BondingCurveCalculator::calculate_buy_price(
            self.curve.tokens_sold,
            amount,
            rate,
        ) {
            Ok(v) => v,
            Err(e) => {
                return Err(e);
            },
        };
        let fee = match cost.checked_mul(self.config.platform_fee_bps as u64) {
            Some(p) => p / 10000,
            None => {
                return Err(LaunchpadError::MathOverflow);
            },
        };
        let total_cost = match cost.checked_add(fee) {
            Some(t) => t,
            None => {
                return Err(LaunchpadError::MathOverflow);
            },
        };
        if total_cost > max_sol_cost {
            return Err(LaunchpadError::SlippageExceeded);
        }
        let new_sol_reserve = match self.curve.sol_reserve.checked_add(cost) {
            Some(v) => v,
            None => {
                return Err(LaunchpadError::MathOverflow);
            },
        };
        let new_total_volume = match self.curve.total_volume.checked_add(cost) {
            Some(v) => v,
            None => {
                return Err(LaunchpadError::MathOverflow);
            },
        };
        let new_trade_count = match self.curve.trade_count.checked_add(1) {
            Some(v) => v,
            None => {
                return Err(LaunchpadError::MathOverflow);
            },
        };
        let new_circulating = match self.launch.circulating_supply.checked_add(amount) {
            Some(v) => v,
            None => {
                return Err(LaunchpadError::MathOverflow);
            },
        };
        let new_token_amount = match self.position.token_amount.checked_add(amount) {
            Some(v) => v,
            None => {
                return Err(LaunchpadError::MathOverflow);
            },
        };
        let new_sol_invested = match self.position.sol_invested.checked_add(total_cost) {
            Some(v) => v,
            None => {
                return Err(LaunchpadError::MathOverflow);
            },
        };
        let new_buy_count = match self.position.buy_count.checked_add(1) {
            Some(v) => v,
            None => {
                return Err(LaunchpadError::MathOverflow);
            },
        };
        self.curve.sol_reserve = new_sol_reserve;
        self.curve.token_reserve = self.curve.token_reserve - amount;
        self.curve.tokens_sold = self.curve.tokens_sold + amount;
        self.curve.total_volume = new_total_volume;
        self.curve.trade_count = new_trade_count;
        self.launch.circulating_supply = new_circulating;
        self.position.token_amount = new_token_amount;
        self.position.sol_invested = new_sol_invested;
        self.position.buy_count = new_buy_count;
        self.position.last_interaction = timestamp;
        if self.curve.should_graduate() {
            self.curve.is_graduated = true;
        }
        Ok((cost, fee))
    }
}

impl SellTokens {
    /// Price, validate, and commit a sell of `amount` base units, requiring
    /// at least `min_sol_output` lamports net of the fee.
    ///
    /// Returns the gross proceeds and the fee, both in lamports.  On
    /// failure nothing changes except the refreshed reference price, and
    /// the curve's accounting invariant is preserved either way.
    pub fn execute(
        &mut self,
        amount: u64,
        min_sol_output: u64,
        oracle_price: Option<u64>,
        timestamp: i64,
    ) -> (r: Result<(u64, u64), LaunchpadError>)
        ensures
            ({
                let pre = *old(self);
                match sell_spec(pre, amount, min_sol_output, oracle_price, timestamp) {
                    Ok((post, proceeds, fee)) => r == Ok::<(u64, u64), LaunchpadError>(
                        (proceeds, fee),
                    ) && *final(self) == post,
                    Err(e) => r == Err::<(u64, u64), LaunchpadError>(e) && *final(self)
                        == (SellTokens { curve: refresh_spec(pre.curve, oracle_price), ..pre }),
                }
            }),
            old(self).curve.wf() ==> final(self).curve.wf(),
            // Graduation is one-way: selling back never reverts it.
            old(self).curve.is_graduated ==> final(self).curve.is_graduated,
    {
        let rate: u64 = match oracle_price {
            Some(p) => {
                self.curve.sol_price_usd = p;
                p
            },
            None => self.curve.sol_price_usd,
        };
        if amount == 0 {
            return Err(LaunchpadError::InvalidAmount);
        }
        if self.position.token_amount < amount {
            return Err(LaunchpadError::InsufficientBalance);
        }
        if oracle_price.is_none() && rate == 0 {
            return Err(LaunchpadError::InvalidPrice);
        }
        let proceeds = match BondingCurveCalculator::calculate_sell_price(
            self.curve.tokens_sold,
            amount,
            rate,
        ) {
            Ok(v) => v,
            Err(e) => {
                return Err(e);
            },
        };
        let fee = match proceeds.checked_mul(self.config.platform_fee_bps as u64) {
            Some(p) => p / 10000,
            None => {
                return Err(LaunchpadError::MathOverflow);
            },
        };
        let net_proceeds = match proceeds.checked_sub(fee) {
            Some(n) => n,
            None => {
                return Err(LaunchpadError::MathOverflow);
            },
        };
        if net_proceeds < min_sol_output {
            return Err(LaunchpadError::SlippageExceeded);
        }
        if self.curve.sol_reserve < proceeds {
            return Err(LaunchpadError::InsufficientLiquidity);
        }
        let new_token_reserve = match self.curve.token_reserve.checked_add(amount) {
            Some(v) => v,
            None => {
                return Err(LaunchpadError::MathOverflow);
            },
        };
        let new_tokens_sold = match self.curve.tokens_sold.checked_sub(amount) {
            Some(v) => v,
            None => {
                return Err(LaunchpadError::MathOverflow);
            },
        };
        let new_total_volume = match self.curve.total_volume.checked_add(proceeds) {
            Some(v) => v,
            None => {
                return Err(LaunchpadError::MathOverflow);
            },
        };
        let new_trade_count = match self.curve.trade_count.checked_add(1) {
            Some(v) => v,
            None => {
                return Err(LaunchpadError::MathOverflow);
            },
        };
        let new_circulating = match self.launch.circulating_supply.checked_sub(amount) {
            Some(v) => v,
            None => {
                return Err(LaunchpadError::MathOverflow);
            },
        };
        let new_sol_received = match self.position.sol_received.checked_add(net_proceeds) {
            Some(v) => v,
            None => {
                return Err(LaunchpadError::MathOverflow);
            },
        };
        let new_sell_count = match self.position.sell_count.checked_add(1) {
            Some(v) => v,
            None => {
                return Err(LaunchpadError::MathOverflow);
            },
        };
        self.curve.sol_reserve = self.curve.sol_reserve - proceeds;
        self.curve.token_reserve = new_token_reserve;
        self.curve.tokens_sold = new_tokens_sold;
        self.curve.total_volume = new_total_volume;
        self.curve.trade_count = new_trade_count;
        self.launch.circulating_supply = new_circulating;
        self.position.token_amount = self.position.token_amount - amount;
        self.position.sol_received = new_sol_received;
        self.position.sell_count = new_sell_count;
        self.position.last_interaction = timestamp;
        Ok((proceeds, fee))
    }
}

/// A read-only buy quote against a launch and its curve.
#[derive(Clone, Debug)]
pub struct GetBuyQuote {
    pub launch: TokenLaunch,
    pub curve: BondingCurve,
}

/// What a full quote returns: cost, spot price, and slippage, each computed
/// as its own query at the curve's last known price.
pub open spec fn quote_spec(curve: BondingCurve, amount: u64) -> Result<BuyQuote, LaunchpadError> {
    match buy_price_spec(curve.tokens_sold, amount, curve.sol_price_usd) {
        Err(e) => Err(e),
        Ok(cost) => match spot_price_spec(curve.tokens_sold, curve.sol_price_usd) {
            Err(e) => Err(e),
            Ok(spot) => match slippage_spec(curve.tokens_sold, amount, curve.sol_price_usd) {
                Err(e) => Err(e),
                Ok(slippage) => Ok(BuyQuote { cost, spot_price: spot, slippage }),
            },
        },
    }
}

impl GetBuyQuote {
    /// Quote a buy of `amount` base units at the last known price.
    pub fn get_quote(&self, amount: u64) -> (r: Result<BuyQuote, LaunchpadError>)
        requires
            self.curve.tokens_sold <= CURVE_SUPPLY,
        ensures
            r == quote_spec(self.curve, amount),
    {
        let cost = match BondingCurveCalculator::calculate_buy_price(
            self.curve.tokens_sold,
            amount,
            self.curve.sol_price_usd,
        ) {
            Ok(v) => v,
            Err(e) => {
                return Err(e);
            },
        };
        let spot_price = match BondingCurveCalculator::get_spot_price(
            self.curve.tokens_sold,
            self.curve.sol_price_usd,
        ) {
            Ok(v) => v,
            Err(e) => {
                return Err(e);
            },
        };
        let slippage = match BondingCurveCalculator::calculate_slippage(
            self.curve.tokens_sold,
            amount,
            self.curve.sol_price_usd,
        ) {
            Ok(v) => v,
            Err(e) => {
                return Err(e);
            },
        };
        Ok(BuyQuote { cost, spot_price, slippage })
    }
}

/// A read-only spot-price query against a launch and its curve.
#[derive(Clone, Debug)]
pub struct GetSpotPrice {
    pub launch: TokenLaunch,
    pub curve: BondingCurve,
}

impl GetSpotPrice {
    /// The current spot price with the curve position it was read at.
    pub fn get_current_price(&self) -> (r: Result<SpotPrice, LaunchpadError>)
        requires
            self.curve.tokens_sold <= CURVE_SUPPLY,
        ensures
            ({
                match spot_price_spec(self.curve.tokens_sold, self.curve.sol_price_usd) {
                    Err(e) => r == Err::<SpotPrice, LaunchpadError>(e),
                    Ok(p) => r == Ok::<SpotPrice, LaunchpadError>(
                        SpotPrice {
                            spot_price: p,
                            tokens_sold: self.curve.tokens_sold,
                            sol_reserve: self.curve.sol_reserve,
                        },
                    ),
                }
            }),
    {
        let spot_price = match BondingCurveCalculator::get_spot_price(
            self.curve.tokens_sold,
            self.curve.sol_price_usd,
        ) {
            Ok(v) => v,
            Err(e) => {
                return Err(e);
            },
        };
        Ok(
            SpotPrice {
                spot_price,
                tokens_sold: self.curve.tokens_sold,
                sol_reserve: self.curve.sol_reserve,
            },
        )
    }
}

} // verus!
