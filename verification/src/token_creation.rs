//! Creating launches and maintaining their records.
//!
//! `CreateTokenLaunch` carries the parameters of a new launch; `create`
//! validates them and produces the launch record and its bonding curve in
//! their initial state: nothing sold, the full curve supply on the curve,
//! trading active.  The record-keeping mutations that the platform allows
//! later — toggling trading, replacing the metadata URI — live here too.

use vstd::prelude::*;
use vstd::string::StrSliceExecFns;
use crate::errors::LaunchpadError;
use crate::state::{
    BondingCurve,
    TokenLaunch,
    LaunchpadConfig,
    TOTAL_SUPPLY,
    CURVE_SUPPLY,
    MAX_NAME_LEN,
    MAX_SYMBOL_LEN,
    MAX_URI_LEN,
};

verus! {

/// Highest platform fee the launchpad accepts, in basis points (10%).
pub const MAX_FEE_BPS: u16 = 1000;

impl LaunchpadConfig {
    /// Set up the platform configuration, holding the fee to its maximum.
    pub fn initialize(platform_fee_bps: u16, bump: u8) -> (r: Result<
        LaunchpadConfig,
        LaunchpadError,
    >)
        ensures
            platform_fee_bps <= MAX_FEE_BPS ==> r == Ok::<LaunchpadConfig, LaunchpadError>(
                LaunchpadConfig { platform_fee_bps, bump },
            ),
            platform_fee_bps > MAX_FEE_BPS ==> r == Err::<LaunchpadConfig, LaunchpadError>(
                LaunchpadError::InvalidFee,
            ),
    {
        if platform_fee_bps > MAX_FEE_BPS {
            return Err(LaunchpadError::InvalidFee);
        }
        Ok(LaunchpadConfig { platform_fee_bps, bump })
    }
}

/// The parameters of a new token launch.
#[derive(Clone, Debug)]
pub struct CreateTokenLaunch {
    /// Token name.
    pub name: String,
    /// Token symbol.
    pub symbol: String,
    /// Token metadata URI.
    pub metadata_uri: String,
    /// Reference-currency price of the settlement unit at creation time,
    /// scaled by `USD_SCALE`.
    pub sol_price_usd: u64,
}

/// Which validation, if any, rejects these launch parameters: names,
/// symbols and URIs have fixed maximum lengths, and the initial reference
/// price must be positive.
pub open spec fn create_reject(p: CreateTokenLaunch) -> Option<LaunchpadError> {
    if p.name@.len() > MAX_NAME_LEN {
        Some(LaunchpadError::NameTooLong)
    } else if p.symbol@.len() > MAX_SYMBOL_LEN {
        Some(LaunchpadError::SymbolTooLong)
    } else if p.metadata_uri@.len() > MAX_URI_LEN {
        Some(LaunchpadError::UriTooLong)
    } else if p.sol_price_usd == 0 {
        Some(LaunchpadError::InvalidPrice)
    } else {
        None
    }
}

impl CreateTokenLaunch {
    /// Validate the parameters and produce the launch record and its curve
    /// in their initial state.
    pub fn create(&self, timestamp: i64, launch_bump: u8, curve_bump: u8) -> (r: Result<
        (TokenLaunch, BondingCurve),
        LaunchpadError,
    >)
        ensures
            ({
                match create_reject(*self) {
                    Some(e) => r == Err::<(TokenLaunch, BondingCurve), LaunchpadError>(e),
                    None => r matches Ok(out) && {
                        &&& out.0.name@ == self.name@
                        &&& out.0.symbol@ == self.symbol@
                        &&& out.0.metadata_uri@ == self.metadata_uri@
                        &&& out.0.total_supply == TOTAL_SUPPLY
                        &&& out.0.circulating_supply == 0
                        &&& out.0.launch_timestamp == timestamp
                        &&& out.0.is_active == true
                        &&& out.0.bump == launch_bump
                        &&& out.1 == (BondingCurve {
                            sol_reserve: 0,
                            token_reserve: CURVE_SUPPLY,
                            tokens_sold: 0,
                            sol_price_usd: self.sol_price_usd,
                            total_volume: 0,
                            trade_count: 0,
                            is_graduated: false,
                            bump: curve_bump,
                        })
                        &&& out.1.wf()
                    },
                }
            }),
    {
        if self.name.as_str().unicode_len() > MAX_NAME_LEN {
            return Err(LaunchpadError::NameTooLong);
        }
        if self.symbol.as_str().unicode_len() > MAX_SYMBOL_LEN {
            return Err(LaunchpadError::SymbolTooLong);
        }
        if self.metadata_uri.as_str().unicode_len() > MAX_URI_LEN {
            return Err(LaunchpadError::UriTooLong);
        }
        if self.sol_price_usd == 0 {
            return Err(LaunchpadError::InvalidPrice);
        }
        let launch = TokenLaunch {
            name: self.name.clone(),
            symbol: self.symbol.clone(),
            metadata_uri: self.metadata_uri.clone(),
            total_supply: TOTAL_SUPPLY,
            circulating_supply: 0,
            launch_timestamp: timestamp,
            is_active: true,
            bump: launch_bump,
        };
        let curve = BondingCurve {
            sol_reserve: 0,
            token_reserve: CURVE_SUPPLY,
            tokens_sold: 0,
            sol_price_usd: self.sol_price_usd,
            total_volume: 0,
            trade_count: 0,
            is_graduated: false,
            bump: curve_bump,
        };
        Ok((launch, curve))
    }
}

impl TokenLaunch {
    /// Flip whether trading on the launch is active.
    pub fn toggle_active(&mut self)
        ensures
            *final(self) == (TokenLaunch { is_active: !old(self).is_active, ..*old(self) }),
    {
        self.is_active = !self.is_active;
    }

    /// Replace the metadata URI, holding it to its maximum length.
    pub fn update_metadata_uri(&mut self, new_uri: String) -> (r: Result<(), LaunchpadError>)
        ensures
            new_uri@.len() > MAX_URI_LEN ==> r == Err::<(), LaunchpadError>(
                LaunchpadError::UriTooLong,
            ) && *final(self) == *old(self),
            new_uri@.len() <= MAX_URI_LEN ==> r == Ok::<(), LaunchpadError>(())
                && final(self).metadata_uri@ == new_uri@
                && final(self).name == old(self).name
                && final(self).symbol == old(self).symbol
                && final(self).total_supply == old(self).total_supply
                && final(self).circulating_supply == old(self).circulating_supply
                && final(self).launch_timestamp == old(self).launch_timestamp
                && final(self).is_active == old(self).is_active
                && final(self).bump == old(self).bump,
    {
        if new_uri.as_str().unicode_len() > MAX_URI_LEN {
            return Err(LaunchpadError::UriTooLong);
        }
        self.metadata_uri = new_uri;
        Ok(())
    }
}

} // verus!
