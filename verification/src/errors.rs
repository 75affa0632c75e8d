//! Failure taxonomy of the pricing engine.
//!
//! Every operation fails closed: an error means the whole quote or trade did
//! not happen, with no partial state change.

use vstd::prelude::*;

verus! {

/// A typed failure of a quote, trade, or configuration step.
#[derive(Clone, Copy, Debug, PartialEq, Eq, Structural)]
pub enum LaunchpadError {
    /// A trade amount of zero was supplied.
    InvalidAmount,
    /// The reference exchange rate is zero or otherwise out of domain.
    InvalidPrice,
    /// The platform fee is above the allowed maximum.
    InvalidFee,
    /// A token name longer than the allowed maximum.
    NameTooLong,
    /// A token symbol longer than the allowed maximum.
    SymbolTooLong,
    /// A metadata URI longer than the allowed maximum.
    UriTooLong,
    /// A checked arithmetic step would overflow its integer width.
    MathOverflow,
    /// A buy would exceed the remaining curve supply, or a sell exceeds the
    /// tokens currently sold.
    InsufficientSupply,
    /// The curve holds too little of the asset that the trade would pay out.
    InsufficientLiquidity,
    /// The seller's recorded position holds fewer tokens than the sell amount.
    InsufficientBalance,
    /// The quoted cost or proceeds fell outside the caller's bound.
    SlippageExceeded,
    /// A curve configuration whose growth constant cannot be derived in the
    /// supported fixed-point regime.
    InvalidCurveParameters,
    /// An integral was requested over an inverted interval.
    InvalidRange,
    /// The oracle price is older than the caller's staleness bound.
    StalePrice,
}

} // verus!
