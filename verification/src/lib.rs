//! Pricing engine for a fixed-supply exponential bonding curve.
//!
//! A curve maps cumulative tokens sold to a price that grows as
//! `start_price * e^(k * sold)`, with `k` derived so that the price reaches
//! `end_price` exactly when the whole curve supply has been sold.  All of the
//! arithmetic is scaled-integer fixed point: quotes are reproducible
//! bit-for-bit across machines and re-executions, every step is either proved
//! free of overflow or checked with an explicit `MathOverflow` failure, and
//! the engine never mutates state on a failed quote.
//!
//! The engine is pure: callers hold the curve state, ask for quotes, and
//! commit the resulting deltas themselves.  Ledger concerns — accounts,
//! transfers, fee routing, event logs — live entirely outside this crate.

pub mod errors;
pub mod fixed_point;
pub mod exponential;
pub mod natural_log;
pub mod curve_model;
pub mod state;
pub mod pricing;
pub mod trading;
pub mod token_creation;
pub mod pyth_price;
