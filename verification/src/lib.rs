//! Detection and atomic execution of cross-venue price arbitrage.
//!
//! The crate holds the arithmetic and the decisions of a flash-loan arbitrage
//! engine: fixed-point prices, venue quotes, the fee model, the profitability
//! decision, the borrow / swap / swap / repay sequence as a state machine, and
//! the watch-list bookkeeping of the polling monitor. Everything that touches
//! the ledger or the network is done by the caller, which hands plain values in
//! and carries the requested actions out.

pub mod error;
pub mod price;
pub mod fees;
pub mod asset;
pub mod quote;
pub mod evaluator;
pub mod wire;
pub mod execution;
pub mod contract;
pub mod monitor;
