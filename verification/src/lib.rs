//! Decision-and-guard engine for an automated liquidity-management vault.
//!
//! The vault tracks a price feed, stages a candidate bin range when the
//! accumulated price drift exceeds a configured threshold, and guards the
//! fund-moving operations (rebalance, fee harvest, withdrawal) with
//! staleness, frequency, overflow and authorization checks.
//!
//! The library holds only the decision logic: every operation is a function
//! from vault state and plain inputs to a new state and a result, proved to
//! respect the vault invariants and to leave the state untouched on any
//! failure.  Executing the resulting actions against a concentrated-liquidity
//! pool (adding or removing liquidity, claiming fees) and supplying the clock
//! are the host's concern; the host hands the outcomes back as plain values.
//!
//! Prices are fixed-point integers with [`state::PRICE_SCALE`] units per
//! whole price unit, so the drift test and the bin computation are exact
//! integer arithmetic with round-half-away-from-zero semantics, reproducible
//! on every platform.

pub mod errors;
pub mod fees;
pub mod price;
pub mod rebalance;
pub mod state;
pub mod withdrawal;

pub use errors::ErrorCode;
pub use fees::harvest_guard_error;
pub use price::{calculate_new_bins, candidate_lower, candidate_upper, drift_exceeds_threshold};
pub use rebalance::{rebalance_guard_error, RebalanceAction};
pub use withdrawal::{withdraw_amount, WithdrawAction};
pub use state::{BinRange, Vault, PRICE_SCALE, STALENESS_WINDOW};
