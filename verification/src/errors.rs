//! The error kinds surfaced by the guarded vault operations.

use vstd::prelude::*;

verus! {

/// Every guard failure aborts the enclosing operation before any vault
/// mutation is committed and is reported to the caller as one of these
/// kinds; no operation ever leaves the vault partially updated.
#[derive(Clone, Copy, Debug, PartialEq, Eq, Structural)]
pub enum ErrorCode {
    /// The caller is not the vault admin.
    Unauthorized,
    /// Rebalance threshold outside 1..=100 at initialization.
    InvalidThreshold,
    /// Some other configuration parameter is invalid at initialization.
    InvalidParameter,
    /// Adding a harvested fee to the running total would overflow the counter.
    FeeOverflow,
    /// The running fee total would exceed the configured cap.
    MaxFeeExceeded,
    /// The minimum delay between committed rebalances has not yet elapsed.
    RebalanceTooFrequent,
    /// The staged candidate range is missing or malformed.
    InvalidBins,
    /// The recorded price sample is older than the staleness window.
    StalePrice,
    /// Withdrawal share outside 1..=100.
    InvalidSharePercentage,
}

} // verus!
