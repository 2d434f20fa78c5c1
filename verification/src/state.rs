//! The persisted vault record, its invariants, and its lifecycle
//! operations: creation and the initial liquidity deposit.

use vstd::prelude::*;
use crate::errors::ErrorCode;

verus! {

/// Fixed-point units per whole price unit: a price of `1.0` is stored as
/// `PRICE_SCALE`, so all price arithmetic is exact integer arithmetic.
pub const PRICE_SCALE: u64 = 1_000_000;

/// Maximum age, in seconds, of the recorded price sample before operations
/// that rely on it are rejected as stale.
pub const STALENESS_WINDOW: i64 = 30;

/// A discrete liquidity range `[lower, upper]` over which concentrated
/// liquidity is deposited.  The pair `[0, 0]` is the sentinel for "no range".
#[derive(Clone, Copy, Debug, PartialEq, Eq, Structural)]
pub struct BinRange {
    pub lower: i32,
    pub upper: i32,
}

impl BinRange {
    /// The sentinel value meaning "no range set" or "no candidate staged".
    pub open spec fn is_unset(self) -> bool {
        self.lower == 0 && self.upper == 0
    }

    /// A committed range must be strictly ordered.
    pub open spec fn is_ordered(self) -> bool {
        self.lower < self.upper
    }
}

/// The record of a single vault: configuration chosen at creation and the
/// mutable accounting fields maintained by the guarded operations.
///
/// Account identities (the admin and the fee destination) are opaque keys;
/// the library only ever compares them for equality.
#[derive(Clone, Copy, Debug, PartialEq, Eq, Structural)]
pub struct Vault {
    /// Sole authority permitted to invoke the guarded operations.
    pub admin: u64,
    /// Active liquidity range; `[0, 0]` until the first deposit.
    pub current_bins: BinRange,
    /// Candidate range awaiting commit; `[0, 0]` means none staged.
    pub pending_rebalance_bins: BinRange,
    /// Time of the last committed rebalance.
    pub last_rebalance_time: i64,
    /// Time of the last committed fee harvest.
    pub last_fee_harvest_time: i64,
    /// Cumulative harvested fees.
    pub total_fees_earned: u64,
    /// Hard cap on `total_fees_earned`.
    pub max_fee_amount: u64,
    /// Destination account for harvested fees.
    pub fee_token_account: u64,
    /// Minimum price-drift percentage (1..=100) that stages a candidate.
    pub rebalance_threshold: u8,
    /// Minimum seconds between committed rebalances; always positive.
    pub min_rebalance_delay: i64,
    /// Last price sample recorded, in `PRICE_SCALE` fixed-point units.
    pub last_price: u64,
    /// Time of the last price sample; non-decreasing over the vault's life.
    pub price_update_time: i64,
}

impl Vault {
    /// The vault invariants; they hold after creation and are preserved by
    /// every guarded operation, successful or not.
    pub open spec fn wf(self) -> bool {
        &&& 1 <= self.rebalance_threshold <= 100
        &&& self.min_rebalance_delay > 0
        &&& self.current_bins.is_unset() || self.current_bins.is_ordered()
        &&& self.total_fees_earned <= self.max_fee_amount
        &&& self.last_rebalance_time >= 0
        &&& self.last_fee_harvest_time >= 0
        &&& self.price_update_time >= 0
    }

    /// Whether `caller` holds the capability to run guarded operations.
    pub open spec fn authorized(self, caller: u64) -> bool {
        caller == self.admin
    }

    /// Creates a vault with the given configuration and zeroed accounting
    /// fields.  The caller becomes the sole admin.
    ///
    /// Succeeds exactly when the threshold lies in 1..=100 and the minimum
    /// rebalance delay is positive; an out-of-range threshold is reported
    /// before a bad delay.
    pub fn initialize_vault(
        admin: u64,
        fee_token_account: u64,
        rebalance_threshold: u8,
        max_fee_amount: u64,
        min_rebalance_delay: i64,
    ) -> (r: Result<Vault, ErrorCode>)
        ensures
            r is Ok <==> (1 <= rebalance_threshold <= 100 && min_rebalance_delay > 0),
            !(1 <= rebalance_threshold <= 100) ==> r == Err::<Vault, ErrorCode>(ErrorCode::InvalidThreshold),
            1 <= rebalance_threshold <= 100 && min_rebalance_delay <= 0
                ==> r == Err::<Vault, ErrorCode>(ErrorCode::InvalidParameter),
            r matches Ok(v) ==> v == (Vault {
                admin,
                current_bins: BinRange { lower: 0, upper: 0 },
                pending_rebalance_bins: BinRange { lower: 0, upper: 0 },
                last_rebalance_time: 0,
                last_fee_harvest_time: 0,
                total_fees_earned: 0,
                max_fee_amount,
                fee_token_account,
                rebalance_threshold,
                min_rebalance_delay,
                last_price: 0,
                price_update_time: 0,
            }),
            r matches Ok(v) ==> v.wf(),
    {
        if !(rebalance_threshold > 0 && rebalance_threshold <= 100) {
            return Err(ErrorCode::InvalidThreshold);
        }
        if !(min_rebalance_delay > 0) {
            return Err(ErrorCode::InvalidParameter);
        }
        Ok(Vault {
            admin,
            current_bins: BinRange { lower: 0, upper: 0 },
            pending_rebalance_bins: BinRange { lower: 0, upper: 0 },
            last_rebalance_time: 0,
            last_fee_harvest_time: 0,
            total_fees_earned: 0,
            max_fee_amount,
            fee_token_account,
            rebalance_threshold,
            min_rebalance_delay,
            last_price: 0,
            price_update_time: 0,
        })
    }

    /// Records the range an initial liquidity deposit was placed into.
    ///
    /// The host performs the pool's add-liquidity call first and commits the
    /// range here only once that call has succeeded, so a failed deposit
    /// never touches the vault.  A range that is not strictly ordered is
    /// rejected, which keeps the committed-range invariant.
    pub fn deposit_liquidity(&mut self, caller: u64, bins: BinRange) -> (r: Result<(), ErrorCode>)
        requires
            old(self).wf(),
        ensures
            final(self).wf(),
            !old(self).authorized(caller)
                ==> r == Err::<(), ErrorCode>(ErrorCode::Unauthorized) && *final(self) == *old(self),
            old(self).authorized(caller) && !bins.is_ordered()
                ==> r == Err::<(), ErrorCode>(ErrorCode::InvalidBins) && *final(self) == *old(self),
            old(self).authorized(caller) && bins.is_ordered() ==> {
                &&& r is Ok
                &&& *final(self) == (Vault { current_bins: bins, ..*old(self) })
            },
    {
        if caller != self.admin {
            return Err(ErrorCode::Unauthorized);
        }
        if !(bins.lower < bins.upper) {
            return Err(ErrorCode::InvalidBins);
        }
        self.current_bins = bins;
        Ok(())
    }
}

} // verus!
