//! Committing a fee harvest: overflow and cap checks around the amount the
//! pool adapter reports as claimed.

use vstd::prelude::*;
use crate::errors::ErrorCode;
use crate::state::Vault;

verus! {

/// The fee-harvest guard sequence, in the order it is evaluated: the
/// caller's capability, then that adding `fee_amount` to the running total
/// does not overflow the counter, then that the new total stays within the
/// configured cap.  The first failure names the error; `None` means the
/// harvest may be committed.
pub open spec fn harvest_guard_error(v: Vault, caller: u64, fee_amount: u64) -> Option<
    ErrorCode,
> {
    if !v.authorized(caller) {
        Some(ErrorCode::Unauthorized)
    } else if v.total_fees_earned + fee_amount > u64::MAX {
        Some(ErrorCode::FeeOverflow)
    } else if v.total_fees_earned + fee_amount > v.max_fee_amount {
        Some(ErrorCode::MaxFeeExceeded)
    } else {
        None
    }
}

impl Vault {
    /// Commits a fee harvest: `fee_amount` is the amount the pool adapter
    /// reported as claimed to the fee token account.  On success the running
    /// total grows by exactly `fee_amount` and the harvest time is recorded;
    /// on any guard failure the vault is left exactly as it was, so the
    /// total never moves past the cap.
    ///
    /// The adapter's claim call is the host's concern; the checks here run
    /// before this library commits anything, so the vault record itself is
    /// never half-updated, whatever the external transfer did.
    pub fn harvest_fees(&mut self, caller: u64, fee_amount: u64, current_time: i64) -> (r: Result<
        (),
        ErrorCode,
    >)
        requires
            old(self).wf(),
            current_time >= 0,
        ensures
            final(self).wf(),
            match harvest_guard_error(*old(self), caller, fee_amount) {
                Some(e) => r == Err::<(), ErrorCode>(e) && *final(self) == *old(self),
                None => r is Ok && *final(self) == (Vault {
                    total_fees_earned: (old(self).total_fees_earned + fee_amount) as u64,
                    last_fee_harvest_time: current_time,
                    ..*old(self)
                }),
            },
    {
        if caller != self.admin {
            return Err(ErrorCode::Unauthorized);
        }
        if fee_amount > u64::MAX - self.total_fees_earned {
            return Err(ErrorCode::FeeOverflow);
        }
        if self.total_fees_earned + fee_amount > self.max_fee_amount {
            return Err(ErrorCode::MaxFeeExceeded);
        }
        self.total_fees_earned = self.total_fees_earned + fee_amount;
        self.last_fee_harvest_time = current_time;
        Ok(())
    }
}

} // verus!
