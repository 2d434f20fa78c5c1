//! Committing a staged candidate range: guard sequence, the adapter actions
//! it authorizes, and the atomic state commit.

use vstd::prelude::*;
use crate::errors::ErrorCode;
use crate::state::{BinRange, Vault, STALENESS_WINDOW};

verus! {

/// The pool-adapter work a rebalance authorizes: withdraw all liquidity from
/// `withdraw_bins`, then deposit into `deposit_bins`.  The vault state is
/// committed only after the host reports both calls succeeded.
#[derive(Clone, Copy, Debug, PartialEq, Eq, Structural)]
pub struct RebalanceAction {
    pub withdraw_bins: BinRange,
    pub deposit_bins: BinRange,
}

/// The rebalance guard sequence, in the order it is evaluated: the caller's
/// capability, then a staged candidate with no zero component, then a
/// strictly ordered candidate, then the minimum delay since the last commit,
/// then the freshness of the recorded price.  The first failure names the
/// error; `None` means every guard passed.
pub open spec fn rebalance_guard_error(v: Vault, caller: u64, now: i64) -> Option<ErrorCode> {
    if !v.authorized(caller) {
        Some(ErrorCode::Unauthorized)
    } else if v.pending_rebalance_bins.lower == 0 || v.pending_rebalance_bins.upper == 0 {
        Some(ErrorCode::InvalidBins)
    } else if !v.pending_rebalance_bins.is_ordered() {
        Some(ErrorCode::InvalidBins)
    } else if now - v.last_rebalance_time <= v.min_rebalance_delay {
        Some(ErrorCode::RebalanceTooFrequent)
    } else if now - v.price_update_time >= STALENESS_WINDOW {
        Some(ErrorCode::StalePrice)
    } else {
        None
    }
}

/// The state a successful rebalance at time `now` commits: the staged
/// candidate becomes the active range, the candidate slot is cleared, and
/// the commit time is recorded.
pub open spec fn rebalance_commit_state(v: Vault, now: i64) -> Vault {
    Vault {
        current_bins: v.pending_rebalance_bins,
        pending_rebalance_bins: BinRange { lower: 0, upper: 0 },
        last_rebalance_time: now,
        ..v
    }
}

impl Vault {
    /// Runs the rebalance guard sequence without mutating anything and, when
    /// every guard passes, returns the adapter actions the host must perform
    /// before committing with [`Vault::rebalance`].
    pub fn plan_rebalance(&self, caller: u64, current_time: i64) -> (r: Result<
        RebalanceAction,
        ErrorCode,
    >)
        requires
            self.wf(),
            current_time >= 0,
        ensures
            match rebalance_guard_error(*self, caller, current_time) {
                Some(e) => r == Err::<RebalanceAction, ErrorCode>(e),
                None => (r matches Ok(a) && a == (RebalanceAction {
                    withdraw_bins: self.current_bins,
                    deposit_bins: self.pending_rebalance_bins,
                })),
            },
    {
        match self.rebalance_guards(caller, current_time) {
            Some(e) => Err(e),
            None => Ok(
                RebalanceAction {
                    withdraw_bins: self.current_bins,
                    deposit_bins: self.pending_rebalance_bins,
                },
            ),
        }
    }

    /// Commits a rebalance at `current_time`: re-runs the guard sequence and,
    /// when every guard passes, installs the staged candidate as the active
    /// range, clears the candidate slot and records the commit time.  Any
    /// guard failure leaves the vault exactly as it was.
    ///
    /// The host calls this only after both adapter calls of the planned
    /// action succeeded, which makes the whole operation commit-or-abort.
    pub fn rebalance(&mut self, caller: u64, current_time: i64) -> (r: Result<(), ErrorCode>)
        requires
            old(self).wf(),
            current_time >= 0,
        ensures
            final(self).wf(),
            match rebalance_guard_error(*old(self), caller, current_time) {
                Some(e) => r == Err::<(), ErrorCode>(e) && *final(self) == *old(self),
                None => r is Ok && *final(self) == rebalance_commit_state(
                    *old(self),
                    current_time,
                ),
            },
    {
        match self.rebalance_guards(caller, current_time) {
            Some(e) => Err(e),
            None => {
                self.current_bins = self.pending_rebalance_bins;
                self.pending_rebalance_bins = BinRange { lower: 0, upper: 0 };
                self.last_rebalance_time = current_time;
                Ok(())
            },
        }
    }

    /// The executable form of the guard sequence, shared by planning and
    /// committing.
    fn rebalance_guards(&self, caller: u64, current_time: i64) -> (r: Option<ErrorCode>)
        requires
            self.wf(),
            current_time >= 0,
        ensures
            r == rebalance_guard_error(*self, caller, current_time),
    {
        if caller != self.admin {
            return Some(ErrorCode::Unauthorized);
        }
        let staged = self.pending_rebalance_bins;
        if staged.lower == 0 || staged.upper == 0 {
            return Some(ErrorCode::InvalidBins);
        }
        if !(staged.lower < staged.upper) {
            return Some(ErrorCode::InvalidBins);
        }
        if !(current_time - self.last_rebalance_time > self.min_rebalance_delay) {
            return Some(ErrorCode::RebalanceTooFrequent);
        }
        if !(current_time - self.price_update_time < STALENESS_WINDOW) {
            return Some(ErrorCode::StalePrice);
        }
        None
    }
}

/// Minimum-delay throttle: once a rebalance has been committed at `t1`, any
/// vault that carries that commit time — however its candidate slot or price
/// fields have been refreshed since, even with a fully valid new candidate —
/// rejects a rebalance by the admin at any `t2` within `min_rebalance_delay`
/// seconds of `t1` with `RebalanceTooFrequent`; together with the commit
/// contract this means the active range cannot change twice within the delay.
pub proof fn lemma_rebalance_throttled(v: Vault, w: Vault, caller: u64, t1: i64, t2: i64)
    requires
        rebalance_guard_error(v, caller, t1) is None,
        w.last_rebalance_time == rebalance_commit_state(v, t1).last_rebalance_time,
        w.min_rebalance_delay == v.min_rebalance_delay,
        w.admin == v.admin,
        t2 - t1 <= w.min_rebalance_delay,
    ensures
        rebalance_guard_error(w, caller, t2) is Some,
        w.pending_rebalance_bins.lower != 0 && w.pending_rebalance_bins.upper != 0
            && w.pending_rebalance_bins.is_ordered()
            ==> rebalance_guard_error(w, caller, t2) == Some(ErrorCode::RebalanceTooFrequent),
{
}

} // verus!
