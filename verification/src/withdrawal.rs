//! Computing a proportional withdrawal from a requested percentage share.

use vstd::prelude::*;
use crate::errors::ErrorCode;
use crate::state::{BinRange, Vault};

verus! {

/// The pool-adapter work a withdrawal authorizes: remove `liquidity_amount`
/// from the vault's active range.  Token settlement to the requesting party
/// is the host's concern.
#[derive(Clone, Copy, Debug, PartialEq, Eq, Structural)]
pub struct WithdrawAction {
    pub liquidity_amount: u64,
    pub bins: BinRange,
}

/// The liquidity a `share`-percent withdrawal removes from a position:
/// truncating integer division, so the fractional remainder stays in the
/// position — a deliberate precision-loss behaviour, not an error.
pub open spec fn withdraw_amount(position_liquidity: int, share: int) -> int {
    position_liquidity * share / 100
}

impl Vault {
    /// Computes the proportional amount a `share`-percent withdrawal removes
    /// from a position holding `position_liquidity`, and the range to remove
    /// it from.  Succeeds exactly when the caller is the admin and the share
    /// lies in 1..=100; the vault itself is never mutated.
    pub fn withdraw(&self, caller: u64, share: u64, position_liquidity: u64) -> (r: Result<
        WithdrawAction,
        ErrorCode,
    >)
        ensures
            !self.authorized(caller) ==> r == Err::<WithdrawAction, ErrorCode>(
                ErrorCode::Unauthorized,
            ),
            self.authorized(caller) && !(1 <= share <= 100) ==> r == Err::<
                WithdrawAction,
                ErrorCode,
            >(ErrorCode::InvalidSharePercentage),
            self.authorized(caller) && 1 <= share <= 100 ==> (r matches Ok(a) && a == (
            WithdrawAction {
                liquidity_amount: withdraw_amount(
                    position_liquidity as int,
                    share as int,
                ) as u64,
                bins: self.current_bins,
            })),
            r matches Ok(a) ==> a.liquidity_amount <= position_liquidity,
    {
        if caller != self.admin {
            return Err(ErrorCode::Unauthorized);
        }
        if !(share > 0 && share <= 100) {
            return Err(ErrorCode::InvalidSharePercentage);
        }
        proof {
            assert((position_liquidity as int) * (share as int) <= (u64::MAX as int) * 100)
                by (nonlinear_arith)
                requires
                    position_liquidity <= u64::MAX,
                    share <= 100,
            ;
        }
        let scaled: u128 = (position_liquidity as u128) * (share as u128);
        let amount_wide: u128 = scaled / 100;
        proof {
            assert(scaled <= (position_liquidity as u128) * 100) by (nonlinear_arith)
                requires
                    scaled == (position_liquidity as u128) * (share as u128),
                    share <= 100,
            ;
            assert(amount_wide <= position_liquidity);
        }
        let amount: u64 = amount_wide as u64;
        Ok(WithdrawAction { liquidity_amount: amount, bins: self.current_bins })
    }
}

} // verus!
