//! Ingesting a price sample: staleness check, exact drift test, and staging
//! of a candidate bin range for the next rebalance.

use vstd::prelude::*;
use vstd::arithmetic::div_mod::{
    lemma_div_is_ordered, lemma_div_plus_one, lemma_multiply_divide_le,
};
use crate::errors::ErrorCode;
use crate::state::{BinRange, Vault, PRICE_SCALE, STALENESS_WINDOW};

verus! {

/// The distance between two price samples.
pub open spec fn price_abs_diff(last: int, new: int) -> int {
    if new >= last {
        new - last
    } else {
        last - new
    }
}

/// Whether the drift from `last` to `new` exceeds `threshold` percent.
///
/// This is the exact cross-multiplied form of
/// `|new - last| / last * 100 > threshold`, so nothing is ever divided: for
/// a positive `last` it agrees with the quotient exactly, and for
/// `last == 0` — a vault that has never recorded a price, where the
/// quotient would be undefined — any nonzero sample counts as exceeding
/// the threshold.
pub open spec fn drift_exceeds_threshold(last: int, new: int, threshold: int) -> bool {
    price_abs_diff(last, new) * 100 > threshold * last
}

/// `p / q` rounded to the nearest integer, half away from zero, for a
/// non-negative numerator and a positive denominator.
pub open spec fn round_half_away(p: int, q: int) -> int
    recommends
        p >= 0,
        q > 0,
{
    (2 * p + q) / (2 * q)
}

/// One edge of a candidate range: the mid price `price_sum / 2` (in
/// `PRICE_SCALE` units), scaled by `pct` percent and rounded half away from
/// zero to the nearest integer tick.  A result past the largest tick
/// saturates at `i32::MAX` rather than wrapping.
pub open spec fn candidate_edge(price_sum: int, pct: int) -> int {
    let tick = round_half_away(price_sum * pct, 200 * (PRICE_SCALE as int));
    if tick > i32::MAX as int {
        i32::MAX as int
    } else {
        tick
    }
}

/// The lower edge of the candidate staged for prices `last` and `new` at
/// drift threshold `threshold`: `round(mid * (1 - threshold/100))`.
pub open spec fn candidate_lower(last: int, new: int, threshold: int) -> int {
    candidate_edge(last + new, 100 - threshold)
}

/// The upper edge of the candidate staged for prices `last` and `new` at
/// drift threshold `threshold`: `round(mid * (1 + threshold/100))`.
pub open spec fn candidate_upper(last: int, new: int, threshold: int) -> int {
    candidate_edge(last + new, 100 + threshold)
}

/// Computes the candidate range for a rebalance between prices `old_price`
/// and `new_price`: both edges are the mid price spread by `threshold`
/// percent, rounded half away from zero to the nearest tick.
pub fn calculate_new_bins(old_price: u64, new_price: u64, threshold: u8) -> (bins: BinRange)
    requires
        1 <= threshold <= 100,
    ensures
        bins.lower as int == candidate_lower(old_price as int, new_price as int, threshold as int),
        bins.upper as int == candidate_upper(old_price as int, new_price as int, threshold as int),
        0 <= bins.lower,
        0 <= bins.upper,
{
    let sum: u128 = old_price as u128 + new_price as u128;
    let lower: i32 = tick_edge(sum, (100 - threshold) as u128);
    let upper: i32 = tick_edge(sum, (100 + threshold) as u128);
    BinRange { lower, upper }
}

/// One tick edge in executable form; exact integer image of
/// [`candidate_edge`].
fn tick_edge(price_sum: u128, pct: u128) -> (tick: i32)
    requires
        price_sum <= 2 * (u64::MAX as u128),
        pct <= 200,
    ensures
        tick as int == candidate_edge(price_sum as int, pct as int),
        0 <= tick,
{
    proof {
        assert((2 * price_sum) * pct <= (4 * (u64::MAX as int)) * 200) by (nonlinear_arith)
            requires
                price_sum <= 2 * (u64::MAX as int),
                pct <= 200,
        ;
        assert((2 * (price_sum as int)) * (pct as int) == 2 * ((price_sum as int) * (
        pct as int))) by (nonlinear_arith);
    }
    let num: u128 = 2 * price_sum * pct + 200_000_000;
    let tick_wide: u128 = num / 400_000_000;
    proof {
        assert(num as int == 2 * ((price_sum as int) * (pct as int)) + 200_000_000);
        assert(tick_wide as int == round_half_away(
            (price_sum * pct) as int,
            200 * (PRICE_SCALE as int),
        ));
    }
    if tick_wide > i32::MAX as u128 {
        i32::MAX
    } else {
        tick_wide as i32
    }
}

/// A staged candidate is a proper range.
///
/// Whenever the threshold lies in 1..=100, the summed prices carry at least
/// one full percent step above the tick grid
/// (`(last + new) * threshold >= 100 * PRICE_SCALE`, that is, the mid price
/// spread is at least half a tick each way), and the prices are small
/// enough that no edge saturates, the staged candidate satisfies
/// `lower < upper`.  For a mid price too close to zero the two edges can
/// round to the same tick, so such inputs are excluded here and rejected at
/// rebalance time by the ordered-range guard instead.
pub proof fn lemma_candidate_ordered(last: int, new: int, threshold: int)
    requires
        0 <= last,
        0 <= new,
        1 <= threshold <= 100,
        (last + new) * threshold >= 100 * (PRICE_SCALE as int),
        last + new <= (i32::MAX - 1) * (PRICE_SCALE as int),
    ensures
        candidate_lower(last, new, threshold) < candidate_upper(last, new, threshold),
{
    let s = last + new;
    let lo_num = 2 * (s * (100 - threshold)) + 200_000_000;
    let hi_num = 2 * (s * (100 + threshold)) + 200_000_000;

    assert(hi_num - lo_num == 4 * (s * threshold)) by (nonlinear_arith)
        requires
            lo_num == 2 * (s * (100 - threshold)) + 200_000_000,
            hi_num == 2 * (s * (100 + threshold)) + 200_000_000,
    ;
    assert(4 * (s * threshold) >= 400_000_000);
    assert(hi_num >= lo_num + 400_000_000);

    assert(0 <= s * (100 - threshold)) by (nonlinear_arith)
        requires
            0 <= s,
            threshold <= 100,
    ;
    assert(s * (100 + threshold) <= s * 200) by (nonlinear_arith)
        requires
            0 <= s,
            threshold <= 100,
    ;

    // Neither edge saturates: the numerators stay under `i32::MAX` times the
    // denominator.
    assert(hi_num <= 400 * s + 200_000_000);
    assert(400 * s <= 400 * ((i32::MAX - 1) * (PRICE_SCALE as int)));
    assert(hi_num <= 400_000_000 * (i32::MAX as int));
    lemma_multiply_divide_le(hi_num, 400_000_000, i32::MAX as int);
    assert(hi_num / 400_000_000 <= i32::MAX as int);
    assert(0 <= lo_num);
    lemma_div_is_ordered(lo_num, hi_num, 400_000_000);
    assert(lo_num / 400_000_000 <= i32::MAX as int);

    // The rounded edges differ: a full denominator between the numerators
    // forces the quotients apart.
    lemma_div_is_ordered(lo_num + 400_000_000, hi_num, 400_000_000);
    lemma_div_plus_one(lo_num, 400_000_000);
    assert(lo_num / 400_000_000 < hi_num / 400_000_000);

    assert(candidate_lower(last, new, threshold) == lo_num / 400_000_000);
    assert(candidate_upper(last, new, threshold) == hi_num / 400_000_000);
}

/// The price-recording guard sequence, in the order it is evaluated: the
/// caller's capability, then the freshness of the vault's own previous
/// sample.  The staleness check deliberately measures the age of the
/// *existing* sample, not the incoming one: a vault whose bookkeeping has
/// gone stale refuses new samples until the caller resubmits within the
/// window.  The first failure names the error; `None` means the sample is
/// accepted.
pub open spec fn price_guard_error(v: Vault, caller: u64, now: i64) -> Option<ErrorCode> {
    if !v.authorized(caller) {
        Some(ErrorCode::Unauthorized)
    } else if now - v.price_update_time >= STALENESS_WINDOW {
        Some(ErrorCode::StalePrice)
    } else {
        None
    }
}

impl Vault {
    /// Records a price sample taken at `current_time`.
    ///
    /// When the sample is accepted, the last price and its time are always
    /// updated; and when the drift from the previous price exceeds the
    /// configured threshold, a candidate range spread `threshold` percent
    /// around the mid price is staged for the next rebalance.  A rejected
    /// sample leaves the vault exactly as it was.  The price time never
    /// decreases.
    pub fn check_price(&mut self, caller: u64, new_price: u64, current_time: i64) -> (r: Result<
        (),
        ErrorCode,
    >)
        requires
            old(self).wf(),
            current_time >= old(self).price_update_time,
        ensures
            final(self).wf(),
            final(self).price_update_time >= old(self).price_update_time,
            match price_guard_error(*old(self), caller, current_time) {
                Some(e) => r == Err::<(), ErrorCode>(e) && *final(self) == *old(self),
                None => {
                    &&& r is Ok
                    &&& final(self).last_price == new_price
                    &&& final(self).price_update_time == current_time
                    &&& drift_exceeds_threshold(
                        old(self).last_price as int,
                        new_price as int,
                        old(self).rebalance_threshold as int,
                    ) ==> {
                        &&& final(self).pending_rebalance_bins.lower as int == candidate_lower(
                            old(self).last_price as int,
                            new_price as int,
                            old(self).rebalance_threshold as int,
                        )
                        &&& final(self).pending_rebalance_bins.upper as int == candidate_upper(
                            old(self).last_price as int,
                            new_price as int,
                            old(self).rebalance_threshold as int,
                        )
                    }
                    &&& !drift_exceeds_threshold(
                        old(self).last_price as int,
                        new_price as int,
                        old(self).rebalance_threshold as int,
                    ) ==> final(self).pending_rebalance_bins == old(self).pending_rebalance_bins
                    &&& *final(self) == (Vault {
                        last_price: new_price,
                        price_update_time: current_time,
                        pending_rebalance_bins: final(self).pending_rebalance_bins,
                        ..*old(self)
                    })
                },
            },
    {
        if caller != self.admin {
            return Err(ErrorCode::Unauthorized);
        }
        if !(current_time - self.price_update_time < STALENESS_WINDOW) {
            return Err(ErrorCode::StalePrice);
        }
        let last = self.last_price;
        let diff: u64 = if new_price >= last {
            new_price - last
        } else {
            last - new_price
        };
        proof {
            assert((self.rebalance_threshold as int) * (last as int) <= 100 * (u64::MAX as int))
                by (nonlinear_arith)
                requires
                    self.rebalance_threshold <= 100,
                    last <= u64::MAX,
            ;
        }
        let exceeded: bool = (diff as u128) * 100 > (self.rebalance_threshold as u128) * (
        last as u128);
        if exceeded {
            self.pending_rebalance_bins = calculate_new_bins(
                last,
                new_price,
                self.rebalance_threshold,
            );
        }
        self.last_price = new_price;
        self.price_update_time = current_time;
        Ok(())
    }
}

} // verus!
