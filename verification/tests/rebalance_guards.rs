use dynamic_vault::{BinRange, ErrorCode, RebalanceAction, Vault};

const ADMIN: u64 = 7;

/// A vault mid-life: an active range, a staged candidate, and the given
/// commit and price-sample times.
fn staged_vault(last_rebalance_time: i64, price_update_time: i64) -> Vault {
    Vault {
        admin: ADMIN,
        current_bins: BinRange { lower: 90, upper: 105 },
        pending_rebalance_bins: BinRange { lower: 100, upper: 110 },
        last_rebalance_time,
        last_fee_harvest_time: 0,
        total_fees_earned: 0,
        max_fee_amount: 1_000,
        fee_token_account: 9,
        rebalance_threshold: 5,
        min_rebalance_delay: 3_600,
        last_price: 105_000_000,
        price_update_time,
    }
}

#[test]
fn plan_returns_both_adapter_actions() {
    let v = staged_vault(0, 4_990);
    let action = v.plan_rebalance(ADMIN, 5_000).unwrap();
    assert_eq!(
        action,
        RebalanceAction {
            withdraw_bins: BinRange { lower: 90, upper: 105 },
            deposit_bins: BinRange { lower: 100, upper: 110 },
        }
    );
}

#[test]
fn commit_installs_the_candidate() {
    let mut v = staged_vault(0, 4_990);
    assert_eq!(v.rebalance(ADMIN, 5_000), Ok(()));
    assert_eq!(v.current_bins, BinRange { lower: 100, upper: 110 });
    assert_eq!(v.pending_rebalance_bins, BinRange { lower: 0, upper: 0 });
    assert_eq!(v.last_rebalance_time, 5_000);
}

#[test]
fn second_rebalance_within_delay_is_throttled() {
    let mut v = staged_vault(0, 4_990);
    assert_eq!(v.rebalance(ADMIN, 5_000), Ok(()));
    // A fresh candidate and a fresh price arrive almost immediately...
    v.pending_rebalance_bins = BinRange { lower: 105, upper: 115 };
    v.last_price = 110_000_000;
    v.price_update_time = 5_990;
    let before = v;
    // ...but 1000 seconds is within the 3600-second delay.
    assert_eq!(v.rebalance(ADMIN, 6_000), Err(ErrorCode::RebalanceTooFrequent));
    assert_eq!(v, before);
    assert_eq!(v.current_bins, BinRange { lower: 100, upper: 110 });
}

#[test]
fn throttle_window_then_staleness_guard() {
    // Last commit at 1000 with a 3600-second minimum delay.
    let mut v = staged_vault(1_000, 1_999);
    let before = v;
    assert_eq!(v.rebalance(ADMIN, 2_000), Err(ErrorCode::RebalanceTooFrequent));
    assert_eq!(v, before);
    // At 5000 the delay has elapsed; the price sample from 1999 is now the
    // failing guard.
    assert_eq!(v.rebalance(ADMIN, 5_000), Err(ErrorCode::StalePrice));
    assert_eq!(v, before);
    // With a fresh sample the same call commits.
    v.price_update_time = 4_990;
    assert_eq!(v.rebalance(ADMIN, 5_000), Ok(()));
}

#[test]
fn delay_must_strictly_elapse() {
    let mut v = staged_vault(1_000, 4_590);
    // 4600 - 1000 == 3600 is not strictly greater than the delay.
    assert_eq!(v.rebalance(ADMIN, 4_600), Err(ErrorCode::RebalanceTooFrequent));
    assert_eq!(v.rebalance(ADMIN, 4_601), Ok(()));
}

#[test]
fn missing_candidate_is_rejected() {
    let mut v = staged_vault(0, 4_990);
    v.pending_rebalance_bins = BinRange { lower: 0, upper: 0 };
    assert_eq!(v.rebalance(ADMIN, 5_000), Err(ErrorCode::InvalidBins));
    v.pending_rebalance_bins = BinRange { lower: 0, upper: 110 };
    assert_eq!(v.rebalance(ADMIN, 5_000), Err(ErrorCode::InvalidBins));
    v.pending_rebalance_bins = BinRange { lower: 100, upper: 0 };
    assert_eq!(v.rebalance(ADMIN, 5_000), Err(ErrorCode::InvalidBins));
}

#[test]
fn inverted_candidate_is_rejected() {
    let mut v = staged_vault(0, 4_990);
    v.pending_rebalance_bins = BinRange { lower: 110, upper: 100 };
    let before = v;
    assert_eq!(v.rebalance(ADMIN, 5_000), Err(ErrorCode::InvalidBins));
    assert_eq!(v, before);
}

#[test]
fn rebalance_rejects_non_admin() {
    let mut v = staged_vault(0, 4_990);
    let before = v;
    assert_eq!(v.rebalance(ADMIN + 1, 5_000), Err(ErrorCode::Unauthorized));
    assert_eq!(v, before);
    assert_eq!(v.plan_rebalance(ADMIN + 1, 5_000), Err(ErrorCode::Unauthorized));
}
