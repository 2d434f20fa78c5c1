use dynamic_vault::{BinRange, ErrorCode, Vault, WithdrawAction};

const ADMIN: u64 = 7;

fn vault_with_fees(total_fees_earned: u64, max_fee_amount: u64) -> Vault {
    Vault {
        admin: ADMIN,
        current_bins: BinRange { lower: 90, upper: 105 },
        pending_rebalance_bins: BinRange { lower: 0, upper: 0 },
        last_rebalance_time: 0,
        last_fee_harvest_time: 0,
        total_fees_earned,
        max_fee_amount,
        fee_token_account: 9,
        rebalance_threshold: 5,
        min_rebalance_delay: 3_600,
        last_price: 0,
        price_update_time: 0,
    }
}

#[test]
fn harvest_accumulates_within_the_cap() {
    let mut v = vault_with_fees(50, 100);
    assert_eq!(v.harvest_fees(ADMIN, 30, 500), Ok(()));
    assert_eq!(v.total_fees_earned, 80);
    assert_eq!(v.last_fee_harvest_time, 500);
    // Reaching the cap exactly is still allowed.
    assert_eq!(v.harvest_fees(ADMIN, 20, 600), Ok(()));
    assert_eq!(v.total_fees_earned, 100);
}

#[test]
fn harvest_past_the_cap_changes_nothing() {
    let mut v = vault_with_fees(50, 100);
    let before = v;
    assert_eq!(v.harvest_fees(ADMIN, 60, 500), Err(ErrorCode::MaxFeeExceeded));
    assert_eq!(v, before);
    assert_eq!(v.total_fees_earned, 50);
    assert_eq!(v.last_fee_harvest_time, 0);
}

#[test]
fn harvest_counter_overflow_is_its_own_error() {
    let mut v = vault_with_fees(10, u64::MAX);
    let before = v;
    assert_eq!(v.harvest_fees(ADMIN, u64::MAX, 500), Err(ErrorCode::FeeOverflow));
    assert_eq!(v, before);
}

#[test]
fn harvest_rejects_non_admin() {
    let mut v = vault_with_fees(0, 100);
    let before = v;
    assert_eq!(v.harvest_fees(ADMIN + 1, 30, 500), Err(ErrorCode::Unauthorized));
    assert_eq!(v, before);
}

#[test]
fn withdraw_rejects_out_of_range_shares() {
    let v = vault_with_fees(0, 100);
    assert_eq!(v.withdraw(ADMIN, 0, 1_000), Err(ErrorCode::InvalidSharePercentage));
    assert_eq!(v.withdraw(ADMIN, 101, 1_000), Err(ErrorCode::InvalidSharePercentage));
}

#[test]
fn withdraw_half_share_truncates() {
    let v = vault_with_fees(0, 100);
    assert_eq!(
        v.withdraw(ADMIN, 50, 1_001),
        Ok(WithdrawAction {
            liquidity_amount: 500,
            bins: BinRange { lower: 90, upper: 105 },
        })
    );
    // The fractional remainder stays in the position.
    assert_eq!(v.withdraw(ADMIN, 50, 99).unwrap().liquidity_amount, 49);
}

#[test]
fn withdraw_full_share_takes_everything() {
    let v = vault_with_fees(0, 100);
    assert_eq!(v.withdraw(ADMIN, 100, u64::MAX).unwrap().liquidity_amount, u64::MAX);
    assert_eq!(v.withdraw(ADMIN, 1, 100).unwrap().liquidity_amount, 1);
}

#[test]
fn withdraw_rejects_non_admin() {
    let v = vault_with_fees(0, 100);
    assert_eq!(v.withdraw(ADMIN + 1, 50, 1_000), Err(ErrorCode::Unauthorized));
}
