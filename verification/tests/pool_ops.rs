use automated_market_maker::error::AmmError;
use automated_market_maker::pool::{DepositOutcome, Pool, SwapOutcome, WithdrawOutcome};

fn test_pool(locked: bool, fee_bps: u16) -> Pool {
    Pool::initialize(42, locked, fee_bps, 7, 100, 200, 254, 253)
}

#[test]
fn initialize_starts_empty() {
    let p = test_pool(false, 30);
    assert_eq!(p.reserve_x, 0);
    assert_eq!(p.reserve_y, 0);
    assert_eq!(p.total_shares, 0);
    assert_eq!(p.config.seed, 42);
    assert_eq!(p.config.authority, 7);
    assert_eq!(p.config.asset_x_id, 100);
    assert_eq!(p.config.asset_y_id, 200);
    assert_eq!(p.config.fee_bps, 30);
    assert!(!p.config.locked);
}

#[test]
fn first_deposit_sets_price() {
    let mut p = test_pool(false, 30);
    let outcome = p.deposit(1000, 1000, 2000).unwrap();
    assert_eq!(
        outcome,
        DepositOutcome { amount_x: 1000, amount_y: 2000, minted_shares: 1000 }
    );
    assert_eq!(p.reserve_x, 1000);
    assert_eq!(p.reserve_y, 2000);
    assert_eq!(p.total_shares, 1000);
}

#[test]
fn first_deposit_must_fund_both_reserves() {
    let mut p = test_pool(false, 30);
    assert_eq!(p.deposit(1000, 0, 2000), Err(AmmError::InvalidAmount));
    assert_eq!(p.deposit(1000, 1000, 0), Err(AmmError::InvalidAmount));
    assert_eq!(p.total_shares, 0);
}

#[test]
fn deposit_zero_shares_rejected() {
    let mut p = test_pool(false, 30);
    assert_eq!(p.deposit(0, 1000, 2000), Err(AmmError::InvalidAmount));
}

#[test]
fn proportional_deposit() {
    let mut p = test_pool(false, 30);
    p.deposit(1000, 1000, 2000).unwrap();
    let outcome = p.deposit(500, 600, 1200).unwrap();
    assert_eq!(
        outcome,
        DepositOutcome { amount_x: 500, amount_y: 1000, minted_shares: 500 }
    );
    assert_eq!(p.reserve_x, 1500);
    assert_eq!(p.reserve_y, 3000);
    assert_eq!(p.total_shares, 1500);
}

#[test]
fn deposit_slippage_rejected_and_pool_unchanged() {
    let mut p = test_pool(false, 30);
    p.deposit(1000, 1000, 2000).unwrap();
    let before = p;
    assert_eq!(p.deposit(500, 499, 1200), Err(AmmError::SlippageExceeded));
    assert_eq!(p.deposit(500, 600, 999), Err(AmmError::SlippageExceeded));
    assert_eq!(p, before);
}

#[test]
fn deposit_rounds_up_in_pool_favour() {
    let mut p = test_pool(false, 30);
    p.deposit(3, 10, 10).unwrap();
    let outcome = p.deposit(1, 100, 100).unwrap();
    // ceil(10 * 1 / 3) = 4 on both legs.
    assert_eq!(outcome.amount_x, 4);
    assert_eq!(outcome.amount_y, 4);
}

#[test]
fn withdraw_proportional() {
    let mut p = test_pool(false, 30);
    p.deposit(1500, 1500, 3000).unwrap();
    let outcome = p.withdraw(500, 1, 1).unwrap();
    assert_eq!(
        outcome,
        WithdrawOutcome { amount_x: 500, amount_y: 1000, burned_shares: 500 }
    );
    assert_eq!(p.reserve_x, 1000);
    assert_eq!(p.reserve_y, 2000);
    assert_eq!(p.total_shares, 1000);
}

#[test]
fn withdraw_rounds_down_in_pool_favour() {
    let mut p = test_pool(false, 30);
    p.deposit(3, 10, 10).unwrap();
    let outcome = p.withdraw(1, 1, 1).unwrap();
    // floor(10 * 1 / 3) = 3 on both legs.
    assert_eq!(outcome.amount_x, 3);
    assert_eq!(outcome.amount_y, 3);
    assert_eq!(p.reserve_x, 7);
    assert_eq!(p.total_shares, 2);
}

#[test]
fn withdraw_then_redeposit_round_trip() {
    // At an evenly dividing ratio the round trip is exact: re-minting the
    // burned shares costs exactly what the withdrawal paid out.
    let mut p = test_pool(false, 30);
    p.deposit(1500, 1500, 3000).unwrap();
    let out = p.withdraw(500, 1, 1).unwrap();
    let back = p.deposit(500, out.amount_x, out.amount_y).unwrap();
    assert_eq!(back.amount_x, out.amount_x);
    assert_eq!(back.amount_y, out.amount_y);
    assert_eq!(p.reserve_x, 1500);
    assert_eq!(p.reserve_y, 3000);
    assert_eq!(p.total_shares, 1500);
}

#[test]
fn withdraw_then_redeposit_never_cheaper() {
    // At a ratio the withdrawal does not divide evenly, the rounding moves
    // the price against the returning depositor: re-minting the burned
    // shares costs at least what the withdrawal paid out.
    let mut p = test_pool(false, 30);
    p.deposit(5, 7, 7).unwrap();
    let out = p.withdraw(4, 1, 1).unwrap();
    assert_eq!(out.amount_x, 5); // floor(7 * 4 / 5)
    let back = p.deposit(4, u64::MAX / 2, u64::MAX / 2).unwrap();
    assert_eq!(back.amount_x, 8); // ceil(2 * 4 / 1)
    assert!(back.amount_x >= out.amount_x);
    assert!(back.amount_y >= out.amount_y);
}

#[test]
fn full_withdraw_empties_pool() {
    let mut p = test_pool(false, 30);
    p.deposit(1000, 1000, 2000).unwrap();
    let outcome = p.withdraw(1000, 1, 1).unwrap();
    assert_eq!(outcome.amount_x, 1000);
    assert_eq!(outcome.amount_y, 2000);
    assert_eq!(p.reserve_x, 0);
    assert_eq!(p.reserve_y, 0);
    assert_eq!(p.total_shares, 0);
    // The emptied pool accepts a fresh price-setting deposit.
    p.deposit(10, 30, 40).unwrap();
    assert_eq!(p.reserve_x, 30);
    assert_eq!(p.reserve_y, 40);
    assert_eq!(p.total_shares, 10);
}

#[test]
fn shares_and_reserves_empty_together() {
    // total_shares == 0 exactly when both reserves are zero, across a whole
    // operation history.
    let mut p = test_pool(false, 30);
    let consistent =
        |p: &Pool| (p.total_shares == 0) == (p.reserve_x == 0 && p.reserve_y == 0);
    assert!(consistent(&p));
    p.deposit(1000, 1000, 2000).unwrap();
    assert!(consistent(&p));
    p.swap(true, 100, 1).unwrap();
    assert!(consistent(&p));
    p.withdraw(400, 1, 1).unwrap();
    assert!(consistent(&p));
    p.withdraw(600, 1, 1).unwrap();
    assert!(consistent(&p));
    assert_eq!(p.total_shares, 0);
}

#[test]
fn withdraw_zero_shares_rejected() {
    let mut p = test_pool(false, 30);
    p.deposit(1000, 1000, 2000).unwrap();
    assert_eq!(p.withdraw(0, 1, 1), Err(AmmError::InvalidAmount));
}

#[test]
fn withdraw_zero_floor_rejected() {
    let mut p = test_pool(false, 30);
    p.deposit(1000, 1000, 2000).unwrap();
    assert_eq!(p.withdraw(500, 0, 1), Err(AmmError::InvalidMinAmount));
    assert_eq!(p.withdraw(500, 1, 0), Err(AmmError::InvalidMinAmount));
}

#[test]
fn withdraw_slippage_rejected_and_pool_unchanged() {
    let mut p = test_pool(false, 30);
    p.deposit(1000, 1000, 2000).unwrap();
    let before = p;
    assert_eq!(p.withdraw(500, 501, 1), Err(AmmError::SlippageExceeded));
    assert_eq!(p.withdraw(500, 1, 1001), Err(AmmError::SlippageExceeded));
    assert_eq!(p, before);
}

#[test]
fn swap_x_to_y() {
    let mut p = test_pool(false, 30);
    p.deposit(1000, 1000, 2000).unwrap();
    let outcome = p.swap(true, 100, 1).unwrap();
    assert_eq!(
        outcome,
        SwapOutcome { amount_in: 100, net_in: 99, amount_out: 180 }
    );
    // The full input is credited, only the output leg is debited.
    assert_eq!(p.reserve_x, 1100);
    assert_eq!(p.reserve_y, 1820);
    assert_eq!(p.total_shares, 1000);
}

#[test]
fn swap_y_to_x() {
    let mut p = test_pool(false, 30);
    p.deposit(1000, 1000, 2000).unwrap();
    let outcome = p.swap(false, 200, 1).unwrap();
    // net = floor(200 * 9970 / 10000) = 199;
    // out = floor(1000 * 199 / 2199) = 90.
    assert_eq!(
        outcome,
        SwapOutcome { amount_in: 200, net_in: 199, amount_out: 90 }
    );
    assert_eq!(p.reserve_x, 910);
    assert_eq!(p.reserve_y, 2200);
}

#[test]
fn pool_swap_zero_input_rejected() {
    let mut p = test_pool(false, 30);
    p.deposit(1000, 1000, 2000).unwrap();
    assert_eq!(p.swap(true, 0, 0), Err(AmmError::InvalidAmount));
}

#[test]
fn swap_slippage_rejected_and_pool_unchanged() {
    let mut p = test_pool(false, 30);
    p.deposit(1000, 1000, 2000).unwrap();
    let before = p;
    assert_eq!(p.swap(true, 100, 181), Err(AmmError::SlippageExceeded));
    assert_eq!(p, before);
}

#[test]
fn locked_pool_rejects_all_operations() {
    // The lock rejects every mutating balance operation, whatever the other
    // arguments, even otherwise-invalid ones.
    let mut p = test_pool(true, 30);
    p.update_config(7, Some(false), None, None).unwrap();
    p.deposit(1000, 1000, 2000).unwrap();
    p.update_config(7, Some(true), None, None).unwrap();
    assert_eq!(p.deposit(500, 600, 1200), Err(AmmError::PoolLocked));
    assert_eq!(p.deposit(0, 0, 0), Err(AmmError::PoolLocked));
    assert_eq!(p.withdraw(500, 1, 1), Err(AmmError::PoolLocked));
    assert_eq!(p.withdraw(0, 0, 0), Err(AmmError::PoolLocked));
    assert_eq!(p.swap(true, 100, 1), Err(AmmError::PoolLocked));
    assert_eq!(p.swap(false, 0, 0), Err(AmmError::PoolLocked));
    assert_eq!(p.reserve_x, 1000);
    assert_eq!(p.reserve_y, 2000);
    assert_eq!(p.total_shares, 1000);
}

#[test]
fn update_config_requires_authority() {
    let mut p = test_pool(false, 30);
    let before = p;
    assert_eq!(
        p.update_config(8, Some(true), Some(100), Some(8)),
        Err(AmmError::InvalidConfigAuthority)
    );
    assert_eq!(p, before);
}

#[test]
fn update_config_partial_updates() {
    let mut p = test_pool(false, 30);
    p.update_config(7, None, Some(100), None).unwrap();
    assert_eq!(p.config.fee_bps, 100);
    assert!(!p.config.locked);
    assert_eq!(p.config.authority, 7);
    p.update_config(7, Some(true), None, None).unwrap();
    assert!(p.config.locked);
    assert_eq!(p.config.fee_bps, 100);
    p.update_config(7, None, None, Some(9)).unwrap();
    assert_eq!(p.config.authority, 9);
    // The old authority no longer qualifies, the new one does.
    assert_eq!(
        p.update_config(7, Some(false), None, None),
        Err(AmmError::InvalidConfigAuthority)
    );
    p.update_config(9, Some(false), None, None).unwrap();
    assert!(!p.config.locked);
    // Identity fields never change.
    assert_eq!(p.config.seed, 42);
    assert_eq!(p.config.asset_x_id, 100);
    assert_eq!(p.config.asset_y_id, 200);
}
