use automated_market_maker::curve::{deposit_amounts, swap, withdraw_amounts};
use automated_market_maker::error::AmmError;

#[test]
fn deposit_amounts_first_deposit_uses_maxima() {
    assert_eq!(deposit_amounts(0, 0, 0, 1000, 1000, 2000), Ok((1000, 2000)));
}

#[test]
fn deposit_amounts_zero_shares_rejected() {
    assert_eq!(
        deposit_amounts(1000, 2000, 1000, 0, 10, 10),
        Err(AmmError::InvalidAmount)
    );
}

#[test]
fn deposit_amounts_proportional_exact() {
    // Half the outstanding shares cost exactly half of each reserve.
    assert_eq!(
        deposit_amounts(1000, 2000, 1000, 500, 600, 1200),
        Ok((500, 1000))
    );
}

#[test]
fn deposit_amounts_round_up() {
    // ceil(10 * 1 / 3) = 4 on both legs: rounding favours the pool.
    assert_eq!(deposit_amounts(10, 10, 3, 1, 100, 100), Ok((4, 4)));
}

#[test]
fn withdraw_amounts_round_down() {
    // floor(10 * 1 / 3) = 3 on both legs: rounding favours the pool.
    assert_eq!(withdraw_amounts(10, 10, 3, 1), Ok((3, 3)));
}

#[test]
fn withdraw_amounts_zero_shares_rejected() {
    assert_eq!(withdraw_amounts(10, 10, 3, 0), Err(AmmError::InvalidAmount));
    assert_eq!(withdraw_amounts(0, 0, 0, 0), Err(AmmError::InvalidAmount));
}

#[test]
fn withdraw_amounts_full_burn_drains_reserves() {
    assert_eq!(withdraw_amounts(1000, 2000, 1000, 1000), Ok((1000, 2000)));
}

#[test]
fn swap_fee_and_output() {
    // net = floor(100 * 9970 / 10000) = 99;
    // out = floor(2000 * 99 / 1099) = 180.
    assert_eq!(swap(1000, 2000, 30, 100, 1), Ok((99, 180)));
}

#[test]
fn swap_slippage_floor_respected() {
    assert_eq!(swap(1000, 2000, 30, 100, 180), Ok((99, 180)));
    assert_eq!(swap(1000, 2000, 30, 100, 181), Err(AmmError::SlippageExceeded));
}

#[test]
fn swap_zero_input_rejected() {
    assert_eq!(swap(1000, 2000, 30, 0, 0), Err(AmmError::InvalidAmount));
}

#[test]
fn swap_full_fee_leaves_no_net_input() {
    // fee of 100% floors the net input to zero: a degenerate trade.
    assert_eq!(swap(1000, 2000, 10000, 100, 0), Err(AmmError::InvalidAmount));
}

#[test]
fn swap_zero_output_rejected() {
    // A tiny trade against a lopsided pool floors the output to zero.
    assert_eq!(swap(1000000, 1, 0, 5, 0), Err(AmmError::InvalidAmount));
}

#[test]
fn swap_output_never_raises_with_fee() {
    // With reserves and input fixed, higher fees pay out no more.
    let mut last = u64::MAX;
    for fee in [0u16, 1, 30, 100, 1000, 5000, 9000] {
        let (_, out) = swap(1000, 2000, fee, 100, 1).unwrap();
        assert!(out <= last);
        last = out;
    }
    assert_eq!(swap(1000, 2000, 0, 100, 1), Ok((100, 181)));
    assert_eq!(swap(1000, 2000, 1000, 100, 1), Ok((90, 165)));
}

#[test]
fn swap_preserves_reserve_product() {
    // The pool keeps the full input, so the post-trade product of the
    // reserves never falls below the pre-trade product.
    for (rx, ry, fee, amount) in [
        (1000u64, 2000u64, 30u16, 100u64),
        (1000, 2000, 0, 100),
        (7, 13, 500, 3),
        (1_000_000_000, 5, 30, 999),
    ] {
        if let Ok((_, out)) = swap(rx, ry, fee, amount, 1) {
            let before = (rx as u128) * (ry as u128);
            let after = (rx as u128 + amount as u128) * (ry as u128 - out as u128);
            assert!(after >= before);
        }
    }
}
