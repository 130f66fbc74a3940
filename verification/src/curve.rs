//! The curve engine: stateless pricing functions over explicit numeric
//! inputs.
//!
//! All amounts are non-negative integers scaled to the share token's six
//! decimal places. Deposits round up (in the pool's favour), withdrawals and
//! swap output round down (also in the pool's favour). Intermediate products
//! are taken at 128-bit width, so no scaling step can overflow.

use crate::arith::{
    ceil_div, lemma_ceil_div_bounds, lemma_div_cross_monotone, lemma_scale_down_le,
};
use crate::error::AmmError;
use vstd::arithmetic::div_mod::{
    lemma_div_by_multiple, lemma_div_is_ordered, lemma_div_pos_is_pos,
};
use vstd::arithmetic::mul::{
    lemma_mul_inequality, lemma_mul_is_commutative, lemma_mul_upper_bound,
};
use vstd::prelude::*;

verus! {

/// What one reserve leg of a deposit costs: the requested shares priced at
/// the pool's current ratio, rounded up.
pub open spec fn deposit_amount(reserve: int, requested_shares: int, total_shares: int) -> int {
    ceil_div(reserve * requested_shares, total_shares)
}

/// What one reserve leg of a withdrawal pays out: the burned shares priced
/// at the pool's current ratio, rounded down.
pub open spec fn withdraw_amount(reserve: int, burn_shares: int, total_shares: int) -> int {
    (reserve * burn_shares) / total_shares
}

/// The fee-reduced input that the curve prices: `amount_in` less the fee in
/// basis points, rounded down.
pub open spec fn net_input(amount_in: int, fee_bps: int) -> int {
    (amount_in * (10000 - fee_bps)) / 10000
}

/// The constant-product output for a fee-reduced input, rounded down:
/// `floor(reserve_out * net_in / (reserve_in + net_in))`.
pub open spec fn swap_output(reserve_in: int, reserve_out: int, net_in: int) -> int {
    (reserve_out * net_in) / (reserve_in + net_in)
}

/// One leg of a proportional deposit, rounded up, with the product taken at
/// 128-bit width so it cannot overflow.
pub(crate) fn scaled_ceil(reserve: u64, shares: u64, total: u64) -> (r: u128)
    requires
        total >= 1,
    ensures
        r == deposit_amount(reserve as int, shares as int, total as int),
        r <= reserve * shares,
{
    proof {
        lemma_mul_upper_bound(reserve as int, u64::MAX as int, shares as int, u64::MAX as int);
        lemma_ceil_div_bounds(reserve * shares, total as int);
    }
    let prod: u128 = (reserve as u128) * (shares as u128);
    (prod + (total as u128) - 1) / (total as u128)
}

/// One leg of a proportional withdrawal, rounded down. Burning no more
/// shares than exist keeps the result within the reserve.
pub(crate) fn scaled_floor(reserve: u64, shares: u64, total: u64) -> (r: u64)
    requires
        1 <= total,
        shares <= total,
    ensures
        r == withdraw_amount(reserve as int, shares as int, total as int),
        r <= reserve,
{
    proof {
        lemma_mul_upper_bound(reserve as int, u64::MAX as int, shares as int, u64::MAX as int);
        lemma_scale_down_le(reserve as int, shares as int, total as int);
    }
    let prod: u128 = (reserve as u128) * (shares as u128);
    let q: u128 = prod / (total as u128);
    q as u64
}

/// How much of each reserve asset a depositor must contribute for
/// `requested_shares` new shares.
///
/// In an empty pool the caller-supplied maxima are used directly: the first
/// depositor sets the initial price. Otherwise each leg is the pool ratio
/// times the requested shares, rounded up, so no share is ever backed by
/// less than its proportional value.
pub fn deposit_amounts(
    reserve_x: u64,
    reserve_y: u64,
    total_shares: u64,
    requested_shares: u64,
    max_x: u64,
    max_y: u64,
) -> (r: Result<(u64, u64), AmmError>)
    requires
        total_shares > 0 ==> deposit_amount(
            reserve_x as int,
            requested_shares as int,
            total_shares as int,
        ) <= u64::MAX,
        total_shares > 0 ==> deposit_amount(
            reserve_y as int,
            requested_shares as int,
            total_shares as int,
        ) <= u64::MAX,
    ensures
        requested_shares == 0 ==> (r matches Err(e) && e == AmmError::InvalidAmount),
        requested_shares > 0 && total_shares == 0 ==> r == Ok::<(u64, u64), AmmError>(
            (max_x, max_y),
        ),
        requested_shares > 0 && total_shares > 0 ==> (r matches Ok(a) && a.0 == deposit_amount(
            reserve_x as int,
            requested_shares as int,
            total_shares as int,
        ) && a.1 == deposit_amount(
            reserve_y as int,
            requested_shares as int,
            total_shares as int,
        )),
{
    if requested_shares == 0 {
        return Err(AmmError::InvalidAmount);
    }
    if total_shares == 0 {
        return Ok((max_x, max_y));
    }
    let ax = scaled_ceil(reserve_x, requested_shares, total_shares);
    let ay = scaled_ceil(reserve_y, requested_shares, total_shares);
    Ok((ax as u64, ay as u64))
}

/// How much of each reserve asset a withdrawer receives for burning
/// `burn_shares`.
///
/// Each leg is the pool ratio times the burned shares, rounded down: a
/// withdrawer never extracts more than their proportional share.
pub fn withdraw_amounts(
    reserve_x: u64,
    reserve_y: u64,
    total_shares: u64,
    burn_shares: u64,
) -> (r: Result<(u64, u64), AmmError>)
    requires
        burn_shares <= total_shares,
    ensures
        burn_shares == 0 || total_shares == 0 ==> (r matches Err(e) && e
            == AmmError::InvalidAmount),
        burn_shares > 0 && total_shares > 0 ==> (r matches Ok(a) && a.0 == withdraw_amount(
            reserve_x as int,
            burn_shares as int,
            total_shares as int,
        ) && a.1 == withdraw_amount(
            reserve_y as int,
            burn_shares as int,
            total_shares as int,
        ) && a.0 <= reserve_x && a.1 <= reserve_y),
{
    if burn_shares == 0 || total_shares == 0 {
        return Err(AmmError::InvalidAmount);
    }
    let ax = scaled_floor(reserve_x, burn_shares, total_shares);
    let ay = scaled_floor(reserve_y, burn_shares, total_shares);
    Ok((ax, ay))
}

/// Prices a trade of `amount_in` against the reserves under the
/// constant-product curve.
///
/// Returns the fee-reduced input actually priced and the output amount. The
/// full `amount_in` is what a trader must pay in; the difference is fee
/// revenue retained by the pool. Degenerate trades that would move no value
/// (zero input, zero net input, or zero output) are rejected, as is an
/// output below the caller's floor.
pub fn swap(
    reserve_in: u64,
    reserve_out: u64,
    fee_bps: u16,
    amount_in: u64,
    min_amount_out: u64,
) -> (r: Result<(u64, u64), AmmError>)
    requires
        fee_bps <= 10000,
    ensures
        ({
            let net = net_input(amount_in as int, fee_bps as int);
            let out = swap_output(reserve_in as int, reserve_out as int, net);
            &&& (amount_in == 0 || net == 0) ==> (r matches Err(e) && e == AmmError::InvalidAmount)
            &&& (amount_in > 0 && net > 0 && out == 0) ==> (r matches Err(e) && e
                == AmmError::InvalidAmount)
            &&& (amount_in > 0 && net > 0 && 0 < out < min_amount_out) ==> (r matches Err(e) && e
                == AmmError::SlippageExceeded)
            &&& (amount_in > 0 && net > 0 && out > 0 && out >= min_amount_out) ==> (r matches Ok(a)
                && a.0 == net && a.1 == out && net <= amount_in && out <= reserve_out)
        }),
{
    if amount_in == 0 {
        return Err(AmmError::InvalidAmount);
    }
    let keep: u128 = (10000 - fee_bps) as u128;
    proof {
        lemma_mul_upper_bound(amount_in as int, u64::MAX as int, (10000 - fee_bps) as int, 10000);
        lemma_mul_inequality((10000 - fee_bps) as int, 10000, amount_in as int);
        lemma_mul_is_commutative((10000 - fee_bps) as int, amount_in as int);
        lemma_mul_is_commutative(10000, amount_in as int);
        lemma_div_is_ordered(
            amount_in * ((10000 - fee_bps) as int),
            amount_in * 10000,
            10000,
        );
        lemma_div_by_multiple(amount_in as int, 10000);
        lemma_div_pos_is_pos(amount_in * ((10000 - fee_bps) as int), 10000);
    }
    let net128: u128 = (amount_in as u128) * keep / 10000;
    let net: u64 = net128 as u64;
    if net == 0 {
        return Err(AmmError::InvalidAmount);
    }
    proof {
        lemma_mul_upper_bound(reserve_out as int, u64::MAX as int, net as int, u64::MAX as int);
        lemma_scale_down_le(reserve_out as int, net as int, reserve_in as int + net as int);
    }
    let den: u128 = (reserve_in as u128) + (net as u128);
    let out128: u128 = (reserve_out as u128) * (net as u128) / den;
    let out: u64 = out128 as u64;
    if out == 0 {
        return Err(AmmError::InvalidAmount);
    }
    if out < min_amount_out {
        return Err(AmmError::SlippageExceeded);
    }
    Ok((net, out))
}

} // verus!
