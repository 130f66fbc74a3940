//! The laws the curve engine obeys, each stated over the spec functions that
//! the executable functions are proved against.

use crate::arith::{
    ceil_div, lemma_ceil_div_add_multiple, lemma_ceil_div_bounds, lemma_div_cross_monotone,
    lemma_floor_div_bounds, lemma_scale_down_le,
};
use crate::curve::{deposit_amount, net_input, swap_output, withdraw_amount};
use crate::error::AmmError;
use crate::pool::{
    spec_deposit, spec_swap, spec_withdraw, DepositOutcome, Pool, SwapOutcome, WithdrawOutcome,
};
use vstd::arithmetic::div_mod::{
    lemma_div_by_multiple, lemma_div_is_ordered, lemma_div_pos_is_pos, lemma_fundamental_div_mod,
    lemma_mod_bound,
};
use vstd::arithmetic::mul::{
    lemma_mul_inequality, lemma_mul_is_commutative, lemma_mul_nonnegative,
};
use vstd::prelude::*;

verus! {

/// A deposit into a non-empty pool charges each reserve leg in proportion to
/// the requested shares: `amount / reserve` matches `requested_shares /
/// total_shares` to within one rounding-up unit. Cross-multiplied:
/// `requested_shares * reserve <= amount * total_shares <
/// requested_shares * reserve + total_shares`.
pub proof fn lemma_deposit_proportional(reserve: int, requested_shares: int, total_shares: int)
    requires
        reserve >= 0,
        requested_shares >= 0,
        total_shares >= 1,
    ensures
        requested_shares * reserve <= deposit_amount(reserve, requested_shares, total_shares)
            * total_shares,
        deposit_amount(reserve, requested_shares, total_shares) * total_shares < requested_shares
            * reserve + total_shares,
        deposit_amount(reserve, requested_shares, total_shares) >= 0,
{
    lemma_mul_nonnegative(reserve, requested_shares);
    lemma_ceil_div_bounds(reserve * requested_shares, total_shares);
    lemma_mul_is_commutative(reserve, requested_shares);
}

/// A withdrawal pays out at most the exact proportional share of each
/// reserve leg, and misses it by less than one rounding-down unit:
/// `amount * total_shares <= reserve * burn_shares < amount * total_shares +
/// total_shares`. Burning no more shares than exist keeps the amount within
/// the reserve.
pub proof fn lemma_withdraw_proportional(reserve: int, burn_shares: int, total_shares: int)
    requires
        reserve >= 0,
        burn_shares >= 0,
        total_shares >= 1,
    ensures
        withdraw_amount(reserve, burn_shares, total_shares) * total_shares <= reserve
            * burn_shares,
        reserve * burn_shares < withdraw_amount(reserve, burn_shares, total_shares) * total_shares
            + total_shares,
        withdraw_amount(reserve, burn_shares, total_shares) >= 0,
        burn_shares <= total_shares ==> withdraw_amount(reserve, burn_shares, total_shares)
            <= reserve,
{
    lemma_mul_nonnegative(reserve, burn_shares);
    lemma_floor_div_bounds(reserve * burn_shares, total_shares);
    if burn_shares <= total_shares {
        lemma_scale_down_le(reserve, burn_shares, total_shares);
    }
}

/// A withdrawal followed immediately by a deposit of the same shares never
/// returns the withdrawer more than they paid out: re-minting the burned
/// shares costs at least the withdrawn amount on each leg, and exactly that
/// amount when the withdrawal divided the reserve evenly (so the price was
/// left unchanged).
pub proof fn lemma_withdraw_redeposit_round_trip(reserve: int, shares: int, total_shares: int)
    requires
        reserve >= 0,
        1 <= shares < total_shares,
    ensures
        ({
            let paid_out = withdraw_amount(reserve, shares, total_shares);
            let paid_back = deposit_amount(
                reserve - paid_out,
                shares,
                total_shares - shares,
            );
            &&& paid_back >= paid_out
            &&& (reserve * shares) % total_shares == 0 ==> paid_back == paid_out
        }),
{
    let w = withdraw_amount(reserve, shares, total_shares);
    let rem = (reserve * shares) % total_shares;
    lemma_mul_nonnegative(reserve, shares);
    lemma_fundamental_div_mod(reserve * shares, total_shares);
    lemma_mod_bound(reserve * shares, total_shares);
    lemma_div_pos_is_pos(reserve * shares, total_shares);
    assert((reserve - w) * shares == w * (total_shares - shares) + rem) by (nonlinear_arith)
        requires
            reserve * shares == total_shares * w + rem,
    ;
    lemma_ceil_div_add_multiple(w, rem, total_shares - shares);
    lemma_ceil_div_bounds(rem, total_shares - shares);
    assert(ceil_div(0, total_shares - shares) == 0) by {
        lemma_ceil_div_bounds(0, total_shares - shares);
    }
}

/// The fee-reduced input never exceeds the supplied input, and is never
/// negative.
pub proof fn lemma_net_input_bounds(amount_in: int, fee_bps: int)
    requires
        amount_in >= 0,
        0 <= fee_bps <= 10000,
    ensures
        0 <= net_input(amount_in, fee_bps) <= amount_in,
{
    lemma_mul_nonnegative(amount_in, 10000 - fee_bps);
    lemma_mul_inequality(10000 - fee_bps, 10000, amount_in);
    lemma_mul_is_commutative(10000 - fee_bps, amount_in);
    lemma_mul_is_commutative(10000, amount_in);
    lemma_div_is_ordered(amount_in * (10000 - fee_bps), amount_in * 10000, 10000);
    lemma_div_by_multiple(amount_in, 10000);
    lemma_div_pos_is_pos(amount_in * (10000 - fee_bps), 10000);
}

/// The constant-product law: a non-degenerate swap never shrinks the product
/// of the reserves. The pool receives the full input while the curve prices
/// only the fee-reduced part, so the product can only grow or stay equal.
pub proof fn lemma_swap_preserves_product(
    reserve_in: int,
    reserve_out: int,
    amount_in: int,
    net_in: int,
)
    requires
        reserve_in >= 0,
        reserve_out >= 0,
        1 <= net_in <= amount_in,
    ensures
        ({
            let out = swap_output(reserve_in, reserve_out, net_in);
            &&& 0 <= out <= reserve_out
            &&& (reserve_in + amount_in) * (reserve_out - out) >= reserve_in * reserve_out
        }),
{
    let d = reserve_in + net_in;
    let out = swap_output(reserve_in, reserve_out, net_in);
    lemma_mul_nonnegative(reserve_out, net_in);
    lemma_floor_div_bounds(reserve_out * net_in, d);
    lemma_scale_down_le(reserve_out, net_in, d);
    assert(d * (reserve_out - out) >= reserve_in * reserve_out) by (nonlinear_arith)
        requires
            d == reserve_in + net_in,
            out * d <= reserve_out * net_in,
    ;
    lemma_mul_inequality(d, reserve_in + amount_in, reserve_out - out);
}

/// Raising the fee never raises the swap output: with the reserves and the
/// input held fixed, a higher fee prices a smaller net input and therefore
/// pays out no more.
pub proof fn lemma_swap_fee_monotone(
    reserve_in: int,
    reserve_out: int,
    amount_in: int,
    fee_lo: int,
    fee_hi: int,
)
    requires
        reserve_in >= 1,
        reserve_out >= 0,
        amount_in >= 0,
        0 <= fee_lo <= fee_hi <= 10000,
    ensures
        net_input(amount_in, fee_hi) <= net_input(amount_in, fee_lo),
        swap_output(reserve_in, reserve_out, net_input(amount_in, fee_hi)) <= swap_output(
            reserve_in,
            reserve_out,
            net_input(amount_in, fee_lo),
        ),
{
    let n_lo = net_input(amount_in, fee_lo);
    let n_hi = net_input(amount_in, fee_hi);
    lemma_net_input_bounds(amount_in, fee_lo);
    lemma_net_input_bounds(amount_in, fee_hi);
    lemma_mul_inequality(10000 - fee_hi, 10000 - fee_lo, amount_in);
    lemma_mul_is_commutative(10000 - fee_hi, amount_in);
    lemma_mul_is_commutative(10000 - fee_lo, amount_in);
    lemma_div_is_ordered(amount_in * (10000 - fee_hi), amount_in * (10000 - fee_lo), 10000);
    lemma_mul_nonnegative(reserve_out, n_hi);
    lemma_mul_nonnegative(reserve_out, n_lo);
    assert((reserve_out * n_hi) * (reserve_in + n_lo) <= (reserve_out * n_lo) * (reserve_in
        + n_hi)) by (nonlinear_arith)
        requires
            0 <= n_hi <= n_lo,
            reserve_in >= 1,
            reserve_out >= 0,
    ;
    lemma_div_cross_monotone(
        reserve_out * n_hi,
        reserve_in + n_hi,
        reserve_out * n_lo,
        reserve_in + n_lo,
    );
}

/// Of a well-formed pool, the share ledger is empty exactly when both
/// reserves are: `total_shares == 0` holds if and only if `reserve_x == 0`
/// and `reserve_y == 0`. Every operation preserves well-formedness, so this
/// holds in every reachable state.
pub proof fn lemma_empty_pool_iff(p: Pool)
    requires
        p.wf(),
    ensures
        p.total_shares == 0 <==> (p.reserve_x == 0 && p.reserve_y == 0),
{
}

/// While the administrative lock is set, deposit, withdrawal and swap all
/// fail with `PoolLocked` and leave the pool unchanged, whatever their other
/// arguments.
pub proof fn lemma_locked_rejects_operations(
    p: Pool,
    requested_shares: u64,
    max_x: u64,
    max_y: u64,
    burn_shares: u64,
    min_x: u64,
    min_y: u64,
    is_x_to_y: bool,
    amount_in: u64,
    min_amount_out: u64,
)
    requires
        p.config.locked,
    ensures
        spec_deposit(p, requested_shares, max_x, max_y).0 == p,
        spec_deposit(p, requested_shares, max_x, max_y).1 == Err::<DepositOutcome, AmmError>(
            AmmError::PoolLocked,
        ),
        spec_withdraw(p, burn_shares, min_x, min_y).0 == p,
        spec_withdraw(p, burn_shares, min_x, min_y).1 == Err::<WithdrawOutcome, AmmError>(
            AmmError::PoolLocked,
        ),
        spec_swap(p, is_x_to_y, amount_in, min_amount_out).0 == p,
        spec_swap(p, is_x_to_y, amount_in, min_amount_out).1 == Err::<SwapOutcome, AmmError>(
            AmmError::PoolLocked,
        ),
{
}

/// A successful swap never shrinks the product of the two reserves: the fee
/// revenue retained in the pool grows it or leaves it equal.
pub proof fn lemma_swap_grows_reserve_product(
    pre: Pool,
    is_x_to_y: bool,
    amount_in: u64,
    min_amount_out: u64,
)
    requires
        pre.wf(),
        is_x_to_y ==> pre.reserve_x + amount_in <= u64::MAX,
        !is_x_to_y ==> pre.reserve_y + amount_in <= u64::MAX,
        spec_swap(pre, is_x_to_y, amount_in, min_amount_out).1 is Ok,
    ensures
        ({
            let post = spec_swap(pre, is_x_to_y, amount_in, min_amount_out).0;
            post.reserve_x * post.reserve_y >= pre.reserve_x * pre.reserve_y
        }),
{
    let reserve_in = if is_x_to_y {
        pre.reserve_x
    } else {
        pre.reserve_y
    };
    let reserve_out = if is_x_to_y {
        pre.reserve_y
    } else {
        pre.reserve_x
    };
    let net = net_input(amount_in as int, pre.config.fee_bps as int);
    lemma_net_input_bounds(amount_in as int, pre.config.fee_bps as int);
    lemma_swap_preserves_product(reserve_in as int, reserve_out as int, amount_in as int, net);
    lemma_mul_is_commutative(
        reserve_in + amount_in,
        reserve_out - swap_output(reserve_in as int, reserve_out as int, net),
    );
}

} // verus!
