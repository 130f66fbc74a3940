//! The pool record and the five operations that are its only transitions.
//!
//! Each operation is one atomic step: it validates its arguments, prices the
//! request through the curve engine, and either applies every balance change
//! or returns an error and changes nothing. The executable methods are
//! proved equal to spec transition functions that state each outcome
//! exactly, and every operation preserves well-formedness.

use crate::arith::{lemma_scale_down_le, lemma_scale_full};
use crate::curve;
use crate::curve::{
    deposit_amount, net_input, scaled_ceil, scaled_floor, swap_output, withdraw_amount,
};
use crate::error::AmmError;
use vstd::prelude::*;

verus! {

/// The identity and administration of one pool.
///
/// `asset_x_id` and `asset_y_id` name the two reserve assets and are
/// immutable after creation, as is `seed`, which distinguishes pools created
/// for the same asset pair. Only `fee_bps`, `locked` and `authority` are
/// ever mutated, and only by the current authority.
#[derive(Clone, Copy, Debug, PartialEq, Eq, Structural)]
pub struct PoolConfig {
    /// Opaque value distinguishing pools for the same asset pair; part of
    /// the pool's identity.
    pub seed: u64,
    /// The principal permitted to mutate the configuration.
    pub authority: u64,
    /// Identity of the first reserve asset.
    pub asset_x_id: u64,
    /// Identity of the second reserve asset.
    pub asset_y_id: u64,
    /// Swap fee in basis points (0 to 10000), deducted from the input side.
    pub fee_bps: u16,
    /// Administrative circuit breaker: when set, deposits, withdrawals and
    /// swaps are rejected.
    pub locked: bool,
    /// Derivation parameter letting the pool authorise movements out of its
    /// own vaults; opaque to the engine.
    pub pool_signing_bump: u8,
    /// Derivation parameter for the share mint; opaque to the engine.
    pub share_signing_bump: u8,
}

/// One pool record: configuration, the two reserves, and the total of
/// outstanding shares.
#[derive(Clone, Copy, Debug, PartialEq, Eq, Structural)]
pub struct Pool {
    pub config: PoolConfig,
    /// Balance of the first reserve asset held by the pool.
    pub reserve_x: u64,
    /// Balance of the second reserve asset held by the pool.
    pub reserve_y: u64,
    /// Total of pool shares outstanding.
    pub total_shares: u64,
}

/// What a successful deposit moved.
#[derive(Clone, Copy, Debug, PartialEq, Eq, Structural)]
pub struct DepositOutcome {
    /// Amount of the first asset transferred from the depositor into the pool.
    pub amount_x: u64,
    /// Amount of the second asset transferred from the depositor into the pool.
    pub amount_y: u64,
    /// Shares minted to the depositor.
    pub minted_shares: u64,
}

/// What a successful withdrawal moved.
#[derive(Clone, Copy, Debug, PartialEq, Eq, Structural)]
pub struct WithdrawOutcome {
    /// Amount of the first asset transferred from the pool to the withdrawer.
    pub amount_x: u64,
    /// Amount of the second asset transferred from the pool to the withdrawer.
    pub amount_y: u64,
    /// Shares burned from the withdrawer.
    pub burned_shares: u64,
}

/// What a successful swap moved.
#[derive(Clone, Copy, Debug, PartialEq, Eq, Structural)]
pub struct SwapOutcome {
    /// The full input amount the trader pays into the pool.
    pub amount_in: u64,
    /// The fee-reduced part of the input that the curve priced; the
    /// difference stays in the pool as fee revenue.
    pub net_in: u64,
    /// The output amount paid to the trader.
    pub amount_out: u64,
}

/// The exact transition a deposit makes: the pool afterwards and the result.
pub open spec fn spec_deposit(pre: Pool, requested_shares: u64, max_x: u64, max_y: u64) -> (
    Pool,
    Result<DepositOutcome, AmmError>,
) {
    if pre.config.locked {
        (pre, Err(AmmError::PoolLocked))
    } else if requested_shares == 0 {
        (pre, Err(AmmError::InvalidAmount))
    } else if pre.total_shares == 0 {
        if max_x == 0 || max_y == 0 {
            (pre, Err(AmmError::InvalidAmount))
        } else {
            (
                Pool {
                    config: pre.config,
                    reserve_x: max_x,
                    reserve_y: max_y,
                    total_shares: requested_shares,
                },
                Ok(
                    DepositOutcome {
                        amount_x: max_x,
                        amount_y: max_y,
                        minted_shares: requested_shares,
                    },
                ),
            )
        }
    } else {
        let ax = deposit_amount(
            pre.reserve_x as int,
            requested_shares as int,
            pre.total_shares as int,
        );
        let ay = deposit_amount(
            pre.reserve_y as int,
            requested_shares as int,
            pre.total_shares as int,
        );
        if ax <= max_x && ay <= max_y {
            (
                Pool {
                    config: pre.config,
                    reserve_x: (pre.reserve_x + ax) as u64,
                    reserve_y: (pre.reserve_y + ay) as u64,
                    total_shares: (pre.total_shares + requested_shares) as u64,
                },
                Ok(
                    DepositOutcome {
                        amount_x: ax as u64,
                        amount_y: ay as u64,
                        minted_shares: requested_shares,
                    },
                ),
            )
        } else {
            (pre, Err(AmmError::SlippageExceeded))
        }
    }
}

/// The exact transition a withdrawal makes: the pool afterwards and the
/// result.
pub open spec fn spec_withdraw(pre: Pool, burn_shares: u64, min_x: u64, min_y: u64) -> (
    Pool,
    Result<WithdrawOutcome, AmmError>,
) {
    if pre.config.locked {
        (pre, Err(AmmError::PoolLocked))
    } else if burn_shares == 0 {
        (pre, Err(AmmError::InvalidAmount))
    } else if min_x == 0 || min_y == 0 {
        (pre, Err(AmmError::InvalidMinAmount))
    } else {
        let ax = withdraw_amount(pre.reserve_x as int, burn_shares as int, pre.total_shares as int);
        let ay = withdraw_amount(pre.reserve_y as int, burn_shares as int, pre.total_shares as int);
        if ax >= min_x && ay >= min_y {
            (
                Pool {
                    config: pre.config,
                    reserve_x: (pre.reserve_x - ax) as u64,
                    reserve_y: (pre.reserve_y - ay) as u64,
                    total_shares: (pre.total_shares - burn_shares) as u64,
                },
                Ok(
                    WithdrawOutcome {
                        amount_x: ax as u64,
                        amount_y: ay as u64,
                        burned_shares: burn_shares,
                    },
                ),
            )
        } else {
            (pre, Err(AmmError::SlippageExceeded))
        }
    }
}

/// The exact transition a swap makes: the pool afterwards and the result.
pub open spec fn spec_swap(pre: Pool, is_x_to_y: bool, amount_in: u64, min_amount_out: u64) -> (
    Pool,
    Result<SwapOutcome, AmmError>,
) {
    if pre.config.locked {
        (pre, Err(AmmError::PoolLocked))
    } else {
        let reserve_in = if is_x_to_y {
            pre.reserve_x
        } else {
            pre.reserve_y
        };
        let reserve_out = if is_x_to_y {
            pre.reserve_y
        } else {
            pre.reserve_x
        };
        let net = net_input(amount_in as int, pre.config.fee_bps as int);
        let out = swap_output(reserve_in as int, reserve_out as int, net);
        if amount_in == 0 || net == 0 || out == 0 {
            (pre, Err(AmmError::InvalidAmount))
        } else if out < min_amount_out {
            (pre, Err(AmmError::SlippageExceeded))
        } else {
            let new_in = (reserve_in + amount_in) as u64;
            let new_out = (reserve_out - out) as u64;
            (
                Pool {
                    config: pre.config,
                    reserve_x: if is_x_to_y {
                        new_in
                    } else {
                        new_out
                    },
                    reserve_y: if is_x_to_y {
                        new_out
                    } else {
                        new_in
                    },
                    total_shares: pre.total_shares,
                },
                Ok(
                    SwapOutcome {
                        amount_in,
                        net_in: net as u64,
                        amount_out: out as u64,
                    },
                ),
            )
        }
    }
}

/// The exact transition a configuration update makes: each field changes
/// only if a new value was supplied, and only the current authority may
/// apply one.
pub open spec fn spec_update_config(
    pre: Pool,
    caller: u64,
    locked: Option<bool>,
    fee_bps: Option<u16>,
    authority: Option<u64>,
) -> (Pool, Result<(), AmmError>) {
    if caller != pre.config.authority {
        (pre, Err(AmmError::InvalidConfigAuthority))
    } else {
        (
            Pool {
                config: PoolConfig {
                    locked: match locked {
                        Some(l) => l,
                        None => pre.config.locked,
                    },
                    fee_bps: match fee_bps {
                        Some(f) => f,
                        None => pre.config.fee_bps,
                    },
                    authority: match authority {
                        Some(a) => a,
                        None => pre.config.authority,
                    },
                    ..pre.config
                },
                ..pre
            },
            Ok(()),
        )
    }
}

impl Pool {
    /// The reserves and the share ledger move together: shares are
    /// outstanding exactly when both reserves are funded.
    pub open spec fn balanced(self) -> bool {
        &&& self.total_shares == 0 ==> self.reserve_x == 0 && self.reserve_y == 0
        &&& self.total_shares > 0 ==> self.reserve_x > 0 && self.reserve_y > 0
    }

    /// Well-formedness: distinct reserve assets, a fee within basis-point
    /// range, and a share ledger consistent with the reserves.
    pub open spec fn wf(self) -> bool {
        &&& self.config.asset_x_id != self.config.asset_y_id
        &&& self.config.fee_bps <= 10000
        &&& self.balanced()
    }

    /// Creates a pool record with empty reserves and no shares outstanding.
    ///
    /// The fee range and the distinctness of the two assets are the caller's
    /// documented obligations.
    pub fn initialize(
        seed: u64,
        locked: bool,
        fee_bps: u16,
        authority: u64,
        asset_x_id: u64,
        asset_y_id: u64,
        pool_signing_bump: u8,
        share_signing_bump: u8,
    ) -> (p: Pool)
        requires
            asset_x_id != asset_y_id,
            fee_bps <= 10000,
        ensures
            p == (Pool {
                config: PoolConfig {
                    seed,
                    authority,
                    asset_x_id,
                    asset_y_id,
                    fee_bps,
                    locked,
                    pool_signing_bump,
                    share_signing_bump,
                },
                reserve_x: 0,
                reserve_y: 0,
                total_shares: 0,
            }),
            p.wf(),
    {
        Pool {
            config: PoolConfig {
                seed,
                authority,
                asset_x_id,
                asset_y_id,
                fee_bps,
                locked,
                pool_signing_bump,
                share_signing_bump,
            },
            reserve_x: 0,
            reserve_y: 0,
            total_shares: 0,
        }
    }

    /// Adds liquidity: mints `requested_shares` to the depositor against a
    /// proportional contribution to both reserves, bounded by the caller's
    /// maxima.
    ///
    /// Into an empty pool the maxima are contributed as given (both must be
    /// non-zero) and the first depositor sets the initial price; otherwise
    /// each leg is the pool ratio times the requested shares, rounded up,
    /// and a leg above its maximum rejects the deposit as slippage.
    pub fn deposit(&mut self, requested_shares: u64, max_x: u64, max_y: u64) -> (r: Result<
        DepositOutcome,
        AmmError,
    >)
        requires
            old(self).wf(),
            old(self).reserve_x + max_x <= u64::MAX,
            old(self).reserve_y + max_y <= u64::MAX,
            old(self).total_shares + requested_shares <= u64::MAX,
        ensures
            *final(self) == spec_deposit(*old(self), requested_shares, max_x, max_y).0,
            r == spec_deposit(*old(self), requested_shares, max_x, max_y).1,
            final(self).wf(),
            final(self).config == old(self).config,
            r is Err ==> *final(self) == *old(self),
            old(self).config.locked ==> r == Err::<DepositOutcome, AmmError>(AmmError::PoolLocked),
    {
        if self.config.locked {
            return Err(AmmError::PoolLocked);
        }
        if requested_shares == 0 {
            return Err(AmmError::InvalidAmount);
        }
        if self.total_shares == 0 {
            if max_x == 0 || max_y == 0 {
                return Err(AmmError::InvalidAmount);
            }
            self.reserve_x = max_x;
            self.reserve_y = max_y;
            self.total_shares = requested_shares;
            return Ok(
                DepositOutcome { amount_x: max_x, amount_y: max_y, minted_shares: requested_shares },
            );
        }
        let cx = scaled_ceil(self.reserve_x, requested_shares, self.total_shares);
        let cy = scaled_ceil(self.reserve_y, requested_shares, self.total_shares);
        if cx > max_x as u128 || cy > max_y as u128 {
            return Err(AmmError::SlippageExceeded);
        }
        let amount_x = cx as u64;
        let amount_y = cy as u64;
        self.reserve_x = self.reserve_x + amount_x;
        self.reserve_y = self.reserve_y + amount_y;
        self.total_shares = self.total_shares + requested_shares;
        Ok(DepositOutcome { amount_x, amount_y, minted_shares: requested_shares })
    }

    /// Removes liquidity: burns `burn_shares` and pays out the proportional
    /// part of both reserves, rounded down, provided each leg reaches the
    /// caller's non-zero floor.
    pub fn withdraw(&mut self, burn_shares: u64, min_x: u64, min_y: u64) -> (r: Result<
        WithdrawOutcome,
        AmmError,
    >)
        requires
            old(self).wf(),
            burn_shares <= old(self).total_shares,
        ensures
            *final(self) == spec_withdraw(*old(self), burn_shares, min_x, min_y).0,
            r == spec_withdraw(*old(self), burn_shares, min_x, min_y).1,
            final(self).wf(),
            final(self).config == old(self).config,
            r is Err ==> *final(self) == *old(self),
            old(self).config.locked ==> r == Err::<WithdrawOutcome, AmmError>(AmmError::PoolLocked),
    {
        if self.config.locked {
            return Err(AmmError::PoolLocked);
        }
        if burn_shares == 0 {
            return Err(AmmError::InvalidAmount);
        }
        if min_x == 0 || min_y == 0 {
            return Err(AmmError::InvalidMinAmount);
        }
        let amount_x = scaled_floor(self.reserve_x, burn_shares, self.total_shares);
        let amount_y = scaled_floor(self.reserve_y, burn_shares, self.total_shares);
        if amount_x < min_x || amount_y < min_y {
            return Err(AmmError::SlippageExceeded);
        }
        proof {
            if burn_shares < self.total_shares {
                lemma_scale_down_le(
                    self.reserve_x as int,
                    burn_shares as int,
                    self.total_shares as int,
                );
                lemma_scale_down_le(
                    self.reserve_y as int,
                    burn_shares as int,
                    self.total_shares as int,
                );
            } else {
                lemma_scale_full(self.reserve_x as int, self.total_shares as int);
                lemma_scale_full(self.reserve_y as int, self.total_shares as int);
            }
        }
        self.reserve_x = self.reserve_x - amount_x;
        self.reserve_y = self.reserve_y - amount_y;
        self.total_shares = self.total_shares - burn_shares;
        Ok(WithdrawOutcome { amount_x, amount_y, burned_shares: burn_shares })
    }

    /// Trades `amount_in` of one reserve asset for the other at the
    /// constant-product price, after deducting the fee from the input.
    ///
    /// The full input enters the pool while only the fee-reduced part is
    /// priced, so the reserve product never shrinks. The input side is
    /// credited before the output side is debited.
    pub fn swap(&mut self, is_x_to_y: bool, amount_in: u64, min_amount_out: u64) -> (r: Result<
        SwapOutcome,
        AmmError,
    >)
        requires
            old(self).wf(),
            is_x_to_y ==> old(self).reserve_x + amount_in <= u64::MAX,
            !is_x_to_y ==> old(self).reserve_y + amount_in <= u64::MAX,
        ensures
            *final(self) == spec_swap(*old(self), is_x_to_y, amount_in, min_amount_out).0,
            r == spec_swap(*old(self), is_x_to_y, amount_in, min_amount_out).1,
            final(self).wf(),
            final(self).config == old(self).config,
            final(self).total_shares == old(self).total_shares,
            r is Err ==> *final(self) == *old(self),
            old(self).config.locked ==> r == Err::<SwapOutcome, AmmError>(AmmError::PoolLocked),
    {
        if self.config.locked {
            return Err(AmmError::PoolLocked);
        }
        if amount_in == 0 {
            return Err(AmmError::InvalidAmount);
        }
        let reserve_in = if is_x_to_y {
            self.reserve_x
        } else {
            self.reserve_y
        };
        let reserve_out = if is_x_to_y {
            self.reserve_y
        } else {
            self.reserve_x
        };
        match curve::swap(reserve_in, reserve_out, self.config.fee_bps, amount_in, min_amount_out) {
            Err(e) => Err(e),
            Ok((net_in, amount_out)) => {
                proof {
                    if reserve_in >= 1 && reserve_out >= 1 {
                        lemma_scale_down_le(
                            reserve_out as int,
                            net_in as int,
                            reserve_in as int + net_in as int,
                        );
                    }
                }
                if is_x_to_y {
                    self.reserve_x = self.reserve_x + amount_in;
                    self.reserve_y = self.reserve_y - amount_out;
                } else {
                    self.reserve_y = self.reserve_y + amount_in;
                    self.reserve_x = self.reserve_x - amount_out;
                }
                Ok(SwapOutcome { amount_in, net_in, amount_out })
            },
        }
    }

    /// Applies a partial configuration update: each supplied field replaces
    /// the current value, unset fields are retained. Only the current
    /// authority may call this.
    pub fn update_config(
        &mut self,
        caller: u64,
        locked: Option<bool>,
        fee_bps: Option<u16>,
        authority: Option<u64>,
    ) -> (r: Result<(), AmmError>)
        requires
            old(self).wf(),
            fee_bps matches Some(f) ==> f <= 10000,
        ensures
            *final(self) == spec_update_config(*old(self), caller, locked, fee_bps, authority).0,
            r == spec_update_config(*old(self), caller, locked, fee_bps, authority).1,
            final(self).wf(),
            final(self).reserve_x == old(self).reserve_x,
            final(self).reserve_y == old(self).reserve_y,
            final(self).total_shares == old(self).total_shares,
            caller != old(self).config.authority ==> r == Err::<(), AmmError>(
                AmmError::InvalidConfigAuthority,
            ) && *final(self) == *old(self),
    {
        if caller != self.config.authority {
            return Err(AmmError::InvalidConfigAuthority);
        }
        if let Some(l) = locked {
            self.config.locked = l;
        }
        if let Some(f) = fee_bps {
            self.config.fee_bps = f;
        }
        if let Some(a) = authority {
            self.config.authority = a;
        }
        Ok(())
    }
}

} // verus!
