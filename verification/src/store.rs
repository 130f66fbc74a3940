//! A record store holding at most one pool per identity, where a pool's
//! identity is its asset pair plus its seed. Creation through the store is
//! the only operation that can fail with `AlreadyInitialized`.

use crate::error::AmmError;
use crate::pool::{
    spec_deposit, spec_swap, spec_update_config, spec_withdraw, DepositOutcome, Pool, PoolConfig,
    SwapOutcome, WithdrawOutcome,
};
use vstd::prelude::*;

verus! {

/// True when `c` names the given pool identity: the asset pair plus the
/// seed.
pub open spec fn identity_matches(
    c: PoolConfig,
    asset_x_id: u64,
    asset_y_id: u64,
    seed: u64,
) -> bool {
    c.asset_x_id == asset_x_id && c.asset_y_id == asset_y_id && c.seed == seed
}

/// True when two configurations name the same pool identity.
pub open spec fn same_identity(a: PoolConfig, b: PoolConfig) -> bool {
    identity_matches(a, b.asset_x_id, b.asset_y_id, b.seed)
}

/// The set of pool records, keyed by identity.
pub struct PoolStore {
    pub pools: Vec<Pool>,
}

/// Updating one record with a pool that keeps its identity and its
/// well-formedness keeps the whole store well-formed.
proof fn lemma_update_preserves_store_wf(pre: Seq<Pool>, i: int, q: Pool)
    requires
        0 <= i < pre.len(),
        forall|a: int| 0 <= a < pre.len() ==> (#[trigger] pre[a]).wf(),
        forall|a: int, b: int| 0 <= a < b < pre.len() ==> !#[trigger] same_identity(
            pre[a].config,
            pre[b].config,
        ),
        q.wf(),
        q.config.asset_x_id == pre[i].config.asset_x_id,
        q.config.asset_y_id == pre[i].config.asset_y_id,
        q.config.seed == pre[i].config.seed,
    ensures
        forall|a: int| 0 <= a < pre.update(i, q).len() ==> (#[trigger] pre.update(i, q)[a]).wf(),
        forall|a: int, b: int|
            0 <= a < b < pre.update(i, q).len() ==> !#[trigger] same_identity(
                pre.update(i, q)[a].config,
                pre.update(i, q)[b].config,
            ),
{
    let post = pre.update(i, q);
    assert forall|a: int| 0 <= a < post.len() implies (#[trigger] post[a]).wf() by {
        if a != i {
            assert(pre[a].wf());
        }
    }
    assert forall|a: int, b: int| 0 <= a < b < post.len() implies !#[trigger] same_identity(
        post[a].config,
        post[b].config,
    ) by {
        assert(!same_identity(pre[a].config, pre[b].config));
    }
}

impl PoolStore {
    /// Well-formedness: every pool is well-formed and no two pools share an
    /// identity.
    pub open spec fn wf(self) -> bool {
        &&& forall|a: int| 0 <= a < self.pools@.len() ==> (#[trigger] self.pools@[a]).wf()
        &&& forall|a: int, b: int|
            0 <= a < b < self.pools@.len() ==> !#[trigger] same_identity(
                self.pools@[a].config,
                self.pools@[b].config,
            )
    }

    /// True when a pool with the given identity exists in the store.
    pub open spec fn has_pool(self, asset_x_id: u64, asset_y_id: u64, seed: u64) -> bool {
        exists|j: int|
            0 <= j < self.pools@.len() && identity_matches(
                #[trigger] self.pools@[j].config,
                asset_x_id,
                asset_y_id,
                seed,
            )
    }

    /// An empty store.
    pub fn new() -> (s: PoolStore)
        ensures
            s.wf(),
            s.pools@.len() == 0,
    {
        PoolStore { pools: Vec::new() }
    }

    /// The number of pools in the store.
    pub fn len(&self) -> (n: usize)
        ensures
            n == self.pools@.len(),
    {
        self.pools.len()
    }

    /// Borrows the pool at an index.
    pub fn pool_at(&self, i: usize) -> (p: &Pool)
        requires
            i < self.pools@.len(),
        ensures
            *p == self.pools@[i as int],
    {
        &self.pools[i]
    }

    /// Looks a pool up by identity.
    pub fn find(&self, asset_x_id: u64, asset_y_id: u64, seed: u64) -> (r: Option<usize>)
        ensures
            r matches Some(i) ==> i < self.pools@.len() && identity_matches(
                self.pools@[i as int].config,
                asset_x_id,
                asset_y_id,
                seed,
            ) && self.has_pool(asset_x_id, asset_y_id, seed),
            r is None ==> !self.has_pool(asset_x_id, asset_y_id, seed),
    {
        let n = self.pools.len();
        let mut i: usize = 0;
        while i < n
            invariant
                i <= n,
                n == self.pools@.len(),
                forall|j: int|
                    0 <= j < i ==> !identity_matches(
                        #[trigger] self.pools@[j].config,
                        asset_x_id,
                        asset_y_id,
                        seed,
                    ),
            decreases n - i,
        {
            let p = &self.pools[i];
            if p.config.asset_x_id == asset_x_id && p.config.asset_y_id == asset_y_id
                && p.config.seed == seed {
                return Some(i);
            }
            i = i + 1;
        }
        None
    }

    /// Creates a pool for a new identity with empty reserves and no shares,
    /// and returns its index; an identity that already has a pool is
    /// rejected with `AlreadyInitialized`.
    pub fn initialize(
        &mut self,
        seed: u64,
        locked: bool,
        fee_bps: u16,
        authority: u64,
        asset_x_id: u64,
        asset_y_id: u64,
        pool_signing_bump: u8,
        share_signing_bump: u8,
    ) -> (r: Result<usize, AmmError>)
        requires
            old(self).wf(),
            asset_x_id != asset_y_id,
            fee_bps <= 10000,
            old(self).pools@.len() < usize::MAX,
        ensures
            final(self).wf(),
            old(self).has_pool(asset_x_id, asset_y_id, seed) ==> r == Err::<usize, AmmError>(
                AmmError::AlreadyInitialized,
            ) && *final(self) == *old(self),
            !old(self).has_pool(asset_x_id, asset_y_id, seed) ==> (r matches Ok(i) && i == old(
                self,
            ).pools@.len() && final(self).pools@ == old(self).pools@.push(
                Pool {
                    config: PoolConfig {
                        seed,
                        authority,
                        asset_x_id,
                        asset_y_id,
                        fee_bps,
                        locked,
                        pool_signing_bump,
                        share_signing_bump,
                    },
                    reserve_x: 0,
                    reserve_y: 0,
                    total_shares: 0,
                },
            )),
    {
        match self.find(asset_x_id, asset_y_id, seed) {
            Some(_) => Err(AmmError::AlreadyInitialized),
            None => {
                let i = self.pools.len();
                let p = Pool::initialize(
                    seed,
                    locked,
                    fee_bps,
                    authority,
                    asset_x_id,
                    asset_y_id,
                    pool_signing_bump,
                    share_signing_bump,
                );
                self.pools.push(p);
                proof {
                    let pre = old(self).pools@;
                    let post = self.pools@;
                    assert forall|a: int| 0 <= a < post.len() implies (#[trigger] post[a]).wf() by {
                        if a < pre.len() {
                            assert(pre[a].wf());
                        }
                    }
                    assert forall|a: int, b: int|
                        0 <= a < b < post.len() implies !#[trigger] same_identity(
                        post[a].config,
                        post[b].config,
                    ) by {
                        if b < pre.len() {
                            assert(!same_identity(pre[a].config, pre[b].config));
                        } else {
                            assert(!identity_matches(
                                pre[a].config,
                                asset_x_id,
                                asset_y_id,
                                seed,
                            ));
                        }
                    }
                }
                Ok(i)
            },
        }
    }

    /// Deposits into the pool at an index; see [`Pool::deposit`].
    pub fn deposit_at(
        &mut self,
        i: usize,
        requested_shares: u64,
        max_x: u64,
        max_y: u64,
    ) -> (r: Result<DepositOutcome, AmmError>)
        requires
            old(self).wf(),
            i < old(self).pools@.len(),
            old(self).pools@[i as int].reserve_x + max_x <= u64::MAX,
            old(self).pools@[i as int].reserve_y + max_y <= u64::MAX,
            old(self).pools@[i as int].total_shares + requested_shares <= u64::MAX,
        ensures
            final(self).wf(),
            final(self).pools@ == old(self).pools@.update(
                i as int,
                spec_deposit(old(self).pools@[i as int], requested_shares, max_x, max_y).0,
            ),
            r == spec_deposit(old(self).pools@[i as int], requested_shares, max_x, max_y).1,
    {
        proof {
            assert(old(self).pools@[i as int].wf());
        }
        let p = &mut self.pools[i];
        let r = p.deposit(requested_shares, max_x, max_y);
        proof {
            lemma_update_preserves_store_wf(
                old(self).pools@,
                i as int,
                spec_deposit(old(self).pools@[i as int], requested_shares, max_x, max_y).0,
            );
        }
        r
    }

    /// Withdraws from the pool at an index; see [`Pool::withdraw`].
    pub fn withdraw_at(
        &mut self,
        i: usize,
        burn_shares: u64,
        min_x: u64,
        min_y: u64,
    ) -> (r: Result<WithdrawOutcome, AmmError>)
        requires
            old(self).wf(),
            i < old(self).pools@.len(),
            burn_shares <= old(self).pools@[i as int].total_shares,
        ensures
            final(self).wf(),
            final(self).pools@ == old(self).pools@.update(
                i as int,
                spec_withdraw(old(self).pools@[i as int], burn_shares, min_x, min_y).0,
            ),
            r == spec_withdraw(old(self).pools@[i as int], burn_shares, min_x, min_y).1,
    {
        proof {
            assert(old(self).pools@[i as int].wf());
        }
        let p = &mut self.pools[i];
        let r = p.withdraw(burn_shares, min_x, min_y);
        proof {
            lemma_update_preserves_store_wf(
                old(self).pools@,
                i as int,
                spec_withdraw(old(self).pools@[i as int], burn_shares, min_x, min_y).0,
            );
        }
        r
    }

    /// Swaps against the pool at an index; see [`Pool::swap`].
    pub fn swap_at(
        &mut self,
        i: usize,
        is_x_to_y: bool,
        amount_in: u64,
        min_amount_out: u64,
    ) -> (r: Result<SwapOutcome, AmmError>)
        requires
            old(self).wf(),
            i < old(self).pools@.len(),
            is_x_to_y ==> old(self).pools@[i as int].reserve_x + amount_in <= u64::MAX,
            !is_x_to_y ==> old(self).pools@[i as int].reserve_y + amount_in <= u64::MAX,
        ensures
            final(self).wf(),
            final(self).pools@ == old(self).pools@.update(
                i as int,
                spec_swap(old(self).pools@[i as int], is_x_to_y, amount_in, min_amount_out).0,
            ),
            r == spec_swap(old(self).pools@[i as int], is_x_to_y, amount_in, min_amount_out).1,
    {
        proof {
            assert(old(self).pools@[i as int].wf());
        }
        let p = &mut self.pools[i];
        let r = p.swap(is_x_to_y, amount_in, min_amount_out);
        proof {
            lemma_update_preserves_store_wf(
                old(self).pools@,
                i as int,
                spec_swap(old(self).pools@[i as int], is_x_to_y, amount_in, min_amount_out).0,
            );
        }
        r
    }

    /// Updates the configuration of the pool at an index; see
    /// [`Pool::update_config`].
    pub fn update_config_at(
        &mut self,
        i: usize,
        caller: u64,
        locked: Option<bool>,
        fee_bps: Option<u16>,
        authority: Option<u64>,
    ) -> (r: Result<(), AmmError>)
        requires
            old(self).wf(),
            i < old(self).pools@.len(),
            fee_bps matches Some(f) ==> f <= 10000,
        ensures
            final(self).wf(),
            final(self).pools@ == old(self).pools@.update(
                i as int,
                spec_update_config(
                    old(self).pools@[i as int],
                    caller,
                    locked,
                    fee_bps,
                    authority,
                ).0,
            ),
            r == spec_update_config(
                old(self).pools@[i as int],
                caller,
                locked,
                fee_bps,
                authority,
            ).1,
    {
        proof {
            assert(old(self).pools@[i as int].wf());
        }
        let p = &mut self.pools[i];
        let r = p.update_config(caller, locked, fee_bps, authority);
        proof {
            lemma_update_preserves_store_wf(
                old(self).pools@,
                i as int,
                spec_update_config(
                    old(self).pools@[i as int],
                    caller,
                    locked,
                    fee_bps,
                    authority,
                ).0,
            );
        }
        r
    }
}

} // verus!
