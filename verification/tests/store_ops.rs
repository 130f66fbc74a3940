use automated_market_maker::error::AmmError;
use automated_market_maker::store::PoolStore;

#[test]
fn initialize_assigns_indices_and_rejects_duplicates() {
    let mut store = PoolStore::new();
    assert_eq!(store.len(), 0);
    assert_eq!(store.initialize(1, false, 30, 7, 100, 200, 254, 253), Ok(0));
    assert_eq!(store.len(), 1);
    // The same asset pair under another seed is a distinct pool.
    assert_eq!(store.initialize(2, false, 30, 7, 100, 200, 254, 253), Ok(1));
    // The same identity, even with other settings, already has a pool.
    assert_eq!(
        store.initialize(1, true, 500, 9, 100, 200, 1, 2),
        Err(AmmError::AlreadyInitialized)
    );
    assert_eq!(store.len(), 2);
}

#[test]
fn find_locates_pools_by_identity() {
    let mut store = PoolStore::new();
    store.initialize(1, false, 30, 7, 100, 200, 254, 253).unwrap();
    store.initialize(5, false, 30, 7, 300, 400, 254, 253).unwrap();
    assert_eq!(store.find(100, 200, 1), Some(0));
    assert_eq!(store.find(300, 400, 5), Some(1));
    assert_eq!(store.find(100, 200, 5), None);
    assert_eq!(store.find(200, 100, 1), None);
}

#[test]
fn operations_at_index_update_only_that_pool() {
    let mut store = PoolStore::new();
    store.initialize(1, false, 30, 7, 100, 200, 254, 253).unwrap();
    store.initialize(2, false, 30, 7, 100, 200, 254, 253).unwrap();
    store.deposit_at(0, 1000, 1000, 2000).unwrap();
    let outcome = store.swap_at(0, true, 100, 1).unwrap();
    assert_eq!(outcome.net_in, 99);
    assert_eq!(outcome.amount_out, 180);
    assert_eq!(store.pool_at(0).reserve_x, 1100);
    assert_eq!(store.pool_at(0).reserve_y, 1820);
    assert_eq!(store.pool_at(1).reserve_x, 0);
    assert_eq!(store.pool_at(1).total_shares, 0);
}

#[test]
fn withdraw_at_and_update_config_at() {
    let mut store = PoolStore::new();
    store.initialize(1, false, 30, 7, 100, 200, 254, 253).unwrap();
    store.deposit_at(0, 1000, 1000, 2000).unwrap();
    let outcome = store.withdraw_at(0, 500, 1, 1).unwrap();
    assert_eq!(outcome.amount_x, 500);
    assert_eq!(outcome.amount_y, 1000);
    store.update_config_at(0, 7, Some(true), None, None).unwrap();
    assert!(store.pool_at(0).config.locked);
    assert_eq!(
        store.deposit_at(0, 100, 1000, 1000),
        Err(AmmError::PoolLocked)
    );
    assert_eq!(
        store.update_config_at(0, 8, Some(false), None, None),
        Err(AmmError::InvalidConfigAuthority)
    );
}
