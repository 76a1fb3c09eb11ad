use data_resolver::errors::CallError;
use data_resolver::pool::Pool;

#[test]
fn new_pool_has_one_free_connection() {
    let pool = Pool::new();
    assert_eq!(pool.len(), 1);
    assert!(pool.has_available());
    assert!(!pool.is_leased(0));
}

#[test]
fn empty_pool_get_always_fails_pool_exhausted() {
    let mut pool = Pool::with_resources(0);
    assert_eq!(pool.len(), 0);
    assert!(!pool.has_available());
    for _ in 0..3 {
        assert_eq!(pool.get(), Err(CallError::PoolExhausted));
    }
}

#[test]
fn get_leases_first_free_slot_and_release_frees_it() {
    let mut pool = Pool::new();
    assert_eq!(pool.get(), Ok(0));
    assert!(pool.is_leased(0));
    assert!(!pool.has_available());
    pool.release(0);
    assert!(!pool.is_leased(0));
    assert_eq!(pool.get(), Ok(0));
}

#[test]
fn second_get_on_single_connection_pool_is_exhausted() {
    let mut pool = Pool::new();
    assert_eq!(pool.get(), Ok(0));
    assert_eq!(pool.get(), Err(CallError::PoolExhausted));
}

#[test]
fn gets_walk_the_slots_in_order() {
    let mut pool = Pool::with_resources(3);
    assert_eq!(pool.get(), Ok(0));
    assert_eq!(pool.get(), Ok(1));
    pool.release(0);
    assert_eq!(pool.get(), Ok(0));
    assert_eq!(pool.get(), Ok(2));
    assert_eq!(pool.get(), Err(CallError::PoolExhausted));
}
