use wlgreet::doublemempool::{DoubleMemPool, MemPool, PoolSlot, INITIAL_POOL_SIZE};

#[test]
fn a_new_pool_holds_its_initial_size_in_zero_pixels() {
    let mut pool = MemPool::new();
    assert_eq!(pool.size(), INITIAL_POOL_SIZE / 4);
    assert_eq!(*pool.mmap(), vec![0u32; 32]);
    assert!(!pool.is_used());
}

#[test]
fn resize_grows_and_keeps_what_was_there() {
    let mut pool = MemPool::new();
    pool.mmap()[3] = 77;
    pool.resize(4 * 40);
    assert_eq!(pool.size(), 40);
    assert_eq!(pool.mmap()[3], 77);
    assert_eq!(pool.mmap()[39], 0);
}

#[test]
fn resize_rounds_up_to_whole_pixels() {
    let mut pool = MemPool::new();
    pool.resize(4 * 32 + 1);
    assert_eq!(pool.size(), 33);
}

#[test]
fn resize_never_shrinks() {
    let mut pool = MemPool::new();
    pool.resize(4);
    assert_eq!(pool.size(), 32);
    pool.resize(0);
    assert_eq!(pool.size(), 32);
}

#[test]
fn a_pool_is_used_while_the_server_holds_a_buffer() {
    let mut pool = MemPool::new();
    pool.buffer();
    assert!(pool.is_used());
    pool.buffer();
    assert!(!pool.release());
    assert!(pool.is_used());
    assert!(pool.release());
    assert!(!pool.is_used());
    assert!(!pool.release());
    assert!(!pool.is_used());
}

#[test]
fn acquisitions_alternate_between_the_two_pools() {
    let mut pools = DoubleMemPool::new();
    let mut last_current: Option<PoolSlot> = None;
    for n in 0..6u32 {
        let expected = if n % 2 == 0 { PoolSlot::Second } else { PoolSlot::First };
        let other = if n % 2 == 0 { PoolSlot::First } else { PoolSlot::Second };
        assert_eq!(pools.next_slot(), expected);
        // Mark what is handed out: the pool to read grows, the pool to
        // write gets a buffer.
        let wanted = 100 + 2 * n as usize;
        match pools.pool() {
            Some((prev, cur)) => {
                prev.resize(4 * wanted);
                cur.buffer();
            }
            None => panic!("both pools are free"),
        }
        assert!(pools.get(expected).is_used());
        assert!(!pools.get(other).is_used());
        assert_eq!(pools.get(other).size(), wanted);
        assert!(pools.get(expected).size() < wanted);
        if let Some(before) = last_current {
            assert_eq!(other, before);
        }
        last_current = Some(expected);
        assert!(pools.release(expected));
    }
}

#[test]
fn a_busy_pool_is_not_handed_out_but_the_turn_passes() {
    let mut pools = DoubleMemPool::new();
    match pools.pool() {
        Some((_, cur)) => cur.buffer(),
        None => panic!("both pools are free"),
    }
    assert!(pools.get(PoolSlot::Second).is_used());
    assert_eq!(pools.next_slot(), PoolSlot::First);
    assert!(pools.pool().is_some());
    assert_eq!(pools.next_slot(), PoolSlot::Second);
    assert!(pools.pool().is_none());
    assert_eq!(pools.next_slot(), PoolSlot::First);
    assert!(pools.pool().is_some());
    assert!(pools.release(PoolSlot::Second));
    assert_eq!(pools.next_slot(), PoolSlot::Second);
    assert!(pools.pool().is_some());
}
