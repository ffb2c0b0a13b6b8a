use counting_allocator::counters::CountingAllocator;
use counting_allocator::{allocs, deallocs};

#[test]
fn counters_start_at_zero() {
    let a = CountingAllocator::new();
    assert_eq!(a.allocation_count(), 0);
    assert_eq!(a.deallocation_count(), 0);
}

#[test]
fn one_acquire_then_one_release() {
    // One acquire (say, of 64 bytes aligned to 8) that the primitive answers
    // with an address, then a release of that address.
    let mut a = CountingAllocator::new();
    let answer = a.acquire(Some(0x1000));
    assert_eq!(answer, Some(0x1000));
    assert_eq!(a.allocation_count(), 1);
    assert_eq!(a.deallocation_count(), 0);
    let forwarded = a.release(0x1000);
    assert_eq!(forwarded, 0x1000);
    assert_eq!(a.allocation_count(), 1);
    assert_eq!(a.deallocation_count(), 1);
}

#[test]
fn failed_acquire_still_counted() {
    // The primitive declines the request: the attempt is counted all the
    // same, and the failure sentinel comes back unchanged.
    let mut a = CountingAllocator::new();
    let answer = a.acquire(None);
    assert_eq!(answer, None);
    assert_eq!(a.allocation_count(), 1);
    assert_eq!(a.deallocation_count(), 0);
}

#[test]
fn n_acquires_add_up() {
    let mut a = CountingAllocator::new();
    let before = a.allocation_count();
    let n: usize = 137;
    for i in 0..n {
        a.acquire(Some(0x2000 + 16 * i));
    }
    assert_eq!(a.allocation_count(), before + n);
}

#[test]
fn m_releases_add_up() {
    let mut a = CountingAllocator::new();
    let before = a.deallocation_count();
    let m: usize = 89;
    for i in 0..m {
        a.release(0x3000 + 16 * i);
    }
    assert_eq!(a.deallocation_count(), before + m);
}

#[test]
fn burst_of_ten_thousand_each_way() {
    let mut a = CountingAllocator::new();
    for i in 0..10_000usize {
        let answer = a.acquire(Some(0x10_0000 + 64 * i));
        assert_eq!(answer, Some(0x10_0000 + 64 * i));
    }
    for i in 0..10_000usize {
        a.release(0x10_0000 + 64 * i);
    }
    assert_eq!(a.allocation_count(), 10_000);
    assert_eq!(a.deallocation_count(), 10_000);
}

#[test]
fn queries_are_idempotent() {
    let mut a = CountingAllocator::new();
    a.acquire(Some(0x4000));
    a.acquire(None);
    a.release(0x4000);
    let first = a.allocation_count();
    let second = a.allocation_count();
    assert_eq!(first, second);
    let first_d = a.deallocation_count();
    let second_d = a.deallocation_count();
    assert_eq!(first_d, second_d);
}

#[test]
fn counters_never_decrease_under_mixed_traffic() {
    let mut a = CountingAllocator::new();
    let mut last_allocations = a.allocation_count();
    let mut last_deallocations = a.deallocation_count();
    for i in 0..50usize {
        if i % 3 == 0 {
            a.release(0x5000 + i);
        } else if i % 3 == 1 {
            a.acquire(Some(0x5000 + i));
        } else {
            a.acquire(None);
        }
        let now_allocations = a.allocation_count();
        let now_deallocations = a.deallocation_count();
        assert!(now_allocations >= last_allocations);
        assert!(now_deallocations >= last_deallocations);
        last_allocations = now_allocations;
        last_deallocations = now_deallocations;
    }
}

#[test]
fn queries_do_not_interfere() {
    // Reading one counter leaves both untouched, in whatever order the two
    // are read.
    let mut a = CountingAllocator::new();
    a.acquire(Some(0x6000));
    a.acquire(Some(0x6040));
    a.release(0x6000);
    assert_eq!(a.allocation_count(), 2);
    assert_eq!(a.deallocation_count(), 1);
    assert_eq!(a.deallocation_count(), 1);
    assert_eq!(a.allocation_count(), 2);
}

#[test]
fn foreign_queries_agree_with_methods() {
    let mut a = CountingAllocator::new();
    a.acquire(Some(0x7000));
    a.acquire(Some(0x7040));
    a.acquire(None);
    a.release(0x7000);
    assert_eq!(allocs(&a), a.allocation_count());
    assert_eq!(deallocs(&a), a.deallocation_count());
    assert_eq!(allocs(&a), 3);
    assert_eq!(deallocs(&a), 1);
}
