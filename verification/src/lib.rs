//! A counting shim over a process's memory allocator.
//!
//! The library models the bookkeeping that a global-allocator override keeps:
//! two monotonically non-decreasing counters, one stepped once per allocation
//! attempt and one stepped once per release, with the underlying primitive's
//! answer passed through verbatim. The unsafe hot path itself (the
//! `GlobalAlloc` hook, the atomics, the foreign-function bridge) lives in the
//! surrounding unverified shell; everything it must preserve is stated and
//! proved here.

use vstd::prelude::*;

pub mod counters;
pub mod history;

verus! {

use crate::counters::CountingAllocator;

/// Foreign-facing query: the number of allocation attempts counted so far.
pub fn allocs(a: &CountingAllocator) -> (n: usize)
    ensures
        n == a@.allocations,
{
    a.allocation_count()
}

/// Foreign-facing query: the number of releases counted so far.
pub fn deallocs(a: &CountingAllocator) -> (n: usize)
    ensures
        n == a@.deallocations,
{
    a.deallocation_count()
}

} // verus!

