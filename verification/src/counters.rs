//! The counting allocator's state and its two lifecycle operations.

use vstd::prelude::*;

verus! {

use crate::history::AllocatorEvent;
use crate::history::apply_event;

/// The counters as mathematics: how many allocation attempts and how many
/// releases have been counted since the process started. Both are unbounded
/// naturals in the model; the executable state below carries them as `usize`.
pub ghost struct CountersView {
    pub allocations: nat,
    pub deallocations: nat,
}

/// The counting allocator: a transparent shim that counts every allocation
/// attempt and every release, and otherwise changes nothing about the
/// requests and answers that flow through it.
///
/// Exactly one instance stands for the whole process; its counters start at
/// zero and are only ever stepped upward, one event at a time.
pub struct CountingAllocator {
    allocations: usize,
    deallocations: usize,
}

impl View for CountingAllocator {
    type V = CountersView;

    closed spec fn view(&self) -> CountersView {
        CountersView {
            allocations: self.allocations as nat,
            deallocations: self.deallocations as nat,
        }
    }
}

impl CountingAllocator {
    /// Fresh counters, as at process start: nothing counted yet.
    pub fn new() -> (a: Self)
        ensures
            a@.allocations == 0,
            a@.deallocations == 0,
    {
        CountingAllocator { allocations: 0, deallocations: 0 }
    }

    /// One allocation attempt. The attempt is counted unconditionally —
    /// before the primitive's answer is even looked at — and that answer is
    /// handed back verbatim: an address, or `None` where the primitive
    /// returned its null failure sentinel. A failed request is therefore
    /// counted exactly like a successful one, and the failure reaches the
    /// caller unchanged. The answer is a parameter because only the process's
    /// unverified shell can invoke the primitive itself.
    pub fn acquire(&mut self, primitive_answer: Option<usize>) -> (r: Option<usize>)
        requires
            old(self)@.allocations < usize::MAX,
        ensures
            final(self)@ == apply_event(old(self)@, AllocatorEvent::Acquire),
            final(self)@.allocations == old(self)@.allocations + 1,
            final(self)@.deallocations == old(self)@.deallocations,
            r == primitive_answer,
    {
        self.allocations = self.allocations + 1;
        primitive_answer
    }

    /// One release. The release is counted unconditionally, and the address
    /// is handed on verbatim for the release primitive; nothing about it is
    /// inspected, recorded or checked. That the address came from a prior
    /// acquire and was not already released is the caller's obligation, which
    /// this shim can neither detect nor repair.
    pub fn release(&mut self, address: usize) -> (forward: usize)
        requires
            old(self)@.deallocations < usize::MAX,
        ensures
            final(self)@ == apply_event(old(self)@, AllocatorEvent::Release),
            final(self)@.deallocations == old(self)@.deallocations + 1,
            final(self)@.allocations == old(self)@.allocations,
            forward == address,
    {
        self.deallocations = self.deallocations + 1;
        address
    }

    /// Pure read of the allocation counter: no side effect, and the value is
    /// exactly the number of attempts counted so far.
    pub fn allocation_count(&self) -> (n: usize)
        ensures
            n == self@.allocations,
    {
        self.allocations
    }

    /// Pure read of the deallocation counter, symmetric to
    /// `allocation_count`.
    pub fn deallocation_count(&self) -> (n: usize)
        ensures
            n == self@.deallocations,
    {
        self.deallocations
    }
}

} // verus!
