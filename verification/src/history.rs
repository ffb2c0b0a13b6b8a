//! Histories of counting events, and the laws the counters obey over them.
//!
//! Each counter's increments are atomic and globally ordered among
//! themselves, so whatever threads a process runs, the bookkeeping it
//! performs linearizes into one sequence of events. The laws here therefore
//! quantify over every sequence: what they state holds regardless of how
//! concurrent calls happened to interleave.

use vstd::prelude::*;

verus! {

use crate::counters::CountersView;

/// One bookkeeping event in the life of the counters: an allocation attempt
/// (counted whether or not the primitive then satisfied it) or a release.
pub enum AllocatorEvent {
    Acquire,
    Release,
}

/// How one event moves the counters: its own counter steps by exactly one,
/// the other is untouched.
pub open spec fn apply_event(v: CountersView, e: AllocatorEvent) -> CountersView {
    match e {
        AllocatorEvent::Acquire => CountersView {
            allocations: v.allocations + 1,
            deallocations: v.deallocations,
        },
        AllocatorEvent::Release => CountersView {
            allocations: v.allocations,
            deallocations: v.deallocations + 1,
        },
    }
}

/// The counters after a whole history of events, applied in order.
pub open spec fn apply_history(v: CountersView, h: Seq<AllocatorEvent>) -> CountersView
    decreases h.len(),
{
    if h.len() == 0 {
        v
    } else {
        apply_event(apply_history(v, h.drop_last()), h.last())
    }
}

/// How many of the events in a history are allocation attempts.
pub open spec fn acquire_count(h: Seq<AllocatorEvent>) -> nat
    decreases h.len(),
{
    if h.len() == 0 {
        0
    } else {
        acquire_count(h.drop_last()) + (if h.last() is Acquire {
            1nat
        } else {
            0nat
        })
    }
}

/// How many of the events in a history are releases.
pub open spec fn release_count(h: Seq<AllocatorEvent>) -> nat
    decreases h.len(),
{
    if h.len() == 0 {
        0
    } else {
        release_count(h.drop_last()) + (if h.last() is Release {
            1nat
        } else {
            0nat
        })
    }
}

/// Law: after any history holding N allocation attempts, in whatever order
/// they and any releases were interleaved, the allocation counter reads
/// exactly its starting value plus N.
pub proof fn lemma_allocations_after_history(v: CountersView, h: Seq<AllocatorEvent>)
    ensures
        apply_history(v, h).allocations == v.allocations + acquire_count(h),
    decreases h.len(),
{
    if h.len() > 0 {
        lemma_allocations_after_history(v, h.drop_last());
    }
}

/// Law: after any history holding M releases, in whatever order they and any
/// allocation attempts were interleaved, the deallocation counter reads
/// exactly its starting value plus M.
pub proof fn lemma_deallocations_after_history(v: CountersView, h: Seq<AllocatorEvent>)
    ensures
        apply_history(v, h).deallocations == v.deallocations + release_count(h),
    decreases h.len(),
{
    if h.len() > 0 {
        lemma_deallocations_after_history(v, h.drop_last());
    }
}

/// Histories compose: running `a` and then `b` leaves the counters exactly
/// where running `a ++ b` in one stretch does.
pub proof fn lemma_history_concat(v: CountersView, a: Seq<AllocatorEvent>, b: Seq<AllocatorEvent>)
    ensures
        apply_history(v, a + b) == apply_history(apply_history(v, a), b),
    decreases b.len(),
{
    if b.len() == 0 {
        assert(a + b =~= a);
    } else {
        assert((a + b).drop_last() =~= a + b.drop_last());
        lemma_history_concat(v, a, b.drop_last());
    }
}

/// Law: neither counter ever decreases across any interval. Whatever events
/// `rest` a workload appends to a history `seen`, the counters it then shows
/// are at least those that were observable after `seen` alone.
pub proof fn lemma_counters_never_decrease(
    v: CountersView,
    seen: Seq<AllocatorEvent>,
    rest: Seq<AllocatorEvent>,
)
    ensures
        apply_history(v, seen + rest).allocations >= apply_history(v, seen).allocations,
        apply_history(v, seen + rest).deallocations >= apply_history(v, seen).deallocations,
{
    lemma_history_concat(v, seen, rest);
    lemma_allocations_after_history(apply_history(v, seen), rest);
    lemma_deallocations_after_history(apply_history(v, seen), rest);
}

/// Law: an empty interval moves nothing — between two reads with no
/// intervening acquire or release the counters are identical, so the reads
/// agree.
pub proof fn lemma_no_events_no_change(v: CountersView)
    ensures
        apply_history(v, Seq::<AllocatorEvent>::empty()) == v,
{
}

} // verus!
