//! The two shared counters of a run, and a snapshot of what they hold.

use crate::concurrent::{initial_value, ConcurrentAtomicUsize};
use crate::gate::ConcurrencyGate;
use std::sync::atomic::AtomicUsize;
use std::sync::atomic::Ordering;
use vstd::prelude::*;

verus! {

/// What the two counters held when they were read.
#[derive(Clone, Copy, Debug, PartialEq, Eq, Structural)]
pub struct Snapshot {
    /// Requests that completed successfully since the start.
    pub total_completed: usize,
    /// Requests admitted and not yet completed.
    pub in_flight: usize,
}

impl Snapshot {
    /// The snapshot of a total that was read as `total_completed` and an
    /// in-flight count that was read as `in_flight`.
    pub fn new(total_completed: usize, in_flight: usize) -> (snapshot: Snapshot)
        ensures
            snapshot == (Snapshot { total_completed, in_flight }),
    {
        Snapshot { total_completed, in_flight }
    }
}

/// What the total becomes when one more success is counted: one more,
/// wrapping around past the largest value as the atomic addition does.
pub open spec fn after_success(total_completed: usize) -> usize {
    if total_completed == usize::MAX {
        0
    } else {
        (total_completed + 1) as usize
    }
}

/// Counts one more success on one value of the total.
pub fn count_next(total_completed: usize) -> (next: usize)
    ensures
        next == after_success(total_completed),
{
    if total_completed == usize::MAX {
        0
    } else {
        total_completed + 1
    }
}

/// The snapshot of a run in which nothing has happened yet.
pub open spec fn initial() -> Snapshot {
    Snapshot { total_completed: 0, in_flight: 0 }
}

/// Handles to the two counters that the request tasks, the dispatcher and
/// the reporter share. They are only ever changed by atomic addition and
/// subtraction, and by the admission step of a gate over the in-flight
/// counter.
pub struct Counters {
    total_completed: ConcurrentAtomicUsize,
    in_flight: ConcurrentAtomicUsize,
}

impl Counters {
    /// The counter of completed requests.
    pub closed spec fn total_completed_cell(&self) -> AtomicUsize {
        self.total_completed.cell()
    }

    /// The counter of requests in flight.
    pub closed spec fn in_flight_cell(&self) -> AtomicUsize {
        self.in_flight.cell()
    }

    /// Whether `self` and `other` reach the same two counters.
    pub open spec fn same_as(&self, other: &Counters) -> bool {
        &&& self.total_completed_cell() == other.total_completed_cell()
        &&& self.in_flight_cell() == other.in_flight_cell()
    }

    /// Whether both counters were created holding what `start` holds.
    pub open spec fn started_at(&self, start: Snapshot) -> bool {
        &&& initial_value(self.total_completed_cell()) == start.total_completed
        &&& initial_value(self.in_flight_cell()) == start.in_flight
    }

    /// Two fresh counters, both at zero.
    pub fn new() -> (counters: Self)
        ensures
            counters.started_at(initial()),
    {
        Counters {
            total_completed: ConcurrentAtomicUsize::new(0),
            in_flight: ConcurrentAtomicUsize::new(0),
        }
    }

    /// Another pair of handles to the same two counters.
    pub fn share(&self) -> (counters: Self)
        ensures
            counters.same_as(self),
    {
        Counters { total_completed: self.total_completed.clone(), in_flight: self.in_flight.clone() }
    }

    /// A gate that admits requests against the in-flight counter of `self`.
    pub fn gate(&self, max_concurrency: usize) -> (gate: ConcurrencyGate)
        ensures
            gate.max_concurrency() == max_concurrency,
            gate.counter() == self.in_flight_cell(),
    {
        ConcurrencyGate::over(self.in_flight.clone(), max_concurrency)
    }

    /// Counts one successfully completed request.
    pub fn record_success(&self) {
        self.total_completed.fetch_add(1, Ordering::Relaxed);
    }

    /// Reads both counters, the total first. The two reads are separate:
    /// a request may complete between them, and the snapshot then shows
    /// the total from before and the in-flight count from after.
    pub fn snapshot(&self) -> Snapshot {
        let total_completed = self.total_completed.load(Ordering::Relaxed);
        let in_flight = self.in_flight.load(Ordering::Relaxed);
        Snapshot::new(total_completed, in_flight)
    }
}

} // verus!
