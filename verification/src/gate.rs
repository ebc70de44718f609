//! The concurrency gate: admission of requests under a bound on how many
//! are in flight at once.

use crate::concurrent::{initial_value, ConcurrentAtomicUsize};
use std::sync::atomic::AtomicUsize;
use std::sync::atomic::Ordering;
use vstd::prelude::*;

verus! {

/// The admission rule. With `in_flight` requests running under a bound of
/// `max_concurrency`, one more is admitted exactly when `in_flight` is
/// below the bound, and the count then rises by one; otherwise the request
/// is refused and the count stays.
pub open spec fn next_in_flight(in_flight: usize, max_concurrency: usize) -> Option<usize> {
    if in_flight < max_concurrency {
        Some((in_flight + 1) as usize)
    } else {
        None
    }
}

/// Applies the admission rule to one observed value of the in-flight count.
pub fn admit_next(in_flight: usize, max_concurrency: usize) -> (next: Option<usize>)
    ensures
        next == next_in_flight(in_flight, max_concurrency),
        next matches Some(n) ==> n == in_flight + 1 && n <= max_concurrency,
{
    if in_flight < max_concurrency {
        Some(in_flight + 1)
    } else {
        None
    }
}

/// What the in-flight count becomes when one slot is given back: one less.
/// A release with no request in flight wraps the count around to the
/// largest value, as the atomic subtraction does; releasing once for each
/// admission keeps the count away from that.
pub open spec fn after_release(in_flight: usize) -> usize {
    if in_flight == 0 {
        usize::MAX
    } else {
        (in_flight - 1) as usize
    }
}

/// Applies a release to one value of the in-flight count.
pub fn release_next(in_flight: usize) -> (next: usize)
    ensures
        next == after_release(in_flight),
{
    if in_flight == 0 {
        usize::MAX
    } else {
        in_flight - 1
    }
}

/// Whether an admission attempt that came back as `attempt` was granted.
/// `Ok` carries the count that the admission raised by one, `Err` the count
/// that left no room.
pub fn granted(attempt: Result<usize, usize>) -> (admitted: bool)
    ensures
        admitted == (attempt is Ok),
{
    attempt.is_ok()
}

/// `AtomicUsize::fetch_update` with the admission rule as its update
/// function. The standard library applies the function to the stored value
/// in one atomic step: it returns `Ok` with the previous value where the
/// function gave a new value for it, which is then stored, and `Err` with
/// the previous value where the function gave none, and nothing is stored.
#[verifier::external_body]
fn fetch_update_admission(counter: &AtomicUsize, max_concurrency: usize) -> (r: Result<
    usize,
    usize,
>)
    ensures
        match r {
            Ok(previous) => next_in_flight(previous, max_concurrency) is Some,
            Err(previous) => next_in_flight(previous, max_concurrency) is None,
        },
{
    counter.fetch_update(Ordering::Relaxed, Ordering::Relaxed, |in_flight| {
        admit_next(in_flight, max_concurrency)
    })
}

/// A gate in front of the request tasks. It owns a handle to the shared
/// in-flight counter and the bound that the counter is held to.
pub struct ConcurrencyGate {
    in_flight: ConcurrentAtomicUsize,
    max_concurrency: usize,
}

impl ConcurrencyGate {
    /// The bound on the number of requests in flight.
    pub closed spec fn max_concurrency(&self) -> usize {
        self.max_concurrency
    }

    /// The shared counter of requests in flight.
    pub closed spec fn counter(&self) -> AtomicUsize {
        self.in_flight.cell()
    }

    /// A gate over a counter of its own, which starts at zero: no request
    /// is in flight.
    pub fn new(max_concurrency: usize) -> (gate: Self)
        ensures
            gate.max_concurrency() == max_concurrency,
            initial_value(gate.counter()) == 0,
    {
        ConcurrencyGate { in_flight: ConcurrentAtomicUsize::new(0), max_concurrency }
    }

    /// A gate over the counter that `in_flight` reaches.
    pub fn over(in_flight: ConcurrentAtomicUsize, max_concurrency: usize) -> (gate: Self)
        ensures
            gate.max_concurrency() == max_concurrency,
            gate.counter() == in_flight.cell(),
    {
        ConcurrencyGate { in_flight, max_concurrency }
    }

    /// Another handle to the same gate, for a task that will release its
    /// slot later.
    pub fn share(&self) -> (gate: Self)
        ensures
            gate.max_concurrency() == self.max_concurrency(),
            gate.counter() == self.counter(),
    {
        ConcurrencyGate { in_flight: self.in_flight.clone(), max_concurrency: self.max_concurrency }
    }

    /// The bound on the number of requests in flight.
    pub fn limit(&self) -> (max: usize)
        ensures
            max == self.max_concurrency(),
    {
        self.max_concurrency
    }

    /// One admission attempt, as a single atomic step on the shared counter.
    /// `Ok(previous)` says that the request is admitted and that the counter
    /// went from `previous` to `previous + 1`, which is within the bound;
    /// `Err(previous)` says that the counter stood at `previous`, at or above
    /// the bound, and was left alone. The attempt never waits.
    pub fn attempt(&self) -> (r: Result<usize, usize>)
        ensures
            match r {
                Ok(previous) => previous < self.max_concurrency(),
                Err(previous) => previous >= self.max_concurrency(),
            },
    {
        fetch_update_admission(&self.in_flight, self.max_concurrency)
    }

    /// Tries to admit one request: `true` when a slot was taken, `false`
    /// when every slot was in use. A gate with a bound of zero admits nothing.
    pub fn try_admit(&self) -> (admitted: bool)
        ensures
            admitted ==> self.max_concurrency() > 0,
    {
        granted(self.attempt())
    }

    /// Gives back the slot of one admitted request. To be called once for
    /// each successful admission, when its request has completed.
    pub fn release(&self) {
        self.in_flight.fetch_sub(1, Ordering::Relaxed);
    }

    /// The number of requests in flight at the moment of the call.
    pub fn in_flight(&self) -> usize {
        self.in_flight.load(Ordering::Relaxed)
    }
}

} // verus!
