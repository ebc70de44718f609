//! The engine as a sequence of events: what each tick of the dispatch timer
//! and each completion of a request does to the two counters.

use crate::counters::{after_success, count_next, initial, Snapshot};
use crate::gate::{admit_next, after_release, next_in_flight, release_next};
use vstd::prelude::*;

verus! {

/// Something that happens to the engine.
#[derive(Clone, Copy, Debug, PartialEq, Eq, Structural)]
pub enum Event {
    /// The dispatch timer fired: one admission is attempted.
    Tick,
    /// A request that had been admitted came to its end.
    Completed { success: bool },
}

/// What the dispatcher does in answer to an event.
#[derive(Clone, Copy, Debug, PartialEq, Eq, Structural)]
pub enum Action {
    /// Start one request task, without waiting for it.
    Launch,
    /// Start nothing: the tick found no free slot and is forgone, or the
    /// event was a completion.
    Idle,
}

/// The counters after `event`, from the counters before it, under a bound
/// of `max_concurrency` requests in flight. A tick takes a slot when one is
/// free and changes nothing otherwise. A completion gives its slot back
/// whatever the outcome, and is counted only when it was a success.
pub open spec fn step(max_concurrency: usize, before: Snapshot, event: Event) -> Snapshot {
    match event {
        Event::Tick => match next_in_flight(before.in_flight, max_concurrency) {
            Some(in_flight) => Snapshot { in_flight, ..before },
            None => before,
        },
        Event::Completed { success } => Snapshot {
            total_completed: if success {
                after_success(before.total_completed)
            } else {
                before.total_completed
            },
            in_flight: after_release(before.in_flight),
        },
    }
}

/// The action that `event` calls for: a launch exactly for a tick that
/// finds a free slot.
pub open spec fn action(max_concurrency: usize, before: Snapshot, event: Event) -> Action {
    match event {
        Event::Tick => if next_in_flight(before.in_flight, max_concurrency) is Some {
            Action::Launch
        } else {
            Action::Idle
        },
        Event::Completed { .. } => Action::Idle,
    }
}

/// The counters after a sequence of events, from a start with both at zero.
pub open spec fn run(max_concurrency: usize, events: Seq<Event>) -> Snapshot
    decreases events.len(),
{
    if events.len() == 0 {
        initial()
    } else {
        step(max_concurrency, run(max_concurrency, events.drop_last()), events.last())
    }
}

/// One event on counters held as plain values: the counters after it and
/// the action it calls for.
pub fn advance(max_concurrency: usize, before: Snapshot, event: Event) -> (r: (Snapshot, Action))
    ensures
        r.0 == step(max_concurrency, before, event),
        r.1 == action(max_concurrency, before, event),
{
    match event {
        Event::Tick => match admit_next(before.in_flight, max_concurrency) {
            Some(in_flight) => (
                Snapshot { total_completed: before.total_completed, in_flight },
                Action::Launch,
            ),
            None => (before, Action::Idle),
        },
        Event::Completed { success } => {
            let total_completed = if success {
                count_next(before.total_completed)
            } else {
                before.total_completed
            };
            (Snapshot { total_completed, in_flight: release_next(before.in_flight) }, Action::Idle)
        },
    }
}

/// A sequence of events on counters that start at zero: the counters after
/// the last of them.
pub fn replay(max_concurrency: usize, events: &Vec<Event>) -> (after: Snapshot)
    ensures
        after == run(max_concurrency, events@),
{
    let mut counters = Snapshot { total_completed: 0, in_flight: 0 };
    let mut i: usize = 0;
    while i < events.len()
        invariant
            i <= events.len(),
            counters == run(max_concurrency, events@.take(i as int)),
        decreases events.len() - i,
    {
        assert(events@.take(i + 1).drop_last() =~= events@.take(i as int));
        let r = advance(max_concurrency, counters, events[i]);
        counters = r.0;
        i = i + 1;
    }
    assert(events@.take(i as int) =~= events@);
    counters
}

/// The number of admission attempts among `events`: its ticks.
pub open spec fn attempted(events: Seq<Event>) -> nat
    decreases events.len(),
{
    if events.len() == 0 {
        0
    } else {
        attempted(events.drop_last()) + if events.last() is Tick {
            1nat
        } else {
            0nat
        }
    }
}

/// The number of successful admissions in a run of `events`: the ticks that
/// found a free slot, each of which launched one request.
pub open spec fn admitted(max_concurrency: usize, events: Seq<Event>) -> nat
    decreases events.len(),
{
    if events.len() == 0 {
        0
    } else {
        let before = run(max_concurrency, events.drop_last());
        admitted(max_concurrency, events.drop_last()) + if action(
            max_concurrency,
            before,
            events.last(),
        ) == Action::Launch {
            1nat
        } else {
            0nat
        }
    }
}

/// The number of releases among `events`: its completions, of either
/// outcome, each of which gives one slot back.
pub open spec fn released(events: Seq<Event>) -> nat
    decreases events.len(),
{
    if events.len() == 0 {
        0
    } else {
        released(events.drop_last()) + if events.last() is Completed {
            1nat
        } else {
            0nat
        }
    }
}

/// The number of successful completions among `events`.
pub open spec fn succeeded(events: Seq<Event>) -> nat
    decreases events.len(),
{
    if events.len() == 0 {
        0
    } else {
        succeeded(events.drop_last()) + if events.last() == (Event::Completed { success: true }) {
            1nat
        } else {
            0nat
        }
    }
}

/// Whether every completion in `events` is that of a request admitted
/// earlier and not yet completed: at no point have more requests completed
/// than were admitted. This is one release for each admission, no more.
pub open spec fn paired(max_concurrency: usize, events: Seq<Event>) -> bool {
    forall|k: int|
        0 <= k <= events.len() ==> released(#[trigger] events.take(k)) <= admitted(
            max_concurrency,
            events.take(k),
        )
}

/// `n` requests that each complete successfully before the next tick: a
/// tick and a completion in turn, `n` times.
pub open spec fn back_to_back(n: nat) -> Seq<Event> {
    Seq::new(
        2 * n,
        |i: int|
            if i % 2 == 0 {
                Event::Tick
            } else {
                Event::Completed { success: true }
            },
    )
}

/// A run whose completions are paired with admissions stays so at every
/// earlier point.
pub proof fn lemma_paired_prefix(max_concurrency: usize, events: Seq<Event>, k: int)
    requires
        paired(max_concurrency, events),
        0 <= k <= events.len(),
    ensures
        paired(max_concurrency, events.take(k)),
{
    let prefix = events.take(k);
    assert forall|j: int| 0 <= j <= prefix.len() implies released(#[trigger] prefix.take(j))
        <= admitted(max_concurrency, prefix.take(j)) by {
        assert(prefix.take(j) =~= events.take(j));
    }
}

/// In a run whose completions are paired with admissions, the in-flight
/// counter holds the number of admissions less the number of releases, and
/// that is never more than the bound.
pub proof fn lemma_in_flight_counts_running(max_concurrency: usize, events: Seq<Event>)
    requires
        paired(max_concurrency, events),
    ensures
        run(max_concurrency, events).in_flight == admitted(max_concurrency, events) - released(
            events,
        ),
        run(max_concurrency, events).in_flight <= max_concurrency,
    decreases events.len(),
{
    if events.len() > 0 {
        let earlier = events.drop_last();
        assert(earlier =~= events.take(events.len() - 1));
        lemma_paired_prefix(max_concurrency, events, events.len() - 1);
        lemma_in_flight_counts_running(max_concurrency, earlier);
        assert(events.take(events.len() as int) =~= events);
    }
}

/// The concurrency bound: in a run whose completions are paired with
/// admissions, the in-flight counter is within the bound after every event,
/// so its peak over the run is too.
pub proof fn lemma_in_flight_never_exceeds_bound(
    max_concurrency: usize,
    events: Seq<Event>,
    k: int,
)
    requires
        paired(max_concurrency, events),
        0 <= k <= events.len(),
    ensures
        run(max_concurrency, events.take(k)).in_flight <= max_concurrency,
{
    lemma_paired_prefix(max_concurrency, events, k);
    lemma_in_flight_counts_running(max_concurrency, events.take(k));
}

/// Admissions and releases pair up: in a run whose completions are paired
/// with admissions, the in-flight counter is back at zero exactly when as
/// many slots have been released as were admitted, that is when no request
/// is running.
pub proof fn lemma_quiescent_run_is_empty(max_concurrency: usize, events: Seq<Event>)
    requires
        paired(max_concurrency, events),
    ensures
        run(max_concurrency, events).in_flight == 0 <==> admitted(max_concurrency, events)
            == released(events),
{
    lemma_in_flight_counts_running(max_concurrency, events);
}

/// Only successes are counted: as long as the total has not wrapped around,
/// it is the number of successful completions.
pub proof fn lemma_total_counts_successes(max_concurrency: usize, events: Seq<Event>)
    requires
        succeeded(events) <= usize::MAX,
    ensures
        run(max_concurrency, events).total_completed == succeeded(events),
    decreases events.len(),
{
    if events.len() > 0 {
        lemma_total_counts_successes(max_concurrency, events.drop_last());
    }
}

/// The number of successful completions never goes down as a run goes on.
pub proof fn lemma_succeeded_grows(events: Seq<Event>, j: int, k: int)
    requires
        0 <= j <= k <= events.len(),
    ensures
        succeeded(events.take(j)) <= succeeded(events.take(k)),
    decreases k - j,
{
    if j < k {
        assert(events.take(k).drop_last() =~= events.take(k - 1));
        lemma_succeeded_grows(events, j, k - 1);
    }
}

/// Throughput limits itself: no more requests are admitted than ticks have
/// fired, no more have succeeded than were released, and, where completions
/// are paired with admissions, no more were released than admitted.
pub proof fn lemma_counts_are_ordered(max_concurrency: usize, events: Seq<Event>)
    ensures
        succeeded(events) <= released(events),
        admitted(max_concurrency, events) <= attempted(events),
        paired(max_concurrency, events) ==> released(events) <= admitted(max_concurrency, events),
    decreases events.len(),
{
    if events.len() > 0 {
        lemma_counts_are_ordered(max_concurrency, events.drop_last());
    }
    if paired(max_concurrency, events) {
        assert(events.take(events.len() as int) =~= events);
    }
}

/// A tick that finds no free slot is forgone: it launches nothing and leaves
/// both counters as they were, so nothing of it is left to be made up for
/// later.
pub proof fn lemma_full_gate_drops_tick(max_concurrency: usize, before: Snapshot)
    requires
        before.in_flight >= max_concurrency,
    ensures
        step(max_concurrency, before, Event::Tick) == before,
        action(max_concurrency, before, Event::Tick) == Action::Idle,
{
}

/// A request is launched only by a tick, and only by one that finds fewer
/// requests in flight than the bound allows.
pub proof fn lemma_only_ticks_launch(max_concurrency: usize, before: Snapshot, event: Event)
    requires
        action(max_concurrency, before, event) == Action::Launch,
    ensures
        event == Event::Tick,
        before.in_flight < max_concurrency,
        step(max_concurrency, before, event).in_flight == before.in_flight + 1,
{
}

/// The counts at each point of a run of requests that complete at once.
proof fn lemma_back_to_back_prefix(max_concurrency: usize, n: nat, k: int)
    requires
        max_concurrency >= 1,
        0 <= k <= 2 * n,
    ensures
        run(max_concurrency, back_to_back(n).take(k)).in_flight == k % 2,
        attempted(back_to_back(n).take(k)) == (k + 1) / 2,
        admitted(max_concurrency, back_to_back(n).take(k)) == (k + 1) / 2,
        released(back_to_back(n).take(k)) == k / 2,
        succeeded(back_to_back(n).take(k)) == k / 2,
    decreases k,
{
    if k > 0 {
        let prefix = back_to_back(n).take(k);
        assert(prefix.drop_last() =~= back_to_back(n).take(k - 1));
        assert(prefix.last() == back_to_back(n)[k - 1]);
        lemma_back_to_back_prefix(max_concurrency, n, k - 1);
    }
}

/// With requests that complete at once and a bound of at least one, every
/// tick is admitted: after `n` ticks, `n` requests were attempted, admitted,
/// released and counted, and none is in flight.
pub proof fn lemma_back_to_back_admits_every_tick(max_concurrency: usize, n: nat)
    requires
        max_concurrency >= 1,
    ensures
        paired(max_concurrency, back_to_back(n)),
        attempted(back_to_back(n)) == n,
        admitted(max_concurrency, back_to_back(n)) == n,
        released(back_to_back(n)) == n,
        succeeded(back_to_back(n)) == n,
        run(max_concurrency, back_to_back(n)).in_flight == 0,
        n <= usize::MAX ==> run(max_concurrency, back_to_back(n)).total_completed == n,
{
    let events = back_to_back(n);
    assert forall|k: int| 0 <= k <= events.len() implies released(#[trigger] events.take(k))
        <= admitted(max_concurrency, events.take(k)) by {
        lemma_back_to_back_prefix(max_concurrency, n, k);
    }
    lemma_back_to_back_prefix(max_concurrency, n, events.len() as int);
    assert(events.take(events.len() as int) =~= events);
    if n <= usize::MAX {
        lemma_total_counts_successes(max_concurrency, events);
    }
}

} // verus!
