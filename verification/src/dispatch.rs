//! The dispatcher: what a run does on each tick of its timers and on each
//! completion of a request, on the shared counters.

use crate::config::Config;
use crate::counters::{initial, Counters, Snapshot};
use crate::engine::Action;
use crate::gate::ConcurrencyGate;
use crate::redirect::{build_client_builder, redirect_cap};
use crate::report::{debug_lines, lines_text, snapshot_line, snapshot_text, ResponseHead};
use vstd::prelude::*;

verus! {

/// The action that an admission attempt calls for: a launch when the
/// attempt was granted, nothing when it was refused.
pub open spec fn action_after(attempt: Result<usize, usize>) -> Action {
    if attempt is Ok {
        Action::Launch
    } else {
        Action::Idle
    }
}

/// Turns the result of an admission attempt into the action of the tick. A
/// refused attempt is not kept for later: the tick is simply forgone.
pub fn action_for(attempt: Result<usize, usize>) -> (action: Action)
    ensures
        action == action_after(attempt),
{
    match attempt {
        Ok(_) => Action::Launch,
        Err(_) => Action::Idle,
    }
}

/// Whether `text` is the progress line of some snapshot.
pub open spec fn is_snapshot_text(text: Seq<char>) -> bool {
    exists|total_completed: nat, in_flight: nat|
        text == #[trigger] snapshot_text(total_completed, in_flight)
}

/// The dispatcher of a run: its configuration, the two shared counters and
/// a gate over the in-flight counter. It holds no state of its own, so it
/// can be shared with every request task.
pub struct Dispatcher {
    config: Config,
    counters: Counters,
    gate: ConcurrencyGate,
}

impl Dispatcher {
    #[verifier::type_invariant]
    spec fn well_formed(&self) -> bool {
        &&& self.gate.max_concurrency() == self.config.spec_max_concurrency()
        &&& self.gate.counter() == self.counters.in_flight_cell()
    }

    /// The configuration of the run.
    pub closed spec fn spec_config(&self) -> Config {
        self.config
    }

    /// The handles to the two counters.
    pub closed spec fn spec_counters(&self) -> Counters {
        self.counters
    }

    /// A dispatcher for a run under `config`, with both counters at zero.
    pub fn new(config: Config) -> (dispatcher: Self)
        ensures
            dispatcher.spec_config() == config,
            dispatcher.spec_counters().started_at(initial()),
    {
        let counters = Counters::new();
        let gate = counters.gate(config.max_concurrency());
        Dispatcher { config, counters, gate }
    }

    /// Another handle to the same dispatcher, for a request task: the same
    /// configuration over the same two counters.
    pub fn share(&self) -> (dispatcher: Self)
        ensures
            dispatcher.spec_config() == self.spec_config(),
            dispatcher.spec_counters().same_as(&self.spec_counters()),
    {
        proof {
            use_type_invariant(self);
        }
        Dispatcher {
            config: self.config,
            counters: self.counters.share(),
            gate: self.gate.share(),
        }
    }

    /// The configuration of the run.
    pub fn config(&self) -> (config: &Config)
        ensures
            *config == self.spec_config(),
    {
        &self.config
    }

    /// The period of the dispatch timer, in nanoseconds.
    pub fn tick_period_nanos(&self) -> (period: u64)
        ensures
            period == crate::config::tick_period(self.spec_config().spec_target_rate()),
    {
        self.config.tick_period_nanos()
    }

    /// A tick of the dispatch timer: one admission attempt. Where it is
    /// granted, the caller gets the task to launch, which shares this
    /// dispatcher's configuration and counters and holds the slot that was
    /// taken; the caller starts it without waiting for it. Where it is
    /// refused there is no task, and the tick is forgone: nothing is kept to
    /// be tried again later.
    pub fn on_tick(&self) -> (task: Option<RequestTask>)
        ensures
            task matches Some(task) ==> task.belongs_to(self),
    {
        self.task_for(self.gate.attempt())
    }

    /// The task that an admission attempt on this dispatcher's gate calls
    /// for: one task, on this dispatcher's configuration and counters, where
    /// the attempt was granted, and none where it was refused.
    fn task_for(&self, attempt: Result<usize, usize>) -> (task: Option<RequestTask>)
        ensures
            task is Some <==> action_after(attempt) == Action::Launch,
            task matches Some(task) ==> task.belongs_to(self),
    {
        match action_for(attempt) {
            Action::Launch => Some(RequestTask { dispatcher: self.share() }),
            Action::Idle => None,
        }
    }

    /// The end of an admitted request: its slot is given back whatever the
    /// outcome, and it is counted only when it succeeded.
    fn on_completion(&self, success: bool) {
        self.gate.release();
        if success {
            self.counters.record_success();
        }
    }

    /// Reads the two counters.
    pub fn snapshot(&self) -> Snapshot {
        self.counters.snapshot()
    }

    /// A tick of the report timer: the progress line for the counters as
    /// they are read now. The line carries nothing of earlier lines.
    pub fn report_line(&self) -> (line: String)
        ensures
            is_snapshot_text(line@),
    {
        let snapshot = self.counters.snapshot();
        let line = snapshot_line(snapshot.total_completed, snapshot.in_flight);
        assert(line@ == snapshot_text(
            snapshot.total_completed as nat,
            snapshot.in_flight as nat,
        ));
        line
    }

    /// What is printed when the head of a response arrives: its status and
    /// headers when the run is in debug mode, nothing otherwise.
    pub fn response_lines(&self, head: &ResponseHead) -> (lines: Vec<String>)
        ensures
            lines_text(lines@) == if self.spec_config().spec_debug() {
                head.text()
            } else {
                Seq::<Seq<char>>::empty()
            },
    {
        debug_lines(self.config.debug(), head)
    }

    /// A client builder for the requests of this run: its redirect policy
    /// is the capped policy for the run's cap on redirect hops.
    pub fn client_builder(&self) -> (builder: reqwest::ClientBuilder)
        ensures
            redirect_cap(builder) == self.spec_config().spec_follow_redirects(),
    {
        build_client_builder(self.config.follow_redirects())
    }
}

/// One admitted request. It lives from the tick that admitted it to its
/// completion and owns nothing but handles to the shared configuration and
/// counters. It stands for one slot of a gate: finishing it, which uses it
/// up, is the one release that pairs with its admission.
pub struct RequestTask {
    dispatcher: Dispatcher,
}

impl RequestTask {
    /// The dispatcher whose tick admitted the request.
    pub closed spec fn spec_dispatcher(&self) -> Dispatcher {
        self.dispatcher
    }

    /// Whether the request runs under the configuration of `dispatcher` and
    /// on its two counters.
    pub open spec fn belongs_to(&self, dispatcher: &Dispatcher) -> bool {
        &&& self.spec_dispatcher().spec_config() == dispatcher.spec_config()
        &&& self.spec_dispatcher().spec_counters().same_as(&dispatcher.spec_counters())
    }

    /// The configuration of the run.
    pub fn config(&self) -> (config: &Config)
        ensures
            *config == self.spec_dispatcher().spec_config(),
    {
        self.dispatcher.config()
    }

    /// A client builder for this request: its redirect policy is the
    /// capped policy for the run's cap on redirect hops.
    pub fn client_builder(&self) -> (builder: reqwest::ClientBuilder)
        ensures
            redirect_cap(builder) == self.spec_dispatcher().spec_config().spec_follow_redirects(),
    {
        self.dispatcher.client_builder()
    }

    /// What is printed when the head of the response arrives: its status
    /// and headers when the run is in debug mode, nothing otherwise.
    pub fn response_lines(&self, head: &ResponseHead) -> (lines: Vec<String>)
        ensures
            lines_text(lines@) == if self.spec_dispatcher().spec_config().spec_debug() {
                head.text()
            } else {
                Seq::<Seq<char>>::empty()
            },
    {
        self.dispatcher.response_lines(head)
    }

    /// Ends the task: its slot is released, once, whether the request
    /// succeeded or failed, and the request is counted as completed only
    /// when it succeeded.
    pub fn finish(self, success: bool) {
        self.dispatcher.on_completion(success);
    }
}

} // verus!
