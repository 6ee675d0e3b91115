use vstd::prelude::*;

verus! {

/// Selects how CPU time is charged against a worker's budget.
#[derive(Clone, Copy, Debug, PartialEq, Eq, Structural)]
pub enum SupervisorPolicy {
    /// CPU time accumulates over every request the worker ever serves.
    PerWorker,
    /// CPU time is charged per request: the counter resets at each request boundary.
    PerRequest,
}

impl SupervisorPolicy {
    /// The policy a worker gets when none was chosen for it.
    pub fn default_policy() -> (r: SupervisorPolicy)
        ensures
            r == SupervisorPolicy::PerWorker,
    {
        SupervisorPolicy::PerWorker
    }
}

/// Why a worker was shut down.
#[derive(Clone, Copy, Debug, PartialEq, Eq, Structural)]
pub enum ShutdownReason {
    /// The engine finished its own work.
    EngineFinished,
    /// The supervisor stopped the engine for using more CPU time than its budget.
    CpuBudgetExceeded,
    /// The shared cancellation signal was raised.
    Cancelled,
}

/// The one terminal result reported for a worker.
#[derive(Clone, Copy, Debug, PartialEq, Eq, Structural)]
pub enum TerminationOutcome {
    Shutdown { reason: ShutdownReason, cpu_time_used: u64 },
    UncaughtException { cpu_time_used: u64 },
    BootFailure,
}

impl TerminationOutcome {
    pub open spec fn spec_cpu_time_used(self) -> Option<u64> {
        match self {
            TerminationOutcome::Shutdown { cpu_time_used, .. } => Some(cpu_time_used),
            TerminationOutcome::UncaughtException { cpu_time_used } => Some(cpu_time_used),
            TerminationOutcome::BootFailure => None,
        }
    }

    /// The CPU time the outcome reports, where it carries one.
    pub fn cpu_time_used(&self) -> (r: Option<u64>)
        ensures
            r == self.spec_cpu_time_used(),
    {
        match self {
            TerminationOutcome::Shutdown { cpu_time_used, .. } => Some(*cpu_time_used),
            TerminationOutcome::UncaughtException { cpu_time_used } => Some(*cpu_time_used),
            TerminationOutcome::BootFailure => None,
        }
    }
}

/// Where a supervisor stands in its life.
#[derive(Clone, Copy, Debug, PartialEq, Eq, Structural)]
pub enum Phase {
    /// No CPU sample has arrived yet.
    Idle,
    /// Samples are being accumulated and the policy evaluated.
    Active,
    /// The engine has been asked to stop; the outcome is not reported yet.
    Terminating,
    /// The outcome has been written to the single-shot channel.
    Reported,
}

/// What the supervisor observes.
#[derive(Clone, Copy, Debug, PartialEq, Eq, Structural)]
pub enum SupervisorEvent {
    /// The engine used this much CPU time since its previous sample.
    CpuSample(u64),
    /// A tick of the supervisor's own ticker.
    Tick,
    /// The engine began serving a request.
    RequestStarted,
    /// The engine finished serving a request (a request boundary).
    RequestFinished,
    /// The shared cancellation signal was found raised.
    Cancelled,
    /// The engine ran the interrupt callback that stops it.
    Interrupted,
    /// The interrupt could not be scheduled: the engine has already stopped.
    InterruptRefused,
    /// The engine reported an uncaught fault in tenant code.
    UncaughtFault,
    /// The engine's completion routine returned on its own.
    Completed,
}

/// What the supervisor asks its driver to do after an event.
#[derive(Clone, Copy, Debug, PartialEq, Eq, Structural)]
pub enum SupervisorAction {
    Nothing,
    /// Stop the engine through its thread-safe interrupt handle.
    Interrupt,
    /// Write this outcome to the termination channel.
    Report(TerminationOutcome),
}

/// CPU-time governance for one engine instance, as a state machine driven by events.
#[derive(Clone, Copy, Debug)]
pub struct Supervisor {
    pub policy: SupervisorPolicy,
    /// The CPU-time ceiling.
    pub budget: u64,
    pub phase: Phase,
    /// CPU time charged in the current window (the whole life, or the current request).
    pub used: u64,
    /// CPU time used over the whole life of the engine.
    pub total_used: u64,
    /// Requests started and not yet finished.
    pub pending: u64,
    /// Set when a per-request budget was exceeded while other requests were pending.
    pub drain: bool,
    /// The reason recorded when termination was decided.
    pub reason: ShutdownReason,
}

/// `a + b`, held at `u64::MAX`.
pub open spec fn sat_add(a: u64, b: u64) -> u64 {
    if a + b > u64::MAX {
        u64::MAX
    } else {
        (a + b) as u64
    }
}

fn add_saturating(a: u64, b: u64) -> (r: u64)
    ensures
        r == sat_add(a, b),
{
    if b > u64::MAX - a {
        u64::MAX
    } else {
        a + b
    }
}

pub open spec fn is_report(a: SupervisorAction) -> bool {
    a is Report
}

/// How many outcomes a sequence of actions reports.
pub open spec fn reports(acts: Seq<SupervisorAction>) -> nat
    decreases acts.len(),
{
    if acts.len() == 0 {
        0
    } else {
        (if is_report(acts[0]) {
            1nat
        } else {
            0nat
        }) + reports(acts.drop_first())
    }
}

/// Whether an event means the engine has stopped running.
pub open spec fn stops_engine(e: SupervisorEvent) -> bool {
    e is UncaughtFault || e is Completed
}

impl Supervisor {
    pub open spec fn initial(policy: SupervisorPolicy, budget: u64) -> Supervisor {
        Supervisor {
            policy,
            budget,
            phase: Phase::Idle,
            used: 0,
            total_used: 0,
            pending: 0,
            drain: false,
            reason: ShutdownReason::EngineFinished,
        }
    }

    pub open spec fn is_live(self) -> bool {
        self.phase is Idle || self.phase is Active
    }

    pub open spec fn terminate(self, reason: ShutdownReason) -> (Supervisor, SupervisorAction) {
        (Supervisor { phase: Phase::Terminating, reason, ..self }, SupervisorAction::Interrupt)
    }

    pub open spec fn report(self, outcome: TerminationOutcome) -> (Supervisor, SupervisorAction) {
        (Supervisor { phase: Phase::Reported, ..self }, SupervisorAction::Report(outcome))
    }

    /// Applies the policy to a live supervisor whose counters are up to date.
    pub open spec fn evaluate(self) -> (Supervisor, SupervisorAction) {
        if self.phase is Idle {
            (self, SupervisorAction::Nothing)
        } else if self.used >= self.budget {
            match self.policy {
                SupervisorPolicy::PerWorker => self.terminate(ShutdownReason::CpuBudgetExceeded),
                SupervisorPolicy::PerRequest => if self.pending <= 1 {
                    self.terminate(ShutdownReason::CpuBudgetExceeded)
                } else {
                    (Supervisor { drain: true, ..self }, SupervisorAction::Nothing)
                },
            }
        } else if self.drain && self.pending == 0 {
            self.terminate(ShutdownReason::CpuBudgetExceeded)
        } else {
            (self, SupervisorAction::Nothing)
        }
    }

    /// The state and action that follow one event.
    pub open spec fn next(self, e: SupervisorEvent) -> (Supervisor, SupervisorAction) {
        match self.phase {
            Phase::Reported => (self, SupervisorAction::Nothing),
            Phase::Terminating => match e {
                SupervisorEvent::Interrupted | SupervisorEvent::InterruptRefused
                | SupervisorEvent::Completed => self.report(
                    TerminationOutcome::Shutdown {
                        reason: self.reason,
                        cpu_time_used: self.total_used,
                    },
                ),
                SupervisorEvent::UncaughtFault => self.report(
                    TerminationOutcome::UncaughtException { cpu_time_used: self.total_used },
                ),
                _ => (self, SupervisorAction::Nothing),
            },
            _ => match e {
                SupervisorEvent::CpuSample(d) => Supervisor {
                    phase: Phase::Active,
                    used: sat_add(self.used, d),
                    total_used: sat_add(self.total_used, d),
                    ..self
                }.evaluate(),
                SupervisorEvent::Tick => self.evaluate(),
                SupervisorEvent::RequestStarted => (
                    Supervisor { pending: sat_add(self.pending, 1), ..self },
                    SupervisorAction::Nothing,
                ),
                SupervisorEvent::RequestFinished => Supervisor {
                    pending: if self.pending > 0 {
                        (self.pending - 1) as u64
                    } else {
                        0
                    },
                    used: if self.policy is PerRequest {
                        0
                    } else {
                        self.used
                    },
                    ..self
                }.evaluate(),
                SupervisorEvent::Cancelled => self.terminate(ShutdownReason::Cancelled),
                SupervisorEvent::Interrupted | SupervisorEvent::InterruptRefused => (
                    self,
                    SupervisorAction::Nothing,
                ),
                SupervisorEvent::UncaughtFault => self.report(
                    TerminationOutcome::UncaughtException { cpu_time_used: self.total_used },
                ),
                SupervisorEvent::Completed => self.report(
                    TerminationOutcome::Shutdown {
                        reason: ShutdownReason::EngineFinished,
                        cpu_time_used: self.total_used,
                    },
                ),
            },
        }
    }

    /// The final state and the actions after a sequence of events.
    pub open spec fn run(self, events: Seq<SupervisorEvent>) -> (Supervisor, Seq<SupervisorAction>)
        decreases events.len(),
    {
        if events.len() == 0 {
            (self, Seq::empty())
        } else {
            let (s1, a) = self.next(events[0]);
            let (s2, rest) = s1.run(events.drop_first());
            (s2, seq![a] + rest)
        }
    }

    /// A supervisor that has seen no event yet.
    pub fn new(policy: SupervisorPolicy, budget: u64) -> (r: Supervisor)
        ensures
            r == Supervisor::initial(policy, budget),
    {
        Supervisor {
            policy,
            budget,
            phase: Phase::Idle,
            used: 0,
            total_used: 0,
            pending: 0,
            drain: false,
            reason: ShutdownReason::EngineFinished,
        }
    }

    pub fn phase(&self) -> (r: Phase)
        ensures
            r == self.phase,
    {
        self.phase
    }

    pub fn cpu_time_used(&self) -> (r: u64)
        ensures
            r == self.total_used,
    {
        self.total_used
    }

    fn terminate_now(&mut self, reason: ShutdownReason) -> (r: SupervisorAction)
        ensures
            (*final(self), r) == old(self).terminate(reason),
    {
        self.phase = Phase::Terminating;
        self.reason = reason;
        SupervisorAction::Interrupt
    }

    fn report_now(&mut self, outcome: TerminationOutcome) -> (r: SupervisorAction)
        ensures
            (*final(self), r) == old(self).report(outcome),
    {
        self.phase = Phase::Reported;
        SupervisorAction::Report(outcome)
    }

    fn evaluate_now(&mut self) -> (r: SupervisorAction)
        ensures
            (*final(self), r) == old(self).evaluate(),
    {
        if self.phase == Phase::Idle {
            SupervisorAction::Nothing
        } else if self.used >= self.budget {
            match self.policy {
                SupervisorPolicy::PerWorker => self.terminate_now(
                    ShutdownReason::CpuBudgetExceeded,
                ),
                SupervisorPolicy::PerRequest => {
                    if self.pending <= 1 {
                        self.terminate_now(ShutdownReason::CpuBudgetExceeded)
                    } else {
                        self.drain = true;
                        SupervisorAction::Nothing
                    }
                },
            }
        } else if self.drain && self.pending == 0 {
            self.terminate_now(ShutdownReason::CpuBudgetExceeded)
        } else {
            SupervisorAction::Nothing
        }
    }

    /// Takes in one event and says what the driver must do next.
    pub fn step(&mut self, e: SupervisorEvent) -> (r: SupervisorAction)
        ensures
            (*final(self), r) == old(self).next(e),
    {
        match self.phase {
            Phase::Reported => SupervisorAction::Nothing,
            Phase::Terminating => match e {
                SupervisorEvent::Interrupted | SupervisorEvent::InterruptRefused
                | SupervisorEvent::Completed => {
                    let outcome = TerminationOutcome::Shutdown {
                        reason: self.reason,
                        cpu_time_used: self.total_used,
                    };
                    self.report_now(outcome)
                },
                SupervisorEvent::UncaughtFault => {
                    let outcome = TerminationOutcome::UncaughtException {
                        cpu_time_used: self.total_used,
                    };
                    self.report_now(outcome)
                },
                _ => SupervisorAction::Nothing,
            },
            _ => match e {
                SupervisorEvent::CpuSample(d) => {
                    self.phase = Phase::Active;
                    self.used = add_saturating(self.used, d);
                    self.total_used = add_saturating(self.total_used, d);
                    self.evaluate_now()
                },
                SupervisorEvent::Tick => self.evaluate_now(),
                SupervisorEvent::RequestStarted => {
                    self.pending = add_saturating(self.pending, 1);
                    SupervisorAction::Nothing
                },
                SupervisorEvent::RequestFinished => {
                    if self.pending > 0 {
                        self.pending = self.pending - 1;
                    }
                    if self.policy == SupervisorPolicy::PerRequest {
                        self.used = 0;
                    }
                    self.evaluate_now()
                },
                SupervisorEvent::Cancelled => self.terminate_now(ShutdownReason::Cancelled),
                SupervisorEvent::Interrupted | SupervisorEvent::InterruptRefused => {
                    SupervisorAction::Nothing
                },
                SupervisorEvent::UncaughtFault => {
                    let outcome = TerminationOutcome::UncaughtException {
                        cpu_time_used: self.total_used,
                    };
                    self.report_now(outcome)
                },
                SupervisorEvent::Completed => {
                    let outcome = TerminationOutcome::Shutdown {
                        reason: ShutdownReason::EngineFinished,
                        cpu_time_used: self.total_used,
                    };
                    self.report_now(outcome)
                },
            },
        }
    }
}

/// Running two sequences of events one after the other ends where running
/// them joined ends, with the actions joined.
pub proof fn lemma_run_append(s: Supervisor, a: Seq<SupervisorEvent>, b: Seq<SupervisorEvent>)
    ensures
        s.run(a + b).0 == s.run(a).0.run(b).0,
        s.run(a + b).1 == s.run(a).1 + s.run(a).0.run(b).1,
    decreases a.len(),
{
    if a.len() == 0 {
        assert(a + b =~= b);
        assert(s.run(a).1 + s.run(b).1 =~= s.run(b).1);
    } else {
        assert((a + b).drop_first() =~= a.drop_first() + b);
        let s1 = s.next(a[0]).0;
        lemma_run_append(s1, a.drop_first(), b);
        assert((a + b)[0] == a[0]);
        let x = s.next(a[0]).1;
        assert(seq![x] + s1.run(a.drop_first() + b).1 =~= (seq![x] + s1.run(a.drop_first()).1)
            + s1.run(a.drop_first()).0.run(b).1);
    }
}

proof fn lemma_run_one(s: Supervisor, e: SupervisorEvent)
    ensures
        s.run(seq![e]).0 == s.next(e).0,
        s.run(seq![e]).1 == seq![s.next(e).1],
{
    let one = seq![e];
    let s1 = s.next(e).0;
    assert(one.drop_first() =~= Seq::<SupervisorEvent>::empty());
    assert(s1.run(one.drop_first()).0 == s1);
    assert(s1.run(one.drop_first()).1 =~= Seq::<SupervisorAction>::empty());
    assert(seq![s.next(e).1] + Seq::<SupervisorAction>::empty() =~= seq![s.next(e).1]);
}

proof fn lemma_reports_prepend(a: SupervisorAction, rest: Seq<SupervisorAction>)
    ensures
        reports(seq![a] + rest) == (if is_report(a) {
            1nat
        } else {
            0nat
        }) + reports(rest),
{
    assert((seq![a] + rest).drop_first() =~= rest);
}

/// Termination is reported at most once: over any sequence of events, a
/// supervisor reports an outcome exactly when it moves into its reported
/// phase, a reported supervisor ignores every later event, and once the engine
/// has stopped (a fault or its own completion) the outcome has been reported.
pub proof fn lemma_outcome_reported_once(s: Supervisor, events: Seq<SupervisorEvent>)
    ensures
        ({
            let (t, acts) = s.run(events);
            &&& s.phase is Reported ==> t == s && reports(acts) == 0
            &&& reports(acts) == (if !(s.phase is Reported) && t.phase is Reported {
                1nat
            } else {
                0nat
            })
            &&& (exists|i: int| 0 <= i < events.len() && stops_engine(#[trigger] events[i]))
                ==> t.phase is Reported
        }),
    decreases events.len(),
{
    if events.len() > 0 {
        let (s1, a) = s.next(events[0]);
        let rest = events.drop_first();
        lemma_outcome_reported_once(s1, rest);
        lemma_reports_prepend(a, s1.run(rest).1);
        if exists|i: int| 0 <= i < events.len() && stops_engine(#[trigger] events[i]) {
            let i = choose|i: int| 0 <= i < events.len() && stops_engine(#[trigger] events[i]);
            if i > 0 {
                assert(rest[i - 1] == events[i]);
            }
        }
    }
}

/// Whether an event is one of the engine's usage reports: a CPU sample, a
/// tick, or a request start or boundary.
pub open spec fn is_usage(e: SupervisorEvent) -> bool {
    e is CpuSample || e is Tick || e is RequestStarted || e is RequestFinished
}

/// Whether an event is a CPU sample or a tick.
pub open spec fn is_sample_or_tick(e: SupervisorEvent) -> bool {
    e is CpuSample || e is Tick
}

/// The CPU time an event reports.
pub open spec fn cpu_of(e: SupervisorEvent) -> int {
    match e {
        SupervisorEvent::CpuSample(d) => d as int,
        _ => 0,
    }
}

/// The CPU time a sequence of events reports in all.
pub open spec fn cpu_sum(evs: Seq<SupervisorEvent>) -> int
    decreases evs.len(),
{
    if evs.len() == 0 {
        0
    } else {
        cpu_sum(evs.drop_last()) + cpu_of(evs.last())
    }
}

/// Whether a sequence of events holds a CPU sample.
pub open spec fn sampled(evs: Seq<SupervisorEvent>) -> bool
    decreases evs.len(),
{
    if evs.len() == 0 {
        false
    } else {
        sampled(evs.drop_last()) || evs.last() is CpuSample
    }
}

/// Under the whole-lifetime policy with budget `budget`, over any run of CPU
/// samples, ticks and request starts and boundaries: before the first sample
/// the supervisor is idle; after it, it is terminating exactly when the
/// samples sum to at least the budget, and otherwise active with the sum as
/// the CPU time it has counted.
pub proof fn lemma_whole_lifetime_run(budget: u64, evs: Seq<SupervisorEvent>)
    requires
        forall|i: int| 0 <= i < evs.len() ==> is_usage(#[trigger] evs[i]),
    ensures
        ({
            let t = Supervisor::initial(SupervisorPolicy::PerWorker, budget).run(evs).0;
            &&& t.policy == SupervisorPolicy::PerWorker && t.budget == budget && !t.drain
            &&& !sampled(evs) ==> t.phase is Idle && t.used == 0 && t.total_used == 0 && cpu_sum(evs) == 0
            &&& sampled(evs) && cpu_sum(evs) < budget ==> t.phase is Active && t.used == cpu_sum(evs)
                && t.total_used == cpu_sum(evs)
            &&& sampled(evs) && cpu_sum(evs) >= budget ==> t.phase is Terminating
        }),
    decreases evs.len(),
{
    let s0 = Supervisor::initial(SupervisorPolicy::PerWorker, budget);
    if evs.len() > 0 {
        let pre = evs.drop_last();
        let e = evs.last();
        assert(evs =~= pre + seq![e]);
        assert forall|i: int| 0 <= i < pre.len() implies is_usage(#[trigger] pre[i]) by {
            assert(pre[i] == evs[i]);
        }
        assert(is_usage(evs[evs.len() - 1]));
        lemma_whole_lifetime_run(budget, pre);
        lemma_run_append(s0, pre, seq![e]);
        lemma_run_one(s0.run(pre).0, e);
    } else {
        assert(s0.run(evs).0 == s0);
    }
}

/// Under the whole-lifetime policy, the sample that first brings the sum to
/// the budget makes the supervisor terminate, whatever requests are in
/// flight, and the outcome it then reports is a budget shutdown carrying that
/// sum (held at `u64::MAX`).
pub proof fn lemma_whole_lifetime_crossing(budget: u64, evs: Seq<SupervisorEvent>, d: u64)
    requires
        forall|i: int| 0 <= i < evs.len() ==> is_usage(#[trigger] evs[i]),
        cpu_sum(evs) < budget,
        cpu_sum(evs) + d >= budget,
    ensures
        ({
            let t = Supervisor::initial(SupervisorPolicy::PerWorker, budget).run(
                evs + seq![SupervisorEvent::CpuSample(d)],
            ).0;
            &&& t.phase is Terminating
            &&& t.total_used == sat_add(cpu_sum(evs) as u64, d)
            &&& t.next(SupervisorEvent::Interrupted).1 == SupervisorAction::Report(
                TerminationOutcome::Shutdown {
                    reason: ShutdownReason::CpuBudgetExceeded,
                    cpu_time_used: sat_add(cpu_sum(evs) as u64, d),
                },
            )
        }),
{
    let s0 = Supervisor::initial(SupervisorPolicy::PerWorker, budget);
    lemma_whole_lifetime_run(budget, evs);
    lemma_run_append(s0, evs, seq![SupervisorEvent::CpuSample(d)]);
    lemma_run_one(s0.run(evs).0, SupervisorEvent::CpuSample(d));
}

/// Whether a per-request supervisor is between requests with a clean counter.
pub open spec fn between_requests(s: Supervisor, budget: u64) -> bool {
    &&& s.policy == SupervisorPolicy::PerRequest
    &&& s.budget == budget
    &&& s.is_live()
    &&& s.pending == 0
    &&& s.used == 0
    &&& !s.drain
}

proof fn lemma_within_request(s: Supervisor, evs: Seq<SupervisorEvent>)
    requires
        s.policy == SupervisorPolicy::PerRequest,
        s.is_live(),
        s.pending == 1,
        !s.drain,
        forall|i: int| 0 <= i < evs.len() ==> is_sample_or_tick(#[trigger] evs[i]),
        s.used + cpu_sum(evs) < s.budget,
    ensures
        ({
            let t = s.run(evs).0;
            &&& t.policy == s.policy && t.budget == s.budget
            &&& t.is_live() && t.pending == 1 && !t.drain
            &&& t.used == s.used + cpu_sum(evs)
        }),
    decreases evs.len(),
{
    if evs.len() > 0 {
        let pre = evs.drop_last();
        let e = evs.last();
        assert(evs =~= pre + seq![e]);
        assert forall|i: int| 0 <= i < pre.len() implies is_sample_or_tick(#[trigger] pre[i]) by {
            assert(pre[i] == evs[i]);
        }
        assert(is_sample_or_tick(evs[evs.len() - 1]));
        lemma_within_request(s, pre);
        lemma_run_append(s, pre, seq![e]);
        lemma_run_one(s.run(pre).0, e);
    } else {
        assert(s.run(evs).0 == s);
    }
}

/// One request: its start, its samples and ticks, and its boundary.
pub open spec fn request(evs: Seq<SupervisorEvent>) -> Seq<SupervisorEvent> {
    seq![SupervisorEvent::RequestStarted] + evs + seq![SupervisorEvent::RequestFinished]
}

/// Requests served one after another.
pub open spec fn requests(rs: Seq<Seq<SupervisorEvent>>) -> Seq<SupervisorEvent>
    decreases rs.len(),
{
    if rs.len() == 0 {
        Seq::empty()
    } else {
        requests(rs.drop_last()) + request(rs.last())
    }
}

/// Under the per-request policy, a request whose samples sum to less than the
/// budget leaves the supervisor between requests with its counter reset.
pub proof fn lemma_per_request_reset(s: Supervisor, evs: Seq<SupervisorEvent>)
    requires
        between_requests(s, s.budget),
        forall|i: int| 0 <= i < evs.len() ==> is_sample_or_tick(#[trigger] evs[i]),
        cpu_sum(evs) < s.budget,
    ensures
        between_requests(s.run(request(evs)).0, s.budget),
{
    let start = seq![SupervisorEvent::RequestStarted];
    let fin = seq![SupervisorEvent::RequestFinished];
    lemma_run_append(s, start + evs, fin);
    lemma_run_append(s, start, evs);
    lemma_run_one(s, SupervisorEvent::RequestStarted);
    let s1 = s.next(SupervisorEvent::RequestStarted).0;
    lemma_within_request(s1, evs);
    lemma_run_one(s1.run(evs).0, SupervisorEvent::RequestFinished);
}

/// Under the per-request policy, any number of requests served one after
/// another, each with samples summing to less than the budget, never bring
/// the supervisor to terminate, however much CPU time they use in all.
pub proof fn lemma_per_request_resets(budget: u64, rs: Seq<Seq<SupervisorEvent>>)
    requires
        forall|k: int, i: int|
            0 <= k < rs.len() && 0 <= i < rs[k].len() ==> is_sample_or_tick(#[trigger] rs[k][i]),
        forall|k: int| 0 <= k < rs.len() ==> cpu_sum(#[trigger] rs[k]) < budget,
    ensures
        between_requests(
            Supervisor::initial(SupervisorPolicy::PerRequest, budget).run(requests(rs)).0,
            budget,
        ),
    decreases rs.len(),
{
    let s0 = Supervisor::initial(SupervisorPolicy::PerRequest, budget);
    if rs.len() > 0 {
        let pre = rs.drop_last();
        let last = rs.last();
        assert forall|k: int, i: int| 0 <= k < pre.len() && 0 <= i < pre[k].len() implies
            is_sample_or_tick(#[trigger] pre[k][i]) by {
            assert(pre[k] == rs[k]);
        }
        assert forall|k: int| 0 <= k < pre.len() implies cpu_sum(#[trigger] pre[k]) < budget by {
            assert(pre[k] == rs[k]);
        }
        lemma_per_request_resets(budget, pre);
        lemma_run_append(s0, requests(pre), request(last));
        assert(cpu_sum(rs[rs.len() - 1]) < budget);
        assert forall|i: int| 0 <= i < last.len() implies is_sample_or_tick(#[trigger] last[i]) by {
            assert(rs[rs.len() - 1][i] == last[i]);
        }
        lemma_per_request_reset(s0.run(requests(pre)).0, last);
    } else {
        assert(s0.run(requests(rs)).0 == s0);
    }
}

/// Graceful drain under the per-request policy: a sample that brings a
/// request over the budget while other requests are pending only marks the
/// supervisor, and the boundary that leaves no request pending then makes it
/// terminate.
pub proof fn lemma_per_request_drain(s: Supervisor, d: u64)
    requires
        s.policy == SupervisorPolicy::PerRequest,
        s.is_live(),
        s.pending >= 2,
        sat_add(s.used, d) >= s.budget,
    ensures
        s.next(SupervisorEvent::CpuSample(d)).0.phase is Active,
        s.next(SupervisorEvent::CpuSample(d)).0.drain,
        s.next(SupervisorEvent::CpuSample(d)).1 == SupervisorAction::Nothing,
        forall|t: Supervisor|
            t.policy == SupervisorPolicy::PerRequest && t.phase is Active && t.drain && t.pending
                == 1 ==> #[trigger] t.next(SupervisorEvent::RequestFinished).0.phase is Terminating,
{
}

/// Under the per-request policy, one request that uses at least the budget,
/// started while no other request is pending, makes the supervisor terminate.
pub proof fn lemma_per_request_overrun(s: Supervisor, d: u64)
    requires
        s.policy == SupervisorPolicy::PerRequest,
        s.is_live(),
        s.pending == 0,
        d >= s.budget,
    ensures
        s.run(seq![SupervisorEvent::RequestStarted, SupervisorEvent::CpuSample(d)]).0.phase is Terminating,
{
    let e = seq![SupervisorEvent::RequestStarted, SupervisorEvent::CpuSample(d)];
    assert(e =~= seq![SupervisorEvent::RequestStarted] + seq![SupervisorEvent::CpuSample(d)]);
    lemma_run_append(s, seq![SupervisorEvent::RequestStarted], seq![SupervisorEvent::CpuSample(d)]);
    lemma_run_one(s, SupervisorEvent::RequestStarted);
    lemma_run_one(s.next(SupervisorEvent::RequestStarted).0, SupervisorEvent::CpuSample(d));
}

/// Raising the cancellation signal while a supervisor is active makes it
/// terminate at once, whatever CPU time it has counted.
pub proof fn lemma_cancel_terminates(s: Supervisor)
    requires
        s.phase is Active,
    ensures
        s.next(SupervisorEvent::Cancelled).0.phase is Terminating,
        s.next(SupervisorEvent::Cancelled).0.reason == ShutdownReason::Cancelled,
        s.next(SupervisorEvent::Cancelled).1 == SupervisorAction::Interrupt,
{
}

} // verus!
