use vstd::prelude::*;

use crate::supervisor::{SupervisorPolicy, TerminationOutcome};

verus! {

/// What a worker is built from: which endpoints its configuration carries and
/// whether it runs tenant code.
#[derive(Clone, Debug)]
pub struct WorkerConf {
    /// The worker's identity. A worker is tenant-isolated, and runs under a
    /// supervisor, exactly when it has one; a privileged system worker has none.
    pub worker_key: Option<u128>,
    /// Whether an event sink is configured.
    pub has_events_sink: bool,
    /// Whether a pool-notification endpoint is configured.
    pub has_pool_sink: bool,
    /// Whether a shared cancellation signal is configured.
    pub has_cancel: bool,
    pub thread_name: String,
}

/// The record of one worker, cheap to clone into the tasks that serve it.
#[derive(Clone, Debug)]
pub struct Worker {
    /// When booting began, on the runtime's monotonic clock.
    pub worker_boot_start_time: u64,
    pub has_events_sink: bool,
    pub has_pool_sink: bool,
    pub has_cancel: bool,
    pub worker_key: Option<u128>,
    pub supervisor_policy: Option<SupervisorPolicy>,
    pub thread_name: String,
}

/// Where a worker stands in its life.
#[derive(Clone, Copy, Debug, PartialEq, Eq, Structural)]
pub enum LifecyclePhase {
    Booting,
    /// Booted; the tenant worker's supervisor is being attached.
    Attaching,
    Running,
    Finished,
}

/// What the runtime driving a worker observes.
#[derive(Clone, Copy, Debug, PartialEq, Eq, Structural)]
pub enum WorkerEvent {
    /// The engine finished booting.
    BootSucceeded,
    /// The supervisor was attached and its guard is held.
    SupervisorAttached,
    /// The supervisor could not be created.
    SupervisorFailed,
    /// The engine failed to boot; the error hook's outcome, or `None` if the hook failed.
    BootFailed(Option<TerminationOutcome>),
    /// The completion routine returned its outcome, or `None` if it failed.
    Finished(Option<TerminationOutcome>),
}

/// What the runtime must do, in order, after an event.
#[derive(Clone, Copy, Debug, PartialEq, Eq, Structural)]
pub enum WorkerAction {
    /// Send success or failure through the boot signal.
    SignalBoot(bool),
    /// Create the supervisor for this identity under this policy, keeping its guard alive.
    AttachSupervisor(u128, SupervisorPolicy),
    /// Hand the connection stream to the engine and await the completion routine.
    RunEngine,
    /// Record the CPU time the outcome carries, for diagnostics.
    RecordCpuTime(u64),
    /// Push the outcome to the event sink, tagged with the worker's metadata.
    ForwardEvent(TerminationOutcome),
    /// Log that the worker ended with an error and no outcome.
    LogError,
    /// Send `Shutdown(identity)` to the pool registry; a failed send is only logged.
    NotifyPoolShutdown(u128),
}

/// The lifecycle of one started worker, as a state machine driven by events.
#[derive(Clone, Copy, Debug)]
pub struct WorkerLifecycle {
    pub worker_key: Option<u128>,
    pub has_events_sink: bool,
    pub has_pool_sink: bool,
    pub policy: SupervisorPolicy,
    pub phase: LifecyclePhase,
}

pub open spec fn is_notify(a: WorkerAction) -> bool {
    a is NotifyPoolShutdown
}

pub open spec fn is_forward(a: WorkerAction) -> bool {
    a is ForwardEvent
}

/// How many actions of a sequence satisfy `f`.
pub open spec fn count_where(acts: Seq<WorkerAction>, f: spec_fn(WorkerAction) -> bool) -> nat
    decreases acts.len(),
{
    if acts.len() == 0 {
        0
    } else {
        (if f(acts[0]) {
            1nat
        } else {
            0nat
        }) + count_where(acts.drop_first(), f)
    }
}

impl Worker {
    /// Whether the worker is tenant-isolated: exactly when it has an identity.
    pub fn is_user_worker(&self) -> (r: bool)
        ensures
            r == self.worker_key is Some,
    {
        self.worker_key.is_some()
    }

    /// A worker record for this configuration, with no supervisor policy chosen yet.
    pub fn new(conf: &WorkerConf, worker_boot_start_time: u64) -> (r: Worker)
        ensures
            r.worker_boot_start_time == worker_boot_start_time,
            r.has_events_sink == conf.has_events_sink,
            r.has_pool_sink == conf.has_pool_sink,
            r.has_cancel == conf.has_cancel,
            r.worker_key == conf.worker_key,
            r.supervisor_policy.is_none(),
            r.thread_name@ == conf.thread_name@,
    {
        Worker {
            worker_boot_start_time,
            has_events_sink: conf.has_events_sink,
            has_pool_sink: conf.has_pool_sink,
            has_cancel: conf.has_cancel,
            worker_key: conf.worker_key,
            supervisor_policy: None,
            thread_name: conf.thread_name.clone(),
        }
    }

    pub fn set_supervisor_policy(&mut self, supervisor_policy: Option<SupervisorPolicy>)
        ensures
            final(self).supervisor_policy == supervisor_policy,
            final(self).worker_boot_start_time == old(self).worker_boot_start_time,
            final(self).has_events_sink == old(self).has_events_sink,
            final(self).has_pool_sink == old(self).has_pool_sink,
            final(self).has_cancel == old(self).has_cancel,
            final(self).worker_key == old(self).worker_key,
            final(self).thread_name == old(self).thread_name,
    {
        self.supervisor_policy = supervisor_policy;
    }

    pub open spec fn lifecycle(self) -> WorkerLifecycle {
        WorkerLifecycle {
            worker_key: self.worker_key,
            has_events_sink: self.has_events_sink,
            has_pool_sink: self.has_pool_sink,
            policy: match self.supervisor_policy {
                Some(p) => p,
                None => SupervisorPolicy::PerWorker,
            },
            phase: LifecyclePhase::Booting,
        }
    }

    /// Starts the lifecycle of this worker: the returned state machine is
    /// booting, and takes the policy chosen for the worker, or the default one.
    pub fn start(&self) -> (r: WorkerLifecycle)
        ensures
            r == self.lifecycle(),
    {
        let policy = match self.supervisor_policy {
            Some(p) => p,
            None => SupervisorPolicy::default_policy(),
        };
        WorkerLifecycle {
            worker_key: self.worker_key,
            has_events_sink: self.has_events_sink,
            has_pool_sink: self.has_pool_sink,
            policy,
            phase: LifecyclePhase::Booting,
        }
    }
}

impl WorkerLifecycle {
    /// Whether this worker ends by telling the pool that it shut down.
    pub open spec fn notifies_pool(self) -> bool {
        self.worker_key is Some && self.has_pool_sink
    }

    /// What is done with the outcome, or with its absence.
    pub open spec fn handle_outcome(self, outcome: Option<TerminationOutcome>) -> Seq<WorkerAction> {
        match outcome {
            Some(o) => (match o.spec_cpu_time_used() {
                Some(c) => seq![WorkerAction::RecordCpuTime(c)],
                None => Seq::empty(),
            }) + (if self.has_events_sink {
                seq![WorkerAction::ForwardEvent(o)]
            } else {
                Seq::empty()
            }),
            None => seq![WorkerAction::LogError],
        }
    }

    /// The pool notification that closes the worker's life, if it has one.
    pub open spec fn pool_notice(self) -> Seq<WorkerAction> {
        if self.notifies_pool() {
            seq![WorkerAction::NotifyPoolShutdown(self.worker_key.unwrap())]
        } else {
            Seq::empty()
        }
    }

    pub open spec fn finish(self, outcome: Option<TerminationOutcome>) -> Seq<WorkerAction> {
        self.handle_outcome(outcome) + self.pool_notice()
    }

    /// The actions that start a booted engine: a tenant worker first gets
    /// its supervisor, a system worker runs at once.
    pub open spec fn boot_actions(self) -> Seq<WorkerAction> {
        match self.worker_key {
            Some(k) => seq![
                WorkerAction::SignalBoot(true),
                WorkerAction::AttachSupervisor(k, self.policy),
            ],
            None => seq![WorkerAction::SignalBoot(true), WorkerAction::RunEngine],
        }
    }

    /// The state and actions that follow one event. Events that come out of
    /// order are ignored, and a finished worker ignores everything.
    pub open spec fn next(self, e: WorkerEvent) -> (WorkerLifecycle, Seq<WorkerAction>) {
        match (self.phase, e) {
            (LifecyclePhase::Booting, WorkerEvent::BootSucceeded) => (
                WorkerLifecycle {
                    phase: if self.worker_key is Some {
                        LifecyclePhase::Attaching
                    } else {
                        LifecyclePhase::Running
                    },
                    ..self
                },
                self.boot_actions(),
            ),
            (LifecyclePhase::Attaching, WorkerEvent::SupervisorAttached) => (
                WorkerLifecycle { phase: LifecyclePhase::Running, ..self },
                seq![WorkerAction::RunEngine],
            ),
            (LifecyclePhase::Attaching, WorkerEvent::SupervisorFailed) => (
                WorkerLifecycle { phase: LifecyclePhase::Finished, ..self },
                self.finish(None),
            ),
            (LifecyclePhase::Booting, WorkerEvent::BootFailed(o)) => (
                WorkerLifecycle { phase: LifecyclePhase::Finished, ..self },
                seq![WorkerAction::SignalBoot(false)] + self.finish(o),
            ),
            (LifecyclePhase::Running, WorkerEvent::Finished(o)) => (
                WorkerLifecycle { phase: LifecyclePhase::Finished, ..self },
                self.finish(o),
            ),
            _ => (self, Seq::empty()),
        }
    }

    /// The final state and all actions after a sequence of events.
    pub open spec fn run(self, events: Seq<WorkerEvent>) -> (WorkerLifecycle, Seq<WorkerAction>)
        decreases events.len(),
    {
        if events.len() == 0 {
            (self, Seq::empty())
        } else {
            let (w1, a) = self.next(events[0]);
            let (w2, rest) = w1.run(events.drop_first());
            (w2, a + rest)
        }
    }

    pub fn phase(&self) -> (r: LifecyclePhase)
        ensures
            r == self.phase,
    {
        self.phase
    }

    fn push_finish(&self, acts: &mut Vec<WorkerAction>, outcome: Option<TerminationOutcome>)
        ensures
            final(acts)@ == old(acts)@ + self.finish(outcome),
    {
        let ghost start = acts@;
        match outcome {
            Some(o) => {
                match o.cpu_time_used() {
                    Some(c) => acts.push(WorkerAction::RecordCpuTime(c)),
                    None => {},
                }
                if self.has_events_sink {
                    acts.push(WorkerAction::ForwardEvent(o));
                }
            },
            None => acts.push(WorkerAction::LogError),
        }
        assert(acts@ =~= start + self.handle_outcome(outcome));
        let ghost mid = acts@;
        match self.worker_key {
            Some(k) => {
                if self.has_pool_sink {
                    acts.push(WorkerAction::NotifyPoolShutdown(k));
                }
            },
            None => {},
        }
        assert(acts@ =~= mid + self.pool_notice());
        assert(acts@ =~= start + self.finish(outcome));
    }

    /// Takes in one event and returns what the runtime must do, in order.
    pub fn step(&mut self, e: WorkerEvent) -> (r: Vec<WorkerAction>)
        ensures
            (*final(self), r@) == old(self).next(e),
    {
        let mut acts: Vec<WorkerAction> = Vec::new();
        match (self.phase, e) {
            (LifecyclePhase::Booting, WorkerEvent::BootSucceeded) => {
                acts.push(WorkerAction::SignalBoot(true));
                match self.worker_key {
                    Some(k) => {
                        acts.push(WorkerAction::AttachSupervisor(k, self.policy));
                        self.phase = LifecyclePhase::Attaching;
                    },
                    None => {
                        acts.push(WorkerAction::RunEngine);
                        self.phase = LifecyclePhase::Running;
                    },
                }
                assert(acts@ =~= self.boot_actions());
            },
            (LifecyclePhase::Attaching, WorkerEvent::SupervisorAttached) => {
                acts.push(WorkerAction::RunEngine);
                assert(acts@ =~= seq![WorkerAction::RunEngine]);
                self.phase = LifecyclePhase::Running;
            },
            (LifecyclePhase::Attaching, WorkerEvent::SupervisorFailed) => {
                self.push_finish(&mut acts, None);
                self.phase = LifecyclePhase::Finished;
            },
            (LifecyclePhase::Booting, WorkerEvent::BootFailed(o)) => {
                acts.push(WorkerAction::SignalBoot(false));
                self.push_finish(&mut acts, o);
                self.phase = LifecyclePhase::Finished;
            },
            (LifecyclePhase::Running, WorkerEvent::Finished(o)) => {
                self.push_finish(&mut acts, o);
                self.phase = LifecyclePhase::Finished;
            },
            _ => {
                assert(acts@ =~= Seq::<WorkerAction>::empty());
            },
        }
        acts
    }
}

/// How many pool notifications a sequence of actions sends.
pub open spec fn notices(acts: Seq<WorkerAction>) -> nat {
    count_where(acts, |a: WorkerAction| is_notify(a))
}

/// How many events a sequence of actions pushes to the event sink.
pub open spec fn forwards(acts: Seq<WorkerAction>) -> nat {
    count_where(acts, |a: WorkerAction| is_forward(a))
}

proof fn lemma_count_append(a: Seq<WorkerAction>, b: Seq<WorkerAction>, f: spec_fn(WorkerAction) -> bool)
    ensures
        count_where(a + b, f) == count_where(a, f) + count_where(b, f),
    decreases a.len(),
{
    if a.len() == 0 {
        assert(a + b =~= b);
    } else {
        assert((a + b).drop_first() =~= a.drop_first() + b);
        lemma_count_append(a.drop_first(), b, f);
    }
}

proof fn lemma_count_one(x: WorkerAction, f: spec_fn(WorkerAction) -> bool)
    ensures
        count_where(seq![x], f) == (if f(x) {
            1nat
        } else {
            0nat
        }),
{
    assert(seq![x].drop_first() =~= Seq::<WorkerAction>::empty());
    assert(count_where(seq![x].drop_first(), f) == 0);
}

proof fn lemma_finish_counts(w: WorkerLifecycle, o: Option<TerminationOutcome>)
    ensures
        notices(w.handle_outcome(o)) == 0,
        notices(w.pool_notice()) == (if w.notifies_pool() {
            1nat
        } else {
            0nat
        }),
        notices(w.finish(o)) == notices(w.pool_notice()),
        notices(w.finish(o)) == 1 ==> w.finish(o).len() > 0 && is_notify(w.finish(o).last()),
        forwards(w.finish(o)) == (if w.has_events_sink && o is Some {
            1nat
        } else {
            0nat
        }),
        forall|i: int|
            0 <= i < w.finish(o).len() && is_forward(#[trigger] w.finish(o)[i]) ==> o is Some
                && w.finish(o)[i] == WorkerAction::ForwardEvent(o.unwrap()),
{
    let fnot = |a: WorkerAction| is_notify(a);
    let ffwd = |a: WorkerAction| is_forward(a);
    let e = Seq::<WorkerAction>::empty();
    match o {
        Some(oo) => {
            let rec: Seq<WorkerAction> = match oo.spec_cpu_time_used() {
                Some(c) => seq![WorkerAction::RecordCpuTime(c)],
                None => e,
            };
            let fwd: Seq<WorkerAction> = if w.has_events_sink {
                seq![WorkerAction::ForwardEvent(oo)]
            } else {
                e
            };
            lemma_count_append(rec, fwd, fnot);
            lemma_count_append(rec, fwd, ffwd);
            match oo.spec_cpu_time_used() {
                Some(c) => {
                    lemma_count_one(WorkerAction::RecordCpuTime(c), fnot);
                    lemma_count_one(WorkerAction::RecordCpuTime(c), ffwd);
                },
                None => {},
            }
            if w.has_events_sink {
                lemma_count_one(WorkerAction::ForwardEvent(oo), fnot);
                lemma_count_one(WorkerAction::ForwardEvent(oo), ffwd);
            }
        },
        None => {
            lemma_count_one(WorkerAction::LogError, fnot);
            lemma_count_one(WorkerAction::LogError, ffwd);
        },
    }
    if w.notifies_pool() {
        lemma_count_one(WorkerAction::NotifyPoolShutdown(w.worker_key.unwrap()), fnot);
        lemma_count_one(WorkerAction::NotifyPoolShutdown(w.worker_key.unwrap()), ffwd);
    }
    lemma_count_append(w.handle_outcome(o), w.pool_notice(), fnot);
    lemma_count_append(w.handle_outcome(o), w.pool_notice(), ffwd);
}

proof fn lemma_next_notices(w: WorkerLifecycle, e: WorkerEvent)
    ensures
        ({
            let (w1, a) = w.next(e);
            &&& w.phase is Finished ==> w1 == w && a.len() == 0
            &&& w1.worker_key == w.worker_key && w1.has_pool_sink == w.has_pool_sink
            &&& notices(a) == (if !(w.phase is Finished) && w1.phase is Finished && w.notifies_pool() {
                1nat
            } else {
                0nat
            })
            &&& notices(a) == 1 ==> a.len() > 0 && is_notify(a.last())
        }),
{
    let fnot = |a: WorkerAction| is_notify(a);
    match (w.phase, e) {
        (LifecyclePhase::Booting, WorkerEvent::BootSucceeded) => {
            let a = w.boot_actions();
            assert(a =~= seq![a[0]] + seq![a[1]]);
            lemma_count_one(a[0], fnot);
            lemma_count_one(a[1], fnot);
            lemma_count_append(seq![a[0]], seq![a[1]], fnot);
        },
        (LifecyclePhase::Attaching, WorkerEvent::SupervisorAttached) => {
            lemma_count_one(WorkerAction::RunEngine, fnot);
        },
        (LifecyclePhase::Attaching, WorkerEvent::SupervisorFailed) => {
            lemma_finish_counts(w, None);
        },
        (LifecyclePhase::Booting, WorkerEvent::BootFailed(o)) => {
            lemma_finish_counts(w, o);
            lemma_count_one(WorkerAction::SignalBoot(false), fnot);
            lemma_count_append(seq![WorkerAction::SignalBoot(false)], w.finish(o), fnot);
        },
        (LifecyclePhase::Running, WorkerEvent::Finished(o)) => {
            lemma_finish_counts(w, o);
        },
        _ => {},
    }
}

/// The pool hears of a worker's end once, and last: over any sequence of
/// events, a worker with an identity and a pool endpoint sends
/// `Shutdown(identity)` exactly once if it finishes and never otherwise, and
/// that notice is the last action of its life, after the outcome was handled.
pub proof fn lemma_pool_notified_last(w: WorkerLifecycle, events: Seq<WorkerEvent>)
    ensures
        ({
            let (t, acts) = w.run(events);
            &&& w.phase is Finished ==> t == w && acts.len() == 0
            &&& t.worker_key == w.worker_key && t.has_pool_sink == w.has_pool_sink
            &&& notices(acts) == (if !(w.phase is Finished) && t.phase is Finished && w.notifies_pool() {
                1nat
            } else {
                0nat
            })
            &&& notices(acts) == 1 ==> acts.len() > 0 && is_notify(acts.last())
        }),
    decreases events.len(),
{
    if events.len() > 0 {
        let (w1, a) = w.next(events[0]);
        let rest = events.drop_first();
        lemma_next_notices(w, events[0]);
        lemma_pool_notified_last(w1, rest);
        let (t, racts) = w1.run(rest);
        lemma_count_append(a, racts, |x: WorkerAction| is_notify(x));
        if notices(a) == 1 {
            assert(racts.len() == 0);
            assert(a + racts =~= a);
        } else if notices(racts) == 1 {
            assert((a + racts).last() == racts.last());
        }
    }
}

/// A boot failure sends an error through the boot signal first, pushes the
/// outcome of the error hook to the event sink exactly once if one is
/// configured, and still ends with `Shutdown(identity)` to the pool where the
/// worker has an identity and a pool endpoint.
pub proof fn lemma_boot_failure_reported(w: Worker, o: TerminationOutcome)
    ensures
        ({
            let (t, acts) = w.lifecycle().next(WorkerEvent::BootFailed(Some(o)));
            &&& t.phase is Finished
            &&& acts.len() > 0 && acts[0] == WorkerAction::SignalBoot(false)
            &&& forwards(acts) == (if w.has_events_sink {
                1nat
            } else {
                0nat
            })
            &&& forall|i: int|
                0 <= i < acts.len() && is_forward(#[trigger] acts[i]) ==> acts[i]
                    == WorkerAction::ForwardEvent(o)
            &&& notices(acts) == (if w.worker_key is Some && w.has_pool_sink {
                1nat
            } else {
                0nat
            })
            &&& notices(acts) == 1 ==> acts.last() == WorkerAction::NotifyPoolShutdown(
                w.worker_key.unwrap(),
            )
        }),
{
    let l = w.lifecycle();
    let oo = Some(o);
    lemma_finish_counts(l, oo);
    let head = seq![WorkerAction::SignalBoot(false)];
    let ffwd = |a: WorkerAction| is_forward(a);
    lemma_count_one(WorkerAction::SignalBoot(false), ffwd);
    lemma_count_append(head, l.finish(oo), ffwd);
    lemma_next_notices(l, WorkerEvent::BootFailed(oo));
    let acts = head + l.finish(oo);
    assert forall|i: int| 0 <= i < acts.len() && is_forward(#[trigger] acts[i]) implies acts[i]
        == WorkerAction::ForwardEvent(o) by {
        if i > 0 {
            assert(acts[i] == l.finish(oo)[i - 1]);
        }
    }
    if l.notifies_pool() {
        assert(l.finish(oo) =~= l.handle_outcome(oo) + seq![
            WorkerAction::NotifyPoolShutdown(w.worker_key.unwrap()),
        ]);
    }
}

} // verus!
