use worker_core::supervisor::{ShutdownReason, SupervisorPolicy, TerminationOutcome};
use worker_core::worker::{LifecyclePhase, Worker, WorkerAction, WorkerConf, WorkerEvent};

fn conf(key: Option<u128>, sink: bool, pool: bool) -> WorkerConf {
    WorkerConf {
        worker_key: key,
        has_events_sink: sink,
        has_pool_sink: pool,
        has_cancel: true,
        thread_name: String::from("sb-user"),
    }
}

#[test]
fn new_worker_copies_configuration() {
    let w = Worker::new(&conf(Some(7), true, false), 123);
    assert_eq!(w.worker_key, Some(7));
    assert!(w.is_user_worker());
    assert!(!Worker::new(&conf(None, true, true), 0).is_user_worker());
    assert!(w.has_events_sink);
    assert!(!w.has_pool_sink);
    assert_eq!(w.supervisor_policy, None);
    assert_eq!(w.worker_boot_start_time, 123);
    assert_eq!(w.thread_name, "sb-user");
}

#[test]
fn boot_failure_signals_error_reports_once_and_notifies_pool() {
    let w = Worker::new(&conf(Some(42), true, true), 0);
    let mut l = w.start();
    let acts = l.step(WorkerEvent::BootFailed(Some(TerminationOutcome::BootFailure)));
    assert_eq!(
        acts,
        vec![
            WorkerAction::SignalBoot(false),
            WorkerAction::ForwardEvent(TerminationOutcome::BootFailure),
            WorkerAction::NotifyPoolShutdown(42),
        ]
    );
    assert_eq!(l.phase(), LifecyclePhase::Finished);
}

#[test]
fn boot_failure_without_sink_or_identity() {
    let w = Worker::new(&conf(None, false, true), 0);
    let mut l = w.start();
    let acts = l.step(WorkerEvent::BootFailed(Some(TerminationOutcome::BootFailure)));
    assert_eq!(acts, vec![WorkerAction::SignalBoot(false)]);
}

#[test]
fn boot_failure_with_failed_hook_logs_and_still_notifies() {
    let w = Worker::new(&conf(Some(9), true, true), 0);
    let mut l = w.start();
    let acts = l.step(WorkerEvent::BootFailed(None));
    assert_eq!(
        acts,
        vec![
            WorkerAction::SignalBoot(false),
            WorkerAction::LogError,
            WorkerAction::NotifyPoolShutdown(9),
        ]
    );
}

#[test]
fn user_worker_gets_a_supervisor_and_notifies_last() {
    let mut w = Worker::new(&conf(Some(5), true, true), 0);
    w.set_supervisor_policy(Some(SupervisorPolicy::PerRequest));
    let mut l = w.start();
    assert_eq!(
        l.step(WorkerEvent::BootSucceeded),
        vec![
            WorkerAction::SignalBoot(true),
            WorkerAction::AttachSupervisor(5, SupervisorPolicy::PerRequest),
        ]
    );
    assert_eq!(l.phase(), LifecyclePhase::Attaching);
    assert_eq!(l.step(WorkerEvent::SupervisorAttached), vec![WorkerAction::RunEngine]);
    assert_eq!(l.phase(), LifecyclePhase::Running);
    let outcome = TerminationOutcome::Shutdown {
        reason: ShutdownReason::EngineFinished,
        cpu_time_used: 31,
    };
    assert_eq!(
        l.step(WorkerEvent::Finished(Some(outcome))),
        vec![
            WorkerAction::RecordCpuTime(31),
            WorkerAction::ForwardEvent(outcome),
            WorkerAction::NotifyPoolShutdown(5),
        ]
    );
    assert!(l.step(WorkerEvent::Finished(Some(outcome))).is_empty());
    assert!(l.step(WorkerEvent::BootSucceeded).is_empty());
}

#[test]
fn system_worker_runs_without_supervisor_under_default_policy() {
    let w = Worker::new(&conf(None, false, false), 0);
    let mut l = w.start();
    assert_eq!(l.policy, SupervisorPolicy::PerWorker);
    assert_eq!(
        l.step(WorkerEvent::BootSucceeded),
        vec![WorkerAction::SignalBoot(true), WorkerAction::RunEngine]
    );
    assert_eq!(l.step(WorkerEvent::Finished(None)), vec![WorkerAction::LogError]);
}

#[test]
fn events_out_of_order_are_ignored() {
    let w = Worker::new(&conf(Some(1), true, true), 0);
    let mut l = w.start();
    assert!(l.step(WorkerEvent::Finished(None)).is_empty());
    assert_eq!(l.phase(), LifecyclePhase::Booting);
}

#[test]
fn failed_supervisor_ends_the_worker_and_notifies_pool() {
    let w = Worker::new(&conf(Some(11), true, true), 0);
    let mut l = w.start();
    l.step(WorkerEvent::BootSucceeded);
    assert!(l.step(WorkerEvent::Finished(None)).is_empty());
    assert_eq!(
        l.step(WorkerEvent::SupervisorFailed),
        vec![WorkerAction::LogError, WorkerAction::NotifyPoolShutdown(11)]
    );
    assert_eq!(l.phase(), LifecyclePhase::Finished);
    assert!(l.step(WorkerEvent::SupervisorAttached).is_empty());
}

#[test]
fn system_worker_ignores_supervisor_events() {
    let w = Worker::new(&conf(None, true, true), 0);
    let mut l = w.start();
    l.step(WorkerEvent::BootSucceeded);
    assert_eq!(l.phase(), LifecyclePhase::Running);
    assert!(l.step(WorkerEvent::SupervisorFailed).is_empty());
    assert_eq!(l.phase(), LifecyclePhase::Running);
}
