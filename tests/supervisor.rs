use worker_core::supervisor::{
    Phase, ShutdownReason, Supervisor, SupervisorAction, SupervisorEvent, SupervisorPolicy,
    TerminationOutcome,
};

fn feed(s: &mut Supervisor, events: &[SupervisorEvent]) -> Vec<SupervisorAction> {
    events.iter().map(|e| s.step(*e)).collect()
}

#[test]
fn whole_lifetime_below_budget_keeps_running() {
    let mut s = Supervisor::new(SupervisorPolicy::PerWorker, 100);
    feed(&mut s, &[SupervisorEvent::CpuSample(60), SupervisorEvent::CpuSample(39)]);
    assert_eq!(s.phase(), Phase::Active);
    assert_eq!(s.step(SupervisorEvent::Tick), SupervisorAction::Nothing);
    assert_eq!(s.phase(), Phase::Active);
}

#[test]
fn whole_lifetime_at_budget_terminates() {
    let mut s = Supervisor::new(SupervisorPolicy::PerWorker, 100);
    assert_eq!(s.step(SupervisorEvent::CpuSample(60)), SupervisorAction::Nothing);
    assert_eq!(s.step(SupervisorEvent::CpuSample(40)), SupervisorAction::Interrupt);
    assert_eq!(s.phase(), Phase::Terminating);
    assert_eq!(
        s.step(SupervisorEvent::Interrupted),
        SupervisorAction::Report(TerminationOutcome::Shutdown {
            reason: ShutdownReason::CpuBudgetExceeded,
            cpu_time_used: 100,
        })
    );
}

#[test]
fn whole_lifetime_counts_across_requests() {
    let mut s = Supervisor::new(SupervisorPolicy::PerWorker, 10);
    for _ in 0..2 {
        feed(
            &mut s,
            &[
                SupervisorEvent::RequestStarted,
                SupervisorEvent::CpuSample(9),
                SupervisorEvent::RequestFinished,
            ],
        );
    }
    assert_eq!(s.phase(), Phase::Terminating);
}

#[test]
fn per_request_resets_at_each_boundary() {
    let mut s = Supervisor::new(SupervisorPolicy::PerRequest, 10);
    for _ in 0..50 {
        let acts = feed(
            &mut s,
            &[
                SupervisorEvent::RequestStarted,
                SupervisorEvent::CpuSample(9),
                SupervisorEvent::RequestFinished,
                SupervisorEvent::Tick,
            ],
        );
        assert!(acts.iter().all(|a| *a == SupervisorAction::Nothing));
    }
    assert_eq!(s.phase(), Phase::Active);
    assert_eq!(s.cpu_time_used(), 450);
}

#[test]
fn per_request_overrun_terminates() {
    let mut s = Supervisor::new(SupervisorPolicy::PerRequest, 10);
    feed(&mut s, &[SupervisorEvent::RequestStarted]);
    assert_eq!(s.step(SupervisorEvent::CpuSample(10)), SupervisorAction::Interrupt);
    assert_eq!(s.phase(), Phase::Terminating);
}

#[test]
fn per_request_overrun_drains_other_requests_first() {
    let mut s = Supervisor::new(SupervisorPolicy::PerRequest, 10);
    feed(&mut s, &[SupervisorEvent::RequestStarted, SupervisorEvent::RequestStarted]);
    assert_eq!(s.step(SupervisorEvent::CpuSample(12)), SupervisorAction::Nothing);
    assert_eq!(s.phase(), Phase::Active);
    assert_eq!(s.step(SupervisorEvent::RequestFinished), SupervisorAction::Nothing);
    assert_eq!(s.step(SupervisorEvent::RequestFinished), SupervisorAction::Interrupt);
    assert_eq!(s.phase(), Phase::Terminating);
}

#[test]
fn cancel_terminates_with_no_cpu_used() {
    let mut s = Supervisor::new(SupervisorPolicy::PerWorker, 1000);
    s.step(SupervisorEvent::CpuSample(0));
    assert_eq!(s.phase(), Phase::Active);
    assert_eq!(s.step(SupervisorEvent::Cancelled), SupervisorAction::Interrupt);
    assert_eq!(s.phase(), Phase::Terminating);
    assert_eq!(
        s.step(SupervisorEvent::Completed),
        SupervisorAction::Report(TerminationOutcome::Shutdown {
            reason: ShutdownReason::Cancelled,
            cpu_time_used: 0,
        })
    );
}

#[test]
fn second_trigger_after_report_is_ignored() {
    let mut s = Supervisor::new(SupervisorPolicy::PerWorker, 5);
    s.step(SupervisorEvent::CpuSample(3));
    assert_eq!(
        s.step(SupervisorEvent::UncaughtFault),
        SupervisorAction::Report(TerminationOutcome::UncaughtException { cpu_time_used: 3 })
    );
    let acts = feed(
        &mut s,
        &[
            SupervisorEvent::Completed,
            SupervisorEvent::Cancelled,
            SupervisorEvent::CpuSample(100),
            SupervisorEvent::UncaughtFault,
            SupervisorEvent::Interrupted,
        ],
    );
    assert!(acts.iter().all(|a| *a == SupervisorAction::Nothing));
    assert_eq!(s.phase(), Phase::Reported);
}

#[test]
fn engine_completion_reports_shutdown() {
    let mut s = Supervisor::new(SupervisorPolicy::PerRequest, 50);
    feed(&mut s, &[SupervisorEvent::CpuSample(7), SupervisorEvent::CpuSample(8)]);
    assert_eq!(
        s.step(SupervisorEvent::Completed),
        SupervisorAction::Report(TerminationOutcome::Shutdown {
            reason: ShutdownReason::EngineFinished,
            cpu_time_used: 15,
        })
    );
}

#[test]
fn samples_saturate_instead_of_overflowing() {
    let mut s = Supervisor::new(SupervisorPolicy::PerWorker, u64::MAX);
    s.step(SupervisorEvent::CpuSample(u64::MAX - 1));
    assert_eq!(s.phase(), Phase::Active);
    assert_eq!(s.step(SupervisorEvent::CpuSample(5)), SupervisorAction::Interrupt);
    assert_eq!(s.cpu_time_used(), u64::MAX);
}

#[test]
fn outcome_cpu_time() {
    assert_eq!(TerminationOutcome::BootFailure.cpu_time_used(), None);
    assert_eq!(
        TerminationOutcome::UncaughtException { cpu_time_used: 4 }.cpu_time_used(),
        Some(4)
    );
    assert_eq!(SupervisorPolicy::default_policy(), SupervisorPolicy::PerWorker);
}

#[test]
fn refused_interrupt_reports_at_once() {
    let mut s = Supervisor::new(SupervisorPolicy::PerWorker, 5);
    assert_eq!(s.step(SupervisorEvent::InterruptRefused), SupervisorAction::Nothing);
    assert_eq!(s.step(SupervisorEvent::CpuSample(6)), SupervisorAction::Interrupt);
    assert_eq!(
        s.step(SupervisorEvent::InterruptRefused),
        SupervisorAction::Report(TerminationOutcome::Shutdown {
            reason: ShutdownReason::CpuBudgetExceeded,
            cpu_time_used: 6,
        })
    );
    assert_eq!(s.phase(), Phase::Reported);
}

#[test]
fn whole_lifetime_with_ticks_and_requests_between_samples() {
    let mut s = Supervisor::new(SupervisorPolicy::PerWorker, 10);
    feed(
        &mut s,
        &[
            SupervisorEvent::Tick,
            SupervisorEvent::RequestStarted,
            SupervisorEvent::CpuSample(4),
            SupervisorEvent::Tick,
            SupervisorEvent::RequestFinished,
            SupervisorEvent::CpuSample(5),
            SupervisorEvent::Tick,
        ],
    );
    assert_eq!(s.phase(), Phase::Active);
    assert_eq!(s.step(SupervisorEvent::CpuSample(1)), SupervisorAction::Interrupt);
    assert_eq!(
        s.step(SupervisorEvent::Interrupted),
        SupervisorAction::Report(TerminationOutcome::Shutdown {
            reason: ShutdownReason::CpuBudgetExceeded,
            cpu_time_used: 10,
        })
    );
}
