use frpc_supervisor::discovery::{discover, WorkerSpec};
use frpc_supervisor::lifecycle::{ControlEvent, HandlerResult, LifecycleAdapter, ServiceStatus};
use frpc_supervisor::supervisor::{
    LoopState, Supervisor, TickDirective, WorkerDirective,
};
use frpc_supervisor::worker::{validate_launch, PollEvent, PollStatus, WorkerHandle};
use frpc_supervisor::SupervisorError;

fn params(id: &str) -> WorkerSpec {
    WorkerSpec {
        identity: id.to_string(),
        exe_file: format!("frpc@{}.exe", id),
        config_file: format!("{}.toml", id),
    }
}

fn running_pair() -> Supervisor {
    let mut sup = Supervisor::new(3);
    sup.record_launch(WorkerHandle::after_spawn(params("a"), true).unwrap());
    sup.record_launch(WorkerHandle::after_spawn(params("b"), true).unwrap());
    assert!(sup.finish_init().is_ok());
    assert_eq!(sup.state, LoopState::Running);
    sup
}

#[test]
fn validate_launch_reports_each_missing_path() {
    assert_eq!(validate_launch(false, true), Err(SupervisorError::MissingExecutable));
    assert_eq!(validate_launch(false, false), Err(SupervisorError::MissingExecutable));
    assert_eq!(validate_launch(true, false), Err(SupervisorError::MissingConfig));
    assert_eq!(validate_launch(true, true), Ok(()));
}

#[test]
fn failed_spawn_is_a_launch_failure() {
    match WorkerHandle::after_spawn(params("a"), false) {
        Err(e) => assert_eq!(e, SupervisorError::LaunchFailure),
        Ok(_) => panic!("spawn failure must not produce a handle"),
    }
}

#[test]
fn successful_spawn_keeps_the_launch_parameters() {
    let h = WorkerHandle::after_spawn(params("a"), true).unwrap();
    assert!(h.live);
    assert_eq!(h.params.identity, "a");
    assert_eq!(h.params.exe_file, "frpc@a.exe");
    assert_eq!(h.params.config_file, "a.toml");
}

#[test]
fn poll_reports_still_running_while_alive() {
    let mut h = WorkerHandle::after_spawn(params("a"), true).unwrap();
    assert_eq!(h.poll(PollEvent::StillAlive), PollStatus::StillRunning);
    assert!(h.live);
    assert_eq!(h.poll(PollEvent::StillAlive), PollStatus::StillRunning);
    assert!(h.live);
}

#[test]
fn poll_reports_the_exit_status_once_exited() {
    let mut h = WorkerHandle::after_spawn(params("a"), true).unwrap();
    assert_eq!(h.poll(PollEvent::ExitObserved(7)), PollStatus::Exited(7));
    assert!(!h.live);
}

#[test]
fn stop_retires_the_handle_even_on_failure() {
    let mut h = WorkerHandle::after_spawn(params("a"), true).unwrap();
    assert_eq!(h.stop(false), Err(SupervisorError::StopFailure));
    assert!(!h.live);
    let mut h2 = WorkerHandle::after_spawn(params("b"), true).unwrap();
    assert_eq!(h2.stop(true), Ok(()));
    assert!(!h2.live);
}

#[test]
fn zero_specs_stops_with_no_workers_error() {
    let files: Vec<String> = Vec::new();
    let out = discover(&files);
    assert!(out.specs.is_empty());

    let mut sup = Supervisor::new(3);
    let r = sup.finish_init();
    assert_eq!(r, Err(SupervisorError::NoWorkersAvailable));
    assert_eq!(sup.state, LoopState::Stopped);

    let mut adapter = LifecycleAdapter::new();
    assert_eq!(adapter.status, ServiceStatus::StartPending);
    let code = adapter.report_stopped(r);
    assert_eq!(code, 1);
    assert_eq!(adapter.status, ServiceStatus::Stopped);
}

#[test]
fn budget_of_three_abandons_on_fourth_exit() {
    let mut sup = running_pair();
    for exit_n in 1u32..=3u32 {
        assert_eq!(sup.begin_tick(), TickDirective::PollWorkers);
        let d = sup.observe_worker(0, PollEvent::ExitObserved(1));
        assert_eq!(d, WorkerDirective::AttemptRestart);
        assert_eq!(sup.workers[0].restarts, exit_n);
        assert!(!sup.workers[0].abandoned);
        sup.record_restart(0, true);
        assert!(sup.workers[0].handle.live);
        assert_eq!(sup.observe_worker(1, PollEvent::StillAlive), WorkerDirective::Continue);
    }

    assert_eq!(sup.begin_tick(), TickDirective::PollWorkers);
    let d = sup.observe_worker(0, PollEvent::ExitObserved(1));
    assert_eq!(d, WorkerDirective::Abandoned);
    assert_eq!(d.terminal_error(), Some(SupervisorError::RestartBudgetExhausted));
    assert_eq!(sup.workers[0].restarts, 4);
    assert!(sup.workers[0].abandoned);
    assert!(!sup.workers[0].handle.live);

    assert_eq!(sup.workers[1].restarts, 0);
    assert!(sup.workers[1].handle.live);
    assert!(!sup.workers[1].abandoned);
    assert_eq!(sup.state, LoopState::Running);
}

#[test]
fn abandoning_one_worker_leaves_the_other_slot_alone() {
    let mut sup = running_pair();
    let before_identity = sup.workers[1].handle.params.identity.clone();
    for _ in 0u32..4u32 {
        assert_eq!(sup.begin_tick(), TickDirective::PollWorkers);
        let d = sup.observe_worker(0, PollEvent::ExitObserved(2));
        if d == WorkerDirective::AttemptRestart {
            sup.record_restart(0, true);
        }
    }
    assert!(sup.workers[0].abandoned);
    assert_eq!(sup.workers.len(), 2);
    assert_eq!(sup.workers[1].handle.params.identity, before_identity);
    assert_eq!(sup.workers[1].restarts, 0);
    assert!(sup.workers[1].handle.live);
}

#[test]
fn failed_restart_is_charged_again_on_the_next_detection() {
    let mut sup = running_pair();
    assert_eq!(sup.begin_tick(), TickDirective::PollWorkers);
    assert_eq!(sup.observe_worker(0, PollEvent::ExitObserved(1)), WorkerDirective::AttemptRestart);
    sup.record_restart(0, false);
    assert!(!sup.workers[0].handle.live);
    assert_eq!(sup.workers[0].restarts, 1);

    assert_eq!(sup.begin_tick(), TickDirective::PollWorkers);
    assert_eq!(sup.observe_worker(0, PollEvent::ExitObserved(1)), WorkerDirective::AttemptRestart);
    assert_eq!(sup.workers[0].restarts, 2);
    sup.record_restart(0, true);
    assert!(sup.workers[0].handle.live);
    assert_eq!(sup.workers[0].restarts, 2);
}

#[test]
fn shutdown_signal_stops_the_loop_on_the_next_tick() {
    let mut sup = running_pair();
    sup.signal_shutdown();
    assert_eq!(sup.begin_tick(), TickDirective::EnterStopping);
    assert_eq!(sup.state, LoopState::Stopping);
}

#[test]
fn stop_during_restart_finishes_the_tick_first() {
    let mut sup = running_pair();
    assert_eq!(sup.begin_tick(), TickDirective::PollWorkers);
    assert_eq!(sup.observe_worker(0, PollEvent::ExitObserved(9)), WorkerDirective::AttemptRestart);

    sup.signal_shutdown();

    sup.record_restart(0, true);
    assert!(sup.workers[0].handle.live);
    assert_eq!(sup.state, LoopState::Running);

    assert_eq!(sup.begin_tick(), TickDirective::EnterStopping);
    assert_eq!(sup.state, LoopState::Stopping);

    assert_eq!(sup.stop_worker(0, true), Ok(()));
    assert_eq!(sup.stop_worker(1, false), Err(SupervisorError::StopFailure));
    assert!(!sup.workers[1].handle.live);
    sup.finish_stop();
    assert_eq!(sup.state, LoopState::Stopped);
}

#[test]
fn signal_is_idempotent_and_never_unset() {
    let mut sup = running_pair();
    sup.signal_shutdown();
    sup.signal_shutdown();
    assert!(sup.shutdown);
    assert_eq!(sup.begin_tick(), TickDirective::EnterStopping);
}

#[test]
fn control_events_map_to_the_single_signal() {
    let mut adapter = LifecycleAdapter::new();
    assert_eq!(adapter.on_control_event(ControlEvent::Other), HandlerResult::NotImplemented);
    assert!(!adapter.signal_sent);
    assert_eq!(adapter.on_control_event(ControlEvent::Stop), HandlerResult::NoError);
    assert!(adapter.signal_sent);
    assert_eq!(adapter.on_control_event(ControlEvent::Shutdown), HandlerResult::NoError);
    assert!(adapter.signal_sent);
    assert_eq!(adapter.status, ServiceStatus::StartPending);
}

#[test]
fn graceful_stop_reports_code_zero() {
    let mut adapter = LifecycleAdapter::new();
    adapter.report_running();
    assert_eq!(adapter.status, ServiceStatus::Running);
    let code = adapter.report_stopped(Ok(()));
    assert_eq!(code, 0);
    assert_eq!(adapter.status, ServiceStatus::Stopped);
}

#[test]
fn largest_budget_still_counts_single_exits() {
    let mut sup = Supervisor::new(u32::MAX - 1);
    sup.record_launch(WorkerHandle::after_spawn(params("a"), true).unwrap());
    assert!(sup.finish_init().is_ok());
    assert_eq!(sup.begin_tick(), TickDirective::PollWorkers);
    assert_eq!(sup.observe_worker(0, PollEvent::ExitObserved(0)), WorkerDirective::AttemptRestart);
    assert_eq!(sup.workers[0].restarts, 1);
}

#[test]
fn zero_budget_abandons_on_first_exit() {
    let mut sup = Supervisor::new(0);
    sup.record_launch(WorkerHandle::after_spawn(params("a"), true).unwrap());
    assert!(sup.finish_init().is_ok());
    assert_eq!(sup.begin_tick(), TickDirective::PollWorkers);
    assert_eq!(sup.observe_worker(0, PollEvent::ExitObserved(0)), WorkerDirective::Abandoned);
    assert_eq!(sup.workers[0].restarts, 1);
    assert!(sup.workers[0].abandoned);
}

#[test]
fn error_descriptions_name_each_failure() {
    assert_eq!(SupervisorError::MissingExecutable.describe(), "executable file not found");
    assert_eq!(SupervisorError::MissingConfig.describe(), "configuration file not found");
    assert_eq!(SupervisorError::LaunchFailure.describe(), "failed to launch worker process");
    assert_eq!(
        SupervisorError::NoWorkersAvailable.describe(),
        "no workers available to supervise"
    );
    assert_eq!(SupervisorError::RestartBudgetExhausted.describe(), "restart budget exhausted");
    assert_eq!(SupervisorError::StopFailure.describe(), "failed to stop worker process");
    assert!(SupervisorError::NoWorkersAvailable.is_fatal_to_service());
    assert!(!SupervisorError::LaunchFailure.is_fatal_to_service());
}
