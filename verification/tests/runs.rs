//! Whole runs of the engine, from boot to exit.
use valqeron_engine::engine;
use valqeron_engine::error;
use valqeron_engine::exit_code;
use valqeron_engine::lifecycle::LifecycleState;
use valqeron_engine::lockfile::{acquire, LockAttempt};
use valqeron_engine::notify::Notification;
use valqeron_engine::runtime::{Duty, ForegroundRun, RunEvent, RunStep};
use valqeron_engine::serve::{
    io_error, remove_stale_socket, server_exit_error, server_join_outcome, Event, IoFault,
    ServerExit, Step, Unlinked, ValqeronEngine,
};

fn bytes(text: &str) -> Vec<u8> {
    text.as_bytes().to_vec()
}

/// Completes steps until `step` is the next one.
fn until(run: &mut ValqeronEngine, step: Step) -> Vec<Step> {
    let mut done = Vec::new();
    while run.step() != step {
        assert_ne!(run.step(), Step::Ended, "{step:?} is never reached");
        done.push(run.step());
        run.handle(Event::Completed);
    }
    done
}

#[test]
fn boot_chain_acquires_resources_in_order() {
    let mut run = ValqeronEngine::new();
    assert_eq!(run.state(), LifecycleState::Starting);
    let done = until(&mut run, Step::InstallSignals);
    assert_eq!(
        done,
        vec![
            Step::CreateDataDir,
            Step::AcquireLock,
            Step::PrepareSocket,
            Step::OpenDatabase,
            Step::BindSocket,
            Step::BuildRuntime,
        ]
    );
    let held = run.held();
    assert!(held.lock && held.storage && held.socket && held.runtime);
    until(&mut run, Step::Serve);
    assert_eq!(run.state(), LifecycleState::Ready);
    assert_eq!(run.last_announced(), Some(Notification::Ready));
}

#[test]
fn a_signal_drains_everything_and_releases_the_lock_last() {
    let mut run = ValqeronEngine::new();
    until(&mut run, Step::Serve);
    run.handle(Event::Signal);
    assert_eq!(run.state(), LifecycleState::Stopping);
    assert_eq!(run.last_announced(), Some(Notification::Stopping));
    assert_eq!(run.step(), Step::BeginShutdown);
    run.handle(Event::Completed);
    assert_eq!(run.step(), Step::AwaitServer);
    assert_eq!(run.deadline_secs(), Some(10));
    run.handle(Event::ServerExited(ServerExit::Clean));
    let done = until(&mut run, Step::ReleaseLock);
    assert_eq!(
        done,
        vec![
            Step::DrainTasks,
            Step::CloseStorage,
            Step::AwaitIdle,
            Step::StopRuntime,
            Step::RemoveSocket,
            Step::Reclaim,
        ]
    );
    let held = run.held();
    assert!(held.lock && !held.storage && !held.socket && !held.runtime);
    run.handle(Event::Completed);
    assert_eq!(run.step(), Step::Ended);
    assert!(!run.held().lock);
    assert_eq!(run.state(), LifecycleState::Stopped);
    assert!(run.into_result().is_ok());
}

#[test]
fn a_second_signal_forces_the_end() {
    let mut run = ValqeronEngine::new();
    until(&mut run, Step::Serve);
    run.handle(Event::Signal);
    run.handle(Event::Completed);
    run.handle(Event::Signal);
    assert_eq!(run.step(), Step::CloseStorage);
    let done = until(&mut run, Step::Ended);
    assert!(
        !done.contains(&Step::AwaitIdle),
        "nothing is waited for any more"
    );
    assert_eq!(run.state(), LifecycleState::Failed);
    let e = run.into_result().unwrap_err();
    assert!(matches!(e, engine::EngineError::ForcedShutdown));
    assert_eq!(e.exit_code(), exit_code::RUNTIME);
}

#[test]
fn calls_in_flight_are_given_up_at_the_deadline() {
    let mut run = ValqeronEngine::new();
    until(&mut run, Step::Serve);
    run.handle(Event::Signal);
    run.handle(Event::Completed);
    run.handle(Event::DeadlinePassed);
    assert_eq!(run.step(), Step::AbortServer);
    run.handle(Event::Completed);
    assert_eq!(run.step(), Step::DrainTasks);
    run.handle(Event::DeadlinePassed);
    assert_eq!(run.step(), Step::CloseStorage);
    until(&mut run, Step::Reclaim);
    run.handle(Event::StillShared);
    assert_eq!(run.step(), Step::ReleaseLock);
    until(&mut run, Step::Ended);
    assert!(run.into_result().is_ok());
}

#[test]
fn a_server_that_dies_ends_the_run() {
    let mut run = ValqeronEngine::new();
    until(&mut run, Step::Serve);
    run.handle(Event::ServerExited(ServerExit::ServerFailed("boom".into())));
    assert_eq!(run.step(), Step::DrainTasks);
    assert_eq!(run.deadline_secs(), Some(1));
    assert_eq!(run.state(), LifecycleState::Stopping);
    until(&mut run, Step::Ended);
    assert_eq!(run.state(), LifecycleState::Failed);
    assert_eq!(
        run.into_result().unwrap_err().message(),
        "i/o error: gRPC server failed: boom"
    );
}

#[test]
fn second_boot_against_same_db_fails_while_first_is_running() {
    let mut second = ValqeronEngine::new();
    until(&mut second, Step::AcquireLock);
    let db = bytes("/data/valqeron.db");
    let held = LockAttempt::Contended(Some("4711".into()));
    let fault = acquire(&bytes("/data/valqeron.db.lock"), held).unwrap_err();
    second.handle(Event::Failed(fault.into_engine_error(&db)));
    assert_eq!(second.step(), Step::Abandon);
    assert!(!second.held().lock);
    second.handle(Event::Completed);
    assert_eq!(second.step(), Step::Ended);
    assert_eq!(second.state(), LifecycleState::Failed);
    let e = second.into_result().unwrap_err();
    assert!(matches!(e, engine::EngineError::AlreadyRunning { .. }));
    assert_eq!(e.exit_code(), exit_code::ALREADY_RUNNING);
}

#[test]
fn boot_succeeds_again_after_previous_engine_is_dropped() {
    for _ in 0..2 {
        let mut run = ValqeronEngine::new();
        assert!(acquire(&bytes("/x.lock"), LockAttempt::Locked).is_ok());
        until(&mut run, Step::Serve);
        run.handle(Event::Signal);
        run.handle(Event::Completed);
        run.handle(Event::ServerExited(ServerExit::Clean));
        until(&mut run, Step::Ended);
        assert!(!run.held().lock);
    }
}

#[test]
fn a_boot_that_fails_keeps_nothing() {
    for step in [
        Step::CreateDataDir,
        Step::AcquireLock,
        Step::PrepareSocket,
        Step::OpenDatabase,
        Step::BindSocket,
        Step::BuildRuntime,
    ] {
        let mut run = ValqeronEngine::new();
        until(&mut run, step);
        run.handle(Event::Failed(engine::EngineError::Storage("gone".into())));
        assert_eq!(run.step(), Step::Abandon);
        run.handle(Event::Completed);
        let held = run.held();
        assert!(!held.lock && !held.storage && !held.socket && !held.runtime);
        assert_eq!(run.last_announced(), None);
        assert_eq!(
            run.into_result().unwrap_err().message(),
            "storage error: gone"
        );
    }
}

#[test]
fn events_out_of_turn_change_nothing() {
    let mut run = ValqeronEngine::new();
    run.handle(Event::Signal);
    run.handle(Event::DeadlinePassed);
    run.handle(Event::StillShared);
    assert_eq!(run.step(), Step::CreateDataDir);
    assert_eq!(run.state(), LifecycleState::Starting);
}

// ---------------------------------------------------------------- faults
#[test]
fn every_fault_names_its_file() {
    let path = bytes("/x");
    for (fault, message) in [
        (IoFault::CreatingDirectory, "creating /x: denied"),
        (IoFault::Restricting, "restricting /x: denied"),
        (
            IoFault::RemovingStaleSocket,
            "removing stale socket /x: denied",
        ),
        (IoFault::BindingSocket, "binding socket /x: denied"),
        (
            IoFault::SettingNonblocking,
            "setting /x nonblocking: denied",
        ),
        (
            IoFault::RegisteringSocket,
            "registering socket /x with the runtime: denied",
        ),
        (IoFault::BuildingRuntime, "building tokio runtime: denied"),
        (
            IoFault::InstallingSigterm,
            "installing SIGTERM handler: denied",
        ),
        (
            IoFault::InstallingSigint,
            "installing SIGINT handler: denied",
        ),
    ] {
        match io_error(fault, &path, "denied") {
            engine::EngineError::Io(m) => assert_eq!(m, message),
            other => panic!("expected Io, got {other:?}"),
        }
    }
}

#[test]
fn a_path_that_is_no_text_is_still_shown() {
    match io_error(IoFault::BindingSocket, &vec![b'/', 0xff, b'x'], "denied") {
        engine::EngineError::Io(m) => assert_eq!(m, "binding socket /\u{fffd}x: denied"),
        other => panic!("expected Io, got {other:?}"),
    }
}

#[test]
fn an_absent_socket_is_no_fault() {
    let path = bytes("/x.sock");
    assert!(remove_stale_socket(&path, Unlinked::Removed).is_ok());
    assert!(remove_stale_socket(&path, Unlinked::Absent).is_ok());
    assert_eq!(
        remove_stale_socket(&path, Unlinked::Failed("denied".into()))
            .unwrap_err()
            .message(),
        "i/o error: removing stale socket /x.sock: denied"
    );
}

#[test]
fn the_end_of_the_server_is_told() {
    assert_eq!(
        server_exit_error(ServerExit::Clean).message(),
        "i/o error: gRPC server exited unexpectedly"
    );
    assert_eq!(
        server_exit_error(ServerExit::TaskFailed("panicked".into())).message(),
        "i/o error: gRPC server task failed: panicked"
    );
    assert!(server_join_outcome(ServerExit::Clean).is_ok());
    assert_eq!(
        server_join_outcome(ServerExit::TaskFailed("x".into())).unwrap_err(),
        "x"
    );
}

// ---------------------------------------------------------------- foreground
fn foreground_until(run: &mut ForegroundRun, step: RunStep) -> Vec<RunStep> {
    let mut done = Vec::new();
    while run.step() != step {
        assert_ne!(run.step(), RunStep::Ended, "{step:?} is never reached");
        done.push(run.step());
        run.handle(RunEvent::Completed);
    }
    done
}

#[test]
fn a_foreground_run_walks_its_steps() {
    let mut run = ForegroundRun::new();
    assert_eq!(
        foreground_until(&mut run, RunStep::Watch),
        vec![
            RunStep::CreateDataDir,
            RunStep::AcquireLock,
            RunStep::OpenDatabase,
            RunStep::BuildRuntime,
            RunStep::InstallSignals,
        ]
    );
    assert_eq!(run.handle(RunEvent::HeartbeatTick), Some(Duty::Heartbeat));
    run.handle(RunEvent::Signal);
    assert_eq!(
        foreground_until(&mut run, RunStep::Ended),
        vec![RunStep::StopRuntime, RunStep::Reclaim, RunStep::ReleaseLock]
    );
    assert!(run.into_result().is_ok());
}

#[test]
fn maintenance_never_overlaps_itself() {
    let mut run = ForegroundRun::new();
    foreground_until(&mut run, RunStep::Watch);
    assert_eq!(
        run.handle(RunEvent::MaintenanceTick),
        Some(Duty::StartMaintenance)
    );
    assert_eq!(
        run.handle(RunEvent::MaintenanceTick),
        Some(Duty::SkipMaintenance)
    );
    run.handle(RunEvent::MaintenanceEnded);
    assert_eq!(
        run.handle(RunEvent::MaintenanceTick),
        Some(Duty::StartMaintenance)
    );
    run.handle(RunEvent::Signal);
    assert_eq!(run.step(), RunStep::AwaitMaintenance);
    assert_eq!(run.deadline_secs(), Some(10));
    run.handle(RunEvent::MaintenanceEnded);
    assert_eq!(run.step(), RunStep::StopRuntime);
    assert_eq!(run.deadline_secs(), Some(20));
}

#[test]
fn a_second_signal_forces_the_foreground_run_down() {
    let mut run = ForegroundRun::new();
    foreground_until(&mut run, RunStep::Watch);
    run.handle(RunEvent::MaintenanceTick);
    run.handle(RunEvent::Signal);
    run.handle(RunEvent::Signal);
    foreground_until(&mut run, RunStep::Ended);
    let e = run.into_result().unwrap_err();
    assert!(matches!(e, error::EngineError::ForcedShutdown));
}

#[test]
fn a_failed_start_lets_go_of_what_it_holds() {
    for (at, next) in [
        (RunStep::CreateDataDir, RunStep::Ended),
        (RunStep::AcquireLock, RunStep::Ended),
        (RunStep::OpenDatabase, RunStep::ReleaseLock),
        (RunStep::BuildRuntime, RunStep::Reclaim),
        (RunStep::InstallSignals, RunStep::StopRuntime),
    ] {
        let mut run = ForegroundRun::new();
        foreground_until(&mut run, at);
        run.handle(RunEvent::Failed(error::EngineError::Io("x".into())));
        assert_eq!(run.step(), next);
        foreground_until(&mut run, RunStep::Ended);
        assert_eq!(run.into_result().unwrap_err().message(), "i/o error: x");
    }
}
