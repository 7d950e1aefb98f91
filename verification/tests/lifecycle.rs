//! The lifecycle, the service manager's notifications and the lock.
use valqeron_engine::engine;
use valqeron_engine::error;
use valqeron_engine::exit_code;
use valqeron_engine::lifecycle::{
    is_valid_transition, InvalidTransition, Lifecycle, LifecycleState,
};
use valqeron_engine::lockfile::{acquire, pid_mark, read_lock_pid, LockAttempt, LockFault};
use valqeron_engine::notify::{
    notify_address, notify_ready, notify_stopping, notify_watchdog, watchdog_interval,
    watchdog_interval_from, Notification, NotifyAddress,
};
use valqeron_engine::span::Span;

const ALL: [LifecycleState; 5] = [
    LifecycleState::Starting,
    LifecycleState::Ready,
    LifecycleState::Stopping,
    LifecycleState::Stopped,
    LifecycleState::Failed,
];

const LEGAL: [(LifecycleState, LifecycleState); 5] = [
    (LifecycleState::Starting, LifecycleState::Ready),
    (LifecycleState::Starting, LifecycleState::Failed),
    (LifecycleState::Ready, LifecycleState::Stopping),
    (LifecycleState::Stopping, LifecycleState::Stopped),
    (LifecycleState::Stopping, LifecycleState::Failed),
];

fn bytes(text: &str) -> Vec<u8> {
    text.as_bytes().to_vec()
}

fn set(text: &str) -> Option<Vec<u8>> {
    Some(bytes(text))
}

#[test]
fn the_table_is_exactly_the_documented_set() {
    for from in ALL {
        for to in ALL {
            let expected = LEGAL.contains(&(from, to));
            assert_eq!(
                is_valid_transition(from, to),
                expected,
                "{} -> {} must be {}",
                from.as_str(),
                to.as_str(),
                if expected { "legal" } else { "illegal" }
            );
        }
    }
}

#[test]
fn terminal_states_absorb() {
    for terminal in [LifecycleState::Stopped, LifecycleState::Failed] {
        for to in ALL {
            assert!(
                !is_valid_transition(terminal, to),
                "{} -> {} must be illegal",
                terminal.as_str(),
                to.as_str()
            );
        }
    }
}

#[test]
fn happy_path_walks_starting_ready_stopping_stopped() {
    let mut lifecycle = Lifecycle::new();
    assert_eq!(lifecycle.state(), LifecycleState::Starting);

    for (to, expected_from) in [
        (LifecycleState::Ready, LifecycleState::Starting),
        (LifecycleState::Stopping, LifecycleState::Ready),
        (LifecycleState::Stopped, LifecycleState::Stopping),
    ] {
        let previous = lifecycle.transition(to);
        assert_eq!(previous, Ok(expected_from));
        assert_eq!(lifecycle.state(), to, "observers see {}", to.as_str());
    }
}

#[test]
fn boot_failure_goes_straight_to_failed() {
    let mut lifecycle = Lifecycle::new();
    assert_eq!(
        lifecycle.transition(LifecycleState::Failed),
        Ok(LifecycleState::Starting)
    );
    assert_eq!(lifecycle.state(), LifecycleState::Failed);
    assert_eq!(lifecycle.last_announced(), None);
}

#[test]
fn forced_shutdown_fails_from_stopping() {
    let mut lifecycle = Lifecycle::new();
    assert!(lifecycle.transition(LifecycleState::Ready).is_ok());
    assert!(lifecycle.transition(LifecycleState::Stopping).is_ok());
    assert_eq!(
        lifecycle.transition(LifecycleState::Failed),
        Ok(LifecycleState::Stopping)
    );
    assert_eq!(lifecycle.state(), LifecycleState::Failed);
}

#[test]
fn invalid_transitions_leave_the_state_unchanged() {
    let mut lifecycle = Lifecycle::new();

    assert_eq!(
        lifecycle.transition(LifecycleState::Stopping),
        Err(InvalidTransition {
            from: LifecycleState::Starting,
            to: LifecycleState::Stopping,
        })
    );
    assert_eq!(lifecycle.state(), LifecycleState::Starting);

    assert!(lifecycle.transition(LifecycleState::Failed).is_ok());
    assert_eq!(
        lifecycle.transition(LifecycleState::Failed),
        Err(InvalidTransition {
            from: LifecycleState::Failed,
            to: LifecycleState::Failed,
        })
    );
    assert_eq!(lifecycle.state(), LifecycleState::Failed);
}

#[test]
fn transitions_survive_all_observers_dropping() {
    let mut lifecycle = Lifecycle::new();
    assert!(lifecycle.transition(LifecycleState::Ready).is_ok());
    assert!(lifecycle.transition(LifecycleState::Stopping).is_ok());
    assert!(lifecycle.transition(LifecycleState::Stopped).is_ok());
}

#[test]
fn transitions_are_announced_once_and_refusals_are_named() {
    let mut lifecycle = Lifecycle::new();
    assert!(lifecycle.transition(LifecycleState::Ready).is_ok());
    assert_eq!(lifecycle.last_announced(), Some(Notification::Ready));
    let refused = lifecycle.transition(LifecycleState::Failed).unwrap_err();
    assert_eq!(
        refused.message(),
        "invalid engine lifecycle transition: ready -> failed"
    );
    assert!(lifecycle.transition(LifecycleState::Stopping).is_ok());
    assert_eq!(lifecycle.last_announced(), Some(Notification::Stopping));
    assert!(lifecycle.transition(LifecycleState::Stopped).is_ok());
    assert_eq!(lifecycle.last_announced(), Some(Notification::Stopping));
}

// ---------------------------------------------------------------- notify
#[test]
fn every_notification_has_its_datagram() {
    assert_eq!(notify_ready().datagram(), "READY=1");
    assert_eq!(notify_stopping().datagram(), "STOPPING=1");
    assert_eq!(notify_watchdog().datagram(), "WATCHDOG=1");
}

#[test]
fn an_at_sign_means_an_abstract_socket() {
    assert!(matches!(
        notify_address(&bytes("@/systemd/notify")),
        NotifyAddress::Abstract(name) if name == bytes("/systemd/notify")
    ));
    assert!(matches!(
        notify_address(&bytes("/run/notify")),
        NotifyAddress::Path(path) if path == bytes("/run/notify")
    ));
    assert!(matches!(notify_address(&bytes("")), NotifyAddress::Path(p) if p.is_empty()));
}

#[test]
fn watchdog_requires_a_positive_interval() {
    assert_eq!(watchdog_interval_from(&None, &None, 42), None);
    assert_eq!(
        watchdog_interval_from(&set("1000000"), &None, 42),
        Some(Span::from_secs(1))
    );
    for bad in ["0", "-1", "soon", ""] {
        assert_eq!(
            watchdog_interval_from(&set(bad), &None, 42),
            None,
            "{bad:?} must disable the watchdog"
        );
    }
}

#[test]
fn watchdog_pid_must_name_this_process_when_set() {
    let usec = set("500000");
    assert_eq!(
        watchdog_interval_from(&usec, &set("42"), 42),
        Some(Span::from_millis(500)),
        "matching pid arms the watchdog"
    );
    assert_eq!(
        watchdog_interval_from(&usec, &set("41"), 42),
        None,
        "inherited (foreign-pid) watchdog env must be ignored"
    );
    assert_eq!(watchdog_interval_from(&usec, &set("not-a-pid"), 42), None);
}

#[test]
fn a_watchdog_needs_a_socket() {
    let usec = set("20000000");
    assert_eq!(watchdog_interval(&None, &usec, &None, 42), None);
    let armed = watchdog_interval(&set("/run/notify"), &usec, &None, 42).unwrap();
    assert_eq!(armed, Span::from_secs(20));
    assert_eq!(armed.half(), Span::from_secs(10));
    assert_eq!(Span::from_micros(1_500_001).half(), Span { secs: 0, nanos: 750_000_500 });
}

// ---------------------------------------------------------------- lock
#[test]
fn lockfile_acquiring_writes_our_pid() {
    assert!(acquire(&bytes("/x.db.lock"), LockAttempt::Locked).is_ok());
    let mark = pid_mark(4711);
    assert_eq!(mark, "4711");
    assert_eq!(read_lock_pid(&Some(mark)), Some("4711".to_string()));
}

#[test]
fn lockfile_second_acquire_fails_with_already_running() {
    let held = Some(pid_mark(4711));
    let fault = acquire(&bytes("/x.db.lock"), LockAttempt::Contended(held)).unwrap_err();
    match fault.clone().into_command_error(&bytes("/x.db")) {
        error::EngineError::AlreadyRunning { db_path, pid } => {
            assert_eq!(db_path, bytes("/x.db"));
            assert_eq!(pid, "4711");
        }
        other => panic!("expected AlreadyRunning, got {other:?}"),
    }
    match fault.into_engine_error(&bytes("/x.db")) {
        engine::EngineError::AlreadyRunning { db_path, pid } => {
            assert_eq!(db_path, bytes("/x.db"));
            assert_eq!(pid, "4711");
        }
        other => panic!("expected AlreadyRunning, got {other:?}"),
    }
}

#[test]
fn a_holder_without_a_pid_is_unknown() {
    for contents in [None, Some("  \n".to_string())] {
        assert_eq!(read_lock_pid(&contents), None);
        match acquire(&bytes("/l"), LockAttempt::Contended(contents)).unwrap_err() {
            LockFault::AlreadyRunning { pid } => assert_eq!(pid, "unknown"),
            other => panic!("expected AlreadyRunning, got {other:?}"),
        }
    }
    assert_eq!(read_lock_pid(&Some(" 12\n".into())), Some("12".into()));
}

#[test]
fn every_lock_fault_is_named() {
    let path = bytes("/x.lock");
    for (attempt, message) in [
        (
            LockAttempt::OpenFailed("denied".into()),
            "opening lock file /x.lock: denied",
        ),
        (
            LockAttempt::LockFailed("denied".into()),
            "locking /x.lock: denied",
        ),
        (
            LockAttempt::MarkFailed("full".into()),
            "writing pid to /x.lock: full",
        ),
    ] {
        match acquire(&path, attempt).unwrap_err().into_command_error(&bytes("/x")) {
            error::EngineError::Io(m) => assert_eq!(m, message),
            other => panic!("expected Io, got {other:?}"),
        }
    }
}

#[test]
fn already_running_maps_to_its_dedicated_exit_code() {
    let err = error::EngineError::AlreadyRunning {
        db_path: bytes("/tmp/x.db"),
        pid: "123".to_string(),
    };
    assert_eq!(err.exit_code(), exit_code::ALREADY_RUNNING);
    let msg = err.message();
    assert!(msg.contains("/tmp/x.db"), "message names the db: {msg}");
    assert!(msg.contains("123"), "message names the pid: {msg}");
}

#[test]
fn config_errors_map_to_config_exit_code() {
    assert_eq!(
        error::EngineError::Config("bad".into()).exit_code(),
        exit_code::CONFIG
    );
}

#[test]
fn every_command_error_has_its_code_and_message() {
    for (e, code, message) in [
        (
            error::EngineError::Service("x".into()),
            exit_code::SERVICE,
            "service manager operation failed: x",
        ),
        (
            error::EngineError::UnsupportedPlatform,
            exit_code::SERVICE,
            "engine services are only supported on macOS (launchd) and Linux (systemd)",
        ),
        (
            error::EngineError::NotRunning,
            exit_code::RUNTIME,
            "engine is not running",
        ),
        (
            error::EngineError::Storage("x".into()),
            exit_code::RUNTIME,
            "storage error: x",
        ),
        (
            error::EngineError::Io("x".into()),
            exit_code::RUNTIME,
            "i/o error: x",
        ),
        (
            error::EngineError::ForcedShutdown,
            exit_code::RUNTIME,
            "forced shutdown: second signal received before graceful shutdown finished",
        ),
    ] {
        assert_eq!(e.exit_code(), code);
        assert_eq!(e.message(), message);
    }
}
