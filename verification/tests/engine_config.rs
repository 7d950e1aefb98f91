//! The configuration that comes from the environment.
use valqeron_engine::calendar::Weekday;
use valqeron_engine::database::Synchronous;
use valqeron_engine::engine::{
    cvm_sync_from, default_sync_at, durable_from, file_log_level, interval_secs_from,
    recurrence_from, refuses_arguments, sync_enabled_from, sync_time_from, u32_from, DatabasePath,
    EngineConfig, EngineError, Environment, LogFilePath, SocketPath, DB_PATH_ENV,
    DEFAULT_ENGINE_DB_NAME, DEFAULT_ENGINE_LOG_FILE_NAME, DEFAULT_SYNC_COOLDOWN_SECS,
    DEFAULT_SYNC_MAX_BACKFILL_DAYS, DEFAULT_VALQERON_APP, ENGINE_HEARTBEAT_INTERVAL_ENV,
    ENGINE_LOG_FILE_ENV, ENGINE_MAINTENANCE_INTERVAL_ENV, ENGINE_SYNC_CVM_AT_ENV,
    ENGINE_SYNC_CVM_COOLDOWN_ENV, ENGINE_SYNC_CVM_SCHEDULE_ENV,
};
use valqeron_engine::exit_code;
use valqeron_engine::moment::ClockTime;
use valqeron_engine::paths::{join, os_str_is_off};
use valqeron_engine::proto::{resolve_socket_path, ConnectionConfigError, SOCKET_FILE_NAME};
use valqeron_engine::schedule::Recurrence;
use valqeron_engine::span::Span;

fn bytes(text: &str) -> Vec<u8> {
    text.as_bytes().to_vec()
}

fn set(text: &str) -> Option<Vec<u8>> {
    Some(bytes(text))
}

fn unset() -> Environment {
    Environment {
        db_path: None,
        socket: None,
        log_file: None,
        durable: None,
        maintenance_interval: None,
        heartbeat_interval: None,
        sync_cvm: None,
        sync_cvm_at: None,
        sync_cvm_schedule: None,
        sync_cvm_cooldown: None,
        sync_max_backfill_days: None,
        data_dir: None,
        runtime_dir: None,
    }
}

fn config_with(db: &str, durable: bool) -> EngineConfig {
    EngineConfig {
        db_path: DatabasePath(bytes(db)),
        socket_path: SocketPath(bytes("/tmp/x.sock")),
        log_file: None,
        durable,
        maintenance_interval: Span::from_secs(10),
        heartbeat_interval: Span::from_secs(20),
        cvm_sync: None,
    }
}

#[test]
fn config_exposes_the_derived_values() {
    let config = config_with("/tmp/x.db", true);

    assert_eq!(config.db_path(), &bytes("/tmp/x.db"));
    assert_eq!(config.socket_path(), &bytes("/tmp/x.sock"));
    assert_eq!(config.lock_path(), bytes("/tmp/x.db.lock"));
    assert_eq!(config.log_file(), None);
    assert_eq!(config.synchronous(), Synchronous::Full);
    assert_eq!(config.durability_label(), "full");
    assert_eq!(config.maintenance_interval(), Span::from_secs(10));
    assert_eq!(config.heartbeat_interval(), Span::from_secs(20));
}

#[test]
fn lock_path_appends_to_the_full_file_name() {
    let config = config_with("/data/valqeron.db", false);
    assert_eq!(config.lock_path(), bytes("/data/valqeron.db.lock"));
}

#[test]
fn default_durability_is_relaxed() {
    let config = config_with("/tmp/y.db", false);
    assert_eq!(config.synchronous(), Synchronous::Normal);
    assert_eq!(config.durability_label(), "normal");
}

#[test]
fn database_path_errors_when_no_env_or_project_dir() {
    let result = DatabasePath::resolve_with(&None, &None);
    match result {
        Err(EngineError::InvalidDataDirectory { app, env_var }) => {
            assert_eq!(app, DEFAULT_VALQERON_APP);
            assert_eq!(env_var, DB_PATH_ENV);
        }
        other => panic!("expected InvalidDataDirectory, got {other:?}"),
    }
}

#[test]
fn database_path_prefers_the_env_value() {
    let result = DatabasePath::resolve_with(&set("/tmp/override.db"), &set("/data")).unwrap();
    assert_eq!(result.0, bytes("/tmp/override.db"));
}

#[test]
fn database_path_falls_back_to_the_project_dir() {
    let result = DatabasePath::resolve_with(&None, &set("/data")).unwrap();
    assert_eq!(result.0, join(&bytes("/data"), DEFAULT_ENGINE_DB_NAME));
    assert_eq!(result.0, bytes("/data/valqeron.db"));
}

#[test]
fn log_file_off_value_disables_logging() {
    for off in ["off", "OFF", "false", "0", "none"] {
        let result = LogFilePath::resolve_with(&set(off), &set("/data")).unwrap();
        assert!(result.is_none(), "{off:?} must disable file logging");
    }
}

#[test]
fn log_file_env_path_wins() {
    let result = LogFilePath::resolve_with(&set("/tmp/engine.log"), &set("/data")).unwrap();
    assert_eq!(result.unwrap().0, bytes("/tmp/engine.log"));
}

#[test]
fn log_file_unset_or_empty_uses_the_default_path() {
    let default = join(&bytes("/data"), DEFAULT_ENGINE_LOG_FILE_NAME);
    for env_value in [None, set("")] {
        let result = LogFilePath::resolve_with(&env_value, &set("/data")).unwrap();
        assert_eq!(
            result.unwrap().0,
            default,
            "{env_value:?} must use the default path"
        );
    }
}

#[test]
fn log_file_errors_when_no_env_or_project_dir() {
    let result = LogFilePath::resolve_with(&None, &None);
    match result {
        Err(EngineError::InvalidDataDirectory { app, env_var }) => {
            assert_eq!(app, DEFAULT_VALQERON_APP);
            assert_eq!(env_var, ENGINE_LOG_FILE_ENV);
        }
        other => panic!("expected InvalidDataDirectory, got {other:?}"),
    }
}

#[test]
fn durable_requires_a_truthy_value() {
    for truthy in ["1", "true", "yes", "full"] {
        assert!(
            durable_from(&set(truthy)),
            "{truthy:?} must enable durability"
        );
    }
    for falsy in ["off", "false", "0", "none", ""] {
        assert!(
            !durable_from(&set(falsy)),
            "{falsy:?} must keep the relaxed default"
        );
    }
    assert!(!durable_from(&None), "unset must keep the relaxed default");
}

#[test]
fn intervals_default_when_unset_or_empty_and_parse_when_set() {
    for env_value in [None, set(""), set("  ")] {
        assert_eq!(
            interval_secs_from(ENGINE_MAINTENANCE_INTERVAL_ENV, &env_value, 3600).unwrap(),
            3600
        );
    }
    assert_eq!(
        interval_secs_from(ENGINE_MAINTENANCE_INTERVAL_ENV, &set(" 42 "), 3600).unwrap(),
        42
    );
}

#[test]
fn invalid_intervals_are_config_errors_naming_the_variable() {
    for bad in ["abc", "-1", "1.5", "10s"] {
        let err = interval_secs_from(ENGINE_HEARTBEAT_INTERVAL_ENV, &set(bad), 300).unwrap_err();
        assert_eq!(err.exit_code(), exit_code::CONFIG, "{bad:?} must be CONFIG");
        assert!(
            err.message().contains(ENGINE_HEARTBEAT_INTERVAL_ENV),
            "error must name the variable: {}",
            err.message()
        );
    }
}

#[test]
fn sync_enabled_defaults_on_and_honors_off_values() {
    assert!(sync_enabled_from(&None), "unset means enabled");
    assert!(sync_enabled_from(&set("")), "empty means enabled");
    for on in ["on", "1", "true", "yes"] {
        assert!(
            sync_enabled_from(&set(on)),
            "{on:?} must keep the source enabled"
        );
    }
    for off in ["off", "OFF", "false", "0", "none"] {
        assert!(
            !sync_enabled_from(&set(off)),
            "{off:?} must disable the source"
        );
    }
}

#[test]
fn sync_time_defaults_parses_and_rejects_garbage() {
    let default = default_sync_at();
    assert_eq!(default, ClockTime { hour: 7, minute: 0 });
    for env_value in [None, set(""), set("  ")] {
        assert_eq!(
            sync_time_from(ENGINE_SYNC_CVM_AT_ENV, &env_value).unwrap(),
            default
        );
    }
    assert_eq!(
        sync_time_from(ENGINE_SYNC_CVM_AT_ENV, &set(" 06:30 ")).unwrap(),
        ClockTime::from_hm(6, 30).unwrap()
    );
    for bad in ["25:00", "07:60", "seven", "07", "07:00:00extra"] {
        let err = sync_time_from(ENGINE_SYNC_CVM_AT_ENV, &set(bad)).unwrap_err();
        assert_eq!(err.exit_code(), exit_code::CONFIG, "{bad:?} must be CONFIG");
        assert!(
            err.message().contains(ENGINE_SYNC_CVM_AT_ENV),
            "error must name the variable: {}",
            err.message()
        );
    }
}

#[test]
fn recurrence_parses_daily_and_weekly_and_rejects_garbage() {
    for env_value in [None, set(""), set("daily"), set(" DAILY ")] {
        assert_eq!(
            recurrence_from(ENGINE_SYNC_CVM_SCHEDULE_ENV, &env_value).unwrap(),
            Recurrence::Daily
        );
    }
    assert_eq!(
        recurrence_from(ENGINE_SYNC_CVM_SCHEDULE_ENV, &set("weekly:fri")).unwrap(),
        Recurrence::Weekly { on: Weekday::Fri }
    );
    assert_eq!(
        recurrence_from(ENGINE_SYNC_CVM_SCHEDULE_ENV, &set("WEEKLY:Mon")).unwrap(),
        Recurrence::Weekly { on: Weekday::Mon }
    );
    for bad in ["monthly", "weekly", "weekly:funday", "daily:mon"] {
        let err = recurrence_from(ENGINE_SYNC_CVM_SCHEDULE_ENV, &set(bad)).unwrap_err();
        assert_eq!(err.exit_code(), exit_code::CONFIG, "{bad:?} must be CONFIG");
        assert!(
            err.message().contains(ENGINE_SYNC_CVM_SCHEDULE_ENV),
            "error must name the variable: {}",
            err.message()
        );
    }
}

#[test]
fn u32_values_default_and_reject_garbage() {
    for env_value in [None, set("")] {
        assert_eq!(
            u32_from(ENGINE_SYNC_CVM_COOLDOWN_ENV, &env_value, 300).unwrap(),
            300
        );
    }
    assert_eq!(
        u32_from(ENGINE_SYNC_CVM_COOLDOWN_ENV, &set(" 42 "), 300).unwrap(),
        42
    );
    for bad in ["abc", "-1", "1.5"] {
        let err = u32_from(ENGINE_SYNC_CVM_COOLDOWN_ENV, &set(bad), 300).unwrap_err();
        assert_eq!(err.exit_code(), exit_code::CONFIG, "{bad:?} must be CONFIG");
    }
}

#[test]
fn cvm_sync_resolves_defaults_when_fully_unset() {
    let settings = cvm_sync_from(&None, &None, &None, &None, &None)
        .unwrap()
        .expect("enabled by default");
    assert_eq!(settings.at, default_sync_at());
    assert_eq!(settings.recurrence, Recurrence::Daily);
    assert_eq!(settings.cooldown_secs, DEFAULT_SYNC_COOLDOWN_SECS);
    assert_eq!(settings.max_backfill_days, DEFAULT_SYNC_MAX_BACKFILL_DAYS);
}

#[test]
fn cvm_sync_disabled_short_circuits_before_validating_the_rest() {
    let resolved = cvm_sync_from(
        &set("off"),
        &set("garbage"),
        &set("garbage"),
        &set("garbage"),
        &set("garbage"),
    );
    assert!(matches!(resolved, Ok(None)));
}

#[test]
fn cvm_sync_invalid_values_refuse_to_start() {
    let err = cvm_sync_from(&None, &set("nope"), &None, &None, &None).unwrap_err();
    assert_eq!(err.exit_code(), exit_code::CONFIG);
}

#[test]
fn exit_codes_map_per_error_class() {
    assert_eq!(
        EngineError::Config("bad".into()).exit_code(),
        exit_code::CONFIG
    );
    assert_eq!(
        EngineError::InvalidDataDirectory {
            app: DEFAULT_VALQERON_APP.to_owned(),
            env_var: DB_PATH_ENV.to_owned(),
        }
        .exit_code(),
        exit_code::CONFIG
    );
    assert_eq!(
        EngineError::Io("boom".into()).exit_code(),
        exit_code::RUNTIME
    );
    assert_eq!(EngineError::ForcedShutdown.exit_code(), exit_code::RUNTIME);
}

#[test]
fn already_running_maps_to_its_dedicated_exit_code_and_names_the_holder() {
    let err = EngineError::AlreadyRunning {
        db_path: bytes("/tmp/x.db"),
        pid: "123".to_string(),
    };
    assert_eq!(err.exit_code(), exit_code::ALREADY_RUNNING);
    let msg = err.message();
    assert!(msg.contains("/tmp/x.db"), "message names the db: {msg}");
    assert!(msg.contains("123"), "message names the pid: {msg}");
}

#[test]
fn every_error_has_its_message() {
    assert_eq!(
        EngineError::Config("bad".into()).message(),
        "configuration error: bad"
    );
    assert_eq!(
        EngineError::Storage("gone".into()).message(),
        "storage error: gone"
    );
    assert_eq!(EngineError::Storage("gone".into()).exit_code(), 1);
    assert_eq!(EngineError::Io("gone".into()).message(), "i/o error: gone");
    assert_eq!(
        EngineError::ForcedShutdown.message(),
        "forced shutdown: second signal received before graceful shutdown finished"
    );
    assert_eq!(
        EngineError::AlreadyRunning {
            db_path: bytes("/d"),
            pid: "7".into()
        }
        .message(),
        "another engine instance already owns /d (pid 7); stop it first or check \
         `valqeron engine status`"
    );
}

#[test]
fn settings_that_cannot_be_read_say_why() {
    let message = |e: EngineError| e.message();
    assert_eq!(
        message(interval_secs_from("V", &Some(vec![0xff]), 1).unwrap_err()),
        "configuration error: V must be whole seconds (not valid UTF-8)"
    );
    assert_eq!(
        message(interval_secs_from("V", &set("a\"b"), 1).unwrap_err()),
        "configuration error: V must be whole seconds, got \"a\\\"b\": \
         invalid digit found in string"
    );
    assert_eq!(
        message(u32_from("V", &set("4294967296"), 1).unwrap_err()),
        "configuration error: V must be a whole number, got \"4294967296\": \
         number too large to fit in target type"
    );
    assert_eq!(
        message(u32_from("V", &Some(vec![0xff]), 1).unwrap_err()),
        "configuration error: V is not valid UTF-8"
    );
    assert_eq!(
        message(recurrence_from("V", &set("weekly:Funday")).unwrap_err()),
        "configuration error: V weekday must be one of mon..sun, got \"funday\""
    );
    assert_eq!(
        message(recurrence_from("V", &set("Monthly")).unwrap_err()),
        "configuration error: V must be \"daily\" or \"weekly:<mon..sun>\", got \"Monthly\""
    );
    assert!(
        message(sync_time_from("V", &set("noon")).unwrap_err())
            .starts_with("configuration error: V must be HH:MM, got \"noon\": ")
    );
}

#[test]
fn the_whole_environment_resolves() {
    let mut env = unset();
    env.data_dir = set("/data");
    let config = EngineConfig::resolve(&env).unwrap();
    assert_eq!(config.db_path(), &bytes("/data/valqeron.db"));
    assert_eq!(config.socket_path(), &bytes("/data/run/valqeron.sock"));
    assert_eq!(config.log_file(), Some(&bytes("/data/engine.log")));
    assert!(!config.durable);
    assert_eq!(config.maintenance_interval(), Span::from_secs(3600));
    assert_eq!(config.heartbeat_interval(), Span::from_secs(300));
    assert!(config.cvm_sync().is_some());

    env.runtime_dir = set("/run/user/1");
    env.db_path = set("/x.db");
    env.durable = set("yes");
    env.heartbeat_interval = set("5");
    env.sync_cvm = set("off");
    env.sync_cvm_at = set("garbage");
    let config = EngineConfig::resolve(&env).unwrap();
    assert_eq!(config.db_path(), &bytes("/x.db"));
    assert_eq!(config.socket_path(), &bytes("/run/user/1/valqeron.sock"));
    assert_eq!(config.durability_label(), "full");
    assert_eq!(config.heartbeat_interval(), Span::from_secs(5));
    assert!(config.cvm_sync().is_none());
}

#[test]
fn the_first_fault_of_the_environment_is_reported() {
    let mut env = unset();
    env.maintenance_interval = set("x");
    assert_eq!(
        EngineConfig::resolve(&env).unwrap_err().message(),
        "could not determine a data directory for valqeron; set VALQERON_DB or pass an \
         explicit path"
    );
    env.db_path = set("/x.db");
    assert_eq!(
        EngineConfig::resolve(&env).unwrap_err().message(),
        "configuration error: could not determine a home directory for the engine socket"
    );
    env.socket = set("/x.sock");
    assert!(matches!(
        EngineConfig::resolve(&env).unwrap_err(),
        EngineError::InvalidDataDirectory { .. }
    ));
    env.log_file = set("none");
    assert!(EngineConfig::resolve(&env)
        .unwrap_err()
        .message()
        .contains(ENGINE_MAINTENANCE_INTERVAL_ENV));
    env.maintenance_interval = None;
    assert!(EngineConfig::resolve(&env).is_ok());
}

#[test]
fn explicit_flag_wins() {
    let path = resolve_socket_path(&set("/tmp/custom.sock"), &set("/env.sock"), &None, &None);
    assert!(matches!(path, Ok(p) if p == bytes("/tmp/custom.sock")));
}

#[test]
fn default_ends_with_socket_file_name() {
    let path = resolve_socket_path(&None, &None, &None, &set("/home/u/.local")).unwrap();
    assert!(
        path.ends_with(SOCKET_FILE_NAME.as_bytes()),
        "unexpected: {path:?}"
    );
    assert_eq!(path, bytes("/home/u/.local/run/valqeron.sock"));
}

#[test]
fn resolution_is_deterministic() {
    let a = resolve_socket_path(&set("/tmp/x.sock"), &None, &None, &None).unwrap();
    let b = resolve_socket_path(&set("/tmp/x.sock"), &None, &None, &None).unwrap();
    assert_eq!(a, b);
}

#[test]
fn without_a_home_the_socket_is_unknown() {
    let e = resolve_socket_path(&None, &None, &None, &None).unwrap_err();
    assert_eq!(e, ConnectionConfigError::NoHomeDirectory);
    assert_eq!(
        e.message(),
        "could not determine a home directory for the engine socket"
    );
}

#[test]
fn the_log_level_falls_back_to_info() {
    assert_eq!(file_log_level(&None), "info");
    assert_eq!(file_log_level(&Some(vec![0xff])), "info");
    assert_eq!(file_log_level(&set("debug")), "debug");
}

#[test]
fn arguments_are_refused() {
    assert_eq!(refuses_arguments(0), None);
    assert_eq!(refuses_arguments(1), None);
    assert_eq!(refuses_arguments(2), Some(exit_code::CONFIG));
}

#[test]
fn paths_join_with_one_separator() {
    assert_eq!(join(&bytes("/a"), "b"), bytes("/a/b"));
    assert_eq!(join(&bytes("/a/"), "b"), bytes("/a/b"));
    assert_eq!(join(&bytes(""), "b"), bytes("b"));
    assert_eq!(join(&bytes("/a"), "/b"), bytes("/b"));
    assert!(os_str_is_off(&bytes("None")));
    assert!(!os_str_is_off(&bytes(" off")));
    assert!(!os_str_is_off(&vec![0xff]));
}
