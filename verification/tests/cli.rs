//! The command line and the configuration of a foreground run.
use valqeron_engine::cli::{Cli, Command, InstallArgs, Level, RunArgs, UsageError};
use valqeron_engine::config::{lock_path_for, resolve_db_path, resolve_log_file, EngineConfig};
use valqeron_engine::database::Synchronous;
use valqeron_engine::span::Span;

fn bytes(text: &str) -> Vec<u8> {
    text.as_bytes().to_vec()
}

fn words(line: &[&str]) -> Vec<Vec<u8>> {
    line.iter().map(|word| bytes(word)).collect()
}

fn parse(line: &[&str]) -> Result<Cli, UsageError> {
    Cli::try_parse_from(&words(line))
}

fn run_args(cli: &Cli) -> RunArgs {
    match &cli.command {
        Command::Run(args) => args.clone(),
        other => panic!("expected run, got {other:?}"),
    }
}

#[test]
fn parses_run_with_defaults() {
    let cli = parse(&["valqeron-engine", "run"]).unwrap();
    match cli.command {
        Command::Run(args) => {
            assert_eq!(args.maintenance_interval, 3600);
            assert_eq!(args.heartbeat_interval, 300);
            assert!(!args.durable);
        }
        other => panic!("expected run, got {other:?}"),
    }
}

#[test]
fn verbosity_scales_from_info() {
    let cli = parse(&["valqeron-engine", "run"]).unwrap();
    assert_eq!(cli.log_level(), Level::Info);
    let cli = parse(&["valqeron-engine", "-v", "run"]).unwrap();
    assert_eq!(cli.log_level(), Level::Debug);
}

#[test]
fn no_log_file_conflicts_with_log_file() {
    let result = parse(&[
        "valqeron-engine",
        "run",
        "--log-file",
        "/x",
        "--no-log-file",
    ]);
    assert!(result.is_err());
}

#[test]
fn zero_intervals_are_clamped_to_one_second() {
    let cli = parse(&[
        "valqeron-engine",
        "--db-path",
        "/tmp/x.db",
        "run",
        "--maintenance-interval",
        "0",
        "--heartbeat-interval",
        "0",
        "--no-log-file",
    ])
    .unwrap();
    let Command::Run(run) = &cli.command else {
        panic!("expected run");
    };
    let cfg = EngineConfig::resolve(&cli, run, &None, &None).unwrap();
    assert_eq!(cfg.maintenance_interval(), Span::from_secs(1));
    assert_eq!(cfg.heartbeat_interval(), Span::from_secs(1));
}

#[test]
fn lock_file_sits_next_to_the_db() {
    assert_eq!(
        lock_path_for(&bytes("/data/valqeron.db")),
        bytes("/data/valqeron.db.lock")
    );
}

#[test]
fn verbosity_counts_clusters_and_the_later_count_wins() {
    let cli = parse(&["valqeron-engine", "-vv", "run"]).unwrap();
    assert_eq!((cli.verbose, cli.log_level()), (2, Level::Trace));
    let cli = parse(&["valqeron-engine", "-vv", "--verbose", "run"]).unwrap();
    assert_eq!(cli.verbose, 3);
    let cli = parse(&["valqeron-engine", "-vvv", "run", "-v"]).unwrap();
    assert_eq!(cli.verbose, 1);
    let many = format!("-{}", "v".repeat(300));
    let cli = parse(&["valqeron-engine", many.as_str(), "status"]).unwrap();
    assert_eq!(cli.verbose, 255);
}

#[test]
fn the_later_database_wins_over_the_earlier_and_both_over_the_environment() {
    let env = Some(bytes("/env.db"));
    let both = words(&["e", "--db-path", "/a.db", "run", "--db-path=/b.db"]);
    assert_eq!(
        Cli::try_parse_with(&both, &env).unwrap().db_path,
        Some(bytes("/b.db"))
    );
    let before = words(&["e", "--db-path", "/a.db", "run"]);
    assert_eq!(
        Cli::try_parse_with(&before, &env).unwrap().db_path,
        Some(bytes("/a.db"))
    );
    let neither = words(&["e", "run"]);
    assert_eq!(
        Cli::try_parse_with(&neither, &env).unwrap().db_path,
        Some(bytes("/env.db"))
    );
    assert_eq!(Cli::try_parse_with(&neither, &None).unwrap().db_path, None);
    assert!(Cli::try_parse_with(&neither, &Some(bytes(""))).is_err());
}

#[test]
fn every_command_takes_its_own_options_only() {
    let cli = parse(&["e", "install", "--force"]).unwrap();
    assert!(matches!(
        cli.command,
        Command::Install(InstallArgs { force: true })
    ));
    assert!(matches!(
        parse(&["e", "uninstall"]).unwrap().command,
        Command::Uninstall
    ));
    assert!(matches!(
        parse(&["e", "status", "--"]).unwrap().command,
        Command::Status
    ));
    for bad in [
        vec!["e"],
        vec!["e", "--help"],
        vec!["e", "-V"],
        vec!["e", "help"],
        vec!["e", "Run"],
        vec!["e", "run", "run"],
        vec!["e", "run", "--force"],
        vec!["e", "install", "--durable"],
        vec!["e", "status", "extra"],
        vec!["e", "status", "--", "extra"],
        vec!["e", "--durable", "run"],
        vec!["e", "run", "--durable", "--durable"],
        vec!["e", "run", "--durable=true"],
        vec!["e", "run", "--maintenance-interval"],
        vec!["e", "run", "--maintenance-interval", "-1"],
        vec!["e", "run", "--maintenance-interval=x"],
        vec!["e", "run", "--heartbeat-interval", "18446744073709551616"],
        vec!["e", "--db-path", "--", "run"],
        vec!["e", "--db-path=", "run"],
        vec!["e", "--db-path", "/a", "--db-path", "/b", "run"],
        vec!["e", "-x", "run"],
        vec!["e", "run", "--log-file="],
    ] {
        assert!(parse(&bad).is_err(), "{bad:?} is no command line");
    }
}

#[test]
fn a_value_may_be_attached_or_follow() {
    let cli = parse(&[
        "e",
        "run",
        "--maintenance-interval=7",
        "--heartbeat-interval",
        "+9",
        "--durable",
    ])
    .unwrap();
    let args = run_args(&cli);
    assert_eq!(args.maintenance_interval, 7);
    assert_eq!(args.heartbeat_interval, 9);
    assert!(args.durable);
    let cli = parse(&["e", "--db-path", "run", "status"]).unwrap();
    assert_eq!(cli.db_path, Some(bytes("run")));
    let cli = parse(&["e", "--db-path", "-", "status"]).unwrap();
    assert_eq!(cli.db_path, Some(bytes("-")));
}

#[test]
fn the_log_file_option_has_three_states() {
    assert_eq!(run_args(&parse(&["e", "run"]).unwrap()).log_file_arg(), None);
    assert_eq!(
        run_args(&parse(&["e", "run", "--log-file"]).unwrap()).log_file_arg(),
        Some(None)
    );
    assert_eq!(
        run_args(&parse(&["e", "run", "--log-file", "--durable"]).unwrap()).log_file_arg(),
        Some(None)
    );
    assert_eq!(
        run_args(&parse(&["e", "run", "--log-file", "/x.log"]).unwrap()).log_file_arg(),
        Some(Some(bytes("/x.log")))
    );
}

#[test]
fn the_log_goes_where_the_line_then_the_environment_says() {
    let data = Some(bytes("/data"));
    let env = Some(bytes("/env.log"));
    let log = |line: &[&str], env: &Option<Vec<u8>>| {
        let cli = parse(line).unwrap();
        resolve_log_file(&run_args(&cli), env, &data).unwrap()
    };
    assert_eq!(log(&["e", "run", "--no-log-file"], &env), None);
    assert_eq!(
        log(&["e", "run", "--log-file", "/x.log"], &env),
        Some(bytes("/x.log"))
    );
    assert_eq!(
        log(&["e", "run", "--log-file"], &env),
        Some(bytes("/data/engine.log"))
    );
    assert_eq!(log(&["e", "run"], &env), Some(bytes("/env.log")));
    assert_eq!(log(&["e", "run"], &Some(bytes("OFF"))), None);
    let cli = parse(&["e", "run"]).unwrap();
    let e = resolve_log_file(&run_args(&cli), &None, &None).unwrap_err();
    assert_eq!(
        e.message(),
        "configuration error: could not determine a data directory for valqeron; \
         set VALQERON_ENGINE_LOG_FILE or pass an explicit path"
    );
}

#[test]
fn a_foreground_configuration_exposes_its_values() {
    let cli = parse(&["e", "run", "--durable"]).unwrap();
    let run = run_args(&cli);
    let config = EngineConfig::resolve(&cli, &run, &None, &Some(bytes("/data/"))).unwrap();
    assert_eq!(config.db_path(), &bytes("/data/valqeron.db"));
    assert_eq!(config.lock_path(), bytes("/data/valqeron.db.lock"));
    assert_eq!(config.log_file(), Some(&bytes("/data/engine.log")));
    assert_eq!(config.synchronous(), Synchronous::Full);
    assert_eq!(config.durability_label(), "strict");
    assert_eq!(config.maintenance_interval(), Span::from_secs(3600));
    let relaxed = run_args(&parse(&["e", "run"]).unwrap());
    let config = EngineConfig::resolve(&cli, &relaxed, &None, &Some(bytes("/data"))).unwrap();
    assert_eq!(config.durability_label(), "relaxed");
    let e = resolve_db_path(&cli, &None).unwrap_err();
    assert_eq!(e.exit_code(), 2);
}
