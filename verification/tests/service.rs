//! The service definitions, their installation and the status report.
use valqeron_engine::error::EngineError;
use valqeron_engine::exit_code;
use valqeron_engine::service::install::{InstallStep, Platform, UninstallStep};
use valqeron_engine::service::render::{render, xml_escape};
use valqeron_engine::service::{
    can_probe, engine_log_dir, launchd, launchd_template, may_write, process_alive, removed,
    status, systemd, systemd_template, tool_not_run, unknown_state, Removal, ToolOutput,
};

fn bytes(text: &str) -> Vec<u8> {
    text.as_bytes().to_vec()
}

fn output(success: bool, stdout: &str, stderr: &str) -> ToolOutput {
    ToolOutput {
        success,
        stdout: bytes(stdout),
        stderr: bytes(stderr),
    }
}

fn vars<'a>(pairs: &[(&'a str, &str)]) -> Vec<(&'a str, String)> {
    pairs.iter().map(|(k, v)| (*k, v.to_string())).collect()
}

fn service_message(e: EngineError) -> String {
    match e {
        EngineError::Service(message) => message,
        other => panic!("expected a service error, got {other:?}"),
    }
}

#[test]
fn substitutes_every_occurrence() {
    let out = render("a {{X}} b {{X}} {{Y}}", &vars(&[("X", "1"), ("Y", "2")])).unwrap();
    assert_eq!(out, "a 1 b 1 2");
}

#[test]
fn leftover_placeholders_are_an_error() {
    let err = render("hello {{MISSING}}", &vars(&[])).unwrap_err();
    assert!(err.message().contains("MISSING"), "{}", err.message());
}

#[test]
fn xml_escape_handles_ampersand_first() {
    assert_eq!(xml_escape("a&b<c>d"), "a&amp;b&lt;c&gt;d");
    assert_eq!(xml_escape("&lt;"), "&amp;lt;");
}

#[test]
fn launchd_template_renders_without_leftovers() {
    let out = render(
        launchd_template(),
        &vars(&[
            ("LABEL", "io.valqeron.engine"),
            ("EXE", "/usr/local/bin/valqeron-engine"),
            ("STDOUT_PATH", "/tmp/out.log"),
            ("STDERR_PATH", "/tmp/err.log"),
            ("ENV_BLOCK", ""),
        ]),
    )
    .unwrap();
    assert!(out.contains("<string>/usr/local/bin/valqeron-engine</string>"));
    assert!(out.contains("SuccessfulExit"));
    assert!(!out.contains("{{"));
}

#[test]
fn systemd_template_renders_without_leftovers() {
    let out = render(
        systemd_template(),
        &vars(&[
            ("EXE", "/usr/local/bin/valqeron-engine"),
            ("RW_PATHS", "\"/data\" \"/logs\""),
            ("ENV_BLOCK", ""),
        ]),
    )
    .unwrap();
    assert!(out.contains("Restart=on-failure"));
    assert!(out.contains("WantedBy=default.target"));
    assert!(!out.contains("{{"));
}

#[test]
fn templates_contain_no_developer_machine_paths() {
    for template in [launchd_template(), systemd_template()] {
        assert!(
            !template.contains("/Users/") && !template.contains("/home/"),
            "template must not hardcode a developer path"
        );
    }
}

#[test]
fn liveness_probe_rejects_garbage_pids() {
    for probe in [None, Some(false), Some(true)] {
        assert!(!process_alive("", probe));
        assert!(!process_alive("abc", probe));
        assert!(!process_alive("12x", probe));
    }
    for garbage in ["", "abc", "12x"] {
        assert!(!can_probe(garbage));
    }
}

#[test]
fn a_probed_pid_is_alive_where_the_probe_succeeds() {
    assert!(can_probe("4711"));
    assert!(process_alive("4711", Some(true)));
    assert!(!process_alive("4711", Some(false)));
    assert!(!process_alive("4711", None));
}

#[test]
fn leftover_lines_are_listed_trimmed() {
    let err = render("ok\n  {{A}} x  \nfine\n{{B}}\r\n", &vars(&[("C", "1")])).unwrap_err();
    assert_eq!(
        service_message(err),
        "service template contains unreplaced placeholders: {{A}} x | {{B}}"
    );
}

#[test]
fn plain_text_needs_no_escaping() {
    assert_eq!(xml_escape("/usr/local/bin"), "/usr/local/bin");
}

// ---------------------------------------------------------------- launchd
#[test]
fn the_agent_sits_below_the_home_directory() {
    assert_eq!(
        launchd::plist_path(&Some(bytes("/Users/u"))).unwrap(),
        bytes("/Users/u/Library/LaunchAgents/io.valqeron.engine.plist")
    );
    let e = launchd::plist_path(&None).unwrap_err();
    assert_eq!(e.exit_code(), exit_code::CONFIG);
    assert_eq!(e.message(), "configuration error: HOME is not set");
}

#[test]
fn the_domain_needs_a_numeric_uid() {
    assert_eq!(launchd::gui_domain(&bytes("501\n")).unwrap(), "gui/501");
    assert_eq!(
        service_message(launchd::gui_domain(&bytes("root\n")).unwrap_err()),
        "could not determine the current uid (got \"root\")"
    );
}

#[test]
fn the_agent_escapes_paths_and_hands_on_an_explicit_database() {
    let plain = launchd::definition(&bytes("/bin/a&b"), &bytes("/logs"), &None).unwrap();
    assert!(plain.contains("<string>/bin/a&amp;b</string>"));
    assert!(plain.contains("<string>/logs/launchd.stdout.log</string>"));
    assert!(plain.contains("<string>/logs/launchd.stderr.log</string>"));
    assert!(!plain.contains("EnvironmentVariables"));
    let explicit =
        launchd::definition(&bytes("/bin/e"), &bytes("/logs"), &Some(bytes("/x<y>.db"))).unwrap();
    assert!(explicit.contains("<key>VALQERON_DB</key>\n    <string>/x&lt;y&gt;.db</string>"));
    assert!(launchd::definition(&bytes("/{{bin"), &bytes("/logs"), &None).is_err());
}

#[test]
fn launchctl_is_called_with_the_target() {
    let call = launchd::bootout_call("gui/501");
    assert_eq!(call.program, "launchctl");
    assert_eq!(call.args, vec!["bootout", "gui/501/io.valqeron.engine"]);
    assert!(!call.required);
    let call = launchd::bootstrap_call("gui/501", &bytes("/a.plist"));
    assert_eq!(call.args, vec!["bootstrap", "gui/501", "/a.plist"]);
    assert!(call.required);
    let call = launchd::print_call("gui/501");
    assert_eq!(call.args, vec!["print", "gui/501/io.valqeron.engine"]);
    assert_eq!(
        service_message(tool_not_run(&call, "not found")),
        "running launchctl print gui/501/io.valqeron.engine: not found"
    );
    assert!(launchd::bootstrapped(&output(true, "", "")).is_ok());
    assert_eq!(
        service_message(launchd::bootstrapped(&output(false, "", " 5: denied\n")).unwrap_err()),
        "launchctl bootstrap failed: 5: denied"
    );
    assert_eq!(
        launchd::service_state("gui/501", &output(true, "", "")),
        "loaded (gui/501/io.valqeron.engine)"
    );
    assert_eq!(
        launchd::service_state("gui/501", &output(false, "", "")),
        "not loaded (gui/501/io.valqeron.engine)"
    );
    assert_eq!(
        launchd::installed(&bytes("/a.plist"), "gui/501", &bytes("/logs")),
        vec![
            "installed launchd agent: /a.plist",
            "the engine starts now and at every login",
            "inspect with:  launchctl print gui/501/io.valqeron.engine",
            "logs:          /logs/launchd.stderr.log",
        ]
    );
}

// ---------------------------------------------------------------- systemd
#[test]
fn the_unit_sits_below_the_configuration_directory() {
    assert_eq!(
        systemd::unit_path(&Some(bytes("/cfg")), &Some(bytes("/home/u"))).unwrap(),
        bytes("/cfg/systemd/user/valqeron-engine.service")
    );
    assert_eq!(
        systemd::unit_path(&None, &Some(bytes("/home/u"))).unwrap(),
        bytes("/home/u/.config/systemd/user/valqeron-engine.service")
    );
    assert_eq!(
        systemd::unit_path(&None, &None).unwrap_err().message(),
        "configuration error: neither XDG_CONFIG_HOME nor HOME is set"
    );
}

#[test]
fn the_unit_may_write_to_the_database_and_the_log_only() {
    let unit = systemd::definition(
        &bytes("/bin/e"),
        &bytes("/data"),
        &bytes("/logs"),
        &Some(bytes("/data/x.db")),
    )
    .unwrap();
    assert!(unit.contains("ReadWritePaths=\"/data\" \"/logs\"\n"));
    assert!(unit.contains("Environment=\"VALQERON_DB=/data/x.db\"\n"));
    let unit =
        systemd::definition(&bytes("/bin/e"), &bytes("/data"), &bytes("/logs"), &None).unwrap();
    assert!(!unit.contains("Environment="));
}

#[test]
fn systemctl_acts_for_the_user() {
    assert_eq!(
        systemd::reload_call(true).args,
        vec!["--user", "daemon-reload"]
    );
    assert!(!systemd::reload_call(false).required);
    assert_eq!(
        systemd::enable_call().args,
        vec!["--user", "enable", "--now", "valqeron-engine.service"]
    );
    assert_eq!(
        systemd::disable_call().args,
        vec!["--user", "disable", "--now", "valqeron-engine.service"]
    );
    assert!(!systemd::disable_call().required);
    let call = systemd::is_active_call();
    assert_eq!(
        call.args,
        vec!["--user", "is-active", "valqeron-engine.service"]
    );
    assert!(systemd::systemctl_ok(&call, &output(true, "", "")).is_ok());
    assert_eq!(
        service_message(systemd::systemctl_ok(&call, &output(false, "", "no bus\n")).unwrap_err()),
        "systemctl --user is-active valqeron-engine.service failed: no bus"
    );
    assert_eq!(
        systemd::service_state(&output(true, "active\n", "")),
        "active (valqeron-engine.service)"
    );
    assert_eq!(systemd::service_state(&output(false, " \n", "")), "unknown");
    assert_eq!(
        systemd::installed(&bytes("/u.service")),
        vec![
            "installed systemd user unit: /u.service",
            "the engine starts now and at every login",
            "for boot start without a session: loginctl enable-linger $USER",
            "inspect with:  systemctl --user status valqeron-engine.service",
            "logs:          journalctl --user -u valqeron-engine.service",
        ]
    );
}

// ---------------------------------------------------------------- install
#[test]
fn an_existing_definition_is_overwritten_by_force_only() {
    let path = bytes("/u.service");
    assert!(may_write(&path, false, false).is_ok());
    assert!(may_write(&path, true, true).is_ok());
    assert_eq!(
        service_message(may_write(&path, true, false).unwrap_err()),
        "/u.service already exists; rerun with --force to overwrite"
    );
}

#[test]
fn removing_what_is_not_there_is_fine() {
    let path = bytes("/u.service");
    assert_eq!(
        removed(&path, Removal::Removed).unwrap(),
        "removed /u.service"
    );
    assert_eq!(
        removed(&path, Removal::Absent).unwrap(),
        "nothing to remove: /u.service does not exist"
    );
    match removed(&path, Removal::Failed("denied".into())).unwrap_err() {
        EngineError::Io(m) => assert_eq!(m, "removing /u.service: denied"),
        other => panic!("expected Io, got {other:?}"),
    }
}

#[test]
fn installing_checks_before_it_writes() {
    let walk = |platform: Platform| {
        let mut step = InstallStep::first();
        let mut steps = vec![step];
        while step != InstallStep::Done {
            step = step.next(platform, true);
            steps.push(step);
        }
        steps
    };
    assert_eq!(
        walk(Platform::Systemd),
        vec![
            InstallStep::CreateLogDir,
            InstallStep::Render,
            InstallStep::Inspect,
            InstallStep::CreateDir,
            InstallStep::Write,
            InstallStep::Reload,
            InstallStep::Enable,
            InstallStep::Done,
        ]
    );
    assert_eq!(
        walk(Platform::Launchd)[5..].to_vec(),
        vec![
            InstallStep::FindDomain,
            InstallStep::Unload,
            InstallStep::Load,
            InstallStep::Done,
        ]
    );
    assert_eq!(
        InstallStep::Inspect.next(Platform::Systemd, false),
        InstallStep::Failed
    );
    assert_eq!(
        InstallStep::Unload.next(Platform::Launchd, false),
        InstallStep::Load
    );
}

#[test]
fn removing_goes_on_past_a_stopped_service() {
    let launchd = Platform::Launchd;
    let systemd = Platform::Systemd;
    assert_eq!(UninstallStep::first(launchd), UninstallStep::FindDomain);
    assert_eq!(UninstallStep::first(systemd), UninstallStep::Stop);
    assert_eq!(
        UninstallStep::Stop.next(systemd, false),
        UninstallStep::Remove
    );
    assert_eq!(
        UninstallStep::Remove.next(systemd, true),
        UninstallStep::Reload
    );
    assert_eq!(
        UninstallStep::Reload.next(systemd, false),
        UninstallStep::Done
    );
    assert_eq!(
        UninstallStep::Remove.next(launchd, true),
        UninstallStep::Done
    );
    assert_eq!(
        UninstallStep::Remove.next(launchd, false),
        UninstallStep::Failed
    );
}

// ---------------------------------------------------------------- status
#[test]
fn status_tells_running_stopped_and_stale_apart() {
    let db = bytes("/d.db");
    let lock = bytes("/d.db.lock");
    let (lines, verdict) = status(&db, &lock, "active", &Some("12".into()), true);
    assert!(verdict.is_ok());
    assert_eq!(
        lines,
        vec![
            "database:   /d.db",
            "lock file:  /d.db.lock",
            "service:    active",
            "engine:     running (pid 12)",
        ]
    );
    let (lines, verdict) = status(&db, &lock, "x", &Some("12".into()), false);
    assert!(matches!(verdict, Err(EngineError::NotRunning)));
    assert_eq!(
        lines[3],
        "engine:     not running (stale lock file, last pid 12)"
    );
    let (lines, verdict) = status(&db, &lock, "x", &None, true);
    assert!(matches!(verdict, Err(EngineError::NotRunning)));
    assert_eq!(lines[3], "engine:     not running");
    assert_eq!(
        unknown_state(&EngineError::NotRunning),
        "unknown (engine is not running)"
    );
}

#[test]
fn captured_output_goes_next_to_the_log() {
    assert_eq!(
        engine_log_dir(&Some(bytes("/home/u/.local/share/valqeron"))).unwrap(),
        bytes("/home/u/.local/share/valqeron")
    );
    let refused = engine_log_dir(&None).unwrap_err();
    assert!(matches!(refused, EngineError::Config(_)));
    assert!(refused.message().contains("VALQERON_ENGINE_LOG_FILE"));
}

#[test]
fn escaping_can_be_undone() {
    for value in ["", "plain", "a&b<c>d", "&lt;", "&amp;&gt;<", "<<&&>>", "&amp;lt;"] {
        let undone = xml_escape(value)
            .replace("&lt;", "<")
            .replace("&gt;", ">")
            .replace("&amp;", "&");
        assert_eq!(undone, value);
    }
    assert_ne!(xml_escape("<"), xml_escape("&lt;"));
}

#[test]
fn services_start_the_engine_without_arguments() {
    assert!(launchd_template().contains("<array>\n    <string>{{EXE}}</string>\n  </array>"));
    assert!(systemd_template().contains("ExecStart=\"{{EXE}}\"\n"));
}
