//! How the login service is installed, removed and asked about, step by step
//! and line by line.
use super::install::{
    install_after, install_start, uninstall_after, uninstall_start, InstallStep, Platform,
    UninstallStep,
};
use super::render::{escaped, filled, leftover_text, leftovers, placeholder};
use super::{engine_line, in_the_way_text, launchd, not_run_text, shown, status_lines, systemd};
use super::{CallState, LAUNCHD_TEMPLATE, SYSTEMD_TEMPLATE};
use crate::paths::joined;
use crate::text;
use vstd::prelude::*;
use vstd::utf8::encode_utf8;

verus! {

// ---------------------------------------------------------------- steps
/// Installing goes through its steps in order: a place for the output, the
/// definition rendered, looked for, given a directory and written, and then
/// handed to the platform's service manager.
pub proof fn law_installing_goes_step_by_step()
    ensures
        ({
            let next = |step: InstallStep| install_after(Platform::Launchd, step, true);
            &&& install_start() == InstallStep::CreateLogDir
            &&& next(InstallStep::CreateLogDir) == InstallStep::Render
            &&& next(InstallStep::Render) == InstallStep::Inspect
            &&& next(InstallStep::Inspect) == InstallStep::CreateDir
            &&& next(InstallStep::CreateDir) == InstallStep::Write
            &&& next(InstallStep::Write) == InstallStep::FindDomain
            &&& next(InstallStep::FindDomain) == InstallStep::Unload
            &&& next(InstallStep::Unload) == InstallStep::Load
            &&& next(InstallStep::Load) == InstallStep::Done
        }),
        ({
            let next = |step: InstallStep| install_after(Platform::Systemd, step, true);
            &&& next(InstallStep::CreateLogDir) == InstallStep::Render
            &&& next(InstallStep::Render) == InstallStep::Inspect
            &&& next(InstallStep::Inspect) == InstallStep::CreateDir
            &&& next(InstallStep::CreateDir) == InstallStep::Write
            &&& next(InstallStep::Write) == InstallStep::Reload
            &&& next(InstallStep::Reload) == InstallStep::Enable
            &&& next(InstallStep::Enable) == InstallStep::Done
        }),
{
}

/// A step that fails ends the installation, except for unloading an agent
/// that may not be loaded. What has ended stays as it ended.
pub proof fn law_a_failed_step_ends_the_installation(platform: Platform, step: InstallStep, ok: bool)
    ensures
        step != InstallStep::Unload && step != InstallStep::Done ==> install_after(
            platform,
            step,
            false,
        ) == InstallStep::Failed,
        install_after(platform, InstallStep::Unload, ok) == InstallStep::Load,
        install_after(platform, InstallStep::Done, ok) == InstallStep::Done,
        install_after(platform, InstallStep::Failed, ok) == InstallStep::Failed,
        install_after(platform, step, ok) == InstallStep::Done ==> step == InstallStep::Done || (ok
            && (step == InstallStep::Load || step == InstallStep::Enable)),
{
}

/// Removing stops the service, which may fail, and then removes its
/// definition, which may not.
pub proof fn law_removing_goes_step_by_step(platform: Platform, ok: bool)
    ensures
        uninstall_start(Platform::Launchd) == UninstallStep::FindDomain,
        uninstall_start(Platform::Systemd) == UninstallStep::Stop,
        uninstall_after(platform, UninstallStep::FindDomain, true) == UninstallStep::Stop,
        uninstall_after(platform, UninstallStep::FindDomain, false) == UninstallStep::Failed,
        uninstall_after(platform, UninstallStep::Stop, ok) == UninstallStep::Remove,
        uninstall_after(platform, UninstallStep::Remove, false) == UninstallStep::Failed,
        uninstall_after(Platform::Launchd, UninstallStep::Remove, true) == UninstallStep::Done,
        uninstall_after(Platform::Systemd, UninstallStep::Remove, true) == UninstallStep::Reload,
        uninstall_after(platform, UninstallStep::Reload, ok) == UninstallStep::Done,
        uninstall_after(platform, UninstallStep::Done, ok) == UninstallStep::Done,
        uninstall_after(platform, UninstallStep::Failed, ok) == UninstallStep::Failed,
{
}

// ---------------------------------------------------------------- files
proof fn lemma_ascii(name: Seq<char>)
    requires
        vstd::utf8::is_ascii_chars(name),
    ensures
        encode_utf8(name).len() == name.len(),
        forall|i: int|
            0 <= i < name.len() ==> #[trigger] encode_utf8(name)[i] == name[i] as u8,
{
    vstd::utf8::is_ascii_chars_encode_utf8(name);
}

/// The agent's file is `Library/LaunchAgents/io.valqeron.engine.plist` below
/// the home directory.
pub proof fn law_the_agent_stands_in_the_home_directory(home: Seq<u8>)
    requires
        home.len() > 0,
        home.last() != 47,
    ensures
        launchd::agent_path(home) == home + encode_utf8(
            "/Library/LaunchAgents/io.valqeron.engine.plist"@,
        ),
{
    reveal_strlit("/Library/LaunchAgents/io.valqeron.engine.plist");
    reveal_strlit("Library");
    reveal_strlit("LaunchAgents");
    reveal_strlit("io.valqeron.engine.plist");
    lemma_ascii("/Library/LaunchAgents/io.valqeron.engine.plist"@);
    lemma_ascii("Library"@);
    lemma_ascii("LaunchAgents"@);
    lemma_ascii("io.valqeron.engine.plist"@);
    let library = joined(home, encode_utf8("Library"@));
    assert(library.last() == 121);
    let agents = joined(library, encode_utf8("LaunchAgents"@));
    assert(agents.last() == 115);
    assert(launchd::agent_path(home) =~= home + encode_utf8(
        "/Library/LaunchAgents/io.valqeron.engine.plist"@,
    ));
}

/// The unit's file stands below the configuration directory that is named,
/// or below `.config` in the home directory.
pub proof fn law_the_unit_stands_in_the_configuration_directory(xdg: Seq<u8>, home: Seq<u8>)
    requires
        home.len() > 0,
        home.last() != 47,
    ensures
        systemd::config_home(Some(xdg), Some(home)) == Some(xdg),
        systemd::config_home(Some(xdg), None) == Some(xdg),
        systemd::config_home(None, Some(home)) == Some(home + encode_utf8("/.config"@)),
        systemd::config_home(None, None) is None,
{
    reveal_strlit("/.config");
    reveal_strlit(".config");
    lemma_ascii("/.config"@);
    lemma_ascii(".config"@);
    assert(joined(home, encode_utf8(".config"@)) =~= home + encode_utf8("/.config"@));
}

// ---------------------------------------------------------------- definitions
/// An explicit database is handed to the agent and to the unit in their
/// environment; without one nothing is said of it.
pub proof fn law_an_explicit_database_is_handed_on(path: Seq<u8>)
    ensures
        launchd::env_block(None).len() == 0,
        launchd::env_block(Some(path))
            == "  <key>EnvironmentVariables</key>\n  <dict>\n    <key>VALQERON_DB</key>\n    <string>"@
            + escaped(text::lossy_text(path)) + "</string>\n  </dict>\n"@,
        systemd::env_block(None).len() == 0,
        systemd::env_block(Some(path)) == "Environment=\"VALQERON_DB="@ + text::lossy_text(path)
            + "\"\n"@,
{
}

/// The agent is told its label, its program, the two files of its output and
/// its database, each where the template asks for it.
pub proof fn law_the_agent_is_told_its_paths(
    exe: Seq<u8>,
    log_dir: Seq<u8>,
    db_path: Option<Seq<u8>>,
)
    ensures
        launchd::agent_text(exe, log_dir, db_path) == text::replaced(
            text::replaced(
                text::replaced(
                    text::replaced(
                        text::replaced(
                            LAUNCHD_TEMPLATE@,
                            "{{"@ + "LABEL"@ + "}}"@,
                            "io.valqeron.engine"@,
                        ),
                        "{{"@ + "EXE"@ + "}}"@,
                        escaped(text::lossy_text(exe)),
                    ),
                    "{{"@ + "STDOUT_PATH"@ + "}}"@,
                    escaped(
                        text::lossy_text(joined(log_dir, encode_utf8("launchd.stdout.log"@))),
                    ),
                ),
                "{{"@ + "STDERR_PATH"@ + "}}"@,
                escaped(text::lossy_text(joined(log_dir, encode_utf8("launchd.stderr.log"@)))),
            ),
            "{{"@ + "ENV_BLOCK"@ + "}}"@,
            launchd::env_block(db_path),
        ),
{
    let vars = launchd::agent_vars(
        exe,
        joined(log_dir, encode_utf8("launchd.stdout.log"@)),
        joined(log_dir, encode_utf8("launchd.stderr.log"@)),
        db_path,
    );
    lemma_filled_step(LAUNCHD_TEMPLATE@, vars, 4);
    lemma_filled_step(LAUNCHD_TEMPLATE@, vars, 3);
    lemma_filled_step(LAUNCHD_TEMPLATE@, vars, 2);
    lemma_filled_step(LAUNCHD_TEMPLATE@, vars, 1);
    lemma_filled_step(LAUNCHD_TEMPLATE@, vars, 0);
    assert(vars.take(5) =~= vars);
    assert(vars.take(0) =~= Seq::<(Seq<char>, Seq<char>)>::empty());
}

/// The unit is told its program, the two directories that it may write to and
/// its database, each where the template asks for it.
pub proof fn law_the_unit_is_told_its_paths(
    exe: Seq<u8>,
    db_dir: Seq<u8>,
    log_dir: Seq<u8>,
    db_path: Option<Seq<u8>>,
)
    ensures
        systemd::unit_text(exe, db_dir, log_dir, db_path) == text::replaced(
            text::replaced(
                text::replaced(
                    SYSTEMD_TEMPLATE@,
                    "{{"@ + "EXE"@ + "}}"@,
                    text::lossy_text(exe),
                ),
                "{{"@ + "RW_PATHS"@ + "}}"@,
                "\""@ + text::lossy_text(db_dir) + "\" \""@ + text::lossy_text(log_dir) + "\""@,
            ),
            "{{"@ + "ENV_BLOCK"@ + "}}"@,
            systemd::env_block(db_path),
        ),
{
    let vars = seq![
        ("EXE"@, text::lossy_text(exe)),
        ("RW_PATHS"@, systemd::rw_paths(db_dir, log_dir)),
        ("ENV_BLOCK"@, systemd::env_block(db_path)),
    ];
    lemma_filled_step(SYSTEMD_TEMPLATE@, vars, 2);
    lemma_filled_step(SYSTEMD_TEMPLATE@, vars, 1);
    lemma_filled_step(SYSTEMD_TEMPLATE@, vars, 0);
    assert(vars.take(3) =~= vars);
    assert(vars.take(0) =~= Seq::<(Seq<char>, Seq<char>)>::empty());
}

proof fn lemma_filled_step(template: Seq<char>, vars: Seq<(Seq<char>, Seq<char>)>, i: int)
    requires
        0 <= i < vars.len(),
    ensures
        filled(template, vars.take(i + 1)) == text::replaced(
            filled(template, vars.take(i)),
            "{{"@ + vars[i].0 + "}}"@,
            vars[i].1,
        ),
{
    assert(vars.take(i + 1).drop_last() =~= vars.take(i));
    assert(vars.take(i + 1).last() == vars[i]);
}

/// A placeholder that stands once is replaced by its value, and the text
/// around it stays.
pub proof fn law_a_placeholder_becomes_its_value(
    head: Seq<char>,
    key: Seq<char>,
    value: Seq<char>,
    tail: Seq<char>,
)
    requires
        !head.contains('{'),
        !tail.contains('{'),
    ensures
        filled(head + ("{{"@ + key + "}}"@) + tail, seq![(key, value)]) == head + value + tail,
{
    reveal_strlit("{{");
    reveal_strlit("}}");
    let needle = placeholder(key);
    let vars = seq![(key, value)];
    assert(vars.drop_last() =~= Seq::<(Seq<char>, Seq<char>)>::empty());
    assert(vars.last() == (key, value));
    reveal_with_fuel(filled, 2);
    assert(needle[0] == '{');
    lemma_replaced_after(head, needle + tail, needle, value);
    assert(head + needle + tail =~= head + (needle + tail));
    assert((needle + tail).subrange(0, needle.len() as int) =~= needle);
    assert((needle + tail).skip(needle.len() as int) =~= tail);
    assert(text::stands_at(needle + tail, needle, 0));
    lemma_replaced_after(tail, Seq::empty(), needle, value);
    assert(tail + Seq::<char>::empty() =~= tail);
    assert(head + (value + tail) =~= head + value + tail);
}

proof fn lemma_replaced_after(
    head: Seq<char>,
    rest: Seq<char>,
    needle: Seq<char>,
    value: Seq<char>,
)
    requires
        needle.len() > 0,
        !head.contains(needle[0]),
    ensures
        text::replaced(head + rest, needle, value) == head + text::replaced(rest, needle, value),
    decreases head.len(),
{
    if head.len() == 0 {
        assert(head + rest =~= rest);
        assert(head + text::replaced(rest, needle, value) =~= text::replaced(rest, needle, value));
    } else {
        let all = head + rest;
        assert(head.contains(head[0]));
        assert(!text::stands_at(all, needle, 0)) by {
            if text::stands_at(all, needle, 0) {
                assert(all.subrange(0, needle.len() as int)[0] == all[0]);
            }
        }
        assert(all.skip(1) =~= head.skip(1) + rest);
        assert forall|i: int| 0 <= i < head.skip(1).len() implies head.skip(1)[i] != needle[0] by {
            assert(head.contains(head[i + 1]));
        }
        lemma_replaced_after(head.skip(1), rest, needle, value);
        assert(seq![head[0]] + (head.skip(1) + text::replaced(rest, needle, value)) =~= head
            + text::replaced(rest, needle, value));
    }
}

/// A line is left over if and only if it still opens a placeholder; it is
/// told without the blanks around it, and the lines before it are told first.
pub proof fn law_leftovers_are_told_line_by_line(line: Seq<char>, rest: Seq<char>)
    requires
        !line.contains('\n'),
    ensures
        text::holds_text(line, "{{"@) ==> leftovers(line + seq!['\n'] + rest) == seq![
            text::trim_text(line),
        ] + leftovers(rest),
        !text::holds_text(line, "{{"@) ==> leftovers(line + seq!['\n'] + rest) == leftovers(rest),
        leftover_text(rest) == "service template contains unreplaced placeholders: "@
            + text::joined_texts(leftovers(rest), " | "@),
{
    text::lemma_cut(line, '\n', rest);
    assert((line + seq!['\n'] + rest).len() > 0);
    assert(Seq::<Seq<char>>::empty() + leftovers(rest) =~= leftovers(rest));
}

// ---------------------------------------------------------------- calls
/// The tools are called by name: the agent is named below the user's domain,
/// and systemd is asked for the user's own manager.
pub proof fn law_the_tools_are_called_by_name(
    domain: Seq<char>,
    args: Seq<Seq<char>>,
    required: bool,
)
    ensures
        launchd::target(domain) == domain + "/"@ + "io.valqeron.engine"@,
        launchd::launchctl(args, required).program == "launchctl"@,
        launchd::launchctl(args, required).args == args,
        launchd::launchctl(args, required).required == required,
        systemd::systemctl(args, required).program == "systemctl"@,
        systemd::systemctl(args, required).args.len() == args.len() + 1,
        systemd::systemctl(args, required).args[0] == "--user"@,
        systemd::systemctl(args, required).args.skip(1) == args,
        systemd::systemctl(args, required).required == required,
{
    assert(systemd::systemctl(args, required).args.skip(1) =~= args);
}

/// What is said of a call that could not be made, or that failed, names the
/// call and its cause.
pub proof fn law_a_failed_call_names_its_cause(call: CallState, cause: Seq<char>, stderr: Seq<u8>)
    ensures
        not_run_text(call, cause) == "running "@ + call.program + " "@ + text::joined_texts(
            call.args,
            " "@,
        ) + ": "@ + cause,
        systemd::failed_text(call, stderr) == "systemctl "@ + text::joined_texts(call.args, " "@)
            + " failed: "@ + text::trim_text(text::lossy_text(stderr)),
        shown(stderr) == text::trim_text(text::lossy_text(stderr)),
{
}

/// A definition in the way is named, with the option that overwrites it.
pub proof fn law_a_definition_in_the_way_is_named(path: Seq<u8>)
    ensures
        in_the_way_text(path) == text::lossy_text(path)
            + " already exists; rerun with --force to overwrite"@,
{
}

// ---------------------------------------------------------------- reports
/// Four lines tell the state: the database, the lock file, the service and
/// the engine, which runs if and only if its lock names a live process.
pub proof fn law_four_lines_tell_the_state(
    db_path: Seq<u8>,
    lock_path: Seq<u8>,
    service: Seq<char>,
    pid: Seq<char>,
    alive: bool,
)
    ensures
        ({
            let lines = status_lines(db_path, lock_path, service, Some(pid), alive);
            &&& lines.len() == 4
            &&& lines[0] == "database:   "@ + text::lossy_text(db_path)
            &&& lines[1] == "lock file:  "@ + text::lossy_text(lock_path)
            &&& lines[2] == "service:    "@ + service
            &&& alive ==> lines[3] == "engine:     running (pid "@ + pid + ")"@
            &&& !alive ==> lines[3] == "engine:     not running (stale lock file, last pid "@ + pid
                + ")"@
        }),
        status_lines(db_path, lock_path, service, None, alive)[3] == "engine:     not running"@,
        status_lines(db_path, lock_path, service, None, alive).take(3) == status_lines(
            db_path,
            lock_path,
            service,
            Some(pid),
            alive,
        ).take(3),
        engine_line(None, alive) == "engine:     not running"@,
{
    assert(status_lines(db_path, lock_path, service, None, alive).take(3) =~= status_lines(
        db_path,
        lock_path,
        service,
        Some(pid),
        alive,
    ).take(3));
}

/// An installation tells where the definition stands, that the engine runs
/// from now on, and how to look at it and its log.
pub proof fn law_an_installation_tells_where_to_look(
    file: Seq<u8>,
    domain: Seq<char>,
    log_dir: Seq<u8>,
)
    ensures
        ({
            let lines = launchd::installed_lines(file, domain, log_dir);
            &&& lines.len() == 4
            &&& lines[0] == "installed launchd agent: "@ + text::lossy_text(file)
            &&& lines[1] == "the engine starts now and at every login"@
            &&& lines[2] == "inspect with:  launchctl print "@ + (domain + "/"@
                + "io.valqeron.engine"@)
            &&& lines[3] == "logs:          "@ + text::lossy_text(
                joined(log_dir, encode_utf8("launchd.stderr.log"@)),
            )
        }),
        ({
            let lines = systemd::installed_lines(file);
            &&& lines.len() == 5
            &&& lines[0] == "installed systemd user unit: "@ + text::lossy_text(file)
            &&& lines[1] == "the engine starts now and at every login"@
            &&& lines[2] == "for boot start without a session: loginctl enable-linger $USER"@
            &&& lines[3] == "inspect with:  systemctl --user status "@
                + "valqeron-engine.service"@
            &&& lines[4] == "logs:          journalctl --user -u "@ + "valqeron-engine.service"@
        }),
{
}

} // verus!
