//! The systemd user unit on Linux.
//!
//! User units start at login and stop at logout; starting at boot without a
//! session takes lingering.
use crate::error::EngineError;
use crate::notify::opt_bytes;
use crate::paths::{copy_bytes, join, joined};
use crate::service::render::{filled, leftover_text, pairs, render};
use crate::service::{shown, show, CallState, ToolCall, ToolOutput, SYSTEMD_TEMPLATE};
use crate::text;
use vstd::prelude::*;
use vstd::utf8::encode_utf8;

verus! {

pub const UNIT_NAME: &'static str = "valqeron-engine.service";

/// The directory of the user's configuration.
pub open spec fn config_home(xdg: Option<Seq<u8>>, home: Option<Seq<u8>>) -> Option<Seq<u8>> {
    match xdg {
        Some(dir) => Some(dir),
        None => match home {
            Some(home) => Some(joined(home, encode_utf8(".config"@))),
            None => None,
        },
    }
}

/// The unit's file, below the configuration directory; without one there is
/// none.
pub fn unit_path(xdg: &Option<Vec<u8>>, home: &Option<Vec<u8>>) -> (path: Result<
    Vec<u8>,
    EngineError,
>)
    ensures
        path is Ok <==> config_home(opt_bytes(*xdg), opt_bytes(*home)) is Some,
        path matches Ok(p) ==> p@ == joined(
            joined(
                joined(
                    config_home(opt_bytes(*xdg), opt_bytes(*home))->0,
                    encode_utf8("systemd"@),
                ),
                encode_utf8("user"@),
            ),
            encode_utf8(UNIT_NAME@),
        ),
        path matches Err(e) ==> (e matches EngineError::Config(m) && m@
            == "neither XDG_CONFIG_HOME nor HOME is set"@),
{
    let base = match xdg {
        Some(dir) => copy_bytes(dir),
        None => match home {
            Some(home) => join(home, ".config"),
            None => {
                return Err(
                    EngineError::Config("neither XDG_CONFIG_HOME nor HOME is set".to_owned()),
                );
            },
        },
    };
    let systemd = join(&base, "systemd");
    let user = join(&systemd, "user");
    Ok(join(&user, UNIT_NAME))
}

/// The directories that the unit may write to: exactly what the engine
/// writes, the database's and the log's.
pub open spec fn rw_paths(db_dir: Seq<u8>, log_dir: Seq<u8>) -> Seq<char> {
    "\""@ + text::lossy_text(db_dir) + "\" \""@ + text::lossy_text(log_dir) + "\""@
}

/// The line that hands an explicit database to the unit.
pub open spec fn env_block(db_path: Option<Seq<u8>>) -> Seq<char> {
    match db_path {
        Some(path) => "Environment=\"VALQERON_DB="@ + text::lossy_text(path) + "\"\n"@,
        None => Seq::empty(),
    }
}

/// The unit's definition.
pub open spec fn unit_text(
    exe: Seq<u8>,
    db_dir: Seq<u8>,
    log_dir: Seq<u8>,
    db_path: Option<Seq<u8>>,
) -> Seq<char> {
    filled(
        SYSTEMD_TEMPLATE@,
        seq![
            ("EXE"@, text::lossy_text(exe)),
            ("RW_PATHS"@, rw_paths(db_dir, log_dir)),
            ("ENV_BLOCK"@, env_block(db_path)),
        ],
    )
}

/// Writes the unit's definition.
pub fn definition(
    exe: &Vec<u8>,
    db_dir: &Vec<u8>,
    log_dir: &Vec<u8>,
    db_path: &Option<Vec<u8>>,
) -> (rendered: Result<String, EngineError>)
    ensures
        rendered is Ok <==> !text::holds_text(
            unit_text(exe@, db_dir@, log_dir@, opt_bytes(*db_path)),
            "{{"@,
        ),
        rendered matches Ok(out) ==> out@ == unit_text(
            exe@,
            db_dir@,
            log_dir@,
            opt_bytes(*db_path),
        ),
        rendered matches Err(e) ==> (e matches EngineError::Service(m) && m@ == leftover_text(
            unit_text(exe@, db_dir@, log_dir@, opt_bytes(*db_path)),
        )),
{
    let writable = "\"".to_owned().concat(text::lossy(db_dir).as_str()).concat("\" \"").concat(
        text::lossy(log_dir).as_str(),
    ).concat("\"");
    let block = match db_path {
        Some(path) => "Environment=\"VALQERON_DB=".to_owned().concat(
            text::lossy(path).as_str(),
        ).concat("\"\n"),
        None => String::new(),
    };
    let mut vars: Vec<(&str, String)> = Vec::new();
    vars.push(("EXE", text::lossy(exe)));
    vars.push(("RW_PATHS", writable));
    vars.push(("ENV_BLOCK", block));
    assert(pairs(vars@) =~= seq![
        ("EXE"@, text::lossy_text(exe@)),
        ("RW_PATHS"@, rw_paths(db_dir@, log_dir@)),
        ("ENV_BLOCK"@, env_block(opt_bytes(*db_path))),
    ]);
    render(SYSTEMD_TEMPLATE, &vars)
}

/// A call of systemctl for the user's manager.
pub open spec fn systemctl(args: Seq<Seq<char>>, required: bool) -> CallState {
    CallState { program: "systemctl"@, args: seq!["--user"@] + args, required }
}

/// Makes the manager read its units again.
pub fn reload_call(required: bool) -> (call: ToolCall)
    ensures
        call@ == systemctl(seq!["daemon-reload"@], required),
{
    let mut args: Vec<String> = Vec::new();
    args.push("--user".to_owned());
    args.push("daemon-reload".to_owned());
    assert(text::texts(args@) =~= seq!["--user"@] + seq!["daemon-reload"@]);
    ToolCall { program: "systemctl".to_owned(), args, required }
}

/// Enables the unit and starts it.
pub fn enable_call() -> (call: ToolCall)
    ensures
        call@ == systemctl(seq!["enable"@, "--now"@, UNIT_NAME@], true),
{
    let mut args: Vec<String> = Vec::new();
    args.push("--user".to_owned());
    args.push("enable".to_owned());
    args.push("--now".to_owned());
    args.push(UNIT_NAME.to_owned());
    assert(text::texts(args@) =~= seq!["--user"@] + seq!["enable"@, "--now"@, UNIT_NAME@]);
    ToolCall { program: "systemctl".to_owned(), args, required: true }
}

/// Stops the unit and disables it, whether it was enabled or not.
pub fn disable_call() -> (call: ToolCall)
    ensures
        call@ == systemctl(seq!["disable"@, "--now"@, UNIT_NAME@], false),
{
    let mut args: Vec<String> = Vec::new();
    args.push("--user".to_owned());
    args.push("disable".to_owned());
    args.push("--now".to_owned());
    args.push(UNIT_NAME.to_owned());
    assert(text::texts(args@) =~= seq!["--user"@] + seq!["disable"@, "--now"@, UNIT_NAME@]);
    ToolCall { program: "systemctl".to_owned(), args, required: false }
}

/// Asks whether the unit is active.
pub fn is_active_call() -> (call: ToolCall)
    ensures
        call@ == systemctl(seq!["is-active"@, UNIT_NAME@], true),
{
    let mut args: Vec<String> = Vec::new();
    args.push("--user".to_owned());
    args.push("is-active".to_owned());
    args.push(UNIT_NAME.to_owned());
    assert(text::texts(args@) =~= seq!["--user"@] + seq!["is-active"@, UNIT_NAME@]);
    ToolCall { program: "systemctl".to_owned(), args, required: true }
}

/// What the operator reads of a call that failed.
pub open spec fn failed_text(call: CallState, stderr: Seq<u8>) -> Seq<char> {
    "systemctl "@ + text::joined_texts(call.args, " "@) + " failed: "@ + shown(stderr)
}

/// Whether a call did what it was for.
pub fn systemctl_ok(call: &ToolCall, output: &ToolOutput) -> (verdict: Result<(), EngineError>)
    ensures
        verdict is Ok <==> output.success,
        verdict matches Err(e) ==> (e matches EngineError::Service(m) && m@ == failed_text(
            call@,
            output.stderr@,
        )),
{
    if !output.success {
        let head = "systemctl ".to_owned().concat(text::join_texts(&call.args, " ").as_str());
        return Err(
            EngineError::Service(
                head.concat(" failed: ").concat(show(&output.stderr).as_str()),
            ),
        );
    }
    Ok(())
}

/// What `install` prints once the unit is enabled.
pub open spec fn installed_lines(unit: Seq<u8>) -> Seq<Seq<char>> {
    seq![
        "installed systemd user unit: "@ + text::lossy_text(unit),
        "the engine starts now and at every login"@,
        "for boot start without a session: loginctl enable-linger $USER"@,
        "inspect with:  systemctl --user status "@ + UNIT_NAME@,
        "logs:          journalctl --user -u "@ + UNIT_NAME@,
    ]
}

/// What `install` prints once the unit is enabled.
pub fn installed(unit: &Vec<u8>) -> (lines: Vec<String>)
    ensures
        text::texts(lines@) == installed_lines(unit@),
{
    let mut lines: Vec<String> = Vec::new();
    lines.push("installed systemd user unit: ".to_owned().concat(text::lossy(unit).as_str()));
    lines.push("the engine starts now and at every login".to_owned());
    lines.push("for boot start without a session: loginctl enable-linger $USER".to_owned());
    lines.push("inspect with:  systemctl --user status ".to_owned().concat(UNIT_NAME));
    lines.push("logs:          journalctl --user -u ".to_owned().concat(UNIT_NAME));
    assert(text::texts(lines@) =~= installed_lines(unit@));
    lines
}

/// The unit's state, from what `systemctl is-active` printed.
pub fn service_state(output: &ToolOutput) -> (state: String)
    ensures
        state@ == (if shown(output.stdout@).len() == 0 {
            "unknown"@
        } else {
            shown(output.stdout@) + " ("@ + UNIT_NAME@ + ")"@
        }),
{
    let state = show(&output.stdout);
    if state.as_str().is_empty() {
        "unknown".to_owned()
    } else {
        state.concat(" (").concat(UNIT_NAME).concat(")")
    }
}

} // verus!
