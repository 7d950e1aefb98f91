//! The engine as a login service: what is installed, which tools are called
//! for it, and what their answers mean.
//!
//! The database belongs to a user, so the service does too: a launchd agent
//! on macOS, a systemd user unit on Linux, started at login.
pub mod install;
pub mod launchd;
pub mod laws;
pub mod render;
pub mod systemd;

use crate::engine::{
    no_data_dir_text, write_no_data_dir, DEFAULT_VALQERON_APP, ENGINE_LOG_FILE_ENV,
};
use crate::error::EngineError;
use crate::lockfile::{opt_string, write_at_path, at_path};
use crate::paths::copy_bytes;
use crate::text;
use vstd::prelude::*;

verus! {

/// The identity of the service.
pub const LABEL: &'static str = "io.valqeron.engine";

// ---------------------------------------------------------------- templates
/// The launchd agent. The engine takes no arguments. It is restarted after a crash but not after a clean
/// exit, and not more often than the throttle allows.
pub const LAUNCHD_TEMPLATE: &'static str =
    "<?xml version=\"1.0\" encoding=\"UTF-8\"?>\n<!DOCTYPE plist PUBLIC \"-//Apple//DTD PLIST 1.0//EN\" \"http://www.apple.com/DTDs/PropertyList-1.0.dtd\">\n<plist version=\"1.0\">\n<dict>\n  <key>Label</key>\n  <string>{{LABEL}}</string>\n  <key>ProgramArguments</key>\n  <array>\n    <string>{{EXE}}</string>\n  </array>\n{{ENV_BLOCK}}  <key>RunAtLoad</key>\n  <true/>\n  <key>KeepAlive</key>\n  <dict>\n    <key>SuccessfulExit</key>\n    <false/>\n  </dict>\n  <key>ThrottleInterval</key>\n  <integer>10</integer>\n  <key>ProcessType</key>\n  <string>Background</string>\n  <key>StandardOutPath</key>\n  <string>{{STDOUT_PATH}}</string>\n  <key>StandardErrorPath</key>\n  <string>{{STDERR_PATH}}</string>\n</dict>\n</plist>\n";

/// The systemd user unit. It is restarted after a crash but not after a
/// clean exit, and the start limit prevents restart storms.
pub const SYSTEMD_TEMPLATE: &'static str =
    "[Unit]\nDescription=Valqeron engine daemon\nStartLimitIntervalSec=60\nStartLimitBurst=5\n\n[Service]\nType=simple\nExecStart=\"{{EXE}}\"\n{{ENV_BLOCK}}Restart=on-failure\nRestartSec=5\nTimeoutStopSec=30\nNoNewPrivileges=true\nProtectSystem=strict\nProtectHome=read-only\nReadWritePaths={{RW_PATHS}}\n\n[Install]\nWantedBy=default.target\n";

pub fn launchd_template() -> (template: &'static str)
    ensures
        template@ == LAUNCHD_TEMPLATE@,
{
    LAUNCHD_TEMPLATE
}

pub fn systemd_template() -> (template: &'static str)
    ensures
        template@ == SYSTEMD_TEMPLATE@,
{
    SYSTEMD_TEMPLATE
}

/// The directory of what the service manager captures: the engine's default
/// log file lies in the platform's data directory, and so does the rest.
pub fn engine_log_dir(data_dir: &Option<Vec<u8>>) -> (dir: Result<Vec<u8>, EngineError>)
    ensures
        dir is Ok <==> *data_dir is Some,
        dir matches Ok(d) ==> d@ == data_dir->0@,
        dir matches Err(e) ==> (e matches EngineError::Config(m) && m@ == no_data_dir_text(
            DEFAULT_VALQERON_APP@,
            ENGINE_LOG_FILE_ENV@,
        )),
{
    match data_dir {
        Some(dir) => Ok(copy_bytes(dir)),
        None => Err(
            EngineError::Config(write_no_data_dir(DEFAULT_VALQERON_APP, ENGINE_LOG_FILE_ENV)),
        ),
    }
}

// ---------------------------------------------------------------- tools
/// A call of an outside tool.
#[derive(Clone, Debug)]
pub struct ToolCall {
    pub program: String,
    pub args: Vec<String>,
    /// Whether a failure ends the operation.
    pub required: bool,
}

/// What a call is.
#[verifier::ext_equal]
pub struct CallState {
    pub program: Seq<char>,
    pub args: Seq<Seq<char>>,
    pub required: bool,
}

impl View for ToolCall {
    type V = CallState;

    open spec fn view(&self) -> CallState {
        CallState {
            program: self.program@,
            args: text::texts(self.args@),
            required: self.required,
        }
    }
}

/// How a tool answered.
#[derive(Clone, Debug)]
pub struct ToolOutput {
    pub success: bool,
    pub stdout: Vec<u8>,
    pub stderr: Vec<u8>,
}

/// Output as text, without the blanks around it.
pub open spec fn shown(output: Seq<u8>) -> Seq<char> {
    text::trim_text(text::lossy_text(output))
}

/// Output as text, without the blanks around it.
pub(crate) fn show(output: &Vec<u8>) -> (out: String)
    ensures
        out@ == shown(output@),
{
    text::trim(text::lossy(output).as_str())
}

/// What the operator reads when a tool could not be run.
pub open spec fn not_run_text(call: CallState, cause: Seq<char>) -> Seq<char> {
    "running "@ + call.program + " "@ + text::joined_texts(call.args, " "@) + ": "@ + cause
}

/// The error of a tool that could not be run.
pub fn tool_not_run(call: &ToolCall, cause: &str) -> (e: EngineError)
    ensures
        e matches EngineError::Service(m) && m@ == not_run_text(call@, cause@),
{
    let head = "running ".to_owned().concat(call.program.as_str()).concat(" ").concat(
        text::join_texts(&call.args, " ").as_str(),
    );
    EngineError::Service(head.concat(": ").concat(cause))
}

// ---------------------------------------------------------------- install
/// What is said of a definition that is in the way.
pub open spec fn in_the_way_text(path: Seq<u8>) -> Seq<char> {
    text::lossy_text(path) + " already exists; rerun with --force to overwrite"@
}

/// Whether a definition may be written: an existing one only by force.
pub fn may_write(path: &Vec<u8>, present: bool, force: bool) -> (verdict: Result<(), EngineError>)
    ensures
        verdict is Ok <==> !present || force,
        verdict matches Err(e) ==> (e matches EngineError::Service(m) && m@ == in_the_way_text(
            path@,
        )),
{
    if present && !force {
        return Err(
            EngineError::Service(
                text::lossy(path).concat(" already exists; rerun with --force to overwrite"),
            ),
        );
    }
    Ok(())
}

/// How removing a definition went.
#[derive(Clone, Debug)]
pub enum Removal {
    Removed,
    Absent,
    Failed(String),
}

/// What is said of a removal; a definition that was not there is fine.
pub fn removed(path: &Vec<u8>, removal: Removal) -> (said: Result<String, EngineError>)
    ensures
        said is Ok <==> removal !is Failed,
        removal is Removed ==> said->Ok_0@ == "removed "@ + text::lossy_text(path@),
        removal is Absent ==> said->Ok_0@ == "nothing to remove: "@ + text::lossy_text(path@)
            + " does not exist"@,
        removal matches Removal::Failed(cause) ==> (said matches Err(EngineError::Io(m)) && m@
            == at_path("removing "@, path@, cause@)),
{
    match removal {
        Removal::Removed => Ok("removed ".to_owned().concat(text::lossy(path).as_str())),
        Removal::Absent => Ok(
            "nothing to remove: ".to_owned().concat(text::lossy(path).as_str()).concat(
                " does not exist",
            ),
        ),
        Removal::Failed(cause) => Err(
            EngineError::Io(write_at_path("removing ", path, cause.as_str())),
        ),
    }
}

// ---------------------------------------------------------------- status
/// Whether a pid is one that can be probed.
pub fn can_probe(pid: &str) -> (yes: bool)
    ensures
        yes == text::all_digits(pid@),
{
    text::only_digits(pid)
}

/// Whether a process is alive: its pid must be a number, and the probe must
/// have succeeded. `probe` is `None` where the probe could not be run.
pub fn process_alive(pid: &str, probe: Option<bool>) -> (alive: bool)
    ensures
        alive == (text::all_digits(pid@) && probe == Some(true)),
{
    if !can_probe(pid) {
        return false;
    }
    match probe {
        Some(success) => success,
        None => false,
    }
}

/// The line on the engine: running, stopped with a stale lock, or stopped.
pub open spec fn engine_line(pid: Option<Seq<char>>, alive: bool) -> Seq<char> {
    match pid {
        Some(pid) => if alive {
            "engine:     running (pid "@ + pid + ")"@
        } else {
            "engine:     not running (stale lock file, last pid "@ + pid + ")"@
        },
        None => "engine:     not running"@,
    }
}

/// What `status` prints.
pub open spec fn status_lines(
    db_path: Seq<u8>,
    lock_path: Seq<u8>,
    service: Seq<char>,
    pid: Option<Seq<char>>,
    alive: bool,
) -> Seq<Seq<char>> {
    seq![
        "database:   "@ + text::lossy_text(db_path),
        "lock file:  "@ + text::lossy_text(lock_path),
        "service:    "@ + service,
        engine_line(pid, alive),
    ]
}

/// What `status` prints, and whether the engine runs: it does where the lock
/// names a process that is alive. A stopped engine is an error, so that
/// scripts can probe with it.
pub fn status(
    db_path: &Vec<u8>,
    lock_path: &Vec<u8>,
    service: &str,
    pid: &Option<String>,
    alive: bool,
) -> (report: (Vec<String>, Result<(), EngineError>))
    ensures
        text::texts(report.0@) == status_lines(
            db_path@,
            lock_path@,
            service@,
            opt_string(*pid),
            alive,
        ),
        report.1 is Ok <==> *pid is Some && alive,
        report.1 is Err ==> report.1->Err_0 is NotRunning,
{
    let mut lines: Vec<String> = Vec::new();
    lines.push("database:   ".to_owned().concat(text::lossy(db_path).as_str()));
    lines.push("lock file:  ".to_owned().concat(text::lossy(lock_path).as_str()));
    lines.push("service:    ".to_owned().concat(service));
    let verdict = match pid {
        Some(pid) => if alive {
            lines.push("engine:     running (pid ".to_owned().concat(pid.as_str()).concat(")"));
            Ok(())
        } else {
            lines.push(
                "engine:     not running (stale lock file, last pid ".to_owned().concat(
                    pid.as_str(),
                ).concat(")"),
            );
            Err(EngineError::NotRunning)
        },
        None => {
            lines.push("engine:     not running".to_owned());
            Err(EngineError::NotRunning)
        },
    };
    assert(text::texts(lines@) =~= status_lines(
        db_path@,
        lock_path@,
        service@,
        opt_string(*pid),
        alive,
    ));
    (lines, verdict)
}

/// What `status` says of the service where its state could not be asked for.
pub fn unknown_state(e: &EngineError) -> (state: String)
    ensures
        state@ == "unknown ("@ + e.text() + ")"@,
{
    "unknown (".to_owned().concat(e.message().as_str()).concat(")")
}

} // verus!
