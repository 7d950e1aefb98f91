//! Errors of the engine's command line, their messages and exit codes.
use crate::exit_code;
use crate::text;
use vstd::prelude::*;

verus! {

/// Everything that ends an engine command. Paths are raw bytes.
#[derive(Clone, Debug)]
pub enum EngineError {
    Config(String),
    AlreadyRunning { db_path: Vec<u8>, pid: String },
    Storage(String),
    Io(String),
    Service(String),
    UnsupportedPlatform,
    NotRunning,
    ForcedShutdown,
}

impl EngineError {
    /// The exit code of the process.
    pub open spec fn code(&self) -> i32 {
        match *self {
            EngineError::Config(_) => exit_code::CONFIG,
            EngineError::AlreadyRunning { .. } => exit_code::ALREADY_RUNNING,
            EngineError::Service(_) => exit_code::SERVICE,
            EngineError::UnsupportedPlatform => exit_code::SERVICE,
            EngineError::Storage(_) => exit_code::RUNTIME,
            EngineError::Io(_) => exit_code::RUNTIME,
            EngineError::NotRunning => exit_code::RUNTIME,
            EngineError::ForcedShutdown => exit_code::RUNTIME,
        }
    }

    /// The exit code of the process; never zero.
    pub fn exit_code(&self) -> (code: i32)
        ensures
            code == self.code(),
            1 <= code <= 4,
    {
        match self {
            EngineError::Config(_) => exit_code::CONFIG,
            EngineError::AlreadyRunning { .. } => exit_code::ALREADY_RUNNING,
            EngineError::Service(_) => exit_code::SERVICE,
            EngineError::UnsupportedPlatform => exit_code::SERVICE,
            EngineError::Storage(_) => exit_code::RUNTIME,
            EngineError::Io(_) => exit_code::RUNTIME,
            EngineError::NotRunning => exit_code::RUNTIME,
            EngineError::ForcedShutdown => exit_code::RUNTIME,
        }
    }

    /// What the operator reads.
    pub open spec fn text(&self) -> Seq<char> {
        match *self {
            EngineError::Config(m) => "configuration error: "@ + m@,
            EngineError::AlreadyRunning { db_path, pid } =>
                "another engine instance already owns "@ + text::lossy_text(db_path@) + " (pid "@
                + pid@ + "); stop it first or check `valqeron-engine status`"@,
            EngineError::Storage(m) => "storage error: "@ + m@,
            EngineError::Io(m) => "i/o error: "@ + m@,
            EngineError::Service(m) => "service manager operation failed: "@ + m@,
            EngineError::UnsupportedPlatform =>
                "engine services are only supported on macOS (launchd) and Linux (systemd)"@,
            EngineError::NotRunning => "engine is not running"@,
            EngineError::ForcedShutdown =>
                "forced shutdown: second signal received before graceful shutdown finished"@,
        }
    }

    /// What the operator reads.
    pub fn message(&self) -> (out: String)
        ensures
            out@ == self.text(),
    {
        match self {
            EngineError::Config(m) => "configuration error: ".to_owned().concat(m.as_str()),
            EngineError::AlreadyRunning { db_path, pid } => {
                let head = "another engine instance already owns ".to_owned().concat(
                    text::lossy(db_path).as_str(),
                );
                head.concat(" (pid ").concat(pid.as_str()).concat(
                    "); stop it first or check `valqeron-engine status`",
                )
            },
            EngineError::Storage(m) => "storage error: ".to_owned().concat(m.as_str()),
            EngineError::Io(m) => "i/o error: ".to_owned().concat(m.as_str()),
            EngineError::Service(m) => "service manager operation failed: ".to_owned().concat(
                m.as_str(),
            ),
            EngineError::UnsupportedPlatform =>
                "engine services are only supported on macOS (launchd) and Linux (systemd)".to_owned(),
            EngineError::NotRunning => "engine is not running".to_owned(),
            EngineError::ForcedShutdown =>
                "forced shutdown: second signal received before graceful shutdown finished".to_owned(),
        }
    }
}

/// A faulty configuration ends with 2, a second engine with 3, a failed
/// service operation with 4, anything else with 1.
pub proof fn law_each_error_has_its_exit_code(error: EngineError)
    ensures
        error is Config ==> error.code() == 2,
        error is AlreadyRunning ==> error.code() == 3,
        error is Service || error is UnsupportedPlatform ==> error.code() == 4,
        error is Storage || error is Io || error is NotRunning || error is ForcedShutdown
            ==> error.code() == 1,
{
}

} // verus!
