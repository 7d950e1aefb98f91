//! What the engine runs with: every setting comes from a `VALQERON_*`
//! environment variable, handed in as raw bytes, or from a default. A value
//! that cannot be read refuses the start instead of becoming a default.
use crate::database::Synchronous;
use crate::exit_code;
use crate::moment::{clock_read, read_clock, ClockTime};
use crate::notify::opt_bytes;
use crate::paths::{copy_bytes, is_off, join, joined, os_str_is_off, push_text};
use crate::proto;
use crate::schedule::{recurrence_spelled, Recurrence};
use crate::span::Span;
use crate::text;
use vstd::prelude::*;
use vstd::utf8::{decode_utf8, encode_utf8, valid_utf8};

verus! {

// ---------------------------------------------------------------- errors
/// Everything that ends an engine run. Paths are raw bytes.
#[derive(Clone, Debug)]
pub enum EngineError {
    Config(String),
    InvalidDataDirectory { app: String, env_var: String },
    AlreadyRunning { db_path: Vec<u8>, pid: String },
    Storage(String),
    Io(String),
    ForcedShutdown,
}

impl EngineError {
    /// The exit code of the process.
    pub open spec fn code(&self) -> i32 {
        match *self {
            EngineError::Config(_) => exit_code::CONFIG,
            EngineError::InvalidDataDirectory { .. } => exit_code::CONFIG,
            EngineError::AlreadyRunning { .. } => exit_code::ALREADY_RUNNING,
            EngineError::Storage(_) => exit_code::RUNTIME,
            EngineError::Io(_) => exit_code::RUNTIME,
            EngineError::ForcedShutdown => exit_code::RUNTIME,
        }
    }

    /// The exit code of the process; never zero.
    pub fn exit_code(&self) -> (code: i32)
        ensures
            code == self.code(),
            1 <= code <= 3,
    {
        match self {
            EngineError::Config(_) => exit_code::CONFIG,
            EngineError::InvalidDataDirectory { .. } => exit_code::CONFIG,
            EngineError::AlreadyRunning { .. } => exit_code::ALREADY_RUNNING,
            EngineError::Storage(_) => exit_code::RUNTIME,
            EngineError::Io(_) => exit_code::RUNTIME,
            EngineError::ForcedShutdown => exit_code::RUNTIME,
        }
    }

    /// What the operator reads.
    pub open spec fn text(&self) -> Seq<char> {
        match *self {
            EngineError::Config(m) => "configuration error: "@ + m@,
            EngineError::InvalidDataDirectory { app, env_var } => no_data_dir_text(
                app@,
                env_var@,
            ),
            EngineError::AlreadyRunning { db_path, pid } =>
                "another engine instance already owns "@ + text::lossy_text(db_path@) + " (pid "@
                + pid@ + "); stop it first or check `valqeron engine status`"@,
            EngineError::Storage(m) => "storage error: "@ + m@,
            EngineError::Io(m) => "i/o error: "@ + m@,
            EngineError::ForcedShutdown =>
                "forced shutdown: second signal received before graceful shutdown finished"@,
        }
    }

    /// What the operator reads.
    pub fn message(&self) -> (out: String)
        ensures
            out@ == self.text(),
    {
        match self {
            EngineError::Config(m) => "configuration error: ".to_owned().concat(m.as_str()),
            EngineError::InvalidDataDirectory { app, env_var } => write_no_data_dir(
                app.as_str(),
                env_var.as_str(),
            ),
            EngineError::AlreadyRunning { db_path, pid } => {
                let head = "another engine instance already owns ".to_owned().concat(
                    text::lossy(db_path).as_str(),
                );
                head.concat(" (pid ").concat(pid.as_str()).concat(
                    "); stop it first or check `valqeron engine status`",
                )
            },
            EngineError::Storage(m) => "storage error: ".to_owned().concat(m.as_str()),
            EngineError::Io(m) => "i/o error: ".to_owned().concat(m.as_str()),
            EngineError::ForcedShutdown =>
                "forced shutdown: second signal received before graceful shutdown finished".to_owned(),
        }
    }
}

/// Why no default location could be found.
pub open spec fn no_data_dir_text(app: Seq<char>, env_var: Seq<char>) -> Seq<char> {
    "could not determine a data directory for "@ + app + "; set "@ + env_var
        + " or pass an explicit path"@
}

/// Writes why no default location could be found.
pub fn write_no_data_dir(app: &str, env_var: &str) -> (out: String)
    ensures
        out@ == no_data_dir_text(app@, env_var@),
{
    let head = "could not determine a data directory for ".to_owned().concat(app);
    head.concat("; set ").concat(env_var).concat(" or pass an explicit path")
}

// ---------------------------------------------------------------- variables
pub const DB_PATH_ENV: &'static str = "VALQERON_DB";

pub const ENGINE_LOG_FILE_ENV: &'static str = "VALQERON_ENGINE_LOG_FILE";

pub const ENGINE_LOG_LEVEL_ENV: &'static str = "VALQERON_ENGINE_LOG_LEVEL";

pub const ENGINE_DURABLE_ENV: &'static str = "VALQERON_ENGINE_DURABLE";

pub const ENGINE_MAINTENANCE_INTERVAL_ENV: &'static str = "VALQERON_ENGINE_MAINTENANCE_INTERVAL";

pub const ENGINE_HEARTBEAT_INTERVAL_ENV: &'static str = "VALQERON_ENGINE_HEARTBEAT_INTERVAL";

pub const ENGINE_SYNC_CVM_ENV: &'static str = "VALQERON_ENGINE_SYNC_CVM";

pub const ENGINE_SYNC_CVM_AT_ENV: &'static str = "VALQERON_ENGINE_SYNC_CVM_AT";

pub const ENGINE_SYNC_CVM_SCHEDULE_ENV: &'static str = "VALQERON_ENGINE_SYNC_CVM_SCHEDULE";

pub const ENGINE_SYNC_CVM_COOLDOWN_ENV: &'static str = "VALQERON_ENGINE_SYNC_CVM_COOLDOWN";

pub const ENGINE_SYNC_MAX_BACKFILL_DAYS_ENV: &'static str =
    "VALQERON_ENGINE_SYNC_MAX_BACKFILL_DAYS";

// ---------------------------------------------------------------- defaults
pub const DEFAULT_VALQERON_QUALIFIER: &'static str = "io";

pub const DEFAULT_VALQERON_ORGANIZATION: &'static str = "valqeron";

pub const DEFAULT_VALQERON_APP: &'static str = "valqeron";

pub const DEFAULT_ENGINE_DB_NAME: &'static str = "valqeron.db";

pub const DEFAULT_ENGINE_LOG_FILE_NAME: &'static str = "engine.log";

pub const DEFAULT_MAINTENANCE_INTERVAL_SECS: u64 = 3600;

pub const DEFAULT_HEARTBEAT_INTERVAL_SECS: u64 = 300;

/// Default market-local time of day that sync sources run at.
pub const DEFAULT_SYNC_HOUR: u32 = 7;

pub const DEFAULT_SYNC_MINUTE: u32 = 0;

/// Default base of the failure cooldown, which doubles per consecutive
/// terminal failure.
pub const DEFAULT_SYNC_COOLDOWN_SECS: u32 = 300;

/// Default bound on unattended sequential catch-up, in business days.
pub const DEFAULT_SYNC_MAX_BACKFILL_DAYS: u32 = 90;

/// The default time of day of sync sources.
pub open spec fn default_sync_time() -> ClockTime {
    ClockTime { hour: DEFAULT_SYNC_HOUR, minute: DEFAULT_SYNC_MINUTE }
}

/// The default time of day of sync sources.
pub fn default_sync_at() -> (at: ClockTime)
    ensures
        at == default_sync_time(),
        at.wf(),
{
    ClockTime { hour: DEFAULT_SYNC_HOUR, minute: DEFAULT_SYNC_MINUTE }
}

// ---------------------------------------------------------------- paths
/// Where the database file is.
#[derive(Clone, Debug)]
pub struct DatabasePath(pub Vec<u8>);

impl DatabasePath {
    /// `VALQERON_DB`, else the default name in the platform's data
    /// directory; without either, an error that names both.
    pub fn resolve_with(env_value: &Option<Vec<u8>>, project_data_dir: &Option<Vec<u8>>) -> (path:
        Result<DatabasePath, EngineError>)
        ensures
            path is Ok <==> *env_value is Some || *project_data_dir is Some,
            path matches Ok(p) ==> p.0@ == (match *env_value {
                Some(value) => value@,
                None => joined(project_data_dir->0@, encode_utf8(DEFAULT_ENGINE_DB_NAME@)),
            }),
            path matches Err(e) ==> (e matches EngineError::InvalidDataDirectory { app, env_var }
                && app@ == DEFAULT_VALQERON_APP@ && env_var@ == DB_PATH_ENV@),
    {
        if let Some(value) = env_value {
            return Ok(DatabasePath(copy_bytes(value)));
        }
        match project_data_dir {
            Some(dir) => Ok(DatabasePath(join(dir, DEFAULT_ENGINE_DB_NAME))),
            None => Err(
                EngineError::InvalidDataDirectory {
                    app: DEFAULT_VALQERON_APP.to_owned(),
                    env_var: DB_PATH_ENV.to_owned(),
                },
            ),
        }
    }
}

/// Where the engine's socket is. Engine and clients resolve the same file.
#[derive(Clone, Debug)]
pub struct SocketPath(pub Vec<u8>);

impl SocketPath {
    /// `VALQERON_SOCKET`, else the default name in the platform's runtime
    /// directory.
    pub fn resolve_with(
        env_value: &Option<Vec<u8>>,
        runtime_dir: &Option<Vec<u8>>,
        data_dir: &Option<Vec<u8>>,
    ) -> (path: Result<SocketPath, EngineError>)
        ensures
            path is Ok <==> proto::socket_path(
                None,
                opt_bytes(*env_value),
                opt_bytes(*runtime_dir),
                opt_bytes(*data_dir),
            ) is Some,
            path matches Ok(p) ==> proto::socket_path(
                None,
                opt_bytes(*env_value),
                opt_bytes(*runtime_dir),
                opt_bytes(*data_dir),
            ) == Some(p.0@),
            path matches Err(e) ==> (e matches EngineError::Config(m) && m@
                == proto::no_home_text()),
    {
        match proto::resolve_socket_path(&None, env_value, runtime_dir, data_dir) {
            Ok(path) => Ok(SocketPath(path)),
            Err(e) => Err(EngineError::Config(e.message())),
        }
    }

    /// The path as the operator reads it.
    pub fn display(&self) -> (out: String)
        ensures
            out@ == text::lossy_text(self.0@),
    {
        text::lossy(&self.0)
    }
}

/// Where the engine logs to.
#[derive(Clone, Debug)]
pub struct LogFilePath(pub Vec<u8>);

/// What the log file setting comes to: `None` where no location is known,
/// `Some(None)` where logging to a file is off.
pub open spec fn log_file_setting(env_value: Option<Seq<u8>>, data_dir: Option<Seq<u8>>) -> Option<
    Option<Seq<u8>>,
> {
    match env_value {
        Some(value) if is_off(value) => Some(None),
        Some(value) if value.len() > 0 => Some(Some(value)),
        _ => match data_dir {
            Some(dir) => Some(Some(joined(dir, encode_utf8(DEFAULT_ENGINE_LOG_FILE_NAME@)))),
            None => None,
        },
    }
}

impl LogFilePath {
    /// `VALQERON_ENGINE_LOG_FILE`, where an off-value disables the file, else
    /// the default name in the platform's data directory. Set but empty is
    /// like unset.
    pub fn resolve_with(env_value: &Option<Vec<u8>>, project_data_dir: &Option<Vec<u8>>) -> (path:
        Result<Option<LogFilePath>, EngineError>)
        ensures
            path is Ok <==> log_file_setting(
                opt_bytes(*env_value),
                opt_bytes(*project_data_dir),
            ) is Some,
            path matches Ok(p) ==> log_file_setting(
                opt_bytes(*env_value),
                opt_bytes(*project_data_dir),
            ) == Some(opt_log(p)),
            path matches Err(e) ==> (e matches EngineError::InvalidDataDirectory { app, env_var }
                && app@ == DEFAULT_VALQERON_APP@ && env_var@ == ENGINE_LOG_FILE_ENV@),
    {
        if let Some(value) = env_value {
            if os_str_is_off(value) {
                return Ok(None);
            }
            if value.len() > 0 {
                return Ok(Some(LogFilePath(copy_bytes(value))));
            }
        }
        match project_data_dir {
            Some(dir) => Ok(Some(LogFilePath(join(dir, DEFAULT_ENGINE_LOG_FILE_NAME)))),
            None => Err(
                EngineError::InvalidDataDirectory {
                    app: DEFAULT_VALQERON_APP.to_owned(),
                    env_var: ENGINE_LOG_FILE_ENV.to_owned(),
                },
            ),
        }
    }
}

/// The bytes behind an optional log file.
pub open spec fn opt_log(path: Option<LogFilePath>) -> Option<Seq<u8>> {
    match path {
        Some(p) => Some(p.0@),
        None => None,
    }
}

// ---------------------------------------------------------------- values
/// Whether an outcome is the settled value, or the configuration error with
/// the settled message.
pub open spec fn settled<T>(outcome: Result<T, EngineError>, setting: Result<T, Seq<char>>) -> bool {
    match setting {
        Ok(value) => outcome matches Ok(v) && v == value,
        Err(message) => outcome matches Err(EngineError::Config(m)) && m@ == message,
    }
}

/// Whether a durability setting asks for strict durability.
pub open spec fn asks_durable(env_value: Option<Seq<u8>>) -> bool {
    env_value matches Some(value) && value.len() > 0 && !is_off(value)
}

/// A truthy setting enables strict durability; unset, empty or an off-value
/// keeps the relaxed default.
pub fn durable_from(env_value: &Option<Vec<u8>>) -> (durable: bool)
    ensures
        durable == asks_durable(opt_bytes(*env_value)),
{
    match env_value {
        Some(value) => value.len() > 0 && !os_str_is_off(value),
        None => false,
    }
}

/// What an interval setting comes to.
pub open spec fn interval_setting(
    var: Seq<char>,
    env_value: Option<Seq<u8>>,
    default_secs: u64,
) -> Result<u64, Seq<char>> {
    match env_value {
        None => Ok(default_secs),
        Some(value) => if !valid_utf8(value) {
            Err(var + " must be whole seconds (not valid UTF-8)"@)
        } else {
            let trimmed = text::trim_text(decode_utf8(value));
            if trimmed.len() == 0 {
                Ok(default_secs)
            } else {
                match text::decimal_number(trimmed) {
                    Some(n) if n <= u64::MAX => Ok(n as u64),
                    _ => Err(
                        var + " must be whole seconds, got "@ + text::quoted_text(trimmed) + ": "@
                            + text::u64_refusal(trimmed),
                    ),
                }
            }
        },
    }
}

/// Whole seconds; unset or blank means the default, and anything else must
/// be a whole number.
pub fn interval_secs_from(var: &str, env_value: &Option<Vec<u8>>, default_secs: u64) -> (secs:
    Result<u64, EngineError>)
    ensures
        settled(secs, interval_setting(var@, opt_bytes(*env_value), default_secs)),
{
    let value = match env_value {
        Some(value) => value,
        None => {
            return Ok(default_secs);
        },
    };
    let raw = match text::utf8_text(value) {
        Some(raw) => raw,
        None => {
            return Err(
                EngineError::Config(
                    var.to_owned().concat(" must be whole seconds (not valid UTF-8)"),
                ),
            );
        },
    };
    let trimmed = text::trim(raw.as_str());
    if trimmed.as_str().is_empty() {
        return Ok(default_secs);
    }
    match text::parse_u64(trimmed.as_str()) {
        Ok(secs) => Ok(secs),
        Err(e) => {
            let head = var.to_owned().concat(" must be whole seconds, got ").concat(
                text::quoted(trimmed.as_str()).as_str(),
            );
            Err(EngineError::Config(head.concat(": ").concat(e.as_str())))
        },
    }
}

/// What a text setting holds: nothing where it is unset or blank.
pub open spec fn text_setting(var: Seq<char>, env_value: Option<Seq<u8>>) -> Result<
    Option<Seq<char>>,
    Seq<char>,
> {
    match env_value {
        None => Ok(None),
        Some(value) => if !valid_utf8(value) {
            Err(var + " is not valid UTF-8"@)
        } else {
            let trimmed = text::trim_text(decode_utf8(value));
            if trimmed.len() == 0 {
                Ok(None)
            } else {
                Ok(Some(trimmed))
            }
        },
    }
}

/// The trimmed text of a setting; nothing where it is unset or blank.
pub fn env_text(var: &str, env_value: &Option<Vec<u8>>) -> (held: Result<
    Option<String>,
    EngineError,
>)
    ensures
        match text_setting(var@, opt_bytes(*env_value)) {
            Ok(None) => held matches Ok(None),
            Ok(Some(t)) => held matches Ok(Some(s)) && s@ == t,
            Err(message) => held matches Err(EngineError::Config(m)) && m@ == message,
        },
{
    let value = match env_value {
        Some(value) => value,
        None => {
            return Ok(None);
        },
    };
    let raw = match text::utf8_text(value) {
        Some(raw) => raw,
        None => {
            return Err(EngineError::Config(var.to_owned().concat(" is not valid UTF-8")));
        },
    };
    let trimmed = text::trim(raw.as_str());
    if trimmed.as_str().is_empty() {
        return Ok(None);
    }
    Ok(Some(trimmed))
}

/// Whether a source is on: an off-value disables it, everything else keeps it.
pub open spec fn source_enabled(env_value: Option<Seq<u8>>) -> bool {
    !(env_value matches Some(value) && is_off(value))
}

/// A sync source is enabled unless an off-value disables it.
pub fn sync_enabled_from(env_value: &Option<Vec<u8>>) -> (enabled: bool)
    ensures
        enabled == source_enabled(opt_bytes(*env_value)),
{
    match env_value {
        Some(value) => !os_str_is_off(value),
        None => true,
    }
}

/// What a time setting comes to.
pub open spec fn time_setting(var: Seq<char>, env_value: Option<Seq<u8>>) -> Result<
    ClockTime,
    Seq<char>,
> {
    match text_setting(var, env_value) {
        Err(message) => Err(message),
        Ok(None) => Ok(default_sync_time()),
        Ok(Some(held)) => match clock_read(held) {
            Ok(hm) => Ok(ClockTime { hour: hm.0 as u32, minute: hm.1 as u32 }),
            Err(message) => Err(
                var + " must be HH:MM, got "@ + text::quoted_text(held) + ": "@ + message,
            ),
        },
    }
}

/// A market-local `HH:MM`; unset or blank means the default time.
pub fn sync_time_from(var: &str, env_value: &Option<Vec<u8>>) -> (at: Result<
    ClockTime,
    EngineError,
>)
    ensures
        settled(at, time_setting(var@, opt_bytes(*env_value))),
        at matches Ok(a) ==> a.wf(),
{
    let held = match env_text(var, env_value) {
        Ok(Some(held)) => held,
        Ok(None) => {
            return Ok(default_sync_at());
        },
        Err(e) => {
            return Err(e);
        },
    };
    match read_clock(held.as_str()) {
        Ok(at) => Ok(at),
        Err(e) => {
            let head = var.to_owned().concat(" must be HH:MM, got ").concat(
                text::quoted(held.as_str()).as_str(),
            );
            Err(EngineError::Config(head.concat(": ").concat(e.as_str())))
        },
    }
}

/// What a recurrence setting comes to, in any ASCII case.
pub open spec fn recurrence_setting(var: Seq<char>, env_value: Option<Seq<u8>>) -> Result<
    Recurrence,
    Seq<char>,
> {
    match text_setting(var, env_value) {
        Err(message) => Err(message),
        Ok(None) => Ok(Recurrence::Daily),
        Ok(Some(held)) => {
            let lowered = text::lower_text(held);
            match recurrence_spelled(lowered) {
                Some(recurrence) => Ok(recurrence),
                None => if text::stands_at(lowered, "weekly:"@, 0) {
                    Err(
                        var + " weekday must be one of mon..sun, got "@ + text::quoted_text(
                            lowered.skip("weekly:"@.len() as int),
                        ),
                    )
                } else {
                    Err(
                        var + " must be \"daily\" or \"weekly:<mon..sun>\", got "@
                            + text::quoted_text(held),
                    )
                },
            }
        },
    }
}

/// `daily` or `weekly:<mon..sun>`; unset or blank means daily.
pub fn recurrence_from(var: &str, env_value: &Option<Vec<u8>>) -> (recurrence: Result<
    Recurrence,
    EngineError,
>)
    ensures
        settled(recurrence, recurrence_setting(var@, opt_bytes(*env_value))),
{
    let held = match env_text(var, env_value) {
        Ok(Some(held)) => held,
        Ok(None) => {
            return Ok(Recurrence::Daily);
        },
        Err(e) => {
            return Err(e);
        },
    };
    let lowered = text::ascii_lower(held.as_str());
    match Recurrence::from_text(lowered.as_str()) {
        Some(recurrence) => Ok(recurrence),
        None => match text::strip_prefix(lowered.as_str(), "weekly:") {
            Some(day) => Err(
                EngineError::Config(
                    var.to_owned().concat(" weekday must be one of mon..sun, got ").concat(
                        text::quoted(day.as_str()).as_str(),
                    ),
                ),
            ),
            None => Err(
                EngineError::Config(
                    var.to_owned().concat(
                        " must be \"daily\" or \"weekly:<mon..sun>\", got ",
                    ).concat(text::quoted(held.as_str()).as_str()),
                ),
            ),
        },
    }
}

/// What a whole-number setting comes to.
pub open spec fn number_setting(var: Seq<char>, env_value: Option<Seq<u8>>, default: u32) -> Result<
    u32,
    Seq<char>,
> {
    match text_setting(var, env_value) {
        Err(message) => Err(message),
        Ok(None) => Ok(default),
        Ok(Some(held)) => match text::decimal_number(held) {
            Some(n) if n <= u32::MAX => Ok(n as u32),
            _ => Err(
                var + " must be a whole number, got "@ + text::quoted_text(held) + ": "@
                    + text::u32_refusal(held),
            ),
        },
    }
}

/// A whole number; unset or blank means the default.
pub fn u32_from(var: &str, env_value: &Option<Vec<u8>>, default: u32) -> (number: Result<
    u32,
    EngineError,
>)
    ensures
        settled(number, number_setting(var@, opt_bytes(*env_value), default)),
{
    let held = match env_text(var, env_value) {
        Ok(Some(held)) => held,
        Ok(None) => {
            return Ok(default);
        },
        Err(e) => {
            return Err(e);
        },
    };
    match text::parse_u32(held.as_str()) {
        Ok(number) => Ok(number),
        Err(e) => {
            let head = var.to_owned().concat(" must be a whole number, got ").concat(
                text::quoted(held.as_str()).as_str(),
            );
            Err(EngineError::Config(head.concat(": ").concat(e.as_str())))
        },
    }
}

// ---------------------------------------------------------------- sync
/// The settings of one sync source.
#[derive(Clone, Copy, Debug, PartialEq, Eq, Structural)]
pub struct SyncSettings {
    /// Market-local time of day that the source runs at.
    pub at: ClockTime,
    pub recurrence: Recurrence,
    /// Base of the terminal-failure cooldown, in seconds.
    pub cooldown_secs: u32,
    /// Bound on unattended sequential catch-up, in business days.
    pub max_backfill_days: u32,
}

/// What the variables of the CVM source come to. An off-value settles it
/// before the others are looked at; of several faults the first is reported.
pub open spec fn cvm_setting(
    enabled: Option<Seq<u8>>,
    at: Option<Seq<u8>>,
    schedule: Option<Seq<u8>>,
    cooldown: Option<Seq<u8>>,
    max_backfill: Option<Seq<u8>>,
) -> Result<Option<SyncSettings>, Seq<char>> {
    let at = time_setting(ENGINE_SYNC_CVM_AT_ENV@, at);
    let recurrence = recurrence_setting(ENGINE_SYNC_CVM_SCHEDULE_ENV@, schedule);
    let cooldown = number_setting(
        ENGINE_SYNC_CVM_COOLDOWN_ENV@,
        cooldown,
        DEFAULT_SYNC_COOLDOWN_SECS,
    );
    let days = number_setting(
        ENGINE_SYNC_MAX_BACKFILL_DAYS_ENV@,
        max_backfill,
        DEFAULT_SYNC_MAX_BACKFILL_DAYS,
    );
    if !source_enabled(enabled) {
        Ok(None)
    } else if at is Err {
        Err(at->Err_0)
    } else if recurrence is Err {
        Err(recurrence->Err_0)
    } else if cooldown is Err {
        Err(cooldown->Err_0)
    } else if days is Err {
        Err(days->Err_0)
    } else {
        Ok(
            Some(
                SyncSettings {
                    at: at->Ok_0,
                    recurrence: recurrence->Ok_0,
                    cooldown_secs: cooldown->Ok_0,
                    max_backfill_days: days->Ok_0,
                },
            ),
        )
    }
}

/// The settings of the CVM source, or nothing when it is disabled.
pub fn cvm_sync_from(
    enabled: &Option<Vec<u8>>,
    at: &Option<Vec<u8>>,
    schedule: &Option<Vec<u8>>,
    cooldown: &Option<Vec<u8>>,
    max_backfill: &Option<Vec<u8>>,
) -> (sync: Result<Option<SyncSettings>, EngineError>)
    ensures
        settled(
            sync,
            cvm_setting(
                opt_bytes(*enabled),
                opt_bytes(*at),
                opt_bytes(*schedule),
                opt_bytes(*cooldown),
                opt_bytes(*max_backfill),
            ),
        ),
        sync matches Ok(Some(s)) ==> s.at.wf(),
{
    if !sync_enabled_from(enabled) {
        return Ok(None);
    }
    let at = match sync_time_from(ENGINE_SYNC_CVM_AT_ENV, at) {
        Ok(at) => at,
        Err(e) => {
            return Err(e);
        },
    };
    let recurrence = match recurrence_from(ENGINE_SYNC_CVM_SCHEDULE_ENV, schedule) {
        Ok(recurrence) => recurrence,
        Err(e) => {
            return Err(e);
        },
    };
    let cooldown_secs: u32 = match u32_from(
        ENGINE_SYNC_CVM_COOLDOWN_ENV,
        cooldown,
        DEFAULT_SYNC_COOLDOWN_SECS,
    ) {
        Ok(secs) => secs,
        Err(e) => {
            return Err(e);
        },
    };
    let max_backfill_days: u32 = match u32_from(
        ENGINE_SYNC_MAX_BACKFILL_DAYS_ENV,
        max_backfill,
        DEFAULT_SYNC_MAX_BACKFILL_DAYS,
    ) {
        Ok(days) => days,
        Err(e) => {
            return Err(e);
        },
    };
    Ok(Some(SyncSettings { at, recurrence, cooldown_secs, max_backfill_days }))
}

// ---------------------------------------------------------------- config
/// The environment that a configuration is resolved from: the raw values of
/// the variables, and the platform's directories where it has them.
#[derive(Clone, Debug)]
pub struct Environment {
    pub db_path: Option<Vec<u8>>,
    pub socket: Option<Vec<u8>>,
    pub log_file: Option<Vec<u8>>,
    pub durable: Option<Vec<u8>>,
    pub maintenance_interval: Option<Vec<u8>>,
    pub heartbeat_interval: Option<Vec<u8>>,
    pub sync_cvm: Option<Vec<u8>>,
    pub sync_cvm_at: Option<Vec<u8>>,
    pub sync_cvm_schedule: Option<Vec<u8>>,
    pub sync_cvm_cooldown: Option<Vec<u8>>,
    pub sync_max_backfill_days: Option<Vec<u8>>,
    pub data_dir: Option<Vec<u8>>,
    pub runtime_dir: Option<Vec<u8>>,
}

impl Environment {
    /// What the maintenance interval comes to.
    pub open spec fn maintenance(&self) -> Result<u64, Seq<char>> {
        interval_setting(
            ENGINE_MAINTENANCE_INTERVAL_ENV@,
            opt_bytes(self.maintenance_interval),
            DEFAULT_MAINTENANCE_INTERVAL_SECS,
        )
    }

    /// What the heartbeat interval comes to.
    pub open spec fn heartbeat(&self) -> Result<u64, Seq<char>> {
        interval_setting(
            ENGINE_HEARTBEAT_INTERVAL_ENV@,
            opt_bytes(self.heartbeat_interval),
            DEFAULT_HEARTBEAT_INTERVAL_SECS,
        )
    }

    /// Where the socket is.
    pub open spec fn socket_at(&self) -> Option<Seq<u8>> {
        proto::socket_path(
            None,
            opt_bytes(self.socket),
            opt_bytes(self.runtime_dir),
            opt_bytes(self.data_dir),
        )
    }

    /// Where the log goes.
    pub open spec fn log_at(&self) -> Option<Option<Seq<u8>>> {
        log_file_setting(opt_bytes(self.log_file), opt_bytes(self.data_dir))
    }

    /// What the variables of the CVM source come to.
    pub open spec fn cvm(&self) -> Result<Option<SyncSettings>, Seq<char>> {
        cvm_setting(
            opt_bytes(self.sync_cvm),
            opt_bytes(self.sync_cvm_at),
            opt_bytes(self.sync_cvm_schedule),
            opt_bytes(self.sync_cvm_cooldown),
            opt_bytes(self.sync_max_backfill_days),
        )
    }

    /// The message of the error that refuses the start, if one does: the
    /// first that is met, in the order in which the settings are resolved.
    pub open spec fn refusal(&self) -> Option<Seq<char>> {
        if self.db_path is None && self.data_dir is None {
            Some(no_data_dir_text(DEFAULT_VALQERON_APP@, DB_PATH_ENV@))
        } else if self.socket_at() is None {
            Some("configuration error: "@ + proto::no_home_text())
        } else if self.log_at() is None {
            Some(no_data_dir_text(DEFAULT_VALQERON_APP@, ENGINE_LOG_FILE_ENV@))
        } else if self.maintenance() is Err {
            Some("configuration error: "@ + self.maintenance()->Err_0)
        } else if self.heartbeat() is Err {
            Some("configuration error: "@ + self.heartbeat()->Err_0)
        } else if self.cvm() is Err {
            Some("configuration error: "@ + self.cvm()->Err_0)
        } else {
            None
        }
    }
}

/// The resolved configuration of an engine run.
#[derive(Clone, Debug)]
pub struct EngineConfig {
    pub db_path: DatabasePath,
    pub socket_path: SocketPath,
    /// `None` where logging to a file is off.
    pub log_file: Option<LogFilePath>,
    pub durable: bool,
    pub maintenance_interval: Span,
    pub heartbeat_interval: Span,
    /// `None` where the CVM sync is off.
    pub cvm_sync: Option<SyncSettings>,
}

impl EngineConfig {
    /// Whether its parts are well-formed.
    pub open spec fn wf(&self) -> bool {
        &&& self.maintenance_interval.wf()
        &&& self.heartbeat_interval.wf()
        &&& self.cvm_sync matches Some(s) ==> s.at.wf()
    }

    /// Resolves the configuration: variables win over the platform's
    /// defaults, and the first fault refuses the start.
    pub fn resolve(env: &Environment) -> (config: Result<EngineConfig, EngineError>)
        ensures
            config is Ok <==> env.refusal() is None,
            config matches Err(e) ==> Some(e.text()) == env.refusal() && e.code()
                == exit_code::CONFIG,
            config matches Ok(c) ==> {
                &&& c.wf()
                &&& c.db_path.0@ == (match env.db_path {
                    Some(value) => value@,
                    None => joined(env.data_dir->0@, encode_utf8(DEFAULT_ENGINE_DB_NAME@)),
                })
                &&& env.socket_at() == Some(c.socket_path.0@)
                &&& env.log_at() == Some(opt_log(c.log_file))
                &&& c.durable == asks_durable(opt_bytes(env.durable))
                &&& env.maintenance() == Ok::<u64, Seq<char>>(c.maintenance_interval.secs)
                &&& c.maintenance_interval.nanos == 0
                &&& env.heartbeat() == Ok::<u64, Seq<char>>(c.heartbeat_interval.secs)
                &&& c.heartbeat_interval.nanos == 0
                &&& env.cvm() == Ok::<Option<SyncSettings>, Seq<char>>(c.cvm_sync)
            },
    {
        let db_path = match DatabasePath::resolve_with(&env.db_path, &env.data_dir) {
            Ok(path) => path,
            Err(e) => {
                return Err(e);
            },
        };
        let socket_path = match SocketPath::resolve_with(
            &env.socket,
            &env.runtime_dir,
            &env.data_dir,
        ) {
            Ok(path) => path,
            Err(e) => {
                return Err(e);
            },
        };
        let log_file = match LogFilePath::resolve_with(&env.log_file, &env.data_dir) {
            Ok(path) => path,
            Err(e) => {
                return Err(e);
            },
        };
        let durable = durable_from(&env.durable);
        let maintenance: u64 = match interval_secs_from(
            ENGINE_MAINTENANCE_INTERVAL_ENV,
            &env.maintenance_interval,
            DEFAULT_MAINTENANCE_INTERVAL_SECS,
        ) {
            Ok(secs) => secs,
            Err(e) => {
                return Err(e);
            },
        };
        let heartbeat: u64 = match interval_secs_from(
            ENGINE_HEARTBEAT_INTERVAL_ENV,
            &env.heartbeat_interval,
            DEFAULT_HEARTBEAT_INTERVAL_SECS,
        ) {
            Ok(secs) => secs,
            Err(e) => {
                return Err(e);
            },
        };
        let cvm_sync = match cvm_sync_from(
            &env.sync_cvm,
            &env.sync_cvm_at,
            &env.sync_cvm_schedule,
            &env.sync_cvm_cooldown,
            &env.sync_max_backfill_days,
        ) {
            Ok(sync) => sync,
            Err(e) => {
                return Err(e);
            },
        };
        Ok(
            EngineConfig {
                db_path,
                socket_path,
                log_file,
                durable,
                maintenance_interval: Span::from_secs(maintenance),
                heartbeat_interval: Span::from_secs(heartbeat),
                cvm_sync,
            },
        )
    }

    pub fn db_path(&self) -> (path: &Vec<u8>)
        ensures
            path@ == self.db_path.0@,
    {
        &self.db_path.0
    }

    pub fn socket_path(&self) -> (path: &Vec<u8>)
        ensures
            path@ == self.socket_path.0@,
    {
        &self.socket_path.0
    }

    /// The single-instance lock file: `.lock` after the whole name of the
    /// database file.
    pub fn lock_path(&self) -> (path: Vec<u8>)
        ensures
            path@ == self.db_path.0@ + encode_utf8(".lock"@),
    {
        let mut path = copy_bytes(&self.db_path.0);
        push_text(&mut path, ".lock");
        path
    }

    pub fn log_file(&self) -> (path: Option<&Vec<u8>>)
        ensures
            path is Some <==> self.log_file is Some,
            path matches Some(p) ==> opt_log(self.log_file) == Some(p@),
    {
        match &self.log_file {
            Some(path) => Some(&path.0),
            None => None,
        }
    }

    pub fn synchronous(&self) -> (synchronous: Synchronous)
        ensures
            synchronous == (if self.durable {
                Synchronous::Full
            } else {
                Synchronous::Normal
            }),
    {
        if self.durable {
            Synchronous::Full
        } else {
            Synchronous::Normal
        }
    }

    pub fn durability_label(&self) -> (label: &'static str)
        ensures
            label@ == (if self.durable {
                "full"@
            } else {
                "normal"@
            }),
    {
        if self.durable {
            "full"
        } else {
            "normal"
        }
    }

    pub fn maintenance_interval(&self) -> (interval: Span)
        ensures
            interval == self.maintenance_interval,
    {
        self.maintenance_interval
    }

    pub fn heartbeat_interval(&self) -> (interval: Span)
        ensures
            interval == self.heartbeat_interval,
    {
        self.heartbeat_interval
    }

    /// The settings of the CVM source; `None` when it is disabled.
    pub fn cvm_sync(&self) -> (sync: Option<SyncSettings>)
        ensures
            sync == self.cvm_sync,
    {
        self.cvm_sync
    }
}

// ---------------------------------------------------------------- logging
/// The level of the log file: what the variable holds where it is text,
/// else `info`.
pub fn file_log_level(env_value: &Option<Vec<u8>>) -> (level: String)
    ensures
        level@ == (match *env_value {
            Some(value) if valid_utf8(value@) => decode_utf8(value@),
            _ => "info"@,
        }),
{
    if let Some(value) = env_value {
        if let Some(level) = text::utf8_text(value) {
            return level;
        }
    }
    "info".to_owned()
}

/// What the engine says when it is given arguments: it takes none, so that a
/// stale service definition fails visibly.
pub const NO_ARGUMENTS: &'static str =
    "error: valqeron-engine takes no arguments; configure it via VALQERON_* environment variables in the service definition (see scripts/install/)";

/// The exit code on a command line of `count` words, the program's name
/// included; `None` where the engine may start.
pub fn refuses_arguments(count: usize) -> (code: Option<i32>)
    ensures
        code == (if count > 1 {
            Some(exit_code::CONFIG)
        } else {
            None
        }),
{
    if count > 1 {
        Some(exit_code::CONFIG)
    } else {
        None
    }
}

// ---------------------------------------------------------------- laws
/// Misconfiguration never becomes a default: where an interval cannot be
/// read, or the CVM source is enabled and one of its values cannot be read,
/// the start is refused.
pub proof fn law_an_unreadable_setting_refuses_the_start(env: Environment)
    ensures
        env.maintenance() is Err ==> env.refusal() is Some,
        env.heartbeat() is Err ==> env.refusal() is Some,
        source_enabled(opt_bytes(env.sync_cvm)) ==> {
            &&& time_setting(ENGINE_SYNC_CVM_AT_ENV@, opt_bytes(env.sync_cvm_at)) is Err
                ==> env.refusal() is Some
            &&& recurrence_setting(
                ENGINE_SYNC_CVM_SCHEDULE_ENV@,
                opt_bytes(env.sync_cvm_schedule),
            ) is Err ==> env.refusal() is Some
            &&& number_setting(
                ENGINE_SYNC_CVM_COOLDOWN_ENV@,
                opt_bytes(env.sync_cvm_cooldown),
                DEFAULT_SYNC_COOLDOWN_SECS,
            ) is Err ==> env.refusal() is Some
            &&& number_setting(
                ENGINE_SYNC_MAX_BACKFILL_DAYS_ENV@,
                opt_bytes(env.sync_max_backfill_days),
                DEFAULT_SYNC_MAX_BACKFILL_DAYS,
            ) is Err ==> env.refusal() is Some
        },
{
}

/// A source that is off is not configured, whatever its other variables
/// hold.
pub proof fn law_a_disabled_source_reads_nothing_else(env: Environment)
    requires
        !source_enabled(opt_bytes(env.sync_cvm)),
    ensures
        env.cvm() == Ok::<Option<SyncSettings>, Seq<char>>(None),
{
}

} // verus!
