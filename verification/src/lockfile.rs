//! The single-instance lock next to the database.
//!
//! The authority is the kernel's advisory lock, which goes when its holder
//! dies: a lock file left behind never prevents the next start. The pid in
//! the file is for diagnosis only.
use crate::engine;
use crate::error;
use crate::paths::copy_bytes;
use crate::text;
use vstd::prelude::*;

verus! {

/// How an attempt to open, lock and mark the lock file went.
#[derive(Clone, Debug)]
pub enum LockAttempt {
    /// The file is open, locked and holds this process's pid.
    Locked,
    /// The file could not be opened.
    OpenFailed(String),
    /// Another process holds the lock; what the file holds, if it could be
    /// read.
    Contended(Option<String>),
    /// The lock could not be asked for.
    LockFailed(String),
    /// The pid could not be written.
    MarkFailed(String),
}

/// Why the lock was not acquired.
#[derive(Clone, Debug)]
pub enum LockFault {
    /// Another engine owns the database.
    AlreadyRunning { pid: String },
    Io(String),
}

/// What the operator reads of a fault at a path.
pub open spec fn at_path(what: Seq<char>, path: Seq<u8>, cause: Seq<char>) -> Seq<char> {
    what + text::lossy_text(path) + ": "@ + cause
}

/// Writes what the operator reads of a fault at a path.
pub fn write_at_path(what: &str, path: &Vec<u8>, cause: &str) -> (out: String)
    ensures
        out@ == at_path(what@, path@, cause@),
{
    what.to_owned().concat(text::lossy(path).as_str()).concat(": ").concat(cause)
}

/// The pid that a lock file's contents record.
pub open spec fn recorded_pid(contents: Option<Seq<char>>) -> Option<Seq<char>> {
    match contents {
        Some(held) if text::trim_text(held).len() > 0 => Some(text::trim_text(held)),
        _ => None,
    }
}

/// The text behind an optional string.
pub open spec fn opt_string(held: Option<String>) -> Option<Seq<char>> {
    match held {
        Some(s) => Some(s@),
        None => None,
    }
}

/// The pid recorded in a lock file, if any, from its contents.
pub fn read_lock_pid(contents: &Option<String>) -> (pid: Option<String>)
    ensures
        opt_string(pid) == recorded_pid(opt_string(*contents)),
{
    match contents {
        Some(held) => {
            let pid = text::trim(held.as_str());
            if pid.as_str().is_empty() {
                None
            } else {
                Some(pid)
            }
        },
        None => None,
    }
}

/// What a lock file holds while its owner runs.
pub fn pid_mark(pid: u32) -> (mark: String)
    ensures
        mark@ == text::decimal_text(pid as nat),
{
    text::decimal(pid as u64)
}

/// What is said of a holder whose pid is not recorded.
pub open spec fn holder(contents: Option<Seq<char>>) -> Seq<char> {
    match recorded_pid(contents) {
        Some(pid) => pid,
        None => "unknown"@,
    }
}

/// Whether an attempt acquired the lock, and why not.
pub fn acquire(lock_path: &Vec<u8>, attempt: LockAttempt) -> (outcome: Result<(), LockFault>)
    ensures
        outcome is Ok <==> attempt is Locked,
        attempt matches LockAttempt::Contended(contents) ==> (outcome matches Err(
            LockFault::AlreadyRunning { pid },
        ) && pid@ == holder(opt_string(contents))),
        attempt matches LockAttempt::OpenFailed(e) ==> (outcome matches Err(LockFault::Io(m)) && m@
            == at_path("opening lock file "@, lock_path@, e@)),
        attempt matches LockAttempt::LockFailed(e) ==> (outcome matches Err(LockFault::Io(m)) && m@
            == at_path("locking "@, lock_path@, e@)),
        attempt matches LockAttempt::MarkFailed(e) ==> (outcome matches Err(LockFault::Io(m)) && m@
            == at_path("writing pid to "@, lock_path@, e@)),
{
    match attempt {
        LockAttempt::Locked => Ok(()),
        LockAttempt::OpenFailed(e) => Err(
            LockFault::Io(write_at_path("opening lock file ", lock_path, e.as_str())),
        ),
        LockAttempt::Contended(contents) => {
            let pid = match read_lock_pid(&contents) {
                Some(pid) => pid,
                None => "unknown".to_owned(),
            };
            Err(LockFault::AlreadyRunning { pid })
        },
        LockAttempt::LockFailed(e) => Err(
            LockFault::Io(write_at_path("locking ", lock_path, e.as_str())),
        ),
        LockAttempt::MarkFailed(e) => Err(
            LockFault::Io(write_at_path("writing pid to ", lock_path, e.as_str())),
        ),
    }
}

impl LockFault {
    /// The fault as it ends an engine run on `db_path`.
    pub fn into_engine_error(self, db_path: &Vec<u8>) -> (e: engine::EngineError)
        ensures
            self matches LockFault::AlreadyRunning { pid } ==> (e matches
                engine::EngineError::AlreadyRunning { db_path: path, pid: by } && path@ == db_path@
                && by@ == pid@),
            self matches LockFault::Io(m) ==> (e matches engine::EngineError::Io(t) && t@ == m@),
    {
        match self {
            LockFault::AlreadyRunning { pid } => engine::EngineError::AlreadyRunning {
                db_path: copy_bytes(db_path),
                pid,
            },
            LockFault::Io(m) => engine::EngineError::Io(m),
        }
    }

    /// The fault as it ends a command on `db_path`.
    pub fn into_command_error(self, db_path: &Vec<u8>) -> (e: error::EngineError)
        ensures
            self matches LockFault::AlreadyRunning { pid } ==> (e matches
                error::EngineError::AlreadyRunning { db_path: path, pid: by } && path@ == db_path@
                && by@ == pid@),
            self matches LockFault::Io(m) ==> (e matches error::EngineError::Io(t) && t@ == m@),
    {
        match self {
            LockFault::AlreadyRunning { pid } => error::EngineError::AlreadyRunning {
                db_path: copy_bytes(db_path),
                pid,
            },
            LockFault::Io(m) => error::EngineError::Io(m),
        }
    }
}

// ---------------------------------------------------------------- laws
proof fn lemma_trim_keeps(held: Seq<char>)
    requires
        held.len() > 0,
        !text::is_blank(held[0]),
        !text::is_blank(held.last()),
    ensures
        text::trim_text(held) == held,
{
    assert(text::trim_start(held) == held);
    assert(text::trim_end(held) == held);
}

proof fn lemma_digits_are_not_blank(n: nat)
    ensures
        text::decimal_text(n).len() > 0,
        text::is_digit(text::decimal_text(n)[0]),
        text::is_digit(text::decimal_text(n).last()),
    decreases n,
{
    if n >= 10 {
        lemma_digits_are_not_blank(n / 10);
    }
}

/// The pid that a holder writes is the pid that a second instance is told.
pub proof fn law_the_holder_is_named(pid: u32)
    ensures
        holder(Some(text::decimal_text(pid as nat))) == text::decimal_text(pid as nat),
{
    let mark = text::decimal_text(pid as nat);
    lemma_digits_are_not_blank(pid as nat);
    assert(!text::is_blank(mark[0]));
    assert(!text::is_blank(mark.last()));
    lemma_trim_keeps(mark);
}

/// What a lock file holds, blanks around it aside, is the pid of its holder;
/// one that holds nothing else names no one.
pub proof fn law_a_lock_file_names_its_holder(held: Seq<char>)
    ensures
        text::trim_text(held).len() > 0 ==> recorded_pid(Some(held)) == Some(text::trim_text(held))
            && holder(Some(held)) == text::trim_text(held),
        text::trim_text(held).len() == 0 ==> recorded_pid(Some(held)) is None && holder(Some(held))
            == "unknown"@,
        recorded_pid(None) is None && holder(None) == "unknown"@,
{
}

} // verus!
