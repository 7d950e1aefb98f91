//! The schema, one migration after the other. A database counts those that
//! it has in its `user_version`.
use vstd::prelude::*;

verus! {

/// How many migrations there are: the newest version.
pub const NEWEST_VERSION: usize = 5;

/// The issuers.
pub const ISSUER: &'static str =
    "CREATE TABLE issuer (
    id         BLOB PRIMARY KEY,
    cnpj       TEXT UNIQUE,
    lei        TEXT UNIQUE,
    name       TEXT,
    status     TEXT NOT NULL,
    created_at TEXT NOT NULL,
    updated_at TEXT,
    version    INTEGER NOT NULL DEFAULT 1
) STRICT;
";

/// The live work.
pub const TASK_QUEUE: &'static str =
    "CREATE TABLE task_queue (
    id               BLOB PRIMARY KEY,
    kind             TEXT NOT NULL,
    status           TEXT NOT NULL CHECK (status IN ('PENDING', 'RUNNING')),
    payload          TEXT,
    scheduled_at     TEXT NOT NULL,
    started_at       TEXT,
    attempts         INTEGER NOT NULL DEFAULT 0,
    max_attempts     INTEGER NOT NULL DEFAULT 1,
    retry_delay_secs INTEGER NOT NULL DEFAULT 0,
    last_error       TEXT,
    created_at       TEXT NOT NULL,
    updated_at       TEXT NOT NULL,
    version          INTEGER NOT NULL DEFAULT 1
) STRICT;
CREATE INDEX task_queue_due ON task_queue (status, scheduled_at, id);
CREATE INDEX task_queue_kind ON task_queue (kind);
";

/// The finished runs, and the aggregates of each kind.
pub const TASK_HISTORY: &'static str =
    "CREATE TABLE task_execution (
    id           BLOB PRIMARY KEY,
    kind         TEXT NOT NULL,
    outcome      TEXT NOT NULL,
    payload      TEXT,
    scheduled_at TEXT NOT NULL,
    started_at   TEXT,
    finished_at  TEXT NOT NULL,
    attempts     INTEGER NOT NULL,
    duration_ms  INTEGER,
    error        TEXT,
    created_at   TEXT NOT NULL
) STRICT;
CREATE INDEX task_execution_finished ON task_execution (finished_at, id);

CREATE TABLE task_stat (
    kind              TEXT PRIMARY KEY,
    total_runs        INTEGER NOT NULL,
    total_failures    INTEGER NOT NULL,
    total_duration_ms INTEGER NOT NULL,
    last_run_at       TEXT,
    last_outcome      TEXT,
    last_error        TEXT,
    last_success_at   TEXT,
    last_duration_ms  INTEGER,
    updated_at        TEXT NOT NULL
) STRICT;
";

/// How far each source has come.
pub const SYNC_CURSOR: &'static str =
    "CREATE TABLE sync_cursor (
    source               TEXT PRIMARY KEY,
    through_slot         TEXT NOT NULL,
    through_target       TEXT NOT NULL,
    cooldown_until       TEXT,
    consecutive_failures INTEGER NOT NULL DEFAULT 0,
    last_outcome         TEXT,
    last_error           TEXT,
    updated_at           TEXT NOT NULL
) STRICT;
";

/// The catalog. Operators edit the settings by hand, so that the columns take
/// any value.
pub const TASK_REGISTRATION: &'static str =
    "CREATE TABLE task_registration (
    kind                TEXT PRIMARY KEY,
    category            TEXT NOT NULL,
    trigger_kind        TEXT NOT NULL,
    tracking            TEXT NOT NULL,
    schedule            TEXT NOT NULL,
    source              TEXT,
    log_policy          TEXT NOT NULL,
    config_enabled      INTEGER NOT NULL DEFAULT 1,
    paused              INTEGER NOT NULL DEFAULT 0,
    enabled             INTEGER NOT NULL DEFAULT 1,
    period_secs         INTEGER,
    at_local            TEXT,
    recurrence          TEXT,
    cooldown_secs       INTEGER,
    max_backfill_days   INTEGER,
    registered          INTEGER NOT NULL DEFAULT 1,
    first_registered_at TEXT NOT NULL,
    updated_at          TEXT NOT NULL
);
";

/// The statements that lead to a version from the one before it.
pub open spec fn statements(version: int) -> Option<Seq<char>> {
    if version == 1 {
        Some(ISSUER@)
    } else if version == 2 {
        Some(TASK_QUEUE@)
    } else if version == 3 {
        Some(TASK_HISTORY@)
    } else if version == 4 {
        Some(SYNC_CURSOR@)
    } else if version == 5 {
        Some(TASK_REGISTRATION@)
    } else {
        None
    }
}

/// The statements that lead to a version from the one before it; `None` for
/// one that there is not.
pub fn migration(version: i64) -> (sql: Option<&'static str>)
    ensures
        sql is Some <==> 1 <= version <= NEWEST_VERSION,
        sql matches Some(text) ==> statements(version as int) == Some(text@),
{
    match version {
        1 => Some(ISSUER),
        2 => Some(TASK_QUEUE),
        3 => Some(TASK_HISTORY),
        4 => Some(SYNC_CURSOR),
        5 => Some(TASK_REGISTRATION),
        _ => None,
    }
}

/// The issuers come first, then the queue, its history, the cursors and the
/// registrations; there is no other version.
pub proof fn law_the_schema_has_five_versions(version: int)
    ensures
        NEWEST_VERSION == 5,
        statements(version) is Some <==> 1 <= version <= 5,
        statements(1) == Some(ISSUER@),
        statements(2) == Some(TASK_QUEUE@),
        statements(3) == Some(TASK_HISTORY@),
        statements(4) == Some(SYNC_CURSOR@),
        statements(5) == Some(TASK_REGISTRATION@),
{
}

} // verus!
