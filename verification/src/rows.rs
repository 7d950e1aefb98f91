//! Stored rows: how records are written to columns and read back.
//!
//! Ids are 16 bytes, instants RFC 3339 text to the millisecond, dates ISO
//! 8601 text, names their persisted spelling. A column that holds something
//! else is a fault that names it.
use crate::cursor::{
    copy_opt, opt_int, opt_text, CursorState, SyncCursor, SyncOutcomeKind, SyncSource,
};
use crate::history::{ExecutionState, TaskExecution};
use crate::moment::{
    canonical_date, canonical_timestamp, date_read, date_text, instant_read, instant_text,
    is_instant,
    exact_text, read_date, read_instant, rfc3339_year, valid_date, valid_instant, whole_millis,
    FIRST_DAY, LAST_DAY,
};
use crate::queue::{BackgroundTask, RetryPolicy, RowState, TaskKind, TaskState, TaskStatus, Versioned};
use crate::stats::{opt_nat, StatState, TaskStats};
use crate::task_queue::ExecutionOutcome;
use vstd::prelude::*;

verus! {

// ---------------------------------------------------------------- faults
/// How a column is stored.
#[derive(Clone, Copy, Debug, PartialEq, Eq, Structural)]
pub enum ColumnType {
    Blob,
    Text,
}

/// A column that does not hold what it should.
#[derive(Clone, Debug)]
pub struct ColumnFault {
    pub column: String,
    pub kind: ColumnType,
}

/// Whether a fault is that of a column.
pub open spec fn blames(fault: ColumnFault, column: Seq<char>, kind: ColumnType) -> bool {
    fault.column@ == column && fault.kind == kind
}

pub(crate) fn fault(column: &str, kind: ColumnType) -> (f: ColumnFault)
    ensures
        blames(f, column@, kind),
{
    ColumnFault { column: column.to_owned(), kind }
}

// ---------------------------------------------------------------- ids
/// The number that bytes write, most significant first.
pub open spec fn be_value(bytes: Seq<u8>) -> nat
    decreases bytes.len(),
{
    if bytes.len() == 0 {
        0
    } else {
        be_value(bytes.drop_last()) * 256 + bytes.last() as nat
    }
}

/// The id that a column holds.
pub open spec fn id_read(bytes: Seq<u8>) -> Option<int> {
    if bytes.len() == 16 {
        Some(be_value(bytes) as int)
    } else {
        None
    }
}

/// `uuid::Uuid::from_slice`, its value by `as_u128`: 16 bytes are an id, the
/// most significant first, and nothing else is.
#[verifier::external_body]
fn read_uuid(bytes: &Vec<u8>) -> (id: Option<u128>)
    ensures
        id is Some <==> bytes@.len() == 16,
        id matches Some(v) ==> v == be_value(bytes@),
{
    uuid::Uuid::from_slice(bytes).ok().map(|id| id.as_u128())
}

/// `uuid::Uuid::from_u128` and `into_bytes`: the 16 bytes of an id, the most
/// significant first.
#[verifier::external_body]
fn uuid_bytes(id: u128) -> (bytes: Vec<u8>)
    ensures
        bytes@.len() == 16,
        be_value(bytes@) == id,
{
    uuid::Uuid::from_u128(id).into_bytes().to_vec()
}

/// Reads the id of a column.
pub fn column_uuid(column: &str, bytes: &Vec<u8>) -> (id: Result<u128, ColumnFault>)
    ensures
        id is Ok <==> id_read(bytes@) is Some,
        id matches Ok(v) ==> id_read(bytes@) == Some(v as int),
        id matches Err(f) ==> blames(f, column@, ColumnType::Blob),
{
    match read_uuid(bytes) {
        Some(id) => Ok(id),
        None => Err(fault(column, ColumnType::Blob)),
    }
}

/// Reads the id of a column that may be empty.
pub fn column_opt_uuid(column: &str, bytes: &Option<Vec<u8>>) -> (id: Result<
    Option<u128>,
    ColumnFault,
>)
    ensures
        *bytes is None ==> id == Ok::<Option<u128>, ColumnFault>(None),
        *bytes matches Some(b) ==> match id_read(b@) {
            Some(n) => id matches Ok(Some(v)) && v == n,
            None => id matches Err(f) && blames(f, column@, ColumnType::Blob),
        },
{
    match bytes {
        None => Ok(None),
        Some(bytes) => match column_uuid(column, bytes) {
            Ok(id) => Ok(Some(id)),
            Err(f) => Err(f),
        },
    }
}

/// Writes an id; it reads back.
pub fn id_column(id: u128) -> (bytes: Vec<u8>)
    ensures
        id_read(bytes@) == Some(id as int),
{
    uuid_bytes(id)
}

// ---------------------------------------------------------------- times
/// Reads the instant of a column.
pub fn column_datetime(column: &str, raw: &str) -> (ticks: Result<i128, ColumnFault>)
    ensures
        ticks is Ok <==> instant_read(raw@) is Some,
        ticks matches Ok(m) ==> instant_read(raw@) == Some(m as int) && valid_instant(m as int),
        ticks matches Err(f) ==> blames(f, column@, ColumnType::Text),
{
    match read_instant(raw) {
        Some(ticks) => Ok(ticks),
        None => Err(fault(column, ColumnType::Text)),
    }
}

/// The instant that a column holds, where it holds one: the outer `None`
/// means that it holds something else.
pub open spec fn opt_instant_read(raw: Option<Seq<char>>) -> Option<Option<int>> {
    match raw {
        None => Some(None),
        Some(t) => match instant_read(t) {
            Some(ticks) => Some(Some(ticks)),
            None => None,
        },
    }
}

/// Reads the instant of a column that may be empty.
pub fn column_opt_datetime(column: &str, raw: &Option<String>) -> (ticks: Result<
    Option<i128>,
    ColumnFault,
>)
    ensures
        ticks is Ok <==> opt_instant_read(opt_text(*raw)) is Some,
        ticks matches Ok(m) ==> opt_instant_read(opt_text(*raw)) == Some(opt_int(m)),
        ticks matches Err(f) ==> blames(f, column@, ColumnType::Text),
{
    match raw {
        None => Ok(None),
        Some(raw) => match column_datetime(column, raw.as_str()) {
            Ok(ticks) => Ok(Some(ticks)),
            Err(f) => Err(f),
        },
    }
}

/// Reads the date of a column.
pub fn column_naive_date(column: &str, raw: &str) -> (day: Result<i32, ColumnFault>)
    ensures
        day is Ok <==> date_read(raw@) is Some,
        day matches Ok(d) ==> date_read(raw@) == Some(d as int) && valid_date(d as int),
        day matches Err(f) ==> blames(f, column@, ColumnType::Text),
{
    match read_date(raw) {
        Some(day) => Ok(day),
        None => Err(fault(column, ColumnType::Text)),
    }
}

/// Writes an instant; in the years 0000 to 9999 it reads back to the
/// millisecond. `None` where it lies outside the calendar.
pub fn instant_column(ticks: i128) -> (column: Option<String>)
    ensures
        column is Some <==> valid_instant(ticks as int),
        column matches Some(c) ==> c@ == instant_text(ticks as int) && (rfc3339_year(ticks as int)
            ==> instant_read(c@) == Some(whole_millis(ticks as int))),
{
    if is_instant(ticks) {
        Some(canonical_timestamp(ticks))
    } else {
        None
    }
}

/// An optional instant's text.
pub open spec fn opt_instant_text(ticks: Option<int>) -> Option<Seq<char>> {
    match ticks {
        Some(ticks) => Some(instant_text(ticks)),
        None => None,
    }
}

/// Whether an optional instant lies within the calendar.
pub open spec fn opt_valid(ticks: Option<int>) -> bool {
    ticks matches Some(m) ==> valid_instant(m)
}

/// Whether the text of an optional instant names it exactly.
pub open spec fn opt_exact(ticks: Option<int>) -> bool {
    ticks matches Some(m) ==> exact_text(m)
}

/// Writes an optional instant. The outer `None` means that it lies outside
/// the calendar.
pub fn opt_instant_column(ticks: Option<i128>) -> (column: Option<Option<String>>)
    ensures
        column is Some <==> opt_valid(opt_int(ticks)),
        column matches Some(c) ==> opt_text(c) == opt_instant_text(opt_int(ticks)) && (opt_exact(
            opt_int(ticks),
        ) ==> opt_instant_read(opt_text(c)) == Some(opt_int(ticks))),
{
    match ticks {
        None => Some(None),
        Some(ticks) => match instant_column(ticks) {
            Some(text) => Some(Some(text)),
            None => None,
        },
    }
}

/// Writes a date; it reads back. `None` where it lies outside the calendar.
pub fn date_column(day: i32) -> (column: Option<String>)
    ensures
        column is Some <==> valid_date(day as int),
        column matches Some(c) ==> c@ == date_text(day as int) && date_read(c@) == Some(day as int),
{
    if FIRST_DAY <= day && day <= LAST_DAY {
        Some(canonical_date(day))
    } else {
        None
    }
}

// ---------------------------------------------------------------- names
/// Reads the kind of a column.
pub fn column_task_kind(column: &str, raw: &str) -> (kind: Result<TaskKind, ColumnFault>)
    ensures
        kind is Ok <==> raw@.len() > 0,
        kind matches Ok(k) ==> k@ == raw@,
        kind matches Err(f) ==> blames(f, column@, ColumnType::Text),
{
    match TaskKind::new(raw) {
        Ok(kind) => Ok(kind),
        Err(_) => Err(fault(column, ColumnType::Text)),
    }
}

/// Reads the status of a column.
pub fn column_task_status(column: &str, raw: &str) -> (status: Result<TaskStatus, ColumnFault>)
    ensures
        status is Ok <==> TaskStatus::named(raw@) is Some,
        status matches Ok(s) ==> TaskStatus::named(raw@) == Some(s),
        status matches Err(f) ==> blames(f, column@, ColumnType::Text),
{
    match TaskStatus::from_text(raw) {
        Some(status) => Ok(status),
        None => Err(fault(column, ColumnType::Text)),
    }
}

/// Reads the outcome of a finished run.
pub fn column_execution_outcome(column: &str, raw: &str) -> (outcome: Result<
    ExecutionOutcome,
    ColumnFault,
>)
    ensures
        outcome is Ok <==> ExecutionOutcome::named(raw@) is Some,
        outcome matches Ok(o) ==> ExecutionOutcome::named(raw@) == Some(o),
        outcome matches Err(f) ==> blames(f, column@, ColumnType::Text),
{
    match ExecutionOutcome::from_text(raw) {
        Some(outcome) => Ok(outcome),
        None => Err(fault(column, ColumnType::Text)),
    }
}

/// Reads the source of a column.
pub fn column_sync_source(column: &str, raw: &str) -> (source: Result<SyncSource, ColumnFault>)
    ensures
        source is Ok <==> raw@.len() > 0,
        source matches Ok(s) ==> s@ == raw@,
        source matches Err(f) ==> blames(f, column@, ColumnType::Text),
{
    match SyncSource::new(raw) {
        Ok(source) => Ok(source),
        Err(_) => Err(fault(column, ColumnType::Text)),
    }
}

/// The outcome that a column holds, where it holds one: the outer `None`
/// means that it holds something else.
pub open spec fn opt_sync_outcome(raw: Option<Seq<char>>) -> Option<Option<SyncOutcomeKind>> {
    match raw {
        None => Some(None),
        Some(t) => match SyncOutcomeKind::named(t) {
            Some(o) => Some(Some(o)),
            None => None,
        },
    }
}

/// Reads the last outcome of a source.
pub fn column_opt_outcome(column: &str, raw: &Option<String>) -> (outcome: Result<
    Option<SyncOutcomeKind>,
    ColumnFault,
>)
    ensures
        outcome is Ok <==> opt_sync_outcome(opt_text(*raw)) is Some,
        outcome matches Ok(o) ==> opt_sync_outcome(opt_text(*raw)) == Some(o),
        outcome matches Err(f) ==> blames(f, column@, ColumnType::Text),
{
    match raw {
        None => Ok(None),
        Some(raw) => match SyncOutcomeKind::from_text(raw.as_str()) {
            Some(outcome) => Ok(Some(outcome)),
            None => Err(fault(column, ColumnType::Text)),
        },
    }
}

/// The run outcome that a column holds, where it holds one.
pub open spec fn opt_run_outcome(raw: Option<Seq<char>>) -> Option<Option<ExecutionOutcome>> {
    match raw {
        None => Some(None),
        Some(t) => match ExecutionOutcome::named(t) {
            Some(o) => Some(Some(o)),
            None => None,
        },
    }
}

/// Reads the last outcome of a kind.
pub fn column_opt_run_outcome(column: &str, raw: &Option<String>) -> (outcome: Result<
    Option<ExecutionOutcome>,
    ColumnFault,
>)
    ensures
        outcome is Ok <==> opt_run_outcome(opt_text(*raw)) is Some,
        outcome matches Ok(o) ==> opt_run_outcome(opt_text(*raw)) == Some(o),
        outcome matches Err(f) ==> blames(f, column@, ColumnType::Text),
{
    match raw {
        None => Ok(None),
        Some(raw) => match ExecutionOutcome::from_text(raw.as_str()) {
            Some(outcome) => Ok(Some(outcome)),
            None => Err(fault(column, ColumnType::Text)),
        },
    }
}

/// A stored counter; the schema keeps it from being negative.
pub open spec fn counter(raw: i64) -> nat {
    if raw < 0 {
        0
    } else {
        raw as nat
    }
}

/// Reads a counter.
pub fn column_u64(raw: i64) -> (n: u64)
    ensures
        n == counter(raw),
{
    if raw < 0 {
        0
    } else {
        raw as u64
    }
}

/// A stored counter that may be empty.
pub open spec fn opt_counter(raw: Option<i64>) -> Option<nat> {
    match raw {
        Some(n) => Some(counter(n)),
        None => None,
    }
}

/// Reads a counter that may be empty.
pub fn column_opt_u64(raw: Option<i64>) -> (n: Option<u64>)
    ensures
        opt_nat(n) == opt_counter(raw),
{
    match raw {
        Some(n) => Some(column_u64(n)),
        None => None,
    }
}

// ---------------------------------------------------------------- queue
/// A row of the queue.
#[derive(Clone, Debug, PartialEq, Eq)]
pub struct TaskColumns {
    pub id: Vec<u8>,
    pub kind: String,
    pub status: String,
    pub payload: Option<String>,
    pub scheduled_at: String,
    pub started_at: Option<String>,
    pub attempts: u32,
    pub max_attempts: u32,
    pub retry_delay_secs: u32,
    pub last_error: Option<String>,
    pub created_at: String,
    pub updated_at: String,
    pub version: u32,
}

/// The first column of a queue row that does not hold what it should.
pub open spec fn task_fault(row: TaskColumns) -> Option<Seq<char>> {
    if id_read(row.id@) is None {
        Some("id"@)
    } else if row.kind@.len() == 0 {
        Some("kind"@)
    } else if TaskStatus::named(row.status@) is None {
        Some("status"@)
    } else if instant_read(row.scheduled_at@) is None {
        Some("scheduled_at"@)
    } else if opt_instant_read(opt_text(row.started_at)) is None {
        Some("started_at"@)
    } else if instant_read(row.created_at@) is None {
        Some("created_at"@)
    } else if instant_read(row.updated_at@) is None {
        Some("updated_at"@)
    } else {
        None
    }
}

/// What a queue row holds.
pub open spec fn task_read(row: TaskColumns) -> RowState {
    RowState {
        task: TaskState {
            id: id_read(row.id@)->0,
            kind: row.kind@,
            status: TaskStatus::named(row.status@)->0,
            payload: opt_text(row.payload),
            scheduled_at: instant_read(row.scheduled_at@)->0,
            started_at: opt_instant_read(opt_text(row.started_at))->0,
            attempts: row.attempts as nat,
            max_attempts: row.max_attempts as nat,
            retry_delay_secs: row.retry_delay_secs as nat,
            last_error: opt_text(row.last_error),
            created_at: instant_read(row.created_at@)->0,
            updated_at: instant_read(row.updated_at@)->0,
        },
        version: row.version as nat,
    }
}

/// Reads a row of the queue.
pub fn task_from_row(row: &TaskColumns) -> (task: Result<Versioned<BackgroundTask>, ColumnFault>)
    ensures
        task is Ok <==> task_fault(*row) is None,
        task matches Ok(t) ==> t@ == task_read(*row),
        task matches Err(f) ==> Some(f.column@) == task_fault(*row),
{
    let id: u128 = match column_uuid("id", &row.id) {
        Ok(id) => id,
        Err(f) => {
            return Err(f);
        },
    };
    let kind = match column_task_kind("kind", row.kind.as_str()) {
        Ok(kind) => kind,
        Err(f) => {
            return Err(f);
        },
    };
    let status = match column_task_status("status", row.status.as_str()) {
        Ok(status) => status,
        Err(f) => {
            return Err(f);
        },
    };
    let scheduled_at: i128 = match column_datetime("scheduled_at", row.scheduled_at.as_str()) {
        Ok(ticks) => ticks,
        Err(f) => {
            return Err(f);
        },
    };
    let started_at = match column_opt_datetime("started_at", &row.started_at) {
        Ok(ticks) => ticks,
        Err(f) => {
            return Err(f);
        },
    };
    let created_at: i128 = match column_datetime("created_at", row.created_at.as_str()) {
        Ok(ticks) => ticks,
        Err(f) => {
            return Err(f);
        },
    };
    let updated_at: i128 = match column_datetime("updated_at", row.updated_at.as_str()) {
        Ok(ticks) => ticks,
        Err(f) => {
            return Err(f);
        },
    };
    let retry = RetryPolicy {
        max_attempts: row.max_attempts,
        retry_delay_secs: row.retry_delay_secs,
    };
    let task = BackgroundTask::pending(
        id,
        &kind,
        copy_opt(&row.payload),
        scheduled_at,
        retry,
        created_at,
    ).reconstitute(status, started_at, row.attempts, copy_opt(&row.last_error), updated_at);
    Ok(Versioned { data: task, version: row.version })
}

/// Whether all instants of a run satisfy a bound.
pub open spec fn task_times_valid(task: TaskState) -> bool {
    &&& valid_instant(task.scheduled_at)
    &&& opt_valid(task.started_at)
    &&& valid_instant(task.created_at)
    &&& valid_instant(task.updated_at)
}

/// Whether the texts of all instants of a run name them exactly.
pub open spec fn task_times_rfc3339(task: TaskState) -> bool {
    &&& exact_text(task.scheduled_at)
    &&& opt_exact(task.started_at)
    &&& exact_text(task.created_at)
    &&& exact_text(task.updated_at)
}

/// Writes a row of the queue. What was written reads back as the same run
/// with the same version, as long as its instants are whole milliseconds of
/// the years 0000 to 9999. `None` where an instant lies outside the calendar.
pub fn task_to_row(row: &Versioned<BackgroundTask>) -> (columns: Option<TaskColumns>)
    ensures
        columns is Some <==> task_times_valid(row@.task),
        columns matches Some(c) ==> {
            &&& id_read(c.id@) == Some(row@.task.id)
            &&& c.kind@ == row@.task.kind
            &&& c.status@ == row@.task.status.name()
            &&& c.scheduled_at@ == instant_text(row@.task.scheduled_at)
            &&& opt_text(c.started_at) == opt_instant_text(row@.task.started_at)
            &&& c.created_at@ == instant_text(row@.task.created_at)
            &&& c.updated_at@ == instant_text(row@.task.updated_at)
            &&& opt_text(c.payload) == row@.task.payload
            &&& opt_text(c.last_error) == row@.task.last_error
            &&& c.attempts == row@.task.attempts
            &&& c.max_attempts == row@.task.max_attempts
            &&& c.retry_delay_secs == row@.task.retry_delay_secs
            &&& c.version == row@.version
            &&& task_times_rfc3339(row@.task) && row@.task.kind.len() > 0 ==> task_fault(c) is None
                && task_read(c) == row@
        },
{
    let task = &row.data;
    let scheduled_at = instant_column(task.scheduled_at());
    let started_at = opt_instant_column(task.started_at());
    let created_at = instant_column(task.created_at());
    let updated_at = instant_column(task.updated_at());
    match (scheduled_at, started_at, created_at, updated_at) {
        (Some(scheduled_at), Some(started_at), Some(created_at), Some(updated_at)) => {
            let columns = TaskColumns {
                id: id_column(task.id()),
                kind: task.kind().as_str().to_owned(),
                status: task.status().as_str().to_owned(),
                payload: task.payload(),
                scheduled_at,
                started_at,
                attempts: task.attempts(),
                max_attempts: task.max_attempts(),
                retry_delay_secs: task.retry_delay_secs(),
                last_error: task.last_error(),
                created_at,
                updated_at,
                version: row.version,
            };
            proof {
                reveal_strlit("PENDING");
                reveal_strlit("RUNNING");
                assert("PENDING"@[0] != "RUNNING"@[0]);
                assert(TaskStatus::named(columns.status@) == Some(row@.task.status));
                if task_times_rfc3339(row@.task) {
                    assert(task_read(columns) =~= row@);
                }
            }
            Some(columns)
        },
        _ => None,
    }
}

// ---------------------------------------------------------------- cursors
/// A row of the sync cursors.
#[derive(Clone, Debug)]
pub struct CursorColumns {
    pub source: String,
    pub through_slot: String,
    pub through_target: String,
    pub cooldown_until: Option<String>,
    pub consecutive_failures: u32,
    pub last_outcome: Option<String>,
    pub last_error: Option<String>,
    pub updated_at: String,
}

/// The first column of a cursor row that does not hold what it should.
pub open spec fn cursor_fault(row: CursorColumns) -> Option<Seq<char>> {
    if row.source@.len() == 0 {
        Some("source"@)
    } else if instant_read(row.through_slot@) is None {
        Some("through_slot"@)
    } else if date_read(row.through_target@) is None {
        Some("through_target"@)
    } else if opt_instant_read(opt_text(row.cooldown_until)) is None {
        Some("cooldown_until"@)
    } else if opt_sync_outcome(opt_text(row.last_outcome)) is None {
        Some("last_outcome"@)
    } else if instant_read(row.updated_at@) is None {
        Some("updated_at"@)
    } else {
        None
    }
}

/// What a cursor row holds.
pub open spec fn cursor_read(row: CursorColumns) -> CursorState {
    CursorState {
        source: row.source@,
        through_slot: instant_read(row.through_slot@)->0,
        through_target: date_read(row.through_target@)->0,
        cooldown_until: opt_instant_read(opt_text(row.cooldown_until))->0,
        consecutive_failures: row.consecutive_failures as nat,
        last_outcome: opt_sync_outcome(opt_text(row.last_outcome))->0,
        last_error: opt_text(row.last_error),
        updated_at: instant_read(row.updated_at@)->0,
    }
}

/// Reads a cursor.
pub fn cursor_from_row(row: &CursorColumns) -> (cursor: Result<SyncCursor, ColumnFault>)
    ensures
        cursor is Ok <==> cursor_fault(*row) is None,
        cursor matches Ok(c) ==> c@ == cursor_read(*row) && c@.wf(),
        cursor matches Err(f) ==> Some(f.column@) == cursor_fault(*row),
{
    let source = match column_sync_source("source", row.source.as_str()) {
        Ok(source) => source,
        Err(f) => {
            return Err(f);
        },
    };
    let through_slot: i128 = match column_datetime("through_slot", row.through_slot.as_str()) {
        Ok(ticks) => ticks,
        Err(f) => {
            return Err(f);
        },
    };
    let through_target: i32 = match column_naive_date(
        "through_target",
        row.through_target.as_str(),
    ) {
        Ok(day) => day,
        Err(f) => {
            return Err(f);
        },
    };
    let cooldown_until = match column_opt_datetime("cooldown_until", &row.cooldown_until) {
        Ok(ticks) => ticks,
        Err(f) => {
            return Err(f);
        },
    };
    let last_outcome = match column_opt_outcome("last_outcome", &row.last_outcome) {
        Ok(outcome) => outcome,
        Err(f) => {
            return Err(f);
        },
    };
    let updated_at: i128 = match column_datetime("updated_at", row.updated_at.as_str()) {
        Ok(ticks) => ticks,
        Err(f) => {
            return Err(f);
        },
    };
    let cursor = SyncCursor::reconstitute(
        &source,
        through_slot,
        through_target,
        cooldown_until,
        row.consecutive_failures,
        last_outcome,
        copy_opt(&row.last_error),
        updated_at,
    );
    assert(cursor@ =~= cursor_read(*row));
    Ok(cursor)
}

/// Whether all times of a cursor lie within the calendar.
pub open spec fn cursor_times_valid(cursor: CursorState) -> bool {
    &&& valid_instant(cursor.through_slot)
    &&& valid_date(cursor.through_target)
    &&& opt_valid(cursor.cooldown_until)
    &&& valid_instant(cursor.updated_at)
}

/// Whether the texts of all instants of a cursor name them exactly.
pub open spec fn cursor_times_rfc3339(cursor: CursorState) -> bool {
    &&& exact_text(cursor.through_slot)
    &&& opt_exact(cursor.cooldown_until)
    &&& exact_text(cursor.updated_at)
}

/// The name of an optional outcome.
pub open spec fn opt_outcome_name(outcome: Option<SyncOutcomeKind>) -> Option<Seq<char>> {
    match outcome {
        Some(o) => Some(o.name()),
        None => None,
    }
}

proof fn lemma_sync_outcome_names(outcome: SyncOutcomeKind)
    ensures
        SyncOutcomeKind::named(outcome.name()) == Some(outcome),
{
    reveal_strlit("SYNCED");
    reveal_strlit("NOT_READY");
    reveal_strlit("FAILED");
    assert("SYNCED"@[0] != "NOT_READY"@[0]);
    assert("SYNCED"@[0] != "FAILED"@[0]);
    assert("NOT_READY"@[0] != "FAILED"@[0]);
}

/// Writes a cursor. What was written reads back as the same cursor, as long
/// as its instants lie in the years 0000 to 9999 and are whole milliseconds.
/// `None` where a time lies outside the calendar.
pub fn cursor_to_row(cursor: &SyncCursor) -> (columns: Option<CursorColumns>)
    ensures
        columns is Some <==> cursor_times_valid(cursor@),
        columns matches Some(c) ==> {
            &&& c.source@ == cursor@.source
            &&& c.through_slot@ == instant_text(cursor@.through_slot)
            &&& c.through_target@ == date_text(cursor@.through_target)
            &&& opt_text(c.cooldown_until) == opt_instant_text(cursor@.cooldown_until)
            &&& c.consecutive_failures == cursor@.consecutive_failures
            &&& opt_text(c.last_outcome) == opt_outcome_name(cursor@.last_outcome)
            &&& opt_text(c.last_error) == cursor@.last_error
            &&& c.updated_at@ == instant_text(cursor@.updated_at)
            &&& cursor_times_rfc3339(cursor@) && cursor@.source.len() > 0 ==> cursor_fault(c)
                is None && cursor_read(c) == cursor@
        },
{
    let through_slot = instant_column(cursor.through_slot());
    let through_target = date_column(cursor.through_target());
    let cooldown_until = opt_instant_column(cursor.cooldown_until());
    let updated_at = instant_column(cursor.updated_at());
    match (through_slot, through_target, cooldown_until, updated_at) {
        (Some(through_slot), Some(through_target), Some(cooldown_until), Some(updated_at)) => {
            let last_outcome = match cursor.last_outcome() {
                Some(outcome) => Some(outcome.as_str().to_owned()),
                None => None,
            };
            let columns = CursorColumns {
                source: cursor.source().as_str().to_owned(),
                through_slot,
                through_target,
                cooldown_until,
                consecutive_failures: cursor.consecutive_failures(),
                last_outcome,
                last_error: cursor.last_error(),
                updated_at,
            };
            proof {
                if let Some(o) = cursor@.last_outcome {
                    lemma_sync_outcome_names(o);
                }
                if cursor_times_rfc3339(cursor@) {
                    assert(cursor_read(columns) =~= cursor@);
                }
            }
            Some(columns)
        },
        _ => None,
    }
}

// ---------------------------------------------------------------- history
/// A row of the run history.
#[derive(Clone, Debug)]
pub struct ExecutionColumns {
    pub id: Vec<u8>,
    pub kind: String,
    pub outcome: String,
    pub payload: Option<String>,
    pub scheduled_at: String,
    pub started_at: Option<String>,
    pub finished_at: String,
    pub attempts: u32,
    pub duration_ms: Option<i64>,
    pub error: Option<String>,
    pub created_at: String,
}

/// The first column of a history row that does not hold what it should.
pub open spec fn execution_fault(row: ExecutionColumns) -> Option<Seq<char>> {
    if id_read(row.id@) is None {
        Some("id"@)
    } else if row.kind@.len() == 0 {
        Some("kind"@)
    } else if ExecutionOutcome::named(row.outcome@) is None {
        Some("outcome"@)
    } else if instant_read(row.scheduled_at@) is None {
        Some("scheduled_at"@)
    } else if opt_instant_read(opt_text(row.started_at)) is None {
        Some("started_at"@)
    } else if instant_read(row.finished_at@) is None {
        Some("finished_at"@)
    } else if instant_read(row.created_at@) is None {
        Some("created_at"@)
    } else {
        None
    }
}

/// What a history row holds.
pub open spec fn execution_read(row: ExecutionColumns) -> ExecutionState {
    ExecutionState {
        id: id_read(row.id@)->0,
        kind: row.kind@,
        outcome: ExecutionOutcome::named(row.outcome@)->0,
        payload: opt_text(row.payload),
        scheduled_at: instant_read(row.scheduled_at@)->0,
        started_at: opt_instant_read(opt_text(row.started_at))->0,
        finished_at: instant_read(row.finished_at@)->0,
        attempts: row.attempts as nat,
        duration_ms: opt_counter(row.duration_ms),
        error: opt_text(row.error),
        created_at: instant_read(row.created_at@)->0,
    }
}

/// Reads a finished run.
pub fn execution_from_row(row: &ExecutionColumns) -> (record: Result<TaskExecution, ColumnFault>)
    ensures
        record is Ok <==> execution_fault(*row) is None,
        record matches Ok(r) ==> r@ == execution_read(*row),
        record matches Err(f) ==> Some(f.column@) == execution_fault(*row),
{
    let id: u128 = match column_uuid("id", &row.id) {
        Ok(id) => id,
        Err(f) => {
            return Err(f);
        },
    };
    let kind = match column_task_kind("kind", row.kind.as_str()) {
        Ok(kind) => kind,
        Err(f) => {
            return Err(f);
        },
    };
    let outcome = match column_execution_outcome("outcome", row.outcome.as_str()) {
        Ok(outcome) => outcome,
        Err(f) => {
            return Err(f);
        },
    };
    let scheduled_at: i128 = match column_datetime("scheduled_at", row.scheduled_at.as_str()) {
        Ok(ticks) => ticks,
        Err(f) => {
            return Err(f);
        },
    };
    let started_at = match column_opt_datetime("started_at", &row.started_at) {
        Ok(ticks) => ticks,
        Err(f) => {
            return Err(f);
        },
    };
    let finished_at: i128 = match column_datetime("finished_at", row.finished_at.as_str()) {
        Ok(ticks) => ticks,
        Err(f) => {
            return Err(f);
        },
    };
    let created_at: i128 = match column_datetime("created_at", row.created_at.as_str()) {
        Ok(ticks) => ticks,
        Err(f) => {
            return Err(f);
        },
    };
    Ok(
        TaskExecution {
            id,
            kind,
            outcome,
            payload: copy_opt(&row.payload),
            scheduled_at,
            started_at,
            finished_at,
            attempts: row.attempts,
            duration_ms: column_opt_u64(row.duration_ms),
            error: copy_opt(&row.error),
            created_at,
        },
    )
}

/// Whether all instants of a finished run lie within the calendar.
pub open spec fn execution_times_valid(record: ExecutionState) -> bool {
    &&& valid_instant(record.scheduled_at)
    &&& opt_valid(record.started_at)
    &&& valid_instant(record.finished_at)
    &&& valid_instant(record.created_at)
}

/// Whether the texts of all instants of a finished run name them exactly.
pub open spec fn execution_times_rfc3339(record: ExecutionState) -> bool {
    &&& exact_text(record.scheduled_at)
    &&& opt_exact(record.started_at)
    &&& exact_text(record.finished_at)
    &&& exact_text(record.created_at)
}

/// A duration as a signed column holds it.
pub open spec fn held_column(ms: Option<nat>) -> Option<i64> {
    match ms {
        Some(n) => if n <= i64::MAX {
            Some(n as i64)
        } else {
            Some(i64::MAX)
        },
        None => None,
    }
}

fn hold_column(ms: Option<u64>) -> (column: Option<i64>)
    ensures
        column == held_column(opt_nat(ms)),
{
    match ms {
        Some(n) => if n <= i64::MAX as u64 {
            Some(n as i64)
        } else {
            Some(i64::MAX)
        },
        None => None,
    }
}

proof fn lemma_run_outcome_names(outcome: ExecutionOutcome)
    ensures
        ExecutionOutcome::named(outcome.name()) == Some(outcome),
{
    reveal_strlit("SUCCEEDED");
    reveal_strlit("NOT_READY");
    reveal_strlit("FAILED");
    assert("SUCCEEDED"@[0] != "NOT_READY"@[0]);
    assert("SUCCEEDED"@[0] != "FAILED"@[0]);
    assert("NOT_READY"@[0] != "FAILED"@[0]);
}

/// Writes a finished run. What was written reads back as the same record, as
/// long as its instants are whole milliseconds of the years 0000 to 9999 and
/// its duration fits a signed column. `None` where an instant lies outside the calendar.
pub fn execution_to_row(record: &TaskExecution) -> (columns: Option<ExecutionColumns>)
    ensures
        columns is Some <==> execution_times_valid(record@),
        columns matches Some(c) ==> {
            &&& id_read(c.id@) == Some(record@.id)
            &&& c.kind@ == record@.kind
            &&& c.outcome@ == record@.outcome.name()
            &&& opt_text(c.payload) == record@.payload
            &&& c.scheduled_at@ == instant_text(record@.scheduled_at)
            &&& opt_text(c.started_at) == opt_instant_text(record@.started_at)
            &&& c.finished_at@ == instant_text(record@.finished_at)
            &&& c.attempts == record@.attempts
            &&& c.duration_ms == held_column(record@.duration_ms)
            &&& opt_text(c.error) == record@.error
            &&& c.created_at@ == instant_text(record@.created_at)
            &&& execution_times_rfc3339(record@) && record@.kind.len() > 0 && (record@.duration_ms
                matches Some(ms) ==> ms <= i64::MAX) ==> execution_fault(c) is None
                && execution_read(c) == record@
        },
{
    let scheduled_at = instant_column(record.scheduled_at);
    let started_at = opt_instant_column(record.started_at);
    let finished_at = instant_column(record.finished_at);
    let created_at = instant_column(record.created_at);
    match (scheduled_at, started_at, finished_at, created_at) {
        (Some(scheduled_at), Some(started_at), Some(finished_at), Some(created_at)) => {
            let columns = ExecutionColumns {
                id: id_column(record.id),
                kind: record.kind.as_str().to_owned(),
                outcome: record.outcome.as_str().to_owned(),
                payload: copy_opt(&record.payload),
                scheduled_at,
                started_at,
                finished_at,
                attempts: record.attempts,
                duration_ms: hold_column(record.duration_ms),
                error: copy_opt(&record.error),
                created_at,
            };
            proof {
                lemma_run_outcome_names(record@.outcome);
                if execution_times_rfc3339(record@) && (record@.duration_ms matches Some(ms)
                    ==> ms <= i64::MAX) {
                    assert(execution_read(columns) =~= record@);
                }
            }
            Some(columns)
        },
        _ => None,
    }
}

// ---------------------------------------------------------------- stats
/// A row of the run statistics.
#[derive(Clone, Debug)]
pub struct StatColumns {
    pub kind: String,
    pub total_runs: i64,
    pub total_failures: i64,
    pub total_duration_ms: i64,
    pub last_run_at: Option<String>,
    pub last_outcome: Option<String>,
    pub last_error: Option<String>,
    pub last_success_at: Option<String>,
    pub last_duration_ms: Option<i64>,
    pub updated_at: String,
}

/// The first column of a statistics row that does not hold what it should.
pub open spec fn stat_fault(row: StatColumns) -> Option<Seq<char>> {
    if row.kind@.len() == 0 {
        Some("kind"@)
    } else if opt_instant_read(opt_text(row.last_run_at)) is None {
        Some("last_run_at"@)
    } else if opt_run_outcome(opt_text(row.last_outcome)) is None {
        Some("last_outcome"@)
    } else if opt_instant_read(opt_text(row.last_success_at)) is None {
        Some("last_success_at"@)
    } else if instant_read(row.updated_at@) is None {
        Some("updated_at"@)
    } else {
        None
    }
}

/// What a statistics row holds.
pub open spec fn stat_read(row: StatColumns) -> StatState {
    StatState {
        kind: row.kind@,
        total_runs: counter(row.total_runs),
        total_failures: counter(row.total_failures),
        total_duration_ms: counter(row.total_duration_ms),
        last_run_at: opt_instant_read(opt_text(row.last_run_at))->0,
        last_outcome: opt_run_outcome(opt_text(row.last_outcome))->0,
        last_error: opt_text(row.last_error),
        last_success_at: opt_instant_read(opt_text(row.last_success_at))->0,
        last_duration_ms: opt_counter(row.last_duration_ms),
        updated_at: instant_read(row.updated_at@)->0,
    }
}

/// Reads the statistics of a kind.
pub fn stat_from_row(row: &StatColumns) -> (stats: Result<TaskStats, ColumnFault>)
    ensures
        stats is Ok <==> stat_fault(*row) is None,
        stats matches Ok(s) ==> s@ == stat_read(*row),
        stats matches Err(f) ==> Some(f.column@) == stat_fault(*row),
{
    let kind = match column_task_kind("kind", row.kind.as_str()) {
        Ok(kind) => kind,
        Err(f) => {
            return Err(f);
        },
    };
    let last_run_at = match column_opt_datetime("last_run_at", &row.last_run_at) {
        Ok(ticks) => ticks,
        Err(f) => {
            return Err(f);
        },
    };
    let last_outcome = match column_opt_run_outcome("last_outcome", &row.last_outcome) {
        Ok(outcome) => outcome,
        Err(f) => {
            return Err(f);
        },
    };
    let last_success_at = match column_opt_datetime("last_success_at", &row.last_success_at) {
        Ok(ticks) => ticks,
        Err(f) => {
            return Err(f);
        },
    };
    let updated_at: i128 = match column_datetime("updated_at", row.updated_at.as_str()) {
        Ok(ticks) => ticks,
        Err(f) => {
            return Err(f);
        },
    };
    Ok(
        TaskStats {
            kind,
            total_runs: column_u64(row.total_runs),
            total_failures: column_u64(row.total_failures),
            total_duration_ms: column_u64(row.total_duration_ms),
            last_run_at,
            last_outcome,
            last_error: copy_opt(&row.last_error),
            last_success_at,
            last_duration_ms: column_opt_u64(row.last_duration_ms),
            updated_at,
        },
    )
}

/// Whether all instants of some statistics lie within the calendar.
pub open spec fn stat_times_valid(stats: StatState) -> bool {
    &&& opt_valid(stats.last_run_at)
    &&& opt_valid(stats.last_success_at)
    &&& valid_instant(stats.updated_at)
}

/// Whether the texts of all instants of some statistics name them exactly.
pub open spec fn stat_times_rfc3339(stats: StatState) -> bool {
    &&& opt_exact(stats.last_run_at)
    &&& opt_exact(stats.last_success_at)
    &&& exact_text(stats.updated_at)
}

/// Whether all counts of some statistics fit a signed column.
pub open spec fn stat_counts_fit(stats: StatState) -> bool {
    &&& stats.total_runs <= i64::MAX
    &&& stats.total_failures <= i64::MAX
    &&& stats.total_duration_ms <= i64::MAX
    &&& stats.last_duration_ms matches Some(ms) ==> ms <= i64::MAX
}

/// A count as a signed column holds it.
pub open spec fn held_count(n: nat) -> i64 {
    if n <= i64::MAX {
        n as i64
    } else {
        i64::MAX
    }
}

fn hold_count(n: u64) -> (column: i64)
    ensures
        column == held_count(n as nat),
{
    if n <= i64::MAX as u64 {
        n as i64
    } else {
        i64::MAX
    }
}

/// The name of an optional run outcome.
pub open spec fn opt_run_name(outcome: Option<ExecutionOutcome>) -> Option<Seq<char>> {
    match outcome {
        Some(o) => Some(o.name()),
        None => None,
    }
}

/// Writes the statistics of a kind. What was written reads back the same, as
/// long as its instants are whole milliseconds of the years 0000 to 9999 and
/// its counts fit a signed column. `None` where an instant lies outside the calendar.
pub fn stat_to_row(stats: &TaskStats) -> (columns: Option<StatColumns>)
    ensures
        columns is Some <==> stat_times_valid(stats@),
        columns matches Some(c) ==> {
            &&& c.kind@ == stats@.kind
            &&& c.total_runs == held_count(stats@.total_runs)
            &&& c.total_failures == held_count(stats@.total_failures)
            &&& c.total_duration_ms == held_count(stats@.total_duration_ms)
            &&& opt_text(c.last_run_at) == opt_instant_text(stats@.last_run_at)
            &&& opt_text(c.last_outcome) == opt_run_name(stats@.last_outcome)
            &&& opt_text(c.last_error) == stats@.last_error
            &&& opt_text(c.last_success_at) == opt_instant_text(stats@.last_success_at)
            &&& c.last_duration_ms == held_column(stats@.last_duration_ms)
            &&& c.updated_at@ == instant_text(stats@.updated_at)
            &&& stat_times_rfc3339(stats@) && stat_counts_fit(stats@) && stats@.kind.len() > 0
                ==> stat_fault(c) is None && stat_read(c) == stats@
        },
{
    let last_run_at = opt_instant_column(stats.last_run_at);
    let last_success_at = opt_instant_column(stats.last_success_at);
    let updated_at = instant_column(stats.updated_at);
    match (last_run_at, last_success_at, updated_at) {
        (Some(last_run_at), Some(last_success_at), Some(updated_at)) => {
            let last_outcome = match stats.last_outcome {
                Some(outcome) => Some(outcome.as_str().to_owned()),
                None => None,
            };
            let columns = StatColumns {
                kind: stats.kind.as_str().to_owned(),
                total_runs: hold_count(stats.total_runs),
                total_failures: hold_count(stats.total_failures),
                total_duration_ms: hold_count(stats.total_duration_ms),
                last_run_at,
                last_outcome,
                last_error: copy_opt(&stats.last_error),
                last_success_at,
                last_duration_ms: hold_column(stats.last_duration_ms),
                updated_at,
            };
            proof {
                if let Some(o) = stats@.last_outcome {
                    lemma_run_outcome_names(o);
                }
                if stat_times_rfc3339(stats@) && stat_counts_fit(stats@) {
                    assert(stat_read(columns) =~= stats@);
                }
            }
            Some(columns)
        },
        _ => None,
    }
}

} // verus!
