//! The durable task queue: live work only, one row per queued run.
//!
//! Rows are kept soonest first (by scheduled time, then id). A terminal
//! completion removes its row; a retry puts it back at its new time. A row
//! keeps its instants to the millisecond, and becomes due in that millisecond.
use crate::backoff::{
    backoff_secs, doubled, law_backoff_grows_up_to_the_cap, law_doubling_is_a_capped_power_of_two,
    BACKOFF_CAP_SECS,
};
use crate::cursor::{copy_opt, kept_opt, opt_int, opt_stored, opt_text, NameError};
use crate::moment::{after_secs, kept, secs_after, stored_instant};
use crate::moment;
use crate::text;
use vstd::arithmetic::power2::pow2;
use vstd::prelude::*;

verus! {

// ---------------------------------------------------------------- identity
/// The kind of a task: what handler runs it.
#[derive(Clone, Debug)]
pub struct TaskKind {
    name: String,
}

impl View for TaskKind {
    type V = Seq<char>;

    closed spec fn view(&self) -> Seq<char> {
        self.name@
    }
}

impl TaskKind {
    /// Any non-empty name.
    pub fn new(name: &str) -> (kind: Result<TaskKind, NameError>)
        ensures
            kind is Ok <==> name@.len() > 0,
            kind matches Ok(k) ==> k@ == name@,
            kind matches Err(e) ==> e == NameError::Empty,
    {
        if name.is_empty() {
            Err(NameError::Empty)
        } else {
            Ok(TaskKind { name: name.to_owned() })
        }
    }

    pub fn as_str(&self) -> (name: &str)
        ensures
            name@ == self@,
    {
        self.name.as_str()
    }

    /// The same kind again.
    pub fn copied(&self) -> (same: TaskKind)
        ensures
            same@ == self@,
    {
        TaskKind { name: self.name.clone() }
    }
}

/// Whether a queued run waits or is being executed.
#[derive(Clone, Copy, Debug, PartialEq, Eq, Structural)]
pub enum TaskStatus {
    Pending,
    Running,
}

impl TaskStatus {
    /// The persisted name.
    pub open spec fn name(self) -> Seq<char> {
        match self {
            TaskStatus::Pending => "PENDING"@,
            TaskStatus::Running => "RUNNING"@,
        }
    }

    pub fn as_str(self) -> (name: &'static str)
        ensures
            name@ == self.name(),
    {
        match self {
            TaskStatus::Pending => "PENDING",
            TaskStatus::Running => "RUNNING",
        }
    }

    /// The value that a persisted name spells.
    pub open spec fn named(raw: Seq<char>) -> Option<TaskStatus> {
        if raw == "PENDING"@ {
            Some(TaskStatus::Pending)
        } else if raw == "RUNNING"@ {
            Some(TaskStatus::Running)
        } else {
            None
        }
    }

    /// Reads a persisted name.
    pub fn from_text(raw: &str) -> (status: Option<TaskStatus>)
        ensures
            status == TaskStatus::named(raw@),
    {
        if text::same_text(raw, "PENDING") {
            Some(TaskStatus::Pending)
        } else if text::same_text(raw, "RUNNING") {
            Some(TaskStatus::Running)
        } else {
            None
        }
    }
}

// ---------------------------------------------------------------- task
/// What a queued run records.
#[verifier::ext_equal]
pub struct TaskState {
    pub id: int,
    pub kind: Seq<char>,
    pub status: TaskStatus,
    pub payload: Option<Seq<char>>,
    pub scheduled_at: int,
    pub started_at: Option<int>,
    pub attempts: nat,
    pub max_attempts: nat,
    pub retry_delay_secs: nat,
    pub last_error: Option<Seq<char>>,
    pub created_at: int,
    pub updated_at: int,
}

/// A queued run with its version.
#[verifier::ext_equal]
pub struct RowState {
    pub task: TaskState,
    pub version: nat,
}

/// One more, up to what a counter can hold.
pub open spec fn bumped(n: nat) -> nat {
    if n < u32::MAX {
        n + 1
    } else {
        n
    }
}

fn bump(n: u32) -> (more: u32)
    ensures
        more == bumped(n as nat),
{
    if n < u32::MAX {
        n + 1
    } else {
        n
    }
}

impl TaskState {
    /// The run as the queue keeps it: instants to the millisecond.
    pub open spec fn stored(self) -> TaskState {
        TaskState {
            scheduled_at: stored_instant(self.scheduled_at),
            started_at: opt_stored(self.started_at),
            created_at: stored_instant(self.created_at),
            updated_at: stored_instant(self.updated_at),
            ..self
        }
    }

    /// Whether an attempt is left after the ones already started.
    pub open spec fn can_retry(self) -> bool {
        self.attempts < self.max_attempts
    }

    /// When a failed attempt may run again: the retry delay, doubled with
    /// each attempt and capped at one hour.
    pub open spec fn retry_at(self, now: int) -> int {
        secs_after(
            now,
            doubled(
                self.retry_delay_secs,
                if self.attempts == 0 {
                    0
                } else {
                    (self.attempts - 1) as nat
                },
                BACKOFF_CAP_SECS as nat,
            ),
        )
    }
}

impl RowState {
    /// The row of a run that is queued for the first time.
    pub open spec fn fresh(task: TaskState) -> RowState {
        RowState { task: task.stored(), version: 1 }
    }

    /// Whether this row sorts before another: sooner first, then smaller id.
    pub open spec fn before(self, other: RowState) -> bool {
        self.task.scheduled_at < other.task.scheduled_at || (self.task.scheduled_at
            == other.task.scheduled_at && self.task.id < other.task.id)
    }

    /// Whether the row may be claimed at `now`: pending, due by the
    /// millisecond, and of a kind that no operator disabled.
    pub open spec fn due(self, now: int, disabled: Seq<Seq<char>>) -> bool {
        self.task.status == TaskStatus::Pending && stored_instant(self.task.scheduled_at)
            <= stored_instant(now) && !disabled.contains(self.task.kind)
    }

    /// The row once claimed: running, one more attempt.
    pub open spec fn claimed(self, now: int) -> RowState {
        RowState {
            task: TaskState {
                status: TaskStatus::Running,
                attempts: bumped(self.task.attempts),
                started_at: Some(stored_instant(now)),
                updated_at: stored_instant(now),
                ..self.task
            },
            version: bumped(self.version),
        }
    }

    /// The row put back to wait until `at`, with the error that sent it back.
    pub open spec fn requeued(self, error: Seq<char>, now: int, at: int) -> RowState {
        RowState {
            task: TaskState {
                status: TaskStatus::Pending,
                scheduled_at: stored_instant(at),
                updated_at: stored_instant(now),
                last_error: Some(error),
                ..self.task
            },
            version: bumped(self.version),
        }
    }

    /// Whether the row was running and has attempts left.
    pub open spec fn interrupted(self) -> bool {
        self.task.status == TaskStatus::Running && self.task.can_retry()
    }

    /// Whether the row was running its final attempt.
    pub open spec fn exhausted(self) -> bool {
        self.task.status == TaskStatus::Running && !self.task.can_retry()
    }
}

/// One queued run.
#[derive(Clone, Debug)]
pub struct BackgroundTask {
    id: u128,
    kind: TaskKind,
    status: TaskStatus,
    payload: Option<String>,
    scheduled_at: i128,
    started_at: Option<i128>,
    attempts: u32,
    max_attempts: u32,
    retry_delay_secs: u32,
    last_error: Option<String>,
    created_at: i128,
    updated_at: i128,
}

impl View for BackgroundTask {
    type V = TaskState;

    closed spec fn view(&self) -> TaskState {
        TaskState {
            id: self.id as int,
            kind: self.kind@,
            status: self.status,
            payload: opt_text(self.payload),
            scheduled_at: self.scheduled_at as int,
            started_at: opt_int(self.started_at),
            attempts: self.attempts as nat,
            max_attempts: self.max_attempts as nat,
            retry_delay_secs: self.retry_delay_secs as nat,
            last_error: opt_text(self.last_error),
            created_at: self.created_at as int,
            updated_at: self.updated_at as int,
        }
    }
}

/// How a durable run retries within one occurrence.
#[derive(Clone, Copy, Debug, PartialEq, Eq, Structural)]
pub struct RetryPolicy {
    pub max_attempts: u32,
    pub retry_delay_secs: u32,
}

impl RetryPolicy {
    /// One attempt, no retry: the next occurrence is the retry.
    pub fn none() -> (policy: RetryPolicy)
        ensures
            policy.max_attempts == 1,
            policy.retry_delay_secs == 0,
    {
        RetryPolicy { max_attempts: 1, retry_delay_secs: 0 }
    }
}

/// A run that waits for its scheduled time, nothing attempted yet.
pub open spec fn pending_task(
    id: int,
    kind: Seq<char>,
    payload: Option<Seq<char>>,
    scheduled_at: int,
    retry: RetryPolicy,
    now: int,
) -> TaskState {
    TaskState {
        id,
        kind,
        status: TaskStatus::Pending,
        payload,
        scheduled_at,
        started_at: None,
        attempts: 0,
        max_attempts: retry.max_attempts as nat,
        retry_delay_secs: retry.retry_delay_secs as nat,
        last_error: None,
        created_at: now,
        updated_at: now,
    }
}

impl BackgroundTask {
    /// A run that waits for its scheduled time.
    pub fn pending(
        id: u128,
        kind: &TaskKind,
        payload: Option<String>,
        scheduled_at: i128,
        retry: RetryPolicy,
        now: i128,
    ) -> (task: BackgroundTask)
        ensures
            task@ == pending_task(
                id as int,
                kind@,
                opt_text(payload),
                scheduled_at as int,
                retry,
                now as int,
            ),
    {
        BackgroundTask {
            id,
            kind: kind.copied(),
            status: TaskStatus::Pending,
            payload,
            scheduled_at,
            started_at: None,
            attempts: 0,
            max_attempts: retry.max_attempts,
            retry_delay_secs: retry.retry_delay_secs,
            last_error: None,
            created_at: now,
            updated_at: now,
        }
    }

    /// Rebuilds the parts of a run that change after it was queued.
    pub fn reconstitute(
        self,
        status: TaskStatus,
        started_at: Option<i128>,
        attempts: u32,
        last_error: Option<String>,
        updated_at: i128,
    ) -> (task: BackgroundTask)
        ensures
            task@ == (TaskState {
                status,
                started_at: opt_int(started_at),
                attempts: attempts as nat,
                last_error: opt_text(last_error),
                updated_at: updated_at as int,
                ..self@
            }),
    {
        BackgroundTask { status, started_at, attempts, last_error, updated_at, ..self }
    }

    pub fn id(&self) -> (id: u128)
        ensures
            id == self@.id,
    {
        self.id
    }

    pub fn kind(&self) -> (kind: &TaskKind)
        ensures
            kind@ == self@.kind,
    {
        &self.kind
    }

    pub fn status(&self) -> (status: TaskStatus)
        ensures
            status == self@.status,
    {
        self.status
    }

    pub fn payload(&self) -> (payload: Option<String>)
        ensures
            opt_text(payload) == self@.payload,
    {
        copy_opt(&self.payload)
    }

    pub fn scheduled_at(&self) -> (at: i128)
        ensures
            at == self@.scheduled_at,
    {
        self.scheduled_at
    }

    pub fn started_at(&self) -> (at: Option<i128>)
        ensures
            opt_int(at) == self@.started_at,
    {
        self.started_at
    }

    pub fn attempts(&self) -> (n: u32)
        ensures
            n == self@.attempts,
    {
        self.attempts
    }

    pub fn max_attempts(&self) -> (n: u32)
        ensures
            n == self@.max_attempts,
    {
        self.max_attempts
    }

    pub fn retry_delay_secs(&self) -> (n: u32)
        ensures
            n == self@.retry_delay_secs,
    {
        self.retry_delay_secs
    }

    pub fn last_error(&self) -> (error: Option<String>)
        ensures
            opt_text(error) == self@.last_error,
    {
        copy_opt(&self.last_error)
    }

    pub fn created_at(&self) -> (at: i128)
        ensures
            at == self@.created_at,
    {
        self.created_at
    }

    pub fn updated_at(&self) -> (at: i128)
        ensures
            at == self@.updated_at,
    {
        self.updated_at
    }

    /// Whether an attempt is left.
    pub fn can_retry(&self) -> (yes: bool)
        ensures
            yes == self@.can_retry(),
    {
        self.attempts < self.max_attempts
    }

    /// When the next attempt may run.
    pub fn next_retry_at(&self, now: i128) -> (at: i128)
        requires
            moment::valid_instant(now as int),
        ensures
            at == self@.retry_at(now as int),
            moment::valid_instant(at as int),
            now <= at,
    {
        let times: u32 = if self.attempts == 0 {
            0
        } else {
            self.attempts - 1
        };
        after_secs(now, backoff_secs(self.retry_delay_secs, times))
    }

    /// The run as the queue keeps it.
    pub(crate) fn to_store(&self) -> (stored: BackgroundTask)
        ensures
            stored@ == self@.stored(),
    {
        let mut stored = self.copied();
        stored.scheduled_at = kept(self.scheduled_at);
        stored.started_at = kept_opt(self.started_at);
        stored.created_at = kept(self.created_at);
        stored.updated_at = kept(self.updated_at);
        stored
    }

    /// The same run again.
    pub fn copied(&self) -> (same: BackgroundTask)
        ensures
            same@ == self@,
    {
        BackgroundTask {
            id: self.id,
            kind: self.kind.copied(),
            status: self.status,
            payload: copy_opt(&self.payload),
            scheduled_at: self.scheduled_at,
            started_at: self.started_at,
            attempts: self.attempts,
            max_attempts: self.max_attempts,
            retry_delay_secs: self.retry_delay_secs,
            last_error: copy_opt(&self.last_error),
            created_at: self.created_at,
            updated_at: self.updated_at,
        }
    }
}

/// A record and the version that guards its writes.
#[derive(Clone, Debug)]
pub struct Versioned<T> {
    pub data: T,
    pub version: u32,
}

impl View for Versioned<BackgroundTask> {
    type V = RowState;

    open spec fn view(&self) -> RowState {
        RowState { task: self.data@, version: self.version as nat }
    }
}

impl Versioned<BackgroundTask> {
    pub(crate) fn copied(&self) -> (same: Versioned<BackgroundTask>)
        ensures
            same@ == self@,
    {
        Versioned { data: self.data.copied(), version: self.version }
    }

    pub(crate) fn is_due(&self, now: i128, disabled: &Vec<TaskKind>) -> (due: bool)
        ensures
            due == self@.due(now as int, kind_names(disabled@)),
    {
        self.data.status == TaskStatus::Pending && kept(self.data.scheduled_at) <= kept(now)
            && !names_kind(disabled, &self.data.kind)
    }

    pub(crate) fn claim(&self, now: i128) -> (row: Versioned<BackgroundTask>)
        ensures
            row@ == self@.claimed(now as int),
    {
        let mut row = self.copied();
        row.data.status = TaskStatus::Running;
        row.data.attempts = bump(self.data.attempts);
        row.data.started_at = Some(kept(now));
        row.data.updated_at = kept(now);
        row.version = bump(self.version);
        row
    }

    pub(crate) fn requeue(&self, error: &str, now: i128, at: i128) -> (row: Versioned<BackgroundTask>)
        ensures
            row@ == self@.requeued(error@, now as int, at as int),
    {
        let mut row = self.copied();
        row.data.status = TaskStatus::Pending;
        row.data.scheduled_at = kept(at);
        row.data.updated_at = kept(now);
        row.data.last_error = Some(error.to_owned());
        row.version = bump(self.version);
        row
    }

    pub(crate) fn sorts_before(&self, other: &Versioned<BackgroundTask>) -> (yes: bool)
        ensures
            yes == self@.before(other@),
    {
        self.data.scheduled_at < other.data.scheduled_at || (self.data.scheduled_at
            == other.data.scheduled_at && self.data.id < other.data.id)
    }
}

/// The names of some kinds.
pub open spec fn kind_names(kinds: Seq<TaskKind>) -> Seq<Seq<char>> {
    kinds.map_values(|k: TaskKind| k@)
}

/// Whether `kind` is among `kinds`.
pub(crate) fn names_kind(kinds: &Vec<TaskKind>, kind: &TaskKind) -> (yes: bool)
    ensures
        yes == kind_names(kinds@).contains(kind@),
{
    let ghost names = kind_names(kinds@);
    let mut i: usize = 0;
    while i < kinds.len()
        invariant
            i <= kinds@.len(),
            names == kind_names(kinds@),
            forall|j: int| 0 <= j < i ==> #[trigger] names[j] != kind@,
        decreases kinds@.len() - i,
    {
        if text::same_text(kinds[i].as_str(), kind.as_str()) {
            assert(names[i as int] == kind@);
            return true;
        }
        i += 1;
    }
    false
}

// ---------------------------------------------------------------- laws
/// A failed attempt runs again after the retry delay, doubled with each
/// attempt after the first, and after one hour at most.
pub proof fn law_a_retry_waits_a_doubling_delay(task: TaskState, now: int)
    requires
        task.attempts >= 1,
        moment::valid_instant(now),
    ensures
        ({
            let full = task.retry_delay_secs * pow2((task.attempts - 1) as nat);
            let wait = if full <= 3600 {
                full
            } else {
                3600
            };
            let start = if wait > 0 && now % 2_000_000_000 >= 1_000_000_000 {
                now - 1_000_000_000
            } else {
                now
            };
            task.retry_at(now) == if start + wait * 2_000_000_000 <= moment::LAST_INSTANT {
                start + wait * 2_000_000_000
            } else {
                moment::LAST_INSTANT as int
            }
        }),
{
    let times = (task.attempts - 1) as nat;
    law_doubling_is_a_capped_power_of_two(task.retry_delay_secs, times, 3600);
    let full = task.retry_delay_secs * pow2(times);
    let wait: nat = if full <= 3600 {
        full
    } else {
        3600
    };
    moment::law_seconds_later(now, wait);
}

/// A later attempt never waits less than an earlier one, each waits the
/// retry delay or one hour at least, and one hour at most.
pub proof fn law_retries_wait_longer_and_longer(
    task: TaskState,
    attempts: nat,
    now: int,
    secs: nat,
)
    requires
        1 <= task.attempts <= attempts,
        moment::valid_instant(now),
        now + 7200 * 2_000_000_000 <= moment::LAST_INSTANT,
        secs <= 3600,
    ensures
        task.retry_at(now) <= (TaskState { attempts, ..task }).retry_at(now),
        secs <= task.retry_delay_secs && now % 2_000_000_000 < 1_000_000_000 ==> now + secs
            * 2_000_000_000 <= task.retry_at(now),
        task.retry_at(now) <= now + 3600 * 2_000_000_000,
{
    let fewer = (task.attempts - 1) as nat;
    let more = (attempts - 1) as nat;
    law_backoff_grows_up_to_the_cap(task.retry_delay_secs, fewer, more, 3600);
    law_backoff_grows_up_to_the_cap(task.retry_delay_secs, 0, fewer, 3600);
    moment::law_seconds_later(now, doubled(task.retry_delay_secs, fewer, 3600));
    moment::law_seconds_later(now, doubled(task.retry_delay_secs, more, 3600));
}

/// A new run waits for its instant with nothing attempted, and carries what
/// it was queued with.
pub proof fn law_a_new_run_is_what_was_asked_for(
    id: int,
    kind: Seq<char>,
    payload: Option<Seq<char>>,
    scheduled_at: int,
    retry: RetryPolicy,
    now: int,
)
    requires
        moment::valid_instant(scheduled_at),
        moment::valid_instant(now),
    ensures
        ({
            let row = RowState::fresh(
                pending_task(id, kind, payload, scheduled_at, retry, now),
            );
            &&& (row.task.id, row.task.kind, row.task.payload) == (id, kind, payload)
            &&& row.task.status == TaskStatus::Pending
            &&& row.task.scheduled_at <= scheduled_at < row.task.scheduled_at + 1_000_000
            &&& row.task.scheduled_at % 1_000_000 == 0
            &&& row.task.started_at is None && row.task.last_error is None
            &&& row.task.attempts == 0
            &&& row.task.max_attempts == retry.max_attempts
            &&& row.task.retry_delay_secs == retry.retry_delay_secs
            &&& row.task.created_at <= now < row.task.created_at + 1_000_000
            &&& row.task.updated_at == row.task.created_at
            &&& row.version == 1
        }),
{
    moment::law_a_store_keeps_the_millisecond(scheduled_at);
    moment::law_a_store_keeps_the_millisecond(now);
}

/// A row may be claimed from the millisecond of its scheduled instant on,
/// while it waits and its kind is not disabled.
pub proof fn law_a_row_is_due_by_its_own_clock(
    row: RowState,
    now: int,
    disabled: Seq<Seq<char>>,
)
    requires
        moment::valid_instant(row.task.scheduled_at),
        moment::valid_instant(now),
    ensures
        row.due(now, disabled) <==> {
            &&& row.task.status == TaskStatus::Pending
            &&& row.task.scheduled_at - row.task.scheduled_at % 1_000_000 <= now
            &&& !disabled.contains(row.task.kind)
        },
{
    moment::lemma_stored_reached(row.task.scheduled_at, now);
}

/// A claim starts the next attempt, at most once per claim, and changes
/// nothing else.
pub proof fn law_a_claim_starts_the_next_attempt(row: RowState, now: int)
    requires
        moment::valid_instant(now),
        row.task.attempts < u32::MAX,
        row.version < u32::MAX,
    ensures
        ({
            let after = row.claimed(now);
            &&& after.task.status == TaskStatus::Running
            &&& after.task.attempts == row.task.attempts + 1
            &&& after.version == row.version + 1
            &&& after.task.started_at matches Some(at) && at <= now < at + 1_000_000
            &&& after.task.updated_at <= now < after.task.updated_at + 1_000_000
            &&& same_run(row.task, after.task)
            &&& after.task.scheduled_at == row.task.scheduled_at
            &&& after.task.last_error == row.task.last_error
        }),
{
    moment::law_a_store_keeps_the_millisecond(now);
}

/// A row that goes back waits until the given instant with its error, and
/// keeps the attempts that it has spent.
pub proof fn law_a_row_goes_back_with_its_attempts(
    row: RowState,
    error: Seq<char>,
    now: int,
    at: int,
)
    requires
        moment::valid_instant(now),
        moment::valid_instant(at),
        row.version < u32::MAX,
    ensures
        ({
            let after = row.requeued(error, now, at);
            &&& after.task.status == TaskStatus::Pending
            &&& after.task.attempts == row.task.attempts
            &&& after.version == row.version + 1
            &&& after.task.scheduled_at <= at < after.task.scheduled_at + 1_000_000
            &&& after.task.updated_at <= now < after.task.updated_at + 1_000_000
            &&& after.task.last_error == Some(error)
            &&& same_run(row.task, after.task)
            &&& after.task.started_at == row.task.started_at
        }),
{
    moment::law_a_store_keeps_the_millisecond(now);
    moment::law_a_store_keeps_the_millisecond(at);
}

/// Whether two states are of one run, with the budget it was queued with.
pub open spec fn same_run(a: TaskState, b: TaskState) -> bool {
    &&& a.id == b.id
    &&& a.kind == b.kind
    &&& a.payload == b.payload
    &&& a.max_attempts == b.max_attempts
    &&& a.retry_delay_secs == b.retry_delay_secs
    &&& a.created_at == b.created_at
}

} // verus!
