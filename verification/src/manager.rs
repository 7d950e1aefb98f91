//! The task manager: registration, enqueueing, what an attempt's end means,
//! and recovery after a crash.
//!
//! The manager owns no clock and no thread: it is told the time, the id of a
//! new row and how a handler ended, and says what follows.
use crate::catalog::{declared, LogPolicy, TaskCategory, TaskDeclaration, TaskDefinition};
use crate::cursor::{opt_text, CursorStore};
use crate::history::{execution_of, has_execution, recorded, ExecutionState, RunHistory, TaskExecution};
use crate::moment;
use crate::plane::{Interpretation, PlaneConfig, SeedFault, SeedPass, TaskFailure};
use crate::queue::{
    pending_task, BackgroundTask, RetryPolicy, RowState, TaskKind, TaskState, Versioned,
};
use crate::registry::{record_of, RegistrationState, TaskRegistry};
use crate::stats::{stats_of, with_run, StatBook, StatState};
use crate::task_queue::{
    all_placed, completed, exhausted_rows, guarded, has_id, interrupted_rows, placed, without,
    ExecutionOutcome, TaskCompletion, TaskQueue, WriteOutcome,
};
use crate::text;
use crate::triggers::Plane;
use vstd::prelude::*;

verus! {

/// Fallback wake-up of the dispatcher, in seconds.
pub const DISPATCH_POLL_INTERVAL_SECS: u64 = 1;

/// Due rows claimed per call.
pub const CLAIM_BATCH: u32 = 8;

/// Concurrent handler executions per claimed batch.
pub const EXECUTION_CONCURRENCY: usize = 2;

// ---------------------------------------------------------------- registration
/// One task as a job states it.
#[derive(Clone, Debug)]
pub struct TaskSpec {
    pub kind: String,
    pub category: TaskCategory,
    pub plane: PlaneConfig,
    pub log_policy: LogPolicy,
}

/// Collects the tasks of an engine before it starts.
#[derive(Clone, Debug)]
pub struct BackgroundTasksBuilder {
    specs: Vec<TaskSpec>,
    declarations: Vec<TaskDeclaration>,
}

/// The kinds of some tasks.
pub open spec fn spec_kinds(specs: Seq<TaskSpec>) -> Seq<Seq<char>> {
    specs.map_values(|s: TaskSpec| s.kind@)
}

/// What a task is, its kind as text.
#[verifier::ext_equal]
pub struct SpecState {
    pub kind: Seq<char>,
    pub category: TaskCategory,
    pub plane: PlaneConfig,
    pub log_policy: LogPolicy,
}

impl View for TaskSpec {
    type V = SpecState;

    open spec fn view(&self) -> SpecState {
        SpecState {
            kind: self.kind@,
            category: self.category,
            plane: self.plane,
            log_policy: self.log_policy,
        }
    }
}

/// What some tasks are.
pub open spec fn spec_states(specs: Seq<TaskSpec>) -> Seq<SpecState> {
    specs.map_values(|s: TaskSpec| s@)
}

/// Some tasks with one more, unless its kind is empty or taken.
pub open spec fn with_task(states: Seq<SpecState>, added: SpecState) -> Seq<SpecState> {
    if added.kind.len() == 0 || has_kind(states, added.kind) {
        states
    } else {
        states.push(added)
    }
}

/// Whether one of some tasks is of `kind`.
pub open spec fn has_kind(states: Seq<SpecState>, kind: Seq<char>) -> bool {
    exists|i: int| 0 <= i < states.len() && (#[trigger] states[i]).kind == kind
}

proof fn lemma_kinds(specs: Seq<TaskSpec>, kind: Seq<char>)
    ensures
        has_kind(spec_states(specs), kind) == spec_kinds(specs).contains(kind),
{
    let states = spec_states(specs);
    let kinds = spec_kinds(specs);
    assert(forall|i: int| 0 <= i < specs.len() ==> (#[trigger] states[i]).kind == kinds[i]);
    if has_kind(states, kind) {
        let i = choose|i: int| 0 <= i < states.len() && (#[trigger] states[i]).kind == kind;
        assert(kinds[i] == kind);
    }
    if kinds.contains(kind) {
        let i = choose|i: int| 0 <= i < kinds.len() && kinds[i] == kind;
        assert(states[i].kind == kind);
    }
}

impl BackgroundTasksBuilder {
    /// The tasks that will run, in the order they were registered.
    pub closed spec fn tasks(&self) -> Seq<TaskSpec> {
        self.specs@
    }

    /// The tasks that are only declared.
    pub closed spec fn declared(&self) -> Seq<TaskDeclaration> {
        self.declarations@
    }

    /// No kind is registered twice, and each is a valid name.
    pub open spec fn wf(&self) -> bool {
        &&& spec_kinds(self.tasks()).no_duplicates()
        &&& forall|i: int| 0 <= i < self.tasks().len() ==> (#[trigger] self.tasks()[i]).kind@.len() > 0
    }

    pub fn new() -> (builder: BackgroundTasksBuilder)
        ensures
            builder.wf(),
            builder.tasks() == Seq::<TaskSpec>::empty(),
            builder.declared() == Seq::<TaskDeclaration>::empty(),
    {
        BackgroundTasksBuilder { specs: Vec::new(), declarations: Vec::new() }
    }

    /// Whether a handler is registered for `kind`.
    pub fn has_handler(&self, kind: &str) -> (yes: bool)
        ensures
            yes == spec_kinds(self.tasks()).contains(kind@),
    {
        let ghost kinds = spec_kinds(self.specs@);
        let mut i: usize = 0;
        while i < self.specs.len()
            invariant
                i <= self.specs@.len(),
                kinds == spec_kinds(self.specs@),
                forall|j: int| 0 <= j < i ==> #[trigger] kinds[j] != kind@,
            decreases self.specs@.len() - i,
        {
            if text::same_text(self.specs[i].kind.as_str(), kind) {
                assert(kinds[i as int] == kind@);
                return true;
            }
            i += 1;
        }
        false
    }

    /// Registers a task. A kind that is taken, or is no valid name, is
    /// skipped: the first registration stands.
    pub fn register(self, spec: TaskSpec) -> (builder: BackgroundTasksBuilder)
        requires
            self.wf(),
        ensures
            builder.wf(),
            builder.declared() == self.declared(),
            builder.tasks() == (if spec.kind@.len() == 0 || spec_kinds(self.tasks()).contains(
                spec.kind@,
            ) {
                self.tasks()
            } else {
                self.tasks().push(spec)
            }),
            spec_states(builder.tasks()) == with_task(spec_states(self.tasks()), spec@),
    {
        proof {
            lemma_kinds(self.tasks(), spec.kind@);
        }
        if spec.kind.as_str().is_empty() || self.has_handler(spec.kind.as_str()) {
            return self;
        }
        let mut builder = self;
        let ghost before = builder.tasks();
        let ghost kind = spec.kind@;
        let ghost added = spec;
        builder.specs.push(spec);
        proof {
            let kinds = spec_kinds(builder.tasks());
            assert(kinds =~= spec_kinds(before).push(kind));
            assert(spec_states(builder.tasks()) =~= spec_states(before).push(added@));
            assert forall|i: int, j: int| 0 <= i < kinds.len() && 0 <= j < kinds.len() && i
                != j implies kinds[i] != kinds[j] by {
                if i < before.len() && j < before.len() {
                    assert(spec_kinds(before)[i] != spec_kinds(before)[j]);
                } else if i < before.len() {
                    assert(spec_kinds(before)[i] != kind);
                } else if j < before.len() {
                    assert(spec_kinds(before)[j] != kind);
                }
            }
        }
        builder
    }

    /// Registers a definition and declares it for the catalog. One whose
    /// kind is taken, or is no valid name, is skipped.
    pub fn task(self, definition: TaskDefinition) -> (builder: BackgroundTasksBuilder)
        requires
            self.wf(),
            definition.wf(),
        ensures
            builder.wf(),
            spec_states(builder.tasks()) == with_task(
                spec_states(self.tasks()),
                (SpecState {
                    kind: definition.kind@,
                    category: definition.category,
                    plane: definition.trigger,
                    log_policy: definition.log_policy,
                }),
            ),
            if definition.kind@.len() == 0 || has_kind(
                spec_states(self.tasks()),
                definition.kind@,
            ) {
                builder.declared() == self.declared()
            } else {
                &&& builder.declared().len() == self.declared().len() + 1
                &&& builder.declared().drop_last() == self.declared()
                &&& builder.declared().last()@ == declared(
                    definition.kind@,
                    definition.category,
                    definition.log_policy,
                    definition.trigger,
                    definition.settings,
                    true,
                )
            },
    {
        proof {
            lemma_kinds(self.tasks(), definition.kind@);
        }
        if self.has_handler(definition.kind.as_str()) {
            return self;
        }
        let kind = definition.kind.clone();
        let category = definition.category;
        let log_policy = definition.log_policy;
        match definition.into_parts() {
            Some((declaration, registration)) => {
                let builder = self.register(
                    TaskSpec { kind, category, plane: registration.config, log_policy },
                ).declare(Some(declaration));
                assert(builder.declared().drop_last() =~= self.declared());
                builder
            },
            None => self,
        }
    }

    /// Declares a task without running it; an invalid declaration is
    /// dropped.
    pub fn declare(self, declaration: Option<TaskDeclaration>) -> (builder: BackgroundTasksBuilder)
        requires
            self.wf(),
        ensures
            builder.wf(),
            builder.tasks() == self.tasks(),
            builder.declared() == (match declaration {
                Some(d) => self.declared().push(d),
                None => self.declared(),
            }),
    {
        let mut builder = self;
        match declaration {
            Some(d) => {
                builder.declarations.push(d);
            },
            None => {},
        }
        builder
    }

    pub fn len(&self) -> (n: usize)
        ensures
            n == self.tasks().len(),
    {
        self.specs.len()
    }

    pub fn spec_at(&self, i: usize) -> (spec: &TaskSpec)
        requires
            i < self.tasks().len(),
        ensures
            *spec == self.tasks()[i as int],
    {
        &self.specs[i]
    }

    pub fn declaration_count(&self) -> (n: usize)
        ensures
            n == self.declared().len(),
    {
        self.declarations.len()
    }

    pub fn declaration_at(&self, i: usize) -> (declaration: &TaskDeclaration)
        requires
            i < self.declared().len(),
        ensures
            *declaration == self.declared()[i as int],
    {
        &self.declarations[i]
    }
}

// ---------------------------------------------------------------- seeding
/// Whether an operator holds a kind back; a kind that is not registered
/// never is.
pub open spec fn held_back(records: Map<Seq<char>, RegistrationState>, kind: Seq<char>) -> bool {
    record_of(records, kind) matches Some(r) && (r.paused || !r.enabled)
}

/// One seeding pass of a plane, behind the operator's gate: a kind that is
/// paused or disabled is left alone, whatever its schedule says.
pub fn seed_pass(
    registry: &TaskRegistry,
    kind: &TaskKind,
    plane: &Plane,
    queue: &mut TaskQueue,
    cursors: &mut CursorStore,
    now: i128,
    new_id: u128,
) -> (pass: Result<SeedPass, SeedFault>)
    requires
        registry.wf(),
        plane.schedule_wf(),
        old(queue).wf(),
        old(cursors).wf(),
        moment::valid_instant(now as int),
    ensures
        final(queue).wf(),
        final(cursors).wf(),
        held_back(registry@, kind@) ==> {
            &&& pass matches Ok(SeedPass::Paused)
            &&& final(queue)@ == old(queue)@
            &&& final(cursors)@ == old(cursors)@
        },
        !held_back(registry@, kind@) ==> plane.passes(
            old(queue)@,
            final(queue)@,
            old(cursors)@,
            final(cursors)@,
            now as int,
            new_id as int,
            pass,
        ),
{
    let off = match registry.is_enabled(kind) {
        Some(enabled) => !enabled,
        None => false,
    };
    if off || registry.is_paused(kind) {
        return Ok(SeedPass::Paused);
    }
    plane.reconcile(queue, cursors, now, new_id)
}

// ---------------------------------------------------------------- enqueue
/// Queues one run that is due at once. A kind that is no valid name and an
/// id that is taken are refused, and nothing changes.
pub fn enqueue_task(
    queue: &mut TaskQueue,
    kind: &str,
    payload: Option<String>,
    retry: RetryPolicy,
    now: i128,
    new_id: u128,
) -> (queued: Result<u128, String>)
    requires
        old(queue).wf(),
    ensures
        final(queue).wf(),
        queued is Ok <==> kind@.len() > 0 && !has_id(old(queue)@, new_id as int),
        queued matches Ok(id) ==> id == new_id && final(queue)@ == placed(
            old(queue)@,
            RowState::fresh(
                pending_task(
                    new_id as int,
                    kind@,
                    opt_text(payload),
                    now as int,
                    retry,
                    now as int,
                ),
            ),
        ),
        queued matches Err(e) ==> final(queue)@ == old(queue)@ && e@ == (if kind@.len() == 0 {
            "name must not be empty"@
        } else {
            "task id is already queued"@
        }),
{
    let task_kind = match TaskKind::new(kind) {
        Ok(kind) => kind,
        Err(e) => {
            return Err(e.message());
        },
    };
    let task = BackgroundTask::pending(new_id, &task_kind, payload, now, retry, now);
    match queue.insert(&task) {
        Ok(()) => Ok(new_id),
        Err(_) => Err("task id is already queued".to_owned()),
    }
}

// ---------------------------------------------------------------- execution
/// The complaint about a kind that no handler was registered for.
pub open spec fn no_handler_text(kind: Seq<char>) -> Seq<char> {
    "no handler registered for kind "@ + text::quoted_text(kind)
}

/// The failure of a run whose kind has no handler.
pub fn missing_handler(kind: &TaskKind) -> (failure: TaskFailure)
    ensures
        failure@ == no_handler_text(kind@),
{
    TaskFailure::new(
        "no handler registered for kind ".to_owned().concat(text::quoted(kind.as_str()).as_str()),
    )
}

/// How a run is logged.
#[derive(Clone, Copy, Debug, PartialEq, Eq, Structural)]
pub enum RunLabel {
    Succeeded,
    NotReady,
    Retry,
    Failed,
}

/// Whether `completion` is what the end of an attempt calls for: a success
/// or an unready run is over, a failure is retried while attempts are left
/// and final otherwise.
pub open spec fn completes(
    task: TaskState,
    result: Result<Interpretation, TaskFailure>,
    now: int,
    completion: TaskCompletion,
) -> bool {
    match result {
        Ok(Interpretation::Completed) => completion matches TaskCompletion::Terminal {
            outcome,
            error,
            finished_at,
        } && outcome == ExecutionOutcome::Succeeded && error is None && finished_at == now,
        Ok(Interpretation::NotReady) => completion matches TaskCompletion::Terminal {
            outcome,
            error,
            finished_at,
        } && outcome == ExecutionOutcome::NotReady && error is None && finished_at == now,
        Err(failure) => if task.can_retry() {
            completion matches TaskCompletion::Retry { error, failed_at, retry_at } && error@
                == failure@ && failed_at == now && retry_at == task.retry_at(now)
        } else {
            completion matches TaskCompletion::Terminal { outcome, error, finished_at } && outcome
                == ExecutionOutcome::Failed && opt_text(error) == Some(failure@) && finished_at
                == now
        },
    }
}

/// The label of a completion.
pub open spec fn label_of(completion: TaskCompletion) -> RunLabel {
    match completion {
        TaskCompletion::Retry { .. } => RunLabel::Retry,
        TaskCompletion::Terminal { outcome, .. } => match outcome {
            ExecutionOutcome::Succeeded => RunLabel::Succeeded,
            ExecutionOutcome::NotReady => RunLabel::NotReady,
            ExecutionOutcome::Failed => RunLabel::Failed,
        },
    }
}

/// Decides what the end of an attempt means for its row.
pub fn completion_for(
    task: &BackgroundTask,
    result: &Result<Interpretation, TaskFailure>,
    now: i128,
) -> (decision: (TaskCompletion, RunLabel))
    requires
        moment::valid_instant(now as int),
    ensures
        completes(task@, *result, now as int, decision.0),
        decision.1 == label_of(decision.0),
{
    match result {
        Ok(Interpretation::Completed) => (
            TaskCompletion::Terminal {
                outcome: ExecutionOutcome::Succeeded,
                error: None,
                finished_at: now,
            },
            RunLabel::Succeeded,
        ),
        Ok(Interpretation::NotReady) => (
            TaskCompletion::Terminal {
                outcome: ExecutionOutcome::NotReady,
                error: None,
                finished_at: now,
            },
            RunLabel::NotReady,
        ),
        Err(failure) => {
            let error = failure.message();
            if task.can_retry() {
                (
                    TaskCompletion::Retry {
                        error,
                        failed_at: now,
                        retry_at: task.next_retry_at(now),
                    },
                    RunLabel::Retry,
                )
            } else {
                (
                    TaskCompletion::Terminal {
                        outcome: ExecutionOutcome::Failed,
                        error: Some(error),
                        finished_at: now,
                    },
                    RunLabel::Failed,
                )
            }
        },
    }
}

// ---------------------------------------------------------------- records
/// The history with one more finished run; an id that is already recorded
/// stays as it was.
pub open spec fn filed(history: Seq<ExecutionState>, record: ExecutionState) -> Seq<
    ExecutionState,
> {
    if has_execution(history, record.id) {
        history
    } else {
        recorded(history, record.stored())
    }
}

/// The aggregates with one more finished run.
pub open spec fn counted(
    book: Map<Seq<char>, StatState>,
    record: ExecutionState,
    duration_ms: Option<u64>,
) -> Map<Seq<char>, StatState> {
    book.insert(
        record.kind,
        with_run(
            stats_of(book, record.kind),
            record.kind,
            record.outcome,
            record.error,
            duration_ms,
            record.finished_at,
        ),
    )
}

/// Records a finished run in the history and the aggregates.
fn file_run(
    history: &mut RunHistory,
    stats: &mut StatBook,
    task: &BackgroundTask,
    outcome: ExecutionOutcome,
    error: Option<String>,
    duration_ms: Option<u64>,
    now: i128,
)
    requires
        old(history).wf(),
        old(stats).wf(),
    ensures
        final(history).wf(),
        final(stats).wf(),
        final(history)@ == filed(
            old(history)@,
            execution_of(task@, outcome, opt_text(error), duration_ms, now as int),
        ),
        final(stats)@ == counted(
            old(stats)@,
            execution_of(task@, outcome, opt_text(error), duration_ms, now as int),
            duration_ms,
        ),
{
    let copy = crate::cursor::copy_opt(&error);
    let record = TaskExecution::of_task(task, outcome, error, duration_ms, now);
    match history.insert(&record) {
        Ok(()) => {},
        Err(_) => {},
    }
    stats.record_run(task.kind(), outcome, copy, duration_ms, now);
}

/// The record that a final completion leaves behind.
pub open spec fn record_left(
    task: TaskState,
    completion: TaskCompletion,
    duration_ms: Option<u64>,
) -> ExecutionState
    recommends
        completion is Terminal,
{
    match completion {
        TaskCompletion::Terminal { outcome, error, finished_at } => execution_of(
            task,
            outcome,
            opt_text(error),
            duration_ms,
            finished_at as int,
        ),
        TaskCompletion::Retry { .. } => arbitrary(),
    }
}

/// Records the end of an attempt. A final one moves the run from the queue
/// to the history and counts it; a retry puts it back. Where the row is
/// gone or was touched since, nothing is recorded.
pub fn record_completion(
    queue: &mut TaskQueue,
    history: &mut RunHistory,
    stats: &mut StatBook,
    row: &Versioned<BackgroundTask>,
    completion: &TaskCompletion,
    duration_ms: Option<u64>,
) -> (outcome: WriteOutcome)
    requires
        old(queue).wf(),
        old(history).wf(),
        old(stats).wf(),
    ensures
        final(queue).wf(),
        final(history).wf(),
        final(stats).wf(),
        guarded(old(queue)@, row@.task.id, row.version, outcome),
        !(outcome is Applied) ==> final(queue)@ == old(queue)@,
        outcome is Applied ==> exists|i: int|
            0 <= i < old(queue)@.len() && (#[trigger] old(queue)@[i]).task.id == row@.task.id
                && old(queue)@[i].version == row@.version && final(queue)@ == completed(
                old(queue)@,
                i,
                *completion,
            ),
        outcome is Applied && *completion is Terminal ==> final(history)@ == filed(
            old(history)@,
            record_left(row@.task, *completion, duration_ms),
        ) && final(stats)@ == counted(
            old(stats)@,
            record_left(row@.task, *completion, duration_ms),
            duration_ms,
        ),
        !(outcome is Applied && *completion is Terminal) ==> final(history)@ == old(history)@
            && final(stats)@ == old(stats)@,
{
    let outcome = queue.complete(row.data.id(), row.version, completion);
    if outcome.applied() {
        match completion {
            TaskCompletion::Terminal { outcome, error, finished_at } => {
                let copy = crate::cursor::copy_opt(error);
                file_run(history, stats, &row.data, *outcome, copy, duration_ms, *finished_at);
            },
            TaskCompletion::Retry { .. } => {},
        }
    }
    outcome
}

// ---------------------------------------------------------------- recovery
/// The error recorded on runs that a previous process left running.
pub const INTERRUPTED: &'static str = "interrupted: the engine stopped while the task was running";

/// What startup recovery did.
#[derive(Clone, Copy, Debug, PartialEq, Eq, Structural)]
pub struct Recovery {
    pub requeued: u32,
    pub failed: usize,
}

/// The records of runs that were interrupted on their final attempt.
pub open spec fn interrupted_records(rows: Seq<RowState>, now: int) -> Seq<ExecutionState> {
    rows.map_values(
        |row: RowState|
            execution_of(
                row.task,
                ExecutionOutcome::Failed,
                Some(INTERRUPTED@),
                None,
                now,
            ),
    )
}

/// The history with several more finished runs.
pub open spec fn all_filed(history: Seq<ExecutionState>, records: Seq<ExecutionState>) -> Seq<
    ExecutionState,
>
    decreases records.len(),
{
    if records.len() == 0 {
        history
    } else {
        filed(all_filed(history, records.drop_last()), records.last())
    }
}

/// The aggregates with several more finished runs of unknown duration.
pub open spec fn all_counted(book: Map<Seq<char>, StatState>, records: Seq<ExecutionState>) -> Map<
    Seq<char>,
    StatState,
>
    decreases records.len(),
{
    if records.len() == 0 {
        book
    } else {
        counted(all_counted(book, records.drop_last()), records.last(), None)
    }
}

/// The queue once interrupted runs with attempts left wait again.
pub open spec fn requeued_rows(rows: Seq<RowState>, now: int) -> Seq<RowState> {
    all_placed(
        without(rows, interrupted_rows()),
        rows.filter(interrupted_rows()).map_values(
            |row: RowState| row.requeued(INTERRUPTED@, now, now),
        ),
    )
}

/// Startup recovery. Rows still running are orphans of a previous process:
/// those with attempts left wait again, due at once; the others are over and
/// recorded as failed.
pub fn recover_stale_running(
    queue: &mut TaskQueue,
    history: &mut RunHistory,
    stats: &mut StatBook,
    now: i128,
) -> (recovery: Recovery)
    requires
        old(queue).wf(),
        old(history).wf(),
        old(stats).wf(),
    ensures
        final(queue).wf(),
        final(history).wf(),
        final(stats).wf(),
        final(queue)@ == without(requeued_rows(old(queue)@, now as int), exhausted_rows()),
        ({
            let over = requeued_rows(old(queue)@, now as int).filter(exhausted_rows());
            let records = interrupted_records(over, now as int);
            &&& recovery.failed == over.len()
            &&& final(history)@ == all_filed(old(history)@, records)
            &&& final(stats)@ == all_counted(old(stats)@, records)
        }),
        recovery.requeued == (if old(queue)@.filter(interrupted_rows()).len() <= u32::MAX {
            old(queue)@.filter(interrupted_rows()).len()
        } else {
            u32::MAX as nat
        }),
{
    let requeued: u32 = queue.requeue_interrupted(INTERRUPTED, now);
    let ghost after = queue@;
    let taken = queue.take_exhausted_running();
    let ghost over = after.filter(exhausted_rows());
    let ghost records = interrupted_records(over, now as int);
    let ghost told = history@;
    let ghost book = stats@;
    let mut i: usize = 0;
    assert(records.take(0) =~= Seq::<ExecutionState>::empty());
    while i < taken.len()
        invariant
            i <= taken@.len(),
            taken@.map_values(|row: Versioned<BackgroundTask>| row@) == over,
            records == interrupted_records(over, now as int),
            history.wf(),
            stats.wf(),
            history@ == all_filed(told, records.take(i as int)),
            stats@ == all_counted(book, records.take(i as int)),
        decreases taken@.len() - i,
    {
        assert(over[i as int] == taken@[i as int]@);
        file_run(
            history,
            stats,
            &taken[i].data,
            ExecutionOutcome::Failed,
            Some(INTERRUPTED.to_owned()),
            None,
            now,
        );
        proof {
            assert(records.take(i + 1).drop_last() =~= records.take(i as int));
            assert(records.take(i + 1).last() == records[i as int]);
        }
        i += 1;
    }
    assert(records.take(records.len() as int) =~= records);
    Recovery { requeued, failed: taken.len() }
}

// ---------------------------------------------------------------- dispatch
/// What the dispatcher does next.
#[derive(Clone, Debug)]
pub enum DrainStep {
    /// Claim the next batch of due runs.
    Claim,
    /// Start this run.
    Execute(Versioned<BackgroundTask>),
    /// Wait for a run to end.
    Await,
    /// Nothing is due, or the claim failed: wait for the next wake-up.
    Wait,
}

/// The state of a drain: the claimed runs that wait for their turn, how many
/// run, and whether it is over.
#[verifier::ext_equal]
pub struct DrainState {
    pub waiting: Seq<RowState>,
    pub running: nat,
    pub over: bool,
}

impl DrainState {
    /// At most so many runs are executed at once, and a drain that is over
    /// has none left.
    pub open spec fn wf(self) -> bool {
        &&& self.running <= EXECUTION_CONCURRENCY
        &&& self.over ==> self.waiting.len() == 0 && self.running == 0
    }

    /// Whether a run may start.
    pub open spec fn starts(self) -> bool {
        self.waiting.len() > 0 && self.running < EXECUTION_CONCURRENCY
    }

    /// Whether a batch may be claimed: every run of the last one has ended.
    pub open spec fn claims(self) -> bool {
        !self.over && self.waiting.len() == 0 && self.running == 0
    }

    /// The state once the next run has been started, where one may.
    pub open spec fn started(self) -> DrainState {
        if self.starts() {
            DrainState {
                waiting: self.waiting.drop_first(),
                running: self.running + 1,
                ..self
            }
        } else {
            self
        }
    }

    /// The state once a claim came back: without a run it ends the drain.
    pub open spec fn refilled(self, rows: Seq<RowState>) -> DrainState {
        if !self.claims() {
            self
        } else if rows.len() == 0 {
            DrainState { over: true, ..self }
        } else {
            DrainState { waiting: rows, ..self }
        }
    }

    /// The state once a run has ended.
    pub open spec fn relieved(self) -> DrainState {
        if self.running > 0 {
            DrainState { running: (self.running - 1) as nat, ..self }
        } else {
            self
        }
    }
}

/// Claims and executes due runs until none is left. Runs that are due again
/// at once are picked up by the next claim of the same drain.
pub struct Drain {
    waiting: Vec<Versioned<BackgroundTask>>,
    running: usize,
    over: bool,
}

/// The states of some rows.
pub open spec fn row_states(rows: Seq<Versioned<BackgroundTask>>) -> Seq<RowState> {
    rows.map_values(|row: Versioned<BackgroundTask>| row@)
}

impl View for Drain {
    type V = DrainState;

    closed spec fn view(&self) -> DrainState {
        DrainState {
            waiting: row_states(self.waiting@),
            running: self.running as nat,
            over: self.over,
        }
    }
}

impl Drain {
    pub fn new() -> (drain: Drain)
        ensures
            drain@.claims(),
            drain@.wf(),
    {
        Drain { waiting: Vec::new(), running: 0, over: false }
    }

    /// What to do next. A run that is to start counts as running from here
    /// on; runs start in the order in which they were claimed.
    pub fn next(&mut self) -> (step: DrainStep)
        requires
            old(self)@.wf(),
        ensures
            final(self)@.wf(),
            final(self)@ == old(self)@.started(),
            match step {
                DrainStep::Claim => old(self)@.claims(),
                DrainStep::Execute(row) => old(self)@.starts() && row@ == old(self)@.waiting[0],
                DrainStep::Await => !old(self)@.starts() && old(self)@.running > 0,
                DrainStep::Wait => old(self)@.over,
            },
    {
        if self.over {
            return DrainStep::Wait;
        }
        if self.waiting.len() > 0 && self.running < EXECUTION_CONCURRENCY {
            let row = self.waiting.remove(0);
            self.running += 1;
            proof {
                assert(row_states(self.waiting@) =~= row_states(old(self).waiting@).drop_first());
            }
            return DrainStep::Execute(row);
        }
        if self.running > 0 {
            DrainStep::Await
        } else {
            DrainStep::Claim
        }
    }

    /// A claim came back, or failed. It is only asked for when nothing waits
    /// or runs; at any other time it changes nothing.
    pub fn claimed(&mut self, rows: Option<Vec<Versioned<BackgroundTask>>>)
        requires
            old(self)@.wf(),
        ensures
            final(self)@.wf(),
            final(self)@ == old(self)@.refilled(
                match rows {
                    Some(rows) => row_states(rows@),
                    None => Seq::empty(),
                },
            ),
    {
        if self.over || self.waiting.len() > 0 || self.running > 0 {
            return ;
        }
        match rows {
            Some(rows) => {
                if rows.len() == 0 {
                    self.over = true;
                } else {
                    self.waiting = rows;
                }
            },
            None => {
                self.over = true;
            },
        }
    }

    /// A run has ended.
    pub fn ended(&mut self)
        requires
            old(self)@.wf(),
        ensures
            final(self)@.wf(),
            final(self)@ == old(self)@.relieved(),
    {
        if self.running > 0 {
            self.running -= 1;
        }
    }
}

/// All runs of a batch have ended, and recorded how, before the next batch
/// is claimed: a claim that comes back while one waits or runs is ignored,
/// and nothing starts or ends in its place.
pub proof fn law_a_batch_ends_before_the_next_claim(drain: DrainState, rows: Seq<RowState>)
    requires
        drain.wf(),
    ensures
        drain.waiting.len() > 0 || drain.running > 0 ==> !drain.claims() && drain.refilled(rows)
            == drain,
        drain.claims() && rows.len() > 0 ==> drain.refilled(rows).waiting == rows && drain.refilled(
            rows,
        ).running == 0,
{
}

/// The execution is bounded, and every claimed run is started: while one
/// waits, either it can start or enough others run, and each that ends makes
/// room.
pub proof fn law_every_claimed_run_gets_its_turn(drain: DrainState)
    requires
        drain.wf(),
        drain.waiting.len() > 0,
    ensures
        drain.running <= EXECUTION_CONCURRENCY,
        drain.starts() || drain.relieved().starts(),
        drain.starts() ==> drain.started().waiting == drain.waiting.skip(1),
{
    assert(drain.waiting.drop_first() =~= drain.waiting.skip(1));
}

/// Two runs are executed at once and eight are claimed at a time. Starting
/// one takes the first that waits, ending one makes room for one, and a claim
/// that finds nothing ends the drain.
pub proof fn law_two_runs_are_executed_at_once(drain: DrainState, rows: Seq<RowState>)
    ensures
        EXECUTION_CONCURRENCY == 2 && CLAIM_BATCH == 8 && DISPATCH_POLL_INTERVAL_SECS == 1,
        drain.starts() <==> drain.waiting.len() > 0 && drain.running < 2,
        drain.starts() ==> drain.started().running == drain.running + 1
            && drain.started().waiting.len() == drain.waiting.len() - 1 && drain.started().over
            == drain.over,
        !drain.starts() ==> drain.started() == drain,
        drain.running > 0 ==> drain.relieved().running == drain.running - 1
            && drain.relieved().waiting == drain.waiting && drain.relieved().over == drain.over,
        drain.claims() <==> !drain.over && drain.waiting.len() == 0 && drain.running == 0,
        drain.claims() && rows.len() == 0 ==> drain.refilled(rows).over && drain.refilled(
            rows,
        ).waiting.len() == 0,
        drain.claims() && rows.len() > 0 ==> !drain.refilled(rows).over,
{
}

/// A kind that no code handles is named in the error of its run.
pub proof fn law_a_kind_without_a_handler_is_named(kind: Seq<char>)
    ensures
        no_handler_text(kind) == "no handler registered for kind "@ + text::quoted_text(kind),
{
}

} // verus!
