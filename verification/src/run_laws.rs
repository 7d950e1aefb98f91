//! What becomes of work from the pass that queues it to the record that it
//! leaves.
use crate::cursor::{opt_text, CursorState};
use crate::execute::{
    cursor_write_of, cursors_after_halt, cursors_after_reading, reading_of, reads_as, row_ended,
    run_counted, RunEnd, RunReading, RunReport,
};
use crate::history::{has_execution, rank, ExecutionState};
use crate::manager::{
    all_counted, all_filed, completes, counted, filed, held_back, interrupted_records, label_of,
    record_left, requeued_rows, RunLabel, INTERRUPTED,
};
use crate::moment;
use crate::plane::{
    Interpretation, PlaneConfig, SeedFault, SeedPass, TaskFailure, TaskOutcome,
};
use crate::queue::{
    law_a_new_run_is_what_was_asked_for, same_run, BackgroundTask, RetryPolicy, RowState,
    TaskState, TaskStatus, Versioned,
};
use crate::queue_laws::{
    is_added, law_recovery_ends_the_last_attempts, law_recovery_settles_every_row,
    law_the_end_of_an_attempt_moves_its_row, lemma_added, recovered,
};
use crate::registry::RegistrationState;
use crate::schedule::law_next_occurrence_is_the_first_after;
use crate::stats::{law_the_latest_run_is_remembered, law_totals_add_up, StatState};
use crate::sync_plane::{CursorWrite, Halt, StoreFault};
use crate::task_queue::{
    distinct_ids, exhausted_rows, has_id, without, ExecutionOutcome, TaskCompletion,
};
use crate::text;
use crate::triggers::{
    built_from, plain_reading, plain_row, IntervalTrigger, Plane, RecurringTrigger,
};
use vstd::prelude::*;

verus! {

// ---------------------------------------------------------------- seeding
/// Whether some row is of the kind: waiting or running.
pub open spec fn is_active(rows: Seq<RowState>, kind: Seq<char>) -> bool {
    exists|i: int| 0 <= i < rows.len() && (#[trigger] rows[i]).task.kind == kind
}

/// A pass of a recurring task queues the first occurrence after now, with the
/// retry policy that the task was registered with and no payload, unless a run
/// of the kind is queued. It fails, and queues nothing, for want of a name, of
/// an occurrence or of a free id.
pub proof fn law_a_recurring_pass_queues_the_next_occurrence(
    trigger: RecurringTrigger,
    before: Seq<RowState>,
    after: Seq<RowState>,
    now: int,
    new_id: int,
    pass: Result<SeedPass, SeedFault>,
)
    requires
        trigger.passes(before, after, now, new_id, pass),
        trigger.schedule.wf(),
        moment::valid_instant(now),
    ensures
        trigger.kind@.len() == 0 ==> pass is Err,
        trigger.kind@.len() > 0 && is_active(before, trigger.kind@) ==> (pass matches Ok(
            SeedPass::Idle,
        )),
        !(pass matches Ok(SeedPass::Seeded)) ==> after == before,
        pass is Err ==> trigger.kind@.len() == 0 || has_id(before, new_id) || forall|slot: int|
            now < slot && moment::valid_instant(slot)
                ==> !#[trigger] trigger.schedule.is_occurrence(slot),
        pass matches Ok(SeedPass::Seeded) ==> exists|slot: int, row: RowState|
            {
                &&& #[trigger] is_added(before, after, row)
                &&& #[trigger] trigger.schedule.is_occurrence(slot)
                &&& now < slot
                &&& forall|between: int|
                    now < between < slot ==> !#[trigger] trigger.schedule.is_occurrence(between)
                &&& row.task.scheduled_at == slot
                &&& row.task.id == new_id && row.task.kind == trigger.kind@
                &&& row.task.status == TaskStatus::Pending && row.task.attempts == 0
                &&& row.task.payload is None
                &&& row.task.max_attempts == trigger.retry.max_attempts
                &&& row.task.retry_delay_secs == trigger.retry.retry_delay_secs
                &&& row.version == 1
            },
        !(pass matches Ok(SeedPass::Paused)),
        trigger.kind@.len() > 0 && !is_active(before, trigger.kind@) ==> pass is Err || (
        pass matches Ok(SeedPass::Seeded)),
{
    law_next_occurrence_is_the_first_after(trigger.schedule, now);
    if let Some(slot) = trigger.schedule.next_slot(now) {
        crate::schedule::law_storing_keeps_the_next_occurrence(trigger.schedule, now);
        let row = plain_row(new_id, trigger.kind@, slot, trigger.retry, now);
        lemma_added(before, row);
        law_a_new_run_is_what_was_asked_for(
            new_id,
            trigger.kind@,
            None,
            slot,
            trigger.retry,
            now,
        );
        assert(moment::stored_instant(slot) == slot);
        assert(trigger.schedule.is_occurrence(slot));
        if pass matches Ok(SeedPass::Seeded) {
            assert(is_added(before, after, row));
        }
    }
}

/// A pass of an interval task queues one run that is due at once, with a
/// single attempt and no payload, unless a run of the kind is queued. It
/// fails, and queues nothing, for want of a name or of a free id.
pub proof fn law_an_interval_pass_queues_one_run_at_once(
    trigger: IntervalTrigger,
    before: Seq<RowState>,
    after: Seq<RowState>,
    now: int,
    new_id: int,
    pass: Result<SeedPass, SeedFault>,
)
    requires
        trigger.passes(before, after, now, new_id, pass),
        moment::valid_instant(now),
    ensures
        pass is Err <==> trigger.kind@.len() == 0 || (!is_active(before, trigger.kind@) && has_id(
            before,
            new_id,
        )),
        (pass matches Ok(SeedPass::Seeded)) <==> trigger.kind@.len() > 0 && !is_active(
            before,
            trigger.kind@,
        ) && !has_id(before, new_id),
        !(pass matches Ok(SeedPass::Paused)),
        !(pass matches Ok(SeedPass::Seeded)) ==> after == before,
        pass matches Ok(SeedPass::Seeded) ==> exists|row: RowState|
            {
                &&& #[trigger] is_added(before, after, row)
                &&& row.task.id == new_id && row.task.kind == trigger.kind@
                &&& row.task.scheduled_at == now - now % 1_000_000
                &&& row.task.status == TaskStatus::Pending && row.task.attempts == 0
                &&& row.task.payload is None
                &&& row.task.max_attempts == 1 && row.task.retry_delay_secs == 0
                &&& row.version == 1
            },
{
    let retry = RetryPolicy { max_attempts: 1, retry_delay_secs: 0 };
    let row = plain_row(new_id, trigger.kind@, now, retry, now);
    lemma_added(before, row);
    if pass matches Ok(SeedPass::Seeded) {
        assert(is_added(before, after, row));
    }
}

/// A plane passes as its own trigger does; only that of a sync source touches
/// a cursor.
pub proof fn law_a_plane_passes_as_its_trigger(
    plane: Plane,
    before: Seq<RowState>,
    after: Seq<RowState>,
    cursors: Map<Seq<char>, CursorState>,
    kept: Map<Seq<char>, CursorState>,
    now: int,
    new_id: int,
    pass: Result<SeedPass, SeedFault>,
)
    requires
        plane.passes(before, after, cursors, kept, now, new_id, pass),
    ensures
        plane matches Plane::Interval(p) ==> p.passes(before, after, now, new_id, pass),
        plane matches Plane::Recurring(p) ==> p.passes(before, after, now, new_id, pass),
        plane matches Plane::Sync(p) ==> p.passes(
            before,
            after,
            cursors,
            kept,
            now,
            new_id,
            pass,
        ),
        !(plane is Sync) ==> kept == cursors,
{
}

/// An operator holds a kind back by pausing or by disabling it; a kind that
/// the registry does not know is not held back.
pub proof fn law_a_kind_is_held_back_by_its_operator(
    records: Map<Seq<char>, RegistrationState>,
    kind: Seq<char>,
)
    ensures
        held_back(records, kind) <==> records.dom().contains(kind) && (records[kind].paused
            || !records[kind].enabled),
{
}

// ---------------------------------------------------------------- reading
/// How a report reads. Without a handler, with an unreadable payload and with
/// a cursor that could not be written, a run has failed. An interval or a
/// recurring run ends as its handler says. A sync run that was not ready has
/// done what it could, and one without a period has failed.
pub proof fn law_a_report_reads_as_its_handler_says(
    plane: Option<Plane>,
    kind: Seq<char>,
    report: RunReport,
)
    ensures
        report is NoHandler ==> reading_of(plane, kind, report) == RunReading::Failed(
            "no handler registered for kind "@ + text::quoted_text(kind),
        ),
        plane is None && !(report is Unrecorded) ==> reading_of(plane, kind, report)
            == RunReading::Failed("no handler registered for kind "@ + text::quoted_text(kind)),
        plane is Some ==> (report matches RunReport::BadPayload(error) ==> reading_of(
            plane,
            kind,
            report,
        ) == RunReading::Failed(error@)),
        plane matches Some(p) ==> !(p is Sync) ==> (report matches RunReport::Ran { outcome, .. } ==> {
            let reading = reading_of(plane, kind, report);
            &&& outcome is Done ==> reading is Completed
            &&& outcome is NotReady ==> reading is NotReady
            &&& outcome matches TaskOutcome::Failed(error) ==> reading == RunReading::Failed(error@)
        }),
        plane matches Some(p) ==> p is Sync ==> (report matches RunReport::Ran { window, outcome }
            ==> {
            let reading = reading_of(plane, kind, report);
            &&& window is NoWindow ==> reading is Failed
            &&& window is Period && !(outcome is Failed) ==> reading is Completed
            &&& window is Period ==> (outcome matches TaskOutcome::Failed(error) ==> reading
                == RunReading::Failed(error@))
        }),
        report matches RunReport::Unrecorded { write, fault } ==> {
            let head = match (write, fault) {
                (CursorWrite::Advance, StoreFault::Failed(_)) => "cursor advance failed: "@,
                (CursorWrite::Advance, StoreFault::NotExecuted(_)) =>
                    "cursor advance not executed: "@,
                (CursorWrite::Hold, StoreFault::Failed(_)) => "cursor hold failed: "@,
                (CursorWrite::Hold, StoreFault::NotExecuted(_)) => "cursor hold not executed: "@,
            };
            let tail = match fault {
                StoreFault::Failed(e) => e@,
                StoreFault::NotExecuted(e) => e@,
            };
            reading_of(plane, kind, report) == RunReading::Failed(head + tail)
        },
{
}

/// Only a sync run with a period writes its cursor: an advance where it is
/// done, a hold where it was not ready, nothing where it failed.
pub proof fn law_only_a_sync_run_writes_its_cursor(plane: Option<Plane>, report: RunReport)
    ensures
        cursor_write_of(plane, report) == Some(CursorWrite::Advance) <==> (
        plane matches Some(Plane::Sync(_))) && (report matches RunReport::Ran { window, outcome }
            && window is Period && outcome is Done),
        cursor_write_of(plane, report) == Some(CursorWrite::Hold) <==> (
        plane matches Some(Plane::Sync(_))) && (report matches RunReport::Ran { window, outcome }
            && window is Period && outcome is NotReady),
{
}

/// Reading a report and recording a halt touch the cursor of the run's own
/// source at most.
pub proof fn law_a_run_touches_its_own_cursor_only(
    plane: Option<Plane>,
    cursors: Map<Seq<char>, CursorState>,
    report: RunReport,
    error: Seq<char>,
    halt: Option<Halt>,
    now: int,
    other: Seq<char>,
)
    requires
        plane matches Some(Plane::Sync(p)) ==> other != p.source@,
    ensures
        ({
            let read = cursors_after_reading(plane, cursors, report, now);
            let halted = cursors_after_halt(plane, cursors, error, halt, now);
            &&& read.dom().contains(other) <==> cursors.dom().contains(other)
            &&& halted.dom().contains(other) <==> cursors.dom().contains(other)
            &&& cursors.dom().contains(other) ==> read[other] == cursors[other] && halted[other]
                == cursors[other]
        }),
        cursor_write_of(plane, report) is None ==> cursors_after_reading(
            plane,
            cursors,
            report,
            now,
        ) == cursors,
        halt is None ==> cursors_after_halt(plane, cursors, error, halt, now) == cursors,
{
}

/// A final failure of a sync run counts one more failure on its source and
/// closes it until the halt ends; the source stays where it stood.
pub proof fn law_a_halt_is_kept_on_the_source(
    plane: Plane,
    cursors: Map<Seq<char>, CursorState>,
    error: Seq<char>,
    halt: Halt,
    now: int,
)
    requires
        plane is Sync,
        cursors.dom().contains(plane->Sync_0.source@),
        cursors[plane->Sync_0.source@].consecutive_failures < u32::MAX,
        moment::valid_instant(halt.until as int),
        moment::valid_instant(now),
    ensures
        ({
            let source = plane->Sync_0.source@;
            let before = cursors[source];
            let after = cursors_after_halt(Some(plane), cursors, error, Some(halt), now);
            &&& after.dom() == cursors.dom()
            &&& after[source].through_target == before.through_target
            &&& after[source].through_slot == moment::stored_instant(before.through_slot)
            &&& after[source].consecutive_failures == before.consecutive_failures + 1
            &&& after[source].last_error == Some(error)
            &&& after[source].cooldown_until == Some(halt.until - halt.until as int % 1_000_000)
        }),
{
    let source = plane->Sync_0.source@;
    let after = cursors_after_halt(Some(plane), cursors, error, Some(halt), now);
    assert(after.dom() =~= cursors.dom());
}

// ---------------------------------------------------------------- completion
/// What the end of an attempt calls for. A run that completed or was not
/// ready is over, without an error; one that failed is retried while it has
/// attempts left, at its retry time, and is over with its error otherwise.
pub proof fn law_a_failure_is_retried_while_attempts_are_left(
    task: TaskState,
    result: Result<Interpretation, TaskFailure>,
    now: int,
    completion: TaskCompletion,
)
    requires
        completes(task, result, now, completion),
    ensures
        result matches Ok(i) ==> (completion matches TaskCompletion::Terminal {
            outcome,
            error,
            finished_at,
        } && error is None && finished_at == now && outcome == if i is Completed {
            ExecutionOutcome::Succeeded
        } else {
            ExecutionOutcome::NotReady
        }),
        result matches Err(failure) ==> task.attempts < task.max_attempts ==> (
        completion matches TaskCompletion::Retry { error, failed_at, retry_at } && error@
            == failure@ && failed_at == now && retry_at == task.retry_at(now)),
        result matches Err(failure) ==> task.attempts >= task.max_attempts ==> (
        completion matches TaskCompletion::Terminal { outcome, error, finished_at } && outcome
            == ExecutionOutcome::Failed && (error matches Some(e) && e@ == failure@) && finished_at
            == now),
        label_of(completion) == (match result {
            Ok(i) => if i is Completed {
                RunLabel::Succeeded
            } else {
                RunLabel::NotReady
            },
            Err(_) => if task.attempts < task.max_attempts {
                RunLabel::Retry
            } else {
                RunLabel::Failed
            },
        }),
{
}

/// A run that is over leaves the queue, one record and one count; one that is
/// retried leaves neither and waits again; and a row that was touched since
/// its claim keeps what it is, with nothing recorded.
pub proof fn law_a_run_ends_once(
    before: Seq<RowState>,
    after: Seq<RowState>,
    history: Seq<ExecutionState>,
    history_after: Seq<ExecutionState>,
    stats: Map<Seq<char>, StatState>,
    stats_after: Map<Seq<char>, StatState>,
    row: Versioned<BackgroundTask>,
    duration_ms: Option<u64>,
    end: RunEnd,
)
    requires
        distinct_ids(before),
        row.version < u32::MAX,
        row_ended(before, after, row, end),
        run_counted(history, history_after, stats, stats_after, row@, duration_ms, end),
        end.completion matches TaskCompletion::Retry { failed_at, retry_at, .. }
            ==> moment::valid_instant(failed_at as int) && moment::valid_instant(retry_at as int),
    ensures
        !(end.outcome is Applied) ==> after == before && history_after == history && stats_after
            == stats,
        end.outcome is Missing ==> !has_id(before, row@.task.id),
        end.outcome is Applied && end.completion is Retry ==> history_after == history
            && stats_after == stats && has_id(after, row@.task.id) && after.len() == before.len(),
        end.outcome is Applied && end.completion is Terminal ==> {
            &&& !has_id(after, row@.task.id) && after.len() == before.len() - 1
            &&& has_execution(history_after, row@.task.id)
            &&& stats_after.dom().contains(row@.task.kind)
        },
{
    if end.outcome is Applied {
        let i = choose|i: int|
            0 <= i < before.len() && (#[trigger] before[i]).task.id == row@.task.id
                && before[i].version == row@.version && after == crate::task_queue::completed(
                before,
                i,
                end.completion,
            );
        law_the_end_of_an_attempt_moves_its_row(before, i, end.completion);
        if end.completion is Retry {
            let back = choose|back: RowState|
                #[trigger] is_added(before.remove(i), after, back) && same_run(
                    before[i].task,
                    back.task,
                );
            let at = choose|at: int|
                0 <= at < after.len() && after[at] == back && #[trigger] after.remove(at)
                    == before.remove(i);
            assert(after[at].task.id == row@.task.id);
        } else {
            let record = record_left(row@.task, end.completion, duration_ms);
            law_a_filed_run_is_in_the_history(history, record);
        }
    }
}

// ---------------------------------------------------------------- records
/// Filing a run puts its record into the history and touches no other; an id
/// that is recorded stays as it was.
pub proof fn law_a_filed_run_is_in_the_history(
    history: Seq<ExecutionState>,
    record: ExecutionState,
)
    ensures
        has_execution(filed(history, record), record.id),
        has_execution(history, record.id) ==> filed(history, record) == history,
        !has_execution(history, record.id) ==> exists|at: int|
            0 <= at < filed(history, record).len() && filed(history, record)[at] == record.stored()
                && #[trigger] filed(history, record).remove(at) == history,
{
    if !has_execution(history, record.id) {
        crate::history::lemma_rank(history, record.stored());
        let at = rank(history, record.stored());
        let after = filed(history, record);
        assert(after[at] == record.stored());
        assert(after.remove(at) =~= history);
    }
}

/// A finished run counts for its own kind only: one run more, one failure
/// more where it failed, and the last run is this one.
pub proof fn law_a_finished_run_counts_for_its_kind(
    book: Map<Seq<char>, StatState>,
    record: ExecutionState,
    duration_ms: Option<u64>,
    other: Seq<char>,
)
    requires
        moment::valid_instant(record.finished_at),
    ensures
        ({
            let after = counted(book, record, duration_ms);
            let runs = if book.dom().contains(record.kind) {
                book[record.kind].total_runs
            } else {
                0
            };
            let failures = if book.dom().contains(record.kind) {
                book[record.kind].total_failures
            } else {
                0
            };
            let spent = if book.dom().contains(record.kind) {
                book[record.kind].total_duration_ms
            } else {
                0
            };
            &&& after.dom().contains(record.kind)
            &&& runs < i64::MAX ==> after[record.kind].total_runs == runs + 1
            &&& failures < i64::MAX ==> after[record.kind].total_failures == failures + if
                record.outcome == ExecutionOutcome::Failed {
                1nat
            } else {
                0nat
            }
            &&& after[record.kind].last_outcome == Some(record.outcome)
            &&& after[record.kind].last_error == record.error
            &&& after[record.kind].kind == record.kind
            &&& after[record.kind].last_run_at == Some(
                record.finished_at - record.finished_at % 1_000_000,
            )
            &&& after[record.kind].updated_at == record.finished_at - record.finished_at % 1_000_000
            &&& record.outcome == ExecutionOutcome::Succeeded
                ==> after[record.kind].last_success_at == after[record.kind].last_run_at
            &&& record.outcome != ExecutionOutcome::Succeeded && book.dom().contains(record.kind)
                ==> after[record.kind].last_success_at == book[record.kind].last_success_at
            &&& duration_ms is None ==> after[record.kind].last_duration_ms is None
            &&& duration_ms is Some && duration_ms->0 <= i64::MAX
                ==> after[record.kind].last_duration_ms == Some(duration_ms->0 as nat)
            &&& duration_ms is Some && spent + duration_ms->0 <= i64::MAX
                ==> after[record.kind].total_duration_ms == spent + duration_ms->0
            &&& duration_ms is None && spent <= i64::MAX ==> after[record.kind].total_duration_ms
                == spent
            &&& other != record.kind ==> (after.dom().contains(other) <==> book.dom().contains(
                other,
            )) && (book.dom().contains(other) ==> after[other] == book[other])
        }),
{
    let stored = crate::stats::stats_of(book, record.kind);
    law_the_latest_run_is_remembered(
        stored,
        record.kind,
        record.outcome,
        record.error,
        duration_ms,
        record.finished_at,
    );
    law_totals_add_up(
        stored,
        record.kind,
        record.outcome,
        record.error,
        duration_ms,
        record.finished_at,
    );
}

/// A final completion's record tells of the run that it ends.
pub proof fn law_a_final_completion_is_recorded_as_it_ended(
    task: TaskState,
    completion: TaskCompletion,
    duration_ms: Option<u64>,
)
    requires
        completion is Terminal,
    ensures
        completion matches TaskCompletion::Terminal { outcome, error, finished_at } ==> {
            let record = record_left(task, completion, duration_ms);
            &&& (record.id, record.kind, record.payload) == (task.id, task.kind, task.payload)
            &&& record.outcome == outcome
            &&& record.error == opt_text(error)
            &&& record.finished_at == finished_at
            &&& record.attempts == task.attempts
            &&& (record.scheduled_at, record.created_at) == (task.scheduled_at, task.created_at)
            &&& record.started_at == task.started_at
        },
{
}

/// A run that was interrupted on its last attempt is recorded as failed, with
/// the interruption as its error and no duration.
pub proof fn law_an_interrupted_run_is_recorded_as_failed(
    rows: Seq<RowState>,
    now: int,
    i: int,
)
    requires
        0 <= i < rows.len(),
    ensures
        ({
            let records = interrupted_records(rows, now);
            &&& records.len() == rows.len()
            &&& records[i].id == rows[i].task.id && records[i].kind == rows[i].task.kind
            &&& records[i].outcome == ExecutionOutcome::Failed
            &&& records[i].error == Some(
                "interrupted: the engine stopped while the task was running"@,
            )
            &&& records[i].duration_ms is None
            &&& records[i].finished_at == now
            &&& records[i].attempts == rows[i].task.attempts
            &&& records[i].payload == rows[i].task.payload
            &&& records[i].scheduled_at == rows[i].task.scheduled_at
            &&& records[i].started_at == rows[i].task.started_at
            &&& records[i].created_at == rows[i].task.created_at
        }),
{
}

/// Several runs are filed and counted one after the other, none of those that
/// were interrupted with a duration.
pub proof fn law_runs_are_filed_one_after_the_other(
    history: Seq<ExecutionState>,
    book: Map<Seq<char>, StatState>,
    records: Seq<ExecutionState>,
    last: ExecutionState,
)
    ensures
        all_filed(history, Seq::empty()) == history,
        all_counted(book, Seq::empty()) == book,
        all_filed(history, records.push(last)) == filed(all_filed(history, records), last),
        all_counted(book, records.push(last)) == counted(all_counted(book, records), last, None),
{
    assert(records.push(last).drop_last() =~= records);
}

/// Filing several runs records every one of them and loses none that was
/// recorded, and each of their kinds is counted.
pub proof fn law_every_run_is_filed_and_counted(
    history: Seq<ExecutionState>,
    book: Map<Seq<char>, StatState>,
    records: Seq<ExecutionState>,
    i: int,
    known: ExecutionState,
)
    requires
        0 <= i < records.len(),
    ensures
        has_execution(all_filed(history, records), records[i].id),
        history.contains(known) ==> all_filed(history, records).contains(known),
        all_counted(book, records).dom().contains(records[i].kind),
    decreases records.len(),
{
    let less = all_filed(history, records.drop_last());
    law_a_filed_run_is_in_the_history(less, records.last());
    lemma_filing_keeps(less, records.last(), known);
    if i < records.len() - 1 {
        law_every_run_is_filed_and_counted(history, book, records.drop_last(), i, known);
        assert(records.drop_last()[i] == records[i]);
        let k = choose|k: int| 0 <= k < less.len() && (#[trigger] less[k]).id == records[i].id;
        lemma_filing_keeps(less, records.last(), less[k]);
        let after = all_filed(history, records);
        let m = after.index_of(less[k]);
        assert(after[m].id == records[i].id);
    } else if records.len() > 1 {
        law_every_run_is_filed_and_counted(history, book, records.drop_last(), 0, known);
    } else {
        assert(less == history);
    }
}

proof fn lemma_filing_keeps(
    history: Seq<ExecutionState>,
    record: ExecutionState,
    known: ExecutionState,
)
    ensures
        history.contains(known) ==> filed(history, record).contains(known),
{
    if history.contains(known) && !has_execution(history, record.id) {
        crate::history::lemma_rank(history, record.stored());
        let at = rank(history, record.stored());
        let i = history.index_of(known);
        let after = filed(history, record);
        assert(after[if i < at { i } else { i + 1 }] == known);
    }
}

// ---------------------------------------------------------------- planes
/// A plane is built as its configuration says, for the kind that it is
/// registered under.
pub proof fn law_a_plane_is_built_as_configured(plane: Plane, kind: Seq<char>, config: PlaneConfig)
    requires
        built_from(plane, kind, config),
    ensures
        config matches PlaneConfig::Interval { period, jitter, tracking } ==> plane is Interval
            && plane->Interval_0.kind@ == kind && plane->Interval_0.period == period
            && plane->Interval_0.jitter == jitter && plane->Interval_0.tracking == tracking,
        config matches PlaneConfig::Recurring { schedule, retry } ==> plane is Recurring
            && plane->Recurring_0.kind@ == kind && plane->Recurring_0.schedule == schedule
            && plane->Recurring_0.retry == retry,
        config matches PlaneConfig::Sync {
            source,
            schedule,
            retry,
            cooldown,
            max_backfill_days,
        } ==> plane is Sync && plane->Sync_0.kind@ == kind && plane->Sync_0.source@ == source@
            && plane->Sync_0.schedule == schedule && plane->Sync_0.retry == retry
            && plane->Sync_0.cooldown == cooldown && plane->Sync_0.max_backfill_days
            == max_backfill_days,
{
}

/// Without a cursor an outcome is what the handler said: done is completed,
/// unready waits for the next occurrence, and a failure keeps its error.
pub proof fn law_an_outcome_is_what_the_handler_said(
    outcome: TaskOutcome,
    result: Result<Interpretation, TaskFailure>,
)
    requires
        plain_reading(outcome, result),
    ensures
        outcome is Done ==> result == Ok::<Interpretation, TaskFailure>(Interpretation::Completed),
        outcome is NotReady ==> result == Ok::<Interpretation, TaskFailure>(
            Interpretation::NotReady,
        ),
        outcome matches TaskOutcome::Failed(error) ==> result is Err && result->Err_0@ == error@,
{
}

/// A result that says what a reading says is that reading: the two agree on
/// which of the three it is, and on the error.
pub proof fn law_a_result_says_what_was_read(
    result: Result<Interpretation, TaskFailure>,
    reading: RunReading,
)
    requires
        reads_as(result, reading),
    ensures
        reading is Completed <==> result == Ok::<Interpretation, TaskFailure>(
            Interpretation::Completed,
        ),
        reading is NotReady <==> result == Ok::<Interpretation, TaskFailure>(
            Interpretation::NotReady,
        ),
        reading is Failed <==> result is Err,
        reading is Failed ==> result->Err_0@ == reading->Failed_0,
{
}

// ---------------------------------------------------------------- recovery
/// At the start every row that still ran is settled: one with attempts left
/// waits again, due at once, with the interruption as its error, and one that
/// ran its last attempt leaves the queue to be recorded. A row that waited is
/// untouched.
pub proof fn law_a_start_settles_what_was_interrupted(rows: Seq<RowState>, now: int, i: int)
    requires
        distinct_ids(rows),
        moment::valid_instant(now),
        0 <= i < rows.len(),
        rows[i].version < u32::MAX,
    ensures
        ({
            let after = without(requeued_rows(rows, now), exhausted_rows());
            let over = requeued_rows(rows, now).filter(exhausted_rows());
            &&& rows[i].task.status == TaskStatus::Pending ==> after.contains(rows[i])
            &&& rows[i].task.status == TaskStatus::Running && rows[i].task.attempts
                < rows[i].task.max_attempts ==> exists|back: RowState|
                {
                    &&& #[trigger] after.contains(back)
                    &&& back.task.status == TaskStatus::Pending
                    &&& back.task.attempts == rows[i].task.attempts
                    &&& back.task.last_error == Some(
                        "interrupted: the engine stopped while the task was running"@,
                    )
                    &&& back.task.scheduled_at == now - now % 1_000_000
                    &&& same_run(rows[i].task, back.task)
                }
            &&& rows[i].task.status == TaskStatus::Running && rows[i].task.attempts
                >= rows[i].task.max_attempts ==> over.contains(rows[i]) && !has_id(
                after,
                rows[i].task.id,
            )
        }),
{
    let error = "interrupted: the engine stopped while the task was running"@;
    assert(INTERRUPTED@ == error);
    assert((|row: RowState| row.requeued(INTERRUPTED@, now, now)) =~= (|row: RowState|
        row.requeued(error, now, now)));
    assert(without(requeued_rows(rows, now), exhausted_rows()) == recovered(rows, error, now));
    law_recovery_settles_every_row(rows, error, now, i);
    law_recovery_ends_the_last_attempts(rows, error, now, rows[i]);
}

} // verus!
