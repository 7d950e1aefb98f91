//! One run from its handler's report to its records.
use crate::cursor::{CursorState, CursorStore};
use crate::history::{ExecutionState, RunHistory};
use crate::manager::{
    completes, completion_for, counted, filed, label_of, missing_handler, no_handler_text,
    record_completion, record_left, RunLabel,
};
use crate::moment;
use crate::plane::{window_wf, Interpretation, RunWindow, TaskFailure, TaskOutcome};
use crate::queue::{BackgroundTask, RowState, Versioned};
use crate::stats::{StatBook, StatState};
use crate::sync_plane::{
    write_failure, write_failure_text, CursorWrite, Halt, StoreFault, SyncPlane,
};
use crate::task_queue::{completed, guarded, TaskCompletion, TaskQueue, WriteOutcome};
use crate::triggers::Plane;
use vstd::prelude::*;

verus! {

/// What came of handing a claimed run to its handler.
#[derive(Clone, Debug)]
pub enum RunReport {
    /// No handler is registered for the kind.
    NoHandler,
    /// The payload could not be read; the handler was not called.
    BadPayload(String),
    /// The handler ran and reported.
    Ran { window: RunWindow, outcome: TaskOutcome },
    /// The handler ran, but the cursor of its source could not be written.
    Unrecorded { write: CursorWrite, fault: StoreFault },
}

/// The cursor write that reading a report comes with: a sync run that is done
/// advances its source, one that was not ready holds it.
pub open spec fn cursor_write_of(plane: Option<Plane>, report: RunReport) -> Option<CursorWrite> {
    match (plane, report) {
        (
            Some(Plane::Sync(_)),
            RunReport::Ran { window: RunWindow::Period { .. }, outcome: TaskOutcome::Done },
        ) => Some(CursorWrite::Advance),
        (
            Some(Plane::Sync(_)),
            RunReport::Ran {
                window: RunWindow::Period { .. },
                outcome: TaskOutcome::NotReady { .. },
            },
        ) => Some(CursorWrite::Hold),
        _ => None,
    }
}

impl RunReport {
    /// The cursor write that reading the report comes with.
    pub fn cursor_write(&self, plane: &Option<Plane>) -> (write: Option<CursorWrite>)
        ensures
            write == cursor_write_of(*plane, *self),
    {
        if let Some(Plane::Sync(_)) = plane {
            if let RunReport::Ran { window: RunWindow::Period { .. }, outcome } = self {
                return match outcome {
                    TaskOutcome::Done => Some(CursorWrite::Advance),
                    TaskOutcome::NotReady { .. } => Some(CursorWrite::Hold),
                    TaskOutcome::Failed(_) => None,
                };
            }
        }
        None
    }
}

/// How a run came out, once its plane has read the report.
pub enum RunReading {
    Completed,
    NotReady,
    Failed(Seq<char>),
}

/// Whether an executable result says the same.
pub open spec fn reads_as(
    result: Result<Interpretation, TaskFailure>,
    reading: RunReading,
) -> bool {
    match reading {
        RunReading::Completed => result matches Ok(Interpretation::Completed),
        RunReading::NotReady => result matches Ok(Interpretation::NotReady),
        RunReading::Failed(error) => result matches Err(e) && e@ == error,
    }
}

/// How a plain outcome reads.
pub open spec fn outcome_reading(outcome: TaskOutcome) -> RunReading {
    match outcome {
        TaskOutcome::Done => RunReading::Completed,
        TaskOutcome::NotReady { .. } => RunReading::NotReady,
        TaskOutcome::Failed(error) => RunReading::Failed(error@),
    }
}

/// How the outcome of a sync run reads: one that was not ready holds its
/// cursor, and has thereby done what it could.
pub open spec fn sync_reading(outcome: TaskOutcome) -> RunReading {
    match outcome {
        TaskOutcome::Failed(error) => RunReading::Failed(error@),
        _ => RunReading::Completed,
    }
}

/// How a report reads, given the run's plane.
pub open spec fn reading_of(plane: Option<Plane>, kind: Seq<char>, report: RunReport) -> RunReading {
    match (plane, report) {
        (_, RunReport::Unrecorded { write, fault }) => RunReading::Failed(
            write_failure_text(write, fault),
        ),
        (Some(Plane::Sync(_)), RunReport::Ran { window: RunWindow::NoWindow, .. }) =>
            RunReading::Failed("sync run without a period window"@),
        (Some(Plane::Sync(_)), RunReport::Ran { window: RunWindow::Period { .. }, outcome }) =>
            sync_reading(outcome),
        (Some(_), RunReport::Ran { outcome, .. }) => outcome_reading(outcome),
        (Some(_), RunReport::BadPayload(error)) => RunReading::Failed(error@),
        _ => RunReading::Failed(no_handler_text(kind)),
    }
}

/// The cursors once the plane has read the report: a sync source advances or
/// holds, everything else leaves them alone.
pub open spec fn cursors_after_reading(
    plane: Option<Plane>,
    cursors: Map<Seq<char>, CursorState>,
    report: RunReport,
    now: int,
) -> Map<Seq<char>, CursorState> {
    match (plane, report) {
        (
            Some(Plane::Sync(p)),
            RunReport::Ran { window: RunWindow::Period { slot, target }, outcome },
        ) => match p.settled(
            p.stored(cursors),
            slot as int,
            target.from as int,
            target.to as int,
            outcome,
            now,
        ) {
            Some(cursor) => cursors.insert(p.source@, cursor.stored()),
            None => cursors,
        },
        _ => cursors,
    }
}

/// The cursors once a final failure is recorded, for a source that has one.
pub open spec fn cursors_after_halt(
    plane: Option<Plane>,
    cursors: Map<Seq<char>, CursorState>,
    error: Seq<char>,
    halt: Option<Halt>,
    now: int,
) -> Map<Seq<char>, CursorState> {
    match (plane, halt) {
        (Some(Plane::Sync(p)), Some(h)) => cursors.insert(
            p.source@,
            p.stored(cursors)->0.failed(error, h.until as int, now).stored(),
        ),
        _ => cursors,
    }
}

/// Whether a report's window is one that a payload can name.
pub open spec fn report_wf(report: RunReport) -> bool {
    report matches RunReport::Ran { window, .. } ==> window_wf(window)
}

/// How a run ended.
#[derive(Clone, Debug)]
pub struct RunEnd {
    pub completion: TaskCompletion,
    pub label: RunLabel,
    pub outcome: WriteOutcome,
    pub halt: Option<Halt>,
}

/// What the end of a run does to its row: it is completed or put back where
/// nobody touched it since the claim, and left alone otherwise.
pub open spec fn row_ended(
    before: Seq<RowState>,
    after: Seq<RowState>,
    row: Versioned<BackgroundTask>,
    end: RunEnd,
) -> bool {
    &&& end.label == label_of(end.completion)
    &&& guarded(before, row@.task.id, row.version, end.outcome)
    &&& !(end.outcome is Applied) ==> after == before
    &&& end.outcome is Applied ==> exists|i: int|
        0 <= i < before.len() && (#[trigger] before[i]).task.id == row@.task.id && before[i].version
            == row@.version && after == completed(before, i, end.completion)
}

/// What the end of a run leaves behind: a record and a count where it was
/// final, nothing otherwise.
pub open spec fn run_counted(
    history: Seq<ExecutionState>,
    history_after: Seq<ExecutionState>,
    stats: Map<Seq<char>, StatState>,
    stats_after: Map<Seq<char>, StatState>,
    row: RowState,
    duration_ms: Option<u64>,
    end: RunEnd,
) -> bool {
    let record = record_left(row.task, end.completion, duration_ms);
    if end.outcome is Applied && end.completion is Terminal {
        &&& history_after == filed(history, record)
        &&& stats_after == counted(stats, record, duration_ms)
    } else {
        &&& history_after == history
        &&& stats_after == stats
    }
}

/// Reads a report through the run's plane.
fn read_report(
    cursors: &mut CursorStore,
    plane: &Option<Plane>,
    task: &BackgroundTask,
    report: RunReport,
    now: i128,
) -> (result: Result<Interpretation, TaskFailure>)
    requires
        old(cursors).wf(),
        moment::valid_instant(now as int),
        report_wf(report),
    ensures
        final(cursors).wf(),
        reads_as(result, reading_of(*plane, task@.kind, report)),
        final(cursors)@ == cursors_after_reading(*plane, old(cursors)@, report, now as int),
{
    if let RunReport::Unrecorded { write, fault } = &report {
        return Err(write_failure(*write, fault));
    }
    match plane {
        None => Err(missing_handler(task.kind())),
        Some(plane) => match report {
            RunReport::NoHandler | RunReport::Unrecorded { .. } => Err(missing_handler(task.kind())),
            RunReport::BadPayload(error) => Err(TaskFailure::new(error)),
            RunReport::Ran { window, outcome } => match plane {
                Plane::Interval(p) => p.interpret(outcome),
                Plane::Recurring(p) => p.interpret(outcome),
                Plane::Sync(p) => p.interpret(cursors, window, outcome, now),
            },
        },
    }
}

/// Takes a claimed run from its report to its records: the plane reads the
/// report, the row is completed or put back, and a final failure halts its
/// source. Nothing of it happens to a row that was touched since the claim,
/// except what the plane did to its cursor.
pub fn execute_one(
    queue: &mut TaskQueue,
    history: &mut RunHistory,
    stats: &mut StatBook,
    cursors: &mut CursorStore,
    plane: &Option<Plane>,
    row: &Versioned<BackgroundTask>,
    report: RunReport,
    duration_ms: Option<u64>,
    now: i128,
) -> (end: RunEnd)
    requires
        old(queue).wf(),
        old(history).wf(),
        old(stats).wf(),
        old(cursors).wf(),
        moment::valid_instant(now as int),
        report_wf(report),
    ensures
        final(queue).wf(),
        final(history).wf(),
        final(stats).wf(),
        final(cursors).wf(),
        completion_reads(
            row@.task,
            reading_of(*plane, row@.task.kind, report),
            now as int,
            end.completion,
        ),
        row_ended(old(queue)@, final(queue)@, *row, end),
        run_counted(
            old(history)@,
            final(history)@,
            old(stats)@,
            final(stats)@,
            row@,
            duration_ms,
            end,
        ),
        !(end.outcome is Applied && end.label == RunLabel::Failed) ==> end.halt is None,
        ({
            let read = cursors_after_reading(*plane, old(cursors)@, report, now as int);
            match reading_of(*plane, row@.task.kind, report) {
                RunReading::Failed(error) => final(cursors)@ == cursors_after_halt(
                    *plane,
                    read,
                    error,
                    end.halt,
                    now as int,
                ),
                _ => final(cursors)@ == read,
            }
        }),
        end.outcome is Applied && end.label == RunLabel::Failed ==> (end.halt is Some <==> (
        *plane matches Some(Plane::Sync(p)) && p.stored(
            cursors_after_reading(*plane, old(cursors)@, report, now as int),
        ) is Some)),
        end.halt matches Some(h) ==> (*plane matches Some(Plane::Sync(p)) && p.halts(
            final(cursors)@[p.source@],
            now as int,
            h,
        )),
{
    let result = read_report(cursors, plane, &row.data, report, now);
    let (completion, label) = completion_for(&row.data, &result, now);
    let outcome = record_completion(queue, history, stats, row, &completion, duration_ms);
    let mut halt: Option<Halt> = None;
    if outcome.applied() {
        if let RunLabel::Failed = label {
            if let Err(failure) = &result {
                if let Some(plane) = plane {
                    halt = plane.on_terminal(cursors, failure.message(), now);
                }
            }
        }
    }
    RunEnd { completion, label, outcome, halt }
}

/// Ends a run whose handler ran but whose cursor could not be written: the
/// run failed, for running a period again is safe and losing an advance is
/// not. The cursor stays as it was, but for what a final failure counts.
pub fn record_unwritten(
    queue: &mut TaskQueue,
    history: &mut RunHistory,
    stats: &mut StatBook,
    cursors: &mut CursorStore,
    plane: &Option<Plane>,
    row: &Versioned<BackgroundTask>,
    write: CursorWrite,
    fault: StoreFault,
    duration_ms: Option<u64>,
    now: i128,
) -> (end: RunEnd)
    requires
        old(queue).wf(),
        old(history).wf(),
        old(stats).wf(),
        old(cursors).wf(),
        moment::valid_instant(now as int),
    ensures
        final(queue).wf(),
        final(history).wf(),
        final(stats).wf(),
        final(cursors).wf(),
        completion_reads(
            row@.task,
            RunReading::Failed(write_failure_text(write, fault)),
            now as int,
            end.completion,
        ),
        end.label == (if row@.task.can_retry() {
            RunLabel::Retry
        } else {
            RunLabel::Failed
        }),
        row_ended(old(queue)@, final(queue)@, *row, end),
        run_counted(
            old(history)@,
            final(history)@,
            old(stats)@,
            final(stats)@,
            row@,
            duration_ms,
            end,
        ),
        end.halt is None ==> final(cursors)@ == old(cursors)@,
        final(cursors)@ == cursors_after_halt(
            *plane,
            old(cursors)@,
            write_failure_text(write, fault),
            end.halt,
            now as int,
        ),
        end.halt is Some <==> end.outcome is Applied && end.label == RunLabel::Failed && (
        *plane matches Some(Plane::Sync(p)) && p.stored(old(cursors)@) is Some),
{
    let report = RunReport::Unrecorded { write, fault };
    execute_one(queue, history, stats, cursors, plane, row, report, duration_ms, now)
}

/// Whether a completion is what a reading calls for.
pub open spec fn completion_reads(
    task: crate::queue::TaskState,
    reading: RunReading,
    now: int,
    completion: TaskCompletion,
) -> bool {
    exists|result: Result<Interpretation, TaskFailure>|
        reads_as(result, reading) && #[trigger] completes(task, result, now, completion)
}

// ---------------------------------------------------------------- laws
/// A sync run completes exactly where its cursor was written: with the write,
/// an advance stands at the run's slot, to the millisecond, and at its last
/// date, and a hold stands where the cursor stood; without it, the run
/// failed and the cursor is as it was.
pub proof fn law_a_sync_run_completes_with_its_cursor_write(
    p: SyncPlane,
    kind: Seq<char>,
    cursors: Map<Seq<char>, CursorState>,
    report: RunReport,
    fault: StoreFault,
    now: int,
)
    requires
        cursor_write_of(Some(Plane::Sync(p)), report) is Some,
    ensures
        ({
            let plane = Some(Plane::Sync(p));
            let write = cursor_write_of(plane, report)->0;
            let written = p.stored(cursors_after_reading(plane, cursors, report, now));
            let unwritten = RunReport::Unrecorded { write, fault };
            &&& reading_of(plane, kind, report) is Completed
            &&& written is Some
            &&& write is Advance ==> (report matches RunReport::Ran {
                window: RunWindow::Period { slot, target },
                ..
            } && written->0.through_slot == moment::stored_instant(slot as int)
                && written->0.through_target == target.to)
            &&& write is Hold && p.stored(cursors) is Some ==> written->0.through_slot
                == moment::stored_instant(p.stored(cursors)->0.through_slot)
                && written->0.through_target == p.stored(cursors)->0.through_target
            &&& reading_of(plane, kind, unwritten) == RunReading::Failed(
                write_failure_text(write, fault),
            )
            &&& cursors_after_reading(plane, cursors, unwritten, now) == cursors
        }),
{
}

} // verus!
