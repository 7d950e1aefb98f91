//! What a stored row says, column by column, and which rows are refused.
use crate::catalog::{LogPolicy, TaskCategory};
use crate::cursor::{opt_text, SyncOutcomeKind};
use crate::moment::{date_read, instant_read, instant_text};
use crate::plane::{RunWindow, TaskTier, Tracking};
use crate::queue::TaskStatus;
use crate::registry_rows::{registration_fault, registration_read, RegistrationColumns};
use crate::rows::{
    be_value, counter, cursor_fault, cursor_read, execution_fault, execution_read, held_column,
    held_count, id_read, opt_counter, opt_instant_read, opt_instant_text, stat_fault, stat_read,
    task_fault, task_read, CursorColumns, ExecutionColumns, StatColumns, TaskColumns,
};
use crate::settings::{lenient_clock, lenient_number, lenient_recurring};
use crate::sync_plane::{payload_read, SyncPlane};
use crate::task_queue::ExecutionOutcome;
use crate::text;
use crate::triggers::Plane;
use vstd::arithmetic::power::{lemma_pow0, lemma_pow1, lemma_pow_adds, pow};
use vstd::prelude::*;

verus! {

/// Whether a column that may be empty holds a time that can be read, or none.
pub open spec fn is_time_or_none(raw: Option<String>) -> bool {
    raw matches Some(t) ==> instant_read(t@) is Some
}

/// An id is sixteen bytes, the first of them the most significant.
pub proof fn law_an_id_is_sixteen_bytes(first: u8, rest: Seq<u8>)
    ensures
        id_read(seq![first] + rest) is Some <==> rest.len() == 15,
        rest.len() == 15 ==> id_read(seq![first] + rest) == Some(
            first * pow(256, 15) + be_value(rest),
        ),
        be_value(Seq::empty()) == 0,
{
    lemma_first_byte_leads(first, rest);
}

proof fn lemma_first_byte_leads(first: u8, rest: Seq<u8>)
    ensures
        be_value(seq![first] + rest) == first * pow(256, rest.len()) + be_value(rest),
    decreases rest.len(),
{
    let whole = seq![first] + rest;
    if rest.len() == 0 {
        lemma_pow0(256);
        assert(whole.drop_last() =~= Seq::<u8>::empty());
        assert(be_value(whole.drop_last()) == 0);
    } else {
        let head = rest.drop_last();
        lemma_first_byte_leads(first, head);
        assert(whole.drop_last() =~= seq![first] + head);
        lemma_pow_adds(256, head.len(), 1);
        lemma_pow1(256);
        let p = pow(256, head.len());
        assert(pow(256, rest.len()) == p * 256);
        assert((first * p + be_value(head)) * 256 == first * (p * 256) + be_value(head) * 256)
            by (nonlinear_arith);
    }
}

/// A column that may be empty reads as its time, or as none.
pub proof fn law_an_optional_time_reads_as_its_text(raw: Option<Seq<char>>, ticks: Option<int>)
    ensures
        raw is None ==> opt_instant_read(raw) == Some(None::<int>),
        raw is Some && instant_read(raw->0) is Some ==> opt_instant_read(raw) == Some(
            Some(instant_read(raw->0)->0),
        ),
        raw is Some && instant_read(raw->0) is None ==> opt_instant_read(raw) is None,
        ticks is None ==> opt_instant_text(ticks) is None,
        ticks is Some ==> opt_instant_text(ticks) == Some(instant_text(ticks->0)),
{
}

/// A counter is stored as it is, as far as the column holds it, and a
/// negative column counts nothing.
pub proof fn law_a_counter_is_held_as_far_as_it_fits(n: nat, raw: i64)
    ensures
        n <= i64::MAX ==> held_count(n) == n && held_column(Some(n)) == Some(n as i64) && counter(
            held_count(n),
        ) == n && opt_counter(held_column(Some(n))) == Some(n),
        n > i64::MAX ==> held_count(n) == i64::MAX && held_column(Some(n)) == Some(i64::MAX),
        held_column(None) is None,
        raw >= 0 ==> counter(raw) == raw && opt_counter(Some(raw)) == Some(raw as nat),
        raw < 0 ==> counter(raw) == 0 && opt_counter(Some(raw)) == Some(0nat),
        opt_counter(None) is None,
{
}

/// A task's row reads if and only if its id, kind, status and times do; then
/// each column is its field.
pub proof fn law_a_task_row_reads_column_by_column(row: TaskColumns)
    ensures
        task_fault(row) is None <==> {
            &&& row.id@.len() == 16
            &&& row.kind@.len() > 0
            &&& row.status@ == "PENDING"@ || row.status@ == "RUNNING"@
            &&& instant_read(row.scheduled_at@) is Some
            &&& is_time_or_none(row.started_at)
            &&& instant_read(row.created_at@) is Some
            &&& instant_read(row.updated_at@) is Some
        },
        task_fault(row) is None ==> {
            let read = task_read(row);
            &&& read.task.id == be_value(row.id@)
            &&& read.task.kind == row.kind@
            &&& (read.task.status == TaskStatus::Pending <==> row.status@ == "PENDING"@)
            &&& opt_text(row.payload) == read.task.payload
            &&& instant_read(row.scheduled_at@) == Some(read.task.scheduled_at)
            &&& (row.started_at is None <==> read.task.started_at is None)
            &&& row.started_at is Some ==> instant_read(row.started_at->0@)
                == read.task.started_at
            &&& read.task.attempts == row.attempts
            &&& read.task.max_attempts == row.max_attempts
            &&& read.task.retry_delay_secs == row.retry_delay_secs
            &&& opt_text(row.last_error) == read.task.last_error
            &&& instant_read(row.created_at@) == Some(read.task.created_at)
            &&& instant_read(row.updated_at@) == Some(read.task.updated_at)
            &&& read.version == row.version
        },
{
    reveal_strlit("PENDING");
    reveal_strlit("RUNNING");
    assert("PENDING"@[0] != "RUNNING"@[0]);
}

/// Of several columns of a task that cannot be read, the first in the order
/// of the table is blamed.
pub proof fn law_the_first_broken_task_column_is_blamed(row: TaskColumns)
    ensures
        row.id@.len() != 16 ==> task_fault(row) == Some("id"@),
        row.id@.len() == 16 && row.kind@.len() == 0 ==> task_fault(row) == Some("kind"@),
        row.id@.len() == 16 && row.kind@.len() > 0 && row.status@ != "PENDING"@ && row.status@
            != "RUNNING"@ ==> task_fault(row) == Some("status"@),
        row.id@.len() == 16 && row.kind@.len() > 0 && row.status@ == "RUNNING"@ ==> {
            &&& instant_read(row.scheduled_at@) is None ==> task_fault(row) == Some(
                "scheduled_at"@,
            )
            &&& instant_read(row.scheduled_at@) is Some && !is_time_or_none(row.started_at)
                ==> task_fault(row) == Some("started_at"@)
            &&& instant_read(row.scheduled_at@) is Some && is_time_or_none(row.started_at)
                && instant_read(row.created_at@) is None ==> task_fault(row) == Some("created_at"@)
            &&& instant_read(row.scheduled_at@) is Some && is_time_or_none(row.started_at)
                && instant_read(row.created_at@) is Some && instant_read(row.updated_at@) is None
                ==> task_fault(row) == Some("updated_at"@)
        },
{
    reveal_strlit("PENDING");
    reveal_strlit("RUNNING");
    assert("PENDING"@[0] != "RUNNING"@[0]);
}

/// A cursor's row reads if and only if its source, slot, date, cooldown,
/// outcome and time do; then each column is its field.
pub proof fn law_a_cursor_row_reads_column_by_column(row: CursorColumns)
    ensures
        cursor_fault(row) is None <==> {
            &&& row.source@.len() > 0
            &&& instant_read(row.through_slot@) is Some
            &&& date_read(row.through_target@) is Some
            &&& is_time_or_none(row.cooldown_until)
            &&& row.last_outcome is Some ==> SyncOutcomeKind::named(row.last_outcome->0@) is Some
            &&& instant_read(row.updated_at@) is Some
        },
        cursor_fault(row) is None ==> {
            let read = cursor_read(row);
            &&& read.source == row.source@
            &&& instant_read(row.through_slot@) == Some(read.through_slot)
            &&& date_read(row.through_target@) == Some(read.through_target)
            &&& (row.cooldown_until is None <==> read.cooldown_until is None)
            &&& row.cooldown_until is Some ==> instant_read(row.cooldown_until->0@)
                == read.cooldown_until
            &&& read.consecutive_failures == row.consecutive_failures
            &&& (row.last_outcome is None <==> read.last_outcome is None)
            &&& row.last_outcome is Some ==> SyncOutcomeKind::named(row.last_outcome->0@)
                == read.last_outcome
            &&& opt_text(row.last_error) == read.last_error
            &&& instant_read(row.updated_at@) == Some(read.updated_at)
        },
        row.source@.len() == 0 ==> cursor_fault(row) == Some("source"@),
        row.source@.len() > 0 && instant_read(row.through_slot@) is None ==> cursor_fault(row)
            == Some("through_slot"@),
        row.source@.len() > 0 && instant_read(row.through_slot@) is Some && date_read(
            row.through_target@,
        ) is None ==> cursor_fault(row) == Some("through_target"@),
{
}

/// A cursor's later columns are blamed in the order of the table too.
pub proof fn law_the_first_broken_cursor_column_is_blamed(row: CursorColumns)
    requires
        row.source@.len() > 0,
        instant_read(row.through_slot@) is Some,
        date_read(row.through_target@) is Some,
    ensures
        !is_time_or_none(row.cooldown_until) ==> cursor_fault(row) == Some("cooldown_until"@),
        is_time_or_none(row.cooldown_until) && row.last_outcome is Some && SyncOutcomeKind::named(
            row.last_outcome->0@,
        ) is None ==> cursor_fault(row) == Some("last_outcome"@),
        is_time_or_none(row.cooldown_until) && row.last_outcome is None && instant_read(
            row.updated_at@,
        ) is None ==> cursor_fault(row) == Some("updated_at"@),
{
}

/// A record's row reads if and only if its id, kind, outcome and times do;
/// then each column is its field, and a negative duration counts nothing.
pub proof fn law_a_record_row_reads_column_by_column(row: ExecutionColumns)
    ensures
        execution_fault(row) is None <==> {
            &&& row.id@.len() == 16
            &&& row.kind@.len() > 0
            &&& ExecutionOutcome::named(row.outcome@) is Some
            &&& instant_read(row.scheduled_at@) is Some
            &&& is_time_or_none(row.started_at)
            &&& instant_read(row.finished_at@) is Some
            &&& instant_read(row.created_at@) is Some
        },
        execution_fault(row) is None ==> {
            let read = execution_read(row);
            &&& read.id == be_value(row.id@)
            &&& read.kind == row.kind@
            &&& ExecutionOutcome::named(row.outcome@) == Some(read.outcome)
            &&& opt_text(row.payload) == read.payload
            &&& instant_read(row.scheduled_at@) == Some(read.scheduled_at)
            &&& (row.started_at is None <==> read.started_at is None)
            &&& row.started_at is Some ==> instant_read(row.started_at->0@) == read.started_at
            &&& instant_read(row.finished_at@) == Some(read.finished_at)
            &&& read.attempts == row.attempts
            &&& (row.duration_ms is None <==> read.duration_ms is None)
            &&& row.duration_ms is Some && row.duration_ms->0 >= 0 ==> read.duration_ms == Some(
                row.duration_ms->0 as nat,
            )
            &&& row.duration_ms is Some && row.duration_ms->0 < 0 ==> read.duration_ms == Some(0nat)
            &&& opt_text(row.error) == read.error
            &&& instant_read(row.created_at@) == Some(read.created_at)
        },
{
}

/// Of several columns of a record that cannot be read, the first in the order
/// of the table is blamed.
pub proof fn law_the_first_broken_record_column_is_blamed(row: ExecutionColumns)
    ensures
        row.id@.len() != 16 ==> execution_fault(row) == Some("id"@),
        row.id@.len() == 16 && row.kind@.len() == 0 ==> execution_fault(row) == Some("kind"@),
        row.id@.len() == 16 && row.kind@.len() > 0 && ExecutionOutcome::named(row.outcome@) is None
            ==> execution_fault(row) == Some("outcome"@),
        row.id@.len() == 16 && row.kind@.len() > 0 && ExecutionOutcome::named(row.outcome@) is Some
            ==> {
            &&& instant_read(row.scheduled_at@) is None ==> execution_fault(row) == Some(
                "scheduled_at"@,
            )
            &&& instant_read(row.scheduled_at@) is Some && !is_time_or_none(row.started_at)
                ==> execution_fault(row) == Some("started_at"@)
            &&& instant_read(row.scheduled_at@) is Some && is_time_or_none(row.started_at)
                && instant_read(row.finished_at@) is None ==> execution_fault(row) == Some(
                "finished_at"@,
            )
            &&& instant_read(row.scheduled_at@) is Some && is_time_or_none(row.started_at)
                && instant_read(row.finished_at@) is Some && instant_read(row.created_at@) is None
                ==> execution_fault(row) == Some("created_at"@)
        },
{
}

/// A counter row reads if and only if its kind, outcome and times do; then
/// each column is its field, and a negative counter counts nothing.
pub proof fn law_a_counter_row_reads_column_by_column(row: StatColumns)
    ensures
        stat_fault(row) is None <==> {
            &&& row.kind@.len() > 0
            &&& is_time_or_none(row.last_run_at)
            &&& row.last_outcome is Some ==> ExecutionOutcome::named(row.last_outcome->0@) is Some
            &&& is_time_or_none(row.last_success_at)
            &&& instant_read(row.updated_at@) is Some
        },
        stat_fault(row) is None ==> {
            let read = stat_read(row);
            &&& read.kind == row.kind@
            &&& read.total_runs == if row.total_runs < 0 {
                0
            } else {
                row.total_runs as int
            }
            &&& read.total_failures == if row.total_failures < 0 {
                0
            } else {
                row.total_failures as int
            }
            &&& read.total_duration_ms == if row.total_duration_ms < 0 {
                0
            } else {
                row.total_duration_ms as int
            }
            &&& (row.last_run_at is None <==> read.last_run_at is None)
            &&& row.last_run_at is Some ==> instant_read(row.last_run_at->0@) == read.last_run_at
            &&& (row.last_outcome is None <==> read.last_outcome is None)
            &&& row.last_outcome is Some ==> ExecutionOutcome::named(row.last_outcome->0@)
                == read.last_outcome
            &&& opt_text(row.last_error) == read.last_error
            &&& (row.last_success_at is None <==> read.last_success_at is None)
            &&& row.last_success_at is Some ==> instant_read(row.last_success_at->0@)
                == read.last_success_at
            &&& (row.last_duration_ms is None <==> read.last_duration_ms is None)
            &&& row.last_duration_ms is Some && row.last_duration_ms->0 >= 0
                ==> read.last_duration_ms == Some(row.last_duration_ms->0 as nat)
            &&& instant_read(row.updated_at@) == Some(read.updated_at)
        },
        row.kind@.len() == 0 ==> stat_fault(row) == Some("kind"@),
        row.kind@.len() > 0 && !is_time_or_none(row.last_run_at) ==> stat_fault(row) == Some(
            "last_run_at"@,
        ),
{
}

/// A counter row's later columns are blamed in the order of the table too.
pub proof fn law_the_first_broken_counter_column_is_blamed(row: StatColumns)
    requires
        row.kind@.len() > 0,
        is_time_or_none(row.last_run_at),
    ensures
        row.last_outcome is Some && ExecutionOutcome::named(row.last_outcome->0@) is None
            ==> stat_fault(row) == Some("last_outcome"@),
        row.last_outcome is None && !is_time_or_none(row.last_success_at) ==> stat_fault(row)
            == Some("last_success_at"@),
        row.last_outcome is None && is_time_or_none(row.last_success_at) && instant_read(
            row.updated_at@,
        ) is None ==> stat_fault(row) == Some("updated_at"@),
{
}

/// A registration's row reads if and only if its kind, its four names, its
/// source and its times do; a setting that cannot be read spoils nothing.
/// Then each column is its field.
pub proof fn law_a_registration_row_reads_column_by_column(row: RegistrationColumns)
    ensures
        registration_fault(row) is None <==> {
            &&& row.kind@.len() > 0
            &&& TaskCategory::named(row.category@) is Some
            &&& TaskTier::named(row.trigger_kind@) is Some
            &&& Tracking::named(row.tracking@) is Some
            &&& row.source is Some ==> row.source->0@.len() > 0
            &&& LogPolicy::named(row.log_policy@) is Some
            &&& instant_read(row.first_registered_at@) is Some
            &&& instant_read(row.updated_at@) is Some
        },
        registration_fault(row) is None ==> {
            let read = registration_read(row);
            &&& read.kind == row.kind@
            &&& TaskCategory::named(row.category@) == Some(read.category)
            &&& TaskTier::named(row.trigger_kind@) == Some(read.tier)
            &&& Tracking::named(row.tracking@) == Some(read.tracking)
            &&& read.schedule == row.schedule@
            &&& opt_text(row.source) == read.source
            &&& LogPolicy::named(row.log_policy@) == Some(read.log_policy)
            &&& read.config_enabled == row.config_enabled
            &&& read.paused == row.paused
            &&& read.enabled == row.enabled
            &&& read.registered == row.registered
            &&& instant_read(row.first_registered_at@) == Some(read.first_registered_at)
            &&& instant_read(row.updated_at@) == Some(read.updated_at)
            &&& read.settings.period_secs == lenient_number(row.settings.period_secs@)
            &&& read.settings.at_local == lenient_clock(row.settings.at_local@)
            &&& read.settings.recurrence == lenient_recurring(row.settings.recurrence@)
            &&& read.settings.cooldown_secs == lenient_number(row.settings.cooldown_secs@)
            &&& read.settings.max_backfill_days == lenient_number(row.settings.max_backfill_days@)
        },
{
}

/// Of several columns of a registration that cannot be read, the first in the
/// order of the table is blamed.
pub proof fn law_the_first_broken_registration_column_is_blamed(row: RegistrationColumns)
    ensures
        row.kind@.len() == 0 ==> registration_fault(row) == Some("kind"@),
        row.kind@.len() > 0 && TaskCategory::named(row.category@) is None ==> registration_fault(
            row,
        ) == Some("category"@),
        row.kind@.len() > 0 && TaskCategory::named(row.category@) is Some ==> {
            &&& TaskTier::named(row.trigger_kind@) is None ==> registration_fault(row) == Some(
                "trigger_kind"@,
            )
            &&& TaskTier::named(row.trigger_kind@) is Some && Tracking::named(row.tracking@) is None
                ==> registration_fault(row) == Some("tracking"@)
            &&& TaskTier::named(row.trigger_kind@) is Some && Tracking::named(row.tracking@) is Some
                ==> {
                &&& row.source is Some && row.source->0@.len() == 0 ==> registration_fault(row)
                    == Some("source"@)
                &&& row.source is None && LogPolicy::named(row.log_policy@) is None
                    ==> registration_fault(row) == Some("log_policy"@)
                &&& row.source is None && LogPolicy::named(row.log_policy@) is Some && instant_read(
                    row.first_registered_at@,
                ) is None ==> registration_fault(row) == Some("first_registered_at"@)
                &&& row.source is None && LogPolicy::named(row.log_policy@) is Some && instant_read(
                    row.first_registered_at@,
                ) is Some && instant_read(row.updated_at@) is None ==> registration_fault(row)
                    == Some("updated_at"@)
            }
        },
{
}

/// A payload reads as the time and the two dates between its bars, and as
/// nothing where it has not exactly three fields or one of them cannot be
/// read.
pub proof fn law_a_payload_reads_between_its_bars(
    slot: Seq<char>,
    from: Seq<char>,
    to: Seq<char>,
    payload: Seq<char>,
)
    requires
        !slot.contains('|'),
        !from.contains('|'),
        !to.contains('|'),
        payload == slot + seq!['|'] + from + seq!['|'] + to,
    ensures
        payload_read(payload) is Some <==> instant_read(slot) is Some && date_read(from) is Some
            && date_read(to) is Some,
        payload_read(payload) is Some ==> payload_read(payload) == Some(
            (instant_read(slot)->0, date_read(from)->0, date_read(to)->0),
        ),
{
    let tail = from + seq!['|'] + to;
    assert(payload =~= slot + seq!['|'] + tail);
    text::lemma_cut(slot, '|', tail);
    text::lemma_cut(from, '|', to);
    text::lemma_uncut(to, '|');
    reveal_with_fuel(text::fields, 3);
    assert(text::fields(to, '|') =~= seq![to]);
    assert(text::fields(tail, '|') =~= seq![from, to]);
    assert(text::fields(payload, '|') =~= seq![slot, from, to]);
}

/// A sync run's window is what its payload says; a run without a payload, or
/// with one that cannot be read, is refused with the reason.
pub proof fn law_a_window_is_what_its_payload_says(
    plane: SyncPlane,
    payload: Option<Seq<char>>,
    window: Result<RunWindow, String>,
)
    requires
        plane.reads_window(payload, window),
    ensures
        window is Ok <==> payload is Some && payload_read(payload->0) is Some,
        window is Ok ==> window->Ok_0 is Period,
        window is Ok ==> payload_read(payload->0) == Some(
            (
                window->Ok_0->slot as int,
                window->Ok_0->target.from as int,
                window->Ok_0->target.to as int,
            ),
        ),
        payload is None ==> window->Err_0@ == "sync run has no payload"@,
        payload is Some && window is Err ==> window->Err_0@ == "corrupt sync payload: "@
            + text::quoted_text(payload->0),
        Plane::Sync(plane).reads_window(payload, window),
{
}

/// Only a sync source's runs have a window, whatever their payload.
pub proof fn law_other_runs_have_no_window(
    plane: Plane,
    payload: Option<Seq<char>>,
    window: Result<RunWindow, String>,
)
    requires
        plane !is Sync,
        plane.reads_window(payload, window),
    ensures
        window == Ok::<RunWindow, String>(RunWindow::NoWindow),
{
}

} // verus!
