//! What the sync plane promises: sequential catch-up, no gaps, no repeats.
use crate::calendar::{
    business_between, is_business_day, law_business_day_steps_undo_each_other,
    law_neighbouring_business_days, next_business, previous_business,
};
use crate::cursor::{law_the_cooldown_doubles_up_to_an_hour, CursorState, SyncOutcomeKind};
use crate::moment;
use crate::moment::{lemma_whole_millis, secs_after};
use crate::plane::{SeedFault, SeedPass, TaskOutcome};
use crate::queue::{RowState, TaskStatus};
use crate::queue_laws::{is_added, lemma_added};
use crate::schedule::{
    law_a_run_covers_what_is_left_before_its_date, law_daily_catch_up_covers_one_day_per_slot,
    law_latest_occurrence_is_the_last_before, law_next_occurrence_is_the_first_after,
    law_slot_falls_on_its_own_date, law_storing_keeps_the_next_occurrence, Recurrence,
};
use crate::sync_plane::{payload_text, Halt, SeedPlan, SyncPlane};
use crate::task_queue::{has_id, has_kind};
use vstd::arithmetic::power2::pow2;
use vstd::prelude::*;

verus! {

/// Whether a cursor stands where the run of a business day leaves it: at
/// that day's slot, with everything before the day covered.
pub open spec fn stands_at_day(plane: SyncPlane, cursor: CursorState, day: int) -> bool {
    cursor.through_slot == plane.schedule.slot_on(day) && cursor.through_target
        == previous_business(day)
}

/// While a row of the kind is queued, nothing is seeded.
pub proof fn law_an_active_run_blocks_the_next(
    plane: SyncPlane,
    stored: Option<CursorState>,
    now: int,
)
    ensures
        plane.plan(true, stored, now) is Idle,
{
}

/// Catch-up is sequential. Where a daily source was left by the run of one
/// business day, the next pass seeds the slot of the next business day,
/// covering exactly the day in between; once done, the cursor stands where
/// the run of that next business day leaves it. So missed days are run one
/// by one, in order, none skipped and none twice.
pub proof fn law_missed_days_backfill_in_order(
    plane: SyncPlane,
    cursor: CursorState,
    day: int,
    now: int,
    done_at: int,
)
    requires
        plane.schedule.wf(),
        plane.schedule.recurrence == Recurrence::Daily,
        is_business_day(day),
        stands_at_day(plane, cursor, day),
        cursor.source == plane.source@,
        cursor.ready(now),
        moment::valid_date(plane.schedule.calendar.day_of(now)),
        business_between(cursor.through_target, plane.schedule.calendar.day_of(now))
            <= plane.max_backfill_days,
        moment::valid_date(day),
        moment::valid_date(next_business(day)),
        moment::valid_instant(plane.schedule.slot_on(next_business(day))),
    ensures
        plane.plan(false, Some(cursor), now) == (SeedPlan::Seed {
            cursor,
            fresh: false,
            slot: plane.schedule.slot_on(next_business(day)),
            from: day,
            to: day,
        }),
        plane.settled(
            Some(cursor),
            plane.schedule.slot_on(next_business(day)),
            day,
            day,
            TaskOutcome::Done,
            done_at,
        ) matches Some(after) && stands_at_day(plane, after.stored(), next_business(day)),
{
    law_daily_catch_up_covers_one_day_per_slot(plane.schedule, day);
    law_business_day_steps_undo_each_other(day);
}

/// A source that is still cooling down seeds nothing, unless it is so far
/// behind that it starts over.
pub proof fn law_cooldown_seeds_nothing(plane: SyncPlane, cursor: CursorState, now: int)
    requires
        !cursor.ready(now),
        business_between(cursor.through_target, plane.schedule.calendar.day_of(now))
            <= plane.max_backfill_days,
    ensures
        plane.plan(false, Some(cursor), now) is Idle,
{
}

/// A failed or unready run halts on its own period: whatever was recorded,
/// the next run that is seeded has the same slot and the same dates.
pub proof fn law_a_halt_retries_the_same_period(
    plane: SyncPlane,
    cursor: CursorState,
    error: Seq<char>,
    until: int,
    failed_at: int,
    now: int,
)
    requires
        cursor.ready(now),
        until <= now,
        business_between(cursor.through_target, plane.schedule.calendar.day_of(now))
            <= plane.max_backfill_days,
    ensures
        plane.plan(false, Some(cursor), now) matches SeedPlan::Seed { slot, from, to, .. } ==> {
            &&& plane.plan(
                false,
                Some(cursor.failed(error, until, failed_at).stored()),
                now,
            ) matches SeedPlan::Seed { slot: s, from: f, to: t, .. } && s == slot && f == from && t
                == to
            &&& plane.plan(
                false,
                Some(cursor.held(until, failed_at).stored()),
                now,
            ) matches SeedPlan::Seed { slot: s, from: f, to: t, .. } && s == slot && f == from && t
                == to
        },
{
    law_storing_keeps_the_next_occurrence(plane.schedule, cursor.through_slot);
    lemma_whole_millis(until);
}

/// A run that was not ready while its cursor had vanished is not lost: once
/// the cooldown is over, the next pass seeds the same slot with the same
/// dates.
#[verifier::spinoff_prover]
#[verifier::rlimit(40)]
pub proof fn law_a_vanished_cursor_retries_the_same_period(
    plane: SyncPlane,
    before: Option<CursorState>,
    seeded_at: int,
    retry_after_secs: u32,
    held_at: int,
    now: int,
)
    requires
        plane.schedule.wf(),
        moment::valid_date(plane.schedule.calendar.day_of(now)),
        ({
            let seeded = plane.plan(false, before, seeded_at);
            &&& seeded is Seed
            &&& moment::valid_date(previous_business(seeded->from))
            &&& business_between(
                previous_business(seeded->from),
                plane.schedule.calendar.day_of(now),
            ) <= plane.max_backfill_days
        }),
        secs_after(held_at, retry_after_secs as nat) <= now,
    ensures
        ({
            let seeded = plane.plan(false, before, seeded_at);
            let held = plane.settled(
                None,
                seeded->slot,
                seeded->from,
                seeded->to,
                TaskOutcome::NotReady { retry_after_secs },
                held_at,
            );
            &&& held is Some
            &&& held->0.stored().through_slot < seeded->slot
            &&& plane.plan(false, Some(held->0.stored()), now) == (SeedPlan::Seed {
                cursor: held->0.stored(),
                fresh: false,
                slot: seeded->slot,
                from: seeded->from,
                to: seeded->to,
            })
        }),
{
    let seeded = plane.plan(false, before, seeded_at);
    if let SeedPlan::Seed { cursor, slot, from, .. } = seeded {
        law_next_occurrence_is_the_first_after(plane.schedule, cursor.through_slot);
        law_next_occurrence_is_the_first_after(plane.schedule, moment::second_before(slot));
        law_storing_keeps_the_next_occurrence(plane.schedule, moment::second_before(slot));
        lemma_whole_millis(secs_after(held_at, retry_after_secs as nat));
        assert(plane.schedule.is_occurrence(slot));
        let again = plane.schedule.next_slot(moment::second_before(slot))->0;
        let day = choose|day: int| #[trigger]
            plane.schedule.fires_on(day) && slot == plane.schedule.slot_on(day);
        let same = choose|day: int| #[trigger]
            plane.schedule.fires_on(day) && again == plane.schedule.slot_on(day);
        assert(day == same);
        law_neighbouring_business_days(cursor.through_target);
        law_business_day_steps_undo_each_other(from);
    }
}

/// Running a period again that the cursor already records leaves the
/// position as it is.
pub proof fn law_rerunning_a_recorded_slot_keeps_the_position(
    plane: SyncPlane,
    cursor: CursorState,
    from: int,
    now: int,
)
    ensures
        plane.settled(
            Some(cursor),
            cursor.through_slot,
            from,
            cursor.through_target,
            TaskOutcome::Done,
            now,
        ) matches Some(after) && after.through_slot == cursor.through_slot && after.through_target
            == cursor.through_target,
{
}

/// A source without a cursor runs only the most recent occurrence.
pub proof fn law_cold_start_runs_the_latest_occurrence(plane: SyncPlane, now: int)
    requires
        plane.schedule.wf(),
        moment::valid_instant(now),
        plane.plan(false, None, now) is Seed,
    ensures
        plane.schedule.latest_slot(now) == Some(plane.plan(false, None, now)->slot),
        plane.plan(false, None, now)->fresh,
{
    let schedule = plane.schedule;
    let latest = schedule.latest_slot(now)->0;
    let previous = schedule.latest_slot(latest)->0;
    law_latest_occurrence_is_the_last_before(schedule, now);
    law_latest_occurrence_is_the_last_before(schedule, latest);
    law_next_occurrence_is_the_first_after(schedule, previous);
    let next = schedule.next_slot(previous)->0;
    assert(schedule.is_occurrence(latest));
    assert(schedule.is_occurrence(next));
    assert(next == latest);
}

/// A fresh daily source covers exactly the business day before its latest
/// occurrence: no history.
pub proof fn law_daily_cold_start_covers_one_day(plane: SyncPlane, now: int)
    requires
        plane.schedule.wf(),
        plane.schedule.recurrence == Recurrence::Daily,
        moment::valid_instant(now),
        plane.plan(false, None, now) is Seed,
    ensures
        plane.plan(false, None, now)->from == previous_business(
            plane.schedule.calendar.day_of(plane.plan(false, None, now)->slot),
        ),
        plane.plan(false, None, now)->to == plane.plan(false, None, now)->from,
{
    let schedule = plane.schedule;
    law_cold_start_runs_the_latest_occurrence(plane, now);
    let latest = schedule.latest_slot(now)->0;
    let previous = schedule.latest_slot(latest)->0;
    law_latest_occurrence_is_the_last_before(schedule, latest);
    let day = choose|day: int| #[trigger]
        schedule.fires_on(day) && previous == schedule.slot_on(day);
    law_slot_falls_on_its_own_date(schedule, day);
    law_slot_falls_on_its_own_date(schedule, next_business(day));
    law_business_day_steps_undo_each_other(day);
    law_neighbouring_business_days(day);
    assert((previous - schedule.base()) / (moment::DAY_TICKS as int) == day);
    assert(schedule.next_slot(previous) == Some(schedule.slot_on(next_business(day))));
}

/// A cursor too far behind is dropped: the pass does what it does for a
/// source that never ran.
pub proof fn law_a_stale_cursor_starts_over(plane: SyncPlane, cursor: CursorState, now: int)
    requires
        business_between(cursor.through_target, plane.schedule.calendar.day_of(now))
            > plane.max_backfill_days,
    ensures
        plane.plan(false, Some(cursor), now) == plane.plan(false, None, now),
{
}

/// A seeded run is scheduled strictly after everything the cursor covers,
/// and its dates follow what was covered.
pub proof fn law_seeded_runs_move_forward(
    plane: SyncPlane,
    stored: Option<CursorState>,
    now: int,
)
    requires
        plane.schedule.wf(),
    ensures
        plane.plan(false, stored, now) matches SeedPlan::Seed { cursor, slot, from, to, .. } ==> {
            &&& cursor.through_slot < slot
            &&& cursor.through_target < from
            &&& from <= to
            &&& to < plane.schedule.calendar.day_of(slot)
        },
{
    if let SeedPlan::Seed { cursor, slot, .. } = plane.plan(false, stored, now) {
        law_next_occurrence_is_the_first_after(plane.schedule, cursor.through_slot);
        law_neighbouring_business_days(cursor.through_target);
        law_neighbouring_business_days(plane.schedule.calendar.day_of(slot));
    }
}

/// A source without a cursor covers the whole of its latest period, daily or
/// weekly: from the date of the occurrence before the latest one up to the
/// last business day before the latest one. No business day of the period is
/// left out, and none before it is synced.
pub proof fn law_a_cold_start_covers_its_latest_period(plane: SyncPlane, now: int)
    requires
        plane.schedule.wf(),
        moment::valid_instant(now),
        plane.plan(false, None, now) is Seed,
    ensures
        ({
            let latest = plane.schedule.latest_slot(now);
            let previous = plane.schedule.latest_slot(latest->0);
            let plan = plane.plan(false, None, now);
            &&& latest is Some && previous is Some
            &&& plan->slot == latest->0
            &&& plan->from == plane.schedule.calendar.day_of(previous->0)
            &&& plan->to < plane.schedule.calendar.day_of(latest->0)
            &&& forall|day: int| #[trigger]
                is_business_day(day) ==> (plane.schedule.calendar.day_of(previous->0) <= day
                    < plane.schedule.calendar.day_of(latest->0) <==> plan->from <= day <= plan->to)
        }),
{
    let schedule = plane.schedule;
    law_cold_start_runs_the_latest_occurrence(plane, now);
    let latest = schedule.latest_slot(now)->0;
    let previous = schedule.latest_slot(latest)->0;
    law_latest_occurrence_is_the_last_before(schedule, latest);
    let day = choose|day: int| #[trigger]
        schedule.fires_on(day) && previous == schedule.slot_on(day);
    law_slot_falls_on_its_own_date(schedule, day);
    law_business_day_steps_undo_each_other(day);
    law_neighbouring_business_days(schedule.calendar.day_of(latest));
}

/// The cursor of a cold start stands at the occurrence before the latest one,
/// with every business day before that date covered, open and without a
/// record of any run. It fails only where the schedule has no two occurrences
/// behind it, or where the calendar begins.
pub proof fn law_a_cold_start_steps_back_one_occurrence(plane: SyncPlane, now: int)
    ensures
        ({
            let latest = plane.schedule.latest_slot(now);
            let previous = plane.schedule.latest_slot(latest->0);
            let date = plane.schedule.calendar.day_of(previous->0);
            match plane.cold_start(now) {
                Some(cursor) => {
                    &&& latest is Some && previous is Some
                    &&& cursor.source == plane.source@
                    &&& cursor.through_slot == previous->0
                    &&& cursor.through_target < date
                    &&& is_business_day(cursor.through_target)
                    &&& forall|day: int|
                        cursor.through_target < day < date ==> !#[trigger] is_business_day(day)
                    &&& cursor.cooldown_until is None && cursor.last_outcome is None
                    &&& cursor.consecutive_failures == 0 && cursor.last_error is None
                    &&& cursor.updated_at == now
                },
                None => latest is None || previous is None || date > moment::LAST_DAY || date
                    < moment::FIRST_DAY + 3,
            }
        }),
{
    let latest = plane.schedule.latest_slot(now);
    let previous = plane.schedule.latest_slot(latest->0);
    law_neighbouring_business_days(plane.schedule.calendar.day_of(previous->0));
}

/// A source without a cursor runs at once, wherever the calendar reaches two
/// occurrences back.
pub proof fn law_a_new_source_is_seeded_at_once(plane: SyncPlane, now: int)
    requires
        plane.schedule.wf(),
        moment::valid_instant(now),
        moment::valid_date(plane.schedule.calendar.day_of(now)),
        plane.schedule.latest_slot(now) is Some,
        plane.schedule.latest_slot(plane.schedule.latest_slot(now)->0) is Some,
        ({
            let latest = plane.schedule.latest_slot(now)->0;
            let previous = plane.schedule.latest_slot(latest)->0;
            moment::FIRST_DAY + 3 <= plane.schedule.calendar.day_of(previous)
                && plane.schedule.calendar.day_of(latest) <= moment::LAST_DAY
        }),
    ensures
        plane.plan(false, None, now) is Seed,
        plane.plan(false, None, now)->fresh,
{
    let schedule = plane.schedule;
    let latest = schedule.latest_slot(now)->0;
    let previous = schedule.latest_slot(latest)->0;
    law_latest_occurrence_is_the_last_before(schedule, now);
    law_latest_occurrence_is_the_last_before(schedule, latest);
    law_next_occurrence_is_the_first_after(schedule, previous);
    assert(schedule.is_occurrence(latest));
    let day = choose|day: int| #[trigger]
        schedule.fires_on(day) && previous == schedule.slot_on(day);
    let last = choose|day: int| #[trigger] schedule.fires_on(day) && latest == schedule.slot_on(day);
    law_slot_falls_on_its_own_date(schedule, day);
    law_slot_falls_on_its_own_date(schedule, last);
    assert(day < last);
    law_neighbouring_business_days(day);
    law_neighbouring_business_days(last);
    law_business_day_steps_undo_each_other(day);
    assert(moment::valid_instant(latest));
    assert(schedule.next_slot(previous) is Some);
    let next = schedule.next_slot(previous)->0;
    assert(schedule.is_occurrence(next));
    assert(next == latest);
}

/// A stored cursor that is open and not too far behind decides the next run:
/// the first occurrence after its slot, covering exactly the business days
/// after its last date and before the date of that occurrence. Where none is
/// left the slot is stepped over, and nothing is seeded only where no
/// occurrence is left.
pub proof fn law_a_seeded_run_follows_its_cursor(plane: SyncPlane, cursor: CursorState, now: int)
    requires
        plane.schedule.wf(),
        moment::valid_instant(cursor.through_slot),
        moment::valid_date(cursor.through_target),
        cursor.cooldown_until matches Some(until) ==> until <= now,
        moment::valid_date(plane.schedule.calendar.day_of(now)),
        business_between(cursor.through_target, plane.schedule.calendar.day_of(now))
            <= plane.max_backfill_days,
    ensures
        match plane.plan(false, Some(cursor), now) {
            SeedPlan::Seed { cursor: kept, fresh, slot, from, to } => {
                &&& kept == cursor && !fresh
                &&& first_occurrence_after(plane, cursor.through_slot, slot)
                &&& forall|day: int| #[trigger]
                    is_business_day(day) ==> (cursor.through_target < day
                        < plane.schedule.calendar.day_of(slot) <==> from <= day <= to)
                &&& from <= to
            },
            SeedPlan::StepOver { cursor: stepped } => {
                &&& stepped.source == plane.source@
                &&& first_occurrence_after(plane, cursor.through_slot, stepped.through_slot)
                &&& stepped.through_target == cursor.through_target
                &&& stepped.cooldown_until is None && stepped.last_outcome is None
                &&& stepped.consecutive_failures == 0 && stepped.last_error is None
                &&& stepped.updated_at == now
                &&& moment::valid_date(plane.schedule.calendar.day_of(stepped.through_slot))
                    ==> forall|day: int| #[trigger]
                    is_business_day(day) && moment::valid_date(day) ==> !(cursor.through_target
                        < day < plane.schedule.calendar.day_of(stepped.through_slot))
            },
            SeedPlan::Idle => forall|slot: int|
                cursor.through_slot < slot && moment::valid_instant(slot)
                    ==> !#[trigger] plane.schedule.is_occurrence(slot),
        },
{
    law_next_occurrence_is_the_first_after(plane.schedule, cursor.through_slot);
    law_neighbouring_business_days(cursor.through_target);
    match plane.plan(false, Some(cursor), now) {
        SeedPlan::Seed { slot, .. } => {
            law_neighbouring_business_days(plane.schedule.calendar.day_of(slot));
        },
        SeedPlan::StepOver { cursor: stepped } => {
            let slot = stepped.through_slot;
            law_neighbouring_business_days(plane.schedule.calendar.day_of(slot));
            assert(plane.schedule.next_slot(cursor.through_slot) == Some(slot));
            if moment::valid_date(plane.schedule.calendar.day_of(slot)) {
                assert forall|day: int| #[trigger]
                    is_business_day(day) && moment::valid_date(day) implies !(cursor.through_target
                    < day < plane.schedule.calendar.day_of(slot)) by {
                    law_a_run_covers_what_is_left_before_its_date(
                        plane.schedule,
                        cursor.through_target,
                        slot,
                        day,
                    );
                }
            }
        },
        SeedPlan::Idle => {},
    }
}

/// Whether `slot` is the plane's first occurrence after an instant.
pub open spec fn first_occurrence_after(plane: SyncPlane, after: int, slot: int) -> bool {
    &&& after < slot
    &&& plane.schedule.is_occurrence(slot)
    &&& forall|between: int|
        after < between < slot ==> !#[trigger] plane.schedule.is_occurrence(between)
}

/// What an outcome makes of the cursor. A run that is done stands at its own
/// slot and last date; one that was not ready holds its source for as long as
/// was asked for, where it stood, or before its slot and its first date where
/// the cursor had vanished; a failure leaves the cursor alone.
pub proof fn law_an_outcome_settles_the_cursor(
    plane: SyncPlane,
    stored: Option<CursorState>,
    slot: int,
    from: int,
    to: int,
    outcome: TaskOutcome,
    now: int,
)
    requires
        moment::valid_instant(now),
        stored matches Some(cursor) ==> cursor.source == plane.source@,
    ensures
        ({
            let settled = plane.settled(stored, slot, from, to, outcome, now);
            match outcome {
                TaskOutcome::Done => {
                    &&& settled matches Some(after) && after.source == plane.source@
                    &&& (settled->0.through_slot, settled->0.through_target) == (slot, to)
                    &&& settled->0.cooldown_until is None && settled->0.last_error is None
                    &&& settled->0.consecutive_failures == 0
                    &&& settled->0.last_outcome == Some(SyncOutcomeKind::Synced)
                    &&& settled->0.updated_at == now
                },
                TaskOutcome::NotReady { retry_after_secs } => {
                    &&& settled matches Some(after) && after.source == plane.source@
                    &&& stored matches Some(cursor) ==> settled->0.through_slot
                        == cursor.through_slot && settled->0.through_target == cursor.through_target
                        && settled->0.consecutive_failures == cursor.consecutive_failures
                    &&& stored is None ==> slot - 4_000_000_000 < settled->0.through_slot < slot
                        && settled->0.consecutive_failures == 0
                    &&& stored is None && moment::valid_date(from - 3) && moment::valid_date(from)
                        ==> settled->0.through_target < from && is_business_day(
                        settled->0.through_target,
                    ) && forall|day: int|
                        settled->0.through_target < day < from ==> !#[trigger] is_business_day(day)
                    &&& now % 2_000_000_000 < 1_000_000_000 && now + retry_after_secs * 2_000_000_000
                        <= moment::LAST_INSTANT ==> settled->0.cooldown_until == Some(
                        now + retry_after_secs * 2_000_000_000,
                    )
                    &&& settled->0.cooldown_until == Some(secs_after(now, retry_after_secs as nat))
                    &&& settled->0.last_outcome == Some(SyncOutcomeKind::NotReady)
                    &&& settled->0.last_error is None
                    &&& settled->0.updated_at == now
                },
                TaskOutcome::Failed(_) => settled is None,
            }
        }),
{
    moment::law_the_second_before(slot);
    law_neighbouring_business_days(from);
    if let TaskOutcome::NotReady { retry_after_secs } = outcome {
        moment::law_seconds_later(now, retry_after_secs as nat);
    }
}

/// A halt tells how often in a row the source has failed and until when it is
/// left alone: the cooldown, doubled with each failure after the first, one
/// hour at most. It is an error from the fifth on.
pub proof fn law_a_halt_waits_a_doubling_cooldown(
    plane: SyncPlane,
    failed: CursorState,
    now: int,
    halt: Halt,
)
    requires
        plane.halts(failed, now, halt),
        moment::valid_instant(now),
        failed.consecutive_failures >= 1,
    ensures
        halt.failures == failed.consecutive_failures,
        halt.escalated <==> failed.consecutive_failures >= 5,
        ({
            let full = plane.cooldown.base_secs as nat * pow2(
                (failed.consecutive_failures - 1) as nat,
            );
            let wait = if full <= 3600 {
                full
            } else {
                3600
            };
            let start = if wait > 0 && now % 2_000_000_000 >= 1_000_000_000 {
                now - 1_000_000_000
            } else {
                now
            };
            halt.until == if start + wait * 2_000_000_000 <= moment::LAST_INSTANT {
                start + wait * 2_000_000_000
            } else {
                moment::LAST_INSTANT as int
            }
        }),
{
    law_the_cooldown_doubles_up_to_an_hour(plane.cooldown, failed.consecutive_failures);
    moment::law_seconds_later(now, plane.cooldown.secs(failed.consecutive_failures));
}

/// What a seeding pass does, by its results. Where a run is planned it is
/// queued under the new id at its slot, with the period in its payload and
/// the source's own retry policy, and a fresh cursor is stored; a pass that
/// does not queue leaves the queue alone; and it fails only for want of a
/// name or of a free id.
pub proof fn law_a_sync_pass_queues_the_planned_run(
    plane: SyncPlane,
    before: Seq<RowState>,
    after: Seq<RowState>,
    cursors: Map<Seq<char>, CursorState>,
    kept: Map<Seq<char>, CursorState>,
    now: int,
    new_id: int,
    pass: Result<SeedPass, SeedFault>,
)
    requires
        plane.passes(before, after, cursors, kept, now, new_id, pass),
        moment::valid_instant(now),
    ensures
        ({
            let active = exists|i: int|
                0 <= i < before.len() && (#[trigger] before[i]).task.kind == plane.kind@;
            let stored = if cursors.dom().contains(plane.source@) {
                Some(cursors[plane.source@])
            } else {
                None
            };
            let plan = plane.plan(active, stored, now);
            &&& plane.kind@.len() == 0 ==> pass is Err && after == before && kept == cursors
            &&& plane.kind@.len() > 0 && !(plan is Seed) ==> (pass matches Ok(SeedPass::Idle))
                && after == before
            &&& plane.kind@.len() > 0 && plan is Idle ==> kept == cursors
            &&& plane.kind@.len() > 0 ==> (plan matches SeedPlan::StepOver { cursor } ==> kept
                == cursors.insert(plane.source@, cursor.stored()))
            &&& plane.kind@.len() > 0 && plan is Seed && has_id(before, new_id) ==> pass is Err
                && after == before && kept == cursors
            &&& plane.kind@.len() > 0 && plan is Seed && !has_id(before, new_id) ==> {
                &&& pass matches Ok(SeedPass::Seeded)
                &&& kept == if plan->fresh {
                    cursors.insert(plane.source@, plan->Seed_cursor.stored())
                } else {
                    cursors
                }
                &&& exists|row: RowState|
                    {
                        &&& #[trigger] is_added(before, after, row)
                        &&& row.task.id == new_id && row.task.kind == plane.kind@
                        &&& row.task.status == TaskStatus::Pending && row.task.attempts == 0
                        &&& row.task.scheduled_at == moment::stored_instant(plan->slot)
                        &&& row.task.payload == Some(payload_text(plan->slot, plan->from, plan->to))
                        &&& row.task.max_attempts == plane.retry.max_attempts
                        &&& row.task.retry_delay_secs == plane.retry.retry_delay_secs
                        &&& row.version == 1
                    }
            }
        }),
{
    let active = has_kind(before, plane.kind@);
    let plan = plane.plan(active, plane.stored(cursors), now);
    if let SeedPlan::Seed { slot, from, to, .. } = plan {
        let row = plane.seed_row(new_id, slot, from, to, now);
        lemma_added(before, row);
    }
}

/// A run's payload names its slot and its first and last date, in that order.
pub proof fn law_a_payload_names_slot_and_dates(slot: int, from: int, to: int)
    ensures
        payload_text(slot, from, to) == moment::instant_text(slot) + seq!['|'] + moment::date_text(
            from,
        ) + seq!['|'] + moment::date_text(to),
{
    assert(payload_text(slot, from, to) =~= moment::instant_text(slot) + seq!['|']
        + moment::date_text(from) + seq!['|'] + moment::date_text(to));
}

} // verus!
