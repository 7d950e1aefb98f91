//! The sync plane: cursor-driven recurrence with sequential catch-up.
//!
//! Each source owns a durable cursor. A seeding pass keeps at most one row
//! alive per source, scheduled at the next occurrence after the cursor: a
//! stale cursor yields a past-due row, a current one a future row, so that
//! catch-up and steady state are the same code path, one slot at a time.
use crate::calendar::{business_between, previous_business};
use crate::cursor::{opt_text, CooldownPolicy, CursorState, CursorStore, SyncCursor, SyncSource};
use crate::moment;
use crate::plane::{
    window_wf, Interpretation, RunWindow, SeedFault, SeedPass, TaskFailure, TaskOutcome,
};
use crate::queue::{pending_task, BackgroundTask, RetryPolicy, RowState, TaskKind};
use crate::schedule::{Schedule, TargetPeriod};
use crate::task_queue::{has_id, has_kind, placed, TaskQueue};
use crate::text;
use vstd::prelude::*;

verus! {

/// Consecutive terminal failures from which a halt is reported as an error.
pub const ESCALATE_AFTER_FAILURES: u32 = 5;

// ---------------------------------------------------------------- payload
/// `slot|from|to`.
pub open spec fn payload_text(slot: int, from: int, to: int) -> Seq<char> {
    moment::instant_text(slot) + seq!['|'] + (moment::date_text(from) + seq!['|']
        + moment::date_text(to))
}

/// The slot and the dates that a payload names: exactly three fields between
/// bars, a time and two dates.
pub open spec fn payload_read(payload: Seq<char>) -> Option<(int, int, int)> {
    let fields = text::fields(payload, '|');
    if fields.len() == 3 {
        match (
            moment::instant_read(fields[0]),
            moment::date_read(fields[1]),
            moment::date_read(fields[2]),
        ) {
            (Some(slot), Some(from), Some(to)) => Some((slot, from, to)),
            _ => None,
        }
    } else {
        None
    }
}

/// Writes a run's payload. In the years 0000 to 9999 it reads back as the
/// same slot, to the millisecond, and the same dates.
pub fn encode_payload(slot: i128, target: TargetPeriod) -> (payload: String)
    requires
        moment::valid_instant(slot as int),
        moment::valid_date(target.from as int),
        moment::valid_date(target.to as int),
    ensures
        payload@ == payload_text(slot as int, target.from as int, target.to as int),
        moment::rfc3339_year(slot as int) ==> payload_read(payload@) == Some(
            (moment::whole_millis(slot as int), target.from as int, target.to as int),
        ),
{
    let slot_text = moment::canonical_timestamp(slot);
    let from_text = moment::canonical_date(target.from);
    let to_text = moment::canonical_date(target.to);
    let mut dates = from_text.clone();
    dates.push('|');
    dates.append(to_text.as_str());
    let mut payload = slot_text.clone();
    payload.push('|');
    payload.append(dates.as_str());
    proof {
        assert(dates@ =~= from_text@ + seq!['|'] + to_text@);
        assert(payload@ =~= slot_text@ + seq!['|'] + dates@);
        text::lemma_cut(slot_text@, '|', dates@);
        text::lemma_cut(from_text@, '|', to_text@);
        text::lemma_uncut(to_text@, '|');
        reveal_with_fuel(text::fields, 4);
        assert(text::fields(payload@, '|') =~= seq![slot_text@, from_text@, to_text@]);
    }
    payload
}

/// Reads a run's payload; `None` when it is corrupt.
pub fn decode_payload(payload: &str) -> (decoded: Option<(i128, TargetPeriod)>)
    ensures
        decoded is Some <==> payload_read(payload@) is Some,
        decoded matches Some(d) ==> {
            &&& payload_read(payload@) == Some((d.0 as int, d.1.from as int, d.1.to as int))
            &&& moment::valid_instant(d.0 as int)
            &&& moment::valid_instant(moment::second_before(d.0 as int))
            &&& moment::valid_date(d.1.from as int)
            &&& moment::valid_date(d.1.to as int)
        },
{
    proof {
        reveal_with_fuel(text::fields, 4);
    }
    let (slot_text, dates) = match text::split_once(payload, '|') {
        Some(parts) => parts,
        None => {
            return None;
        },
    };
    let (from_text, to_text) = match text::split_once(dates.as_str(), '|') {
        Some(parts) => parts,
        None => {
            return None;
        },
    };
    if text::split_once(to_text.as_str(), '|').is_some() {
        return None;
    }
    let ghost fields = text::fields(payload@, '|');
    assert(fields =~= seq![slot_text@, from_text@, to_text@]);
    let slot: i128 = match moment::read_instant(slot_text.as_str()) {
        Some(slot) => slot,
        None => {
            return None;
        },
    };
    let from: i32 = match moment::read_date(from_text.as_str()) {
        Some(day) => day,
        None => {
            return None;
        },
    };
    let to: i32 = match moment::read_date(to_text.as_str()) {
        Some(day) => day,
        None => {
            return None;
        },
    };
    Some((slot, TargetPeriod { from, to }))
}

// ---------------------------------------------------------------- the plane
/// The scheduling semantics of one sync source.
#[derive(Clone, Debug)]
pub struct SyncPlane {
    pub kind: String,
    pub source: SyncSource,
    pub schedule: Schedule,
    pub retry: RetryPolicy,
    pub cooldown: CooldownPolicy,
    pub max_backfill_days: u32,
}

/// What a seeding pass should do.
pub enum SeedPlan {
    /// Nothing.
    Idle,
    /// Everything up to the slot is covered: step over it without a run.
    StepOver { cursor: CursorState },
    /// Queue the run of `slot`; a fresh cursor is recorded first.
    Seed { cursor: CursorState, fresh: bool, slot: int, from: int, to: int },
}

impl SyncPlane {
    /// The cursor of a source without one: a step back from the most recent
    /// occurrence, so that this one runs at once and no history does.
    pub open spec fn cold_start(&self, now: int) -> Option<CursorState> {
        match self.schedule.latest_slot(now) {
            None => None,
            Some(latest) => match self.schedule.latest_slot(latest) {
                None => None,
                Some(previous) => {
                    let date = self.schedule.calendar.day_of(previous);
                    if moment::valid_date(date) && moment::valid_date(previous_business(date)) {
                        Some(
                            CursorState::seeded(
                                self.source@,
                                previous,
                                previous_business(date),
                                now,
                            ),
                        )
                    } else {
                        None
                    }
                },
            },
        }
    }

    /// The cursor to work from, and whether it is a fresh one: the stored
    /// one, unless it is missing or too far behind to catch up unattended.
    pub open spec fn resolved(&self, stored: Option<CursorState>, now: int) -> Option<
        (CursorState, bool),
    > {
        let today = self.schedule.calendar.day_of(now);
        if stored is Some && business_between(stored->0.through_target, today)
            <= self.max_backfill_days {
            Some((stored->0, false))
        } else {
            match self.cold_start(now) {
                Some(cursor) => Some((cursor, true)),
                None => None,
            }
        }
    }

    /// What a seeding pass does, given whether a row of the kind is queued
    /// and which cursor is stored.
    pub open spec fn plan(&self, active: bool, stored: Option<CursorState>, now: int) -> SeedPlan {
        if active || !moment::valid_date(self.schedule.calendar.day_of(now)) {
            SeedPlan::Idle
        } else {
            match self.resolved(stored, now) {
                None => SeedPlan::Idle,
                Some((cursor, fresh)) => if !cursor.ready(now) {
                    SeedPlan::Idle
                } else {
                    match self.schedule.next_slot(cursor.through_slot) {
                        None => SeedPlan::Idle,
                        Some(slot) => match self.schedule.period(cursor.through_target, slot) {
                            None => SeedPlan::StepOver {
                                cursor: CursorState::seeded(
                                    self.source@,
                                    slot,
                                    cursor.through_target,
                                    now,
                                ),
                            },
                            Some((from, to)) => SeedPlan::Seed { cursor, fresh, slot, from, to },
                        },
                    }
                },
            }
        }
    }

    /// The stored cursor of this source.
    pub open spec fn stored(&self, cursors: Map<Seq<char>, CursorState>) -> Option<CursorState> {
        if cursors.dom().contains(self.source@) {
            Some(cursors[self.source@])
        } else {
            None
        }
    }

    /// The row a pass queues.
    pub open spec fn seed_row(&self, id: int, slot: int, from: int, to: int, now: int) -> RowState {
        RowState::fresh(
            pending_task(
                id,
                self.kind@,
                Some(payload_text(slot, from, to)),
                slot,
                self.retry,
                now,
            ),
        )
    }

    pub fn new(
        kind: &str,
        source: &SyncSource,
        schedule: Schedule,
        retry: RetryPolicy,
        cooldown: CooldownPolicy,
        max_backfill_days: u32,
    ) -> (plane: SyncPlane)
        ensures
            plane.kind@ == kind@,
            plane.source@ == source@,
            plane.schedule == schedule,
            plane.retry == retry,
            plane.cooldown == cooldown,
            plane.max_backfill_days == max_backfill_days,
    {
        SyncPlane {
            kind: kind.to_owned(),
            source: source.copied(),
            schedule,
            retry,
            cooldown,
            max_backfill_days,
        }
    }

    /// The cold-start cursor; `None` when the schedule has no occurrence.
    pub fn cold_start_cursor(&self, now: i128) -> (cursor: Option<SyncCursor>)
        requires
            self.schedule.wf(),
            moment::valid_instant(now as int),
        ensures
            cursor is Some <==> self.cold_start(now as int) is Some,
            cursor matches Some(c) ==> self.cold_start(now as int) == Some(c@) && c@.wf(),
    {
        let latest: i128 = match self.schedule.latest_occurrence_before(now) {
            Some(slot) => slot,
            None => {
                return None;
            },
        };
        let previous: i128 = match self.schedule.latest_occurrence_before(latest) {
            Some(slot) => slot,
            None => {
                return None;
            },
        };
        let date: i32 = match self.schedule.calendar.local_date(previous) {
            Some(day) => day,
            None => {
                return None;
            },
        };
        let through: i32 = match self.schedule.calendar.previous_business_day(date) {
            Some(day) => day,
            None => {
                return None;
            },
        };
        Some(SyncCursor::seeded(&self.source, previous, through, now))
    }

    /// What a seeding pass does to the queue and the cursors.
    pub open spec fn passes(
        &self,
        before: Seq<RowState>,
        after: Seq<RowState>,
        cursors: Map<Seq<char>, CursorState>,
        kept: Map<Seq<char>, CursorState>,
        now: int,
        new_id: int,
        pass: Result<SeedPass, SeedFault>,
    ) -> bool {
        if self.kind@.len() == 0 {
            &&& pass matches Err(e) && e@ == "name must not be empty"@
            &&& after == before
            &&& kept == cursors
        } else {
            match self.plan(has_kind(before, self.kind@), self.stored(cursors), now) {
                SeedPlan::Idle => {
                    &&& pass matches Ok(SeedPass::Idle)
                    &&& after == before
                    &&& kept == cursors
                },
                SeedPlan::StepOver { cursor } => {
                    &&& pass matches Ok(SeedPass::Idle)
                    &&& after == before
                    &&& kept == cursors.insert(self.source@, cursor.stored())
                },
                SeedPlan::Seed { cursor, fresh, slot, from, to } => if has_id(before, new_id) {
                    &&& pass matches Err(e) && e@ == "task id is already queued"@
                    &&& after == before
                    &&& kept == cursors
                } else {
                    &&& pass matches Ok(SeedPass::Seeded)
                    &&& after == placed(before, self.seed_row(new_id, slot, from, to, now))
                    &&& kept == (if fresh {
                        cursors.insert(self.source@, cursor.stored())
                    } else {
                        cursors
                    })
                },
            }
        }
    }

    /// One seeding pass: gate, cursor (cold start or clamp), cooldown, seed.
    /// `new_id` is the id of the row it may queue.
    pub fn reconcile(
        &self,
        queue: &mut TaskQueue,
        cursors: &mut CursorStore,
        now: i128,
        new_id: u128,
    ) -> (pass: Result<SeedPass, SeedFault>)
        requires
            self.schedule.wf(),
            old(queue).wf(),
            old(cursors).wf(),
            moment::valid_instant(now as int),
        ensures
            final(queue).wf(),
            final(cursors).wf(),
            self.passes(
                old(queue)@,
                final(queue)@,
                old(cursors)@,
                final(cursors)@,
                now as int,
                new_id as int,
                pass,
            ),
    {
        let kind = match TaskKind::new(self.kind.as_str()) {
            Ok(kind) => kind,
            Err(e) => {
                return Err(SeedFault::new(e.message()));
            },
        };
        if queue.exists_active(&kind) {
            return Ok(SeedPass::Idle);
        }
        let today: i32 = match self.schedule.calendar.local_date(now) {
            Some(day) => day,
            None => {
                return Ok(SeedPass::Idle);
            },
        };
        let current = match cursors.get(&self.source) {
            Some(existing) => {
                let pending: u32 = self.schedule.calendar.business_days_between(
                    existing.through_target(),
                    today,
                );
                if pending <= self.max_backfill_days {
                    Some(existing)
                } else {
                    None
                }
            },
            None => None,
        };
        let (cursor, fresh) = match current {
            Some(existing) => (existing, false),
            None => match self.cold_start_cursor(now) {
                Some(seeded) => (seeded, true),
                None => {
                    return Ok(SeedPass::Idle);
                },
            },
        };
        if !cursor.is_ready(now) {
            return Ok(SeedPass::Idle);
        }
        let slot: i128 = match self.schedule.next_occurrence_after(cursor.through_slot()) {
            Some(slot) => slot,
            None => {
                return Ok(SeedPass::Idle);
            },
        };
        let target = match self.schedule.target_period(cursor.through_target(), slot) {
            Some(target) => target,
            None => {
                let stepped = SyncCursor::seeded(&self.source, slot, cursor.through_target(), now);
                cursors.upsert(&stepped);
                return Ok(SeedPass::Idle);
            },
        };
        let payload = encode_payload(slot, target);
        let task = BackgroundTask::pending(new_id, &kind, Some(payload), slot, self.retry, now);
        match queue.insert(&task) {
            Ok(()) => {},
            Err(_) => {
                return Err(SeedFault::new("task id is already queued".to_owned()));
            },
        }
        if fresh {
            cursors.upsert(&cursor);
        }
        Ok(SeedPass::Seeded)
    }

    /// Whether `window` is what a claimed row's payload names.
    pub open spec fn reads_window(
        &self,
        payload: Option<Seq<char>>,
        window: Result<RunWindow, String>,
    ) -> bool {
        match payload {
            None => window matches Err(e) && e@ == "sync run has no payload"@,
            Some(p) => match payload_read(p) {
                None => window matches Err(e) && e@ == "corrupt sync payload: "@
                    + text::quoted_text(p),
                Some((slot, from, to)) => window matches Ok(RunWindow::Period { slot: s, target })
                    && s == slot && target.from == from && target.to == to,
            },
        }
    }

    /// Parses a claimed row's payload into the run's window.
    pub fn window_for(&self, payload: Option<String>) -> (window: Result<RunWindow, String>)
        ensures
            self.reads_window(opt_text(payload), window),
            window matches Ok(w) ==> window_wf(w),
    {
        let payload = match payload {
            Some(payload) => payload,
            None => {
                return Err("sync run has no payload".to_owned());
            },
        };
        match decode_payload(payload.as_str()) {
            Some((slot, target)) => Ok(RunWindow::Period { slot, target }),
            None => Err(
                "corrupt sync payload: ".to_owned().concat(text::quoted(payload.as_str()).as_str()),
            ),
        }
    }

    /// The cursor of a source that has none, placed in the second before a
    /// run: its slot is still ahead, and so are its dates.
    pub open spec fn before_run(&self, slot: int, from: int, now: int) -> CursorState {
        CursorState::seeded(
            self.source@,
            moment::second_before(slot),
            if moment::valid_date(previous_business(from)) {
                previous_business(from)
            } else {
                moment::FIRST_DAY as int
            },
            now,
        )
    }

    /// The cursor after an outcome: `None` for a failure, which the cursor
    /// only records once it is final. Only `Done` moves past the slot; a
    /// cursor that has vanished is held before it.
    pub open spec fn settled(
        &self,
        stored: Option<CursorState>,
        slot: int,
        from: int,
        to: int,
        outcome: TaskOutcome,
        now: int,
    ) -> Option<CursorState> {
        match outcome {
            TaskOutcome::Done => {
                let cursor = match stored {
                    Some(cursor) => cursor,
                    None => CursorState::seeded(self.source@, slot, to, now),
                };
                Some(cursor.advanced(slot, to, now))
            },
            TaskOutcome::NotReady { retry_after_secs } => {
                let cursor = match stored {
                    Some(cursor) => cursor,
                    None => self.before_run(slot, from, now),
                };
                Some(cursor.held(moment::secs_after(now, retry_after_secs as nat), now))
            },
            TaskOutcome::Failed(_) => None,
        }
    }

    /// Applies an outcome to the cursor: advance on `Done`, hold with the
    /// handler's cooldown on `NotReady`; both complete the run. A failure is
    /// handed back so that retries apply; it leaves the cursor as it is.
    pub fn interpret(
        &self,
        cursors: &mut CursorStore,
        window: RunWindow,
        outcome: TaskOutcome,
        now: i128,
    ) -> (result: Result<Interpretation, TaskFailure>)
        requires
            old(cursors).wf(),
            moment::valid_instant(now as int),
            window_wf(window),
        ensures
            final(cursors).wf(),
            match window {
                RunWindow::NoWindow => {
                    &&& result matches Err(e) && e@ == "sync run without a period window"@
                    &&& final(cursors)@ == old(cursors)@
                },
                RunWindow::Period { slot, target } => match self.settled(
                    self.stored(old(cursors)@),
                    slot as int,
                    target.from as int,
                    target.to as int,
                    outcome,
                    now as int,
                ) {
                    Some(cursor) => {
                        &&& result matches Ok(i) && i == Interpretation::Completed
                        &&& final(cursors)@ == old(cursors)@.insert(self.source@, cursor.stored())
                    },
                    None => {
                        &&& result matches Err(e) && e@ == outcome->Failed_0@
                        &&& final(cursors)@ == old(cursors)@
                    },
                },
            },
            window matches RunWindow::Period { slot, .. } ==> (outcome is NotReady && self.stored(
                old(cursors)@,
            ) is None ==> (self.stored(final(cursors)@) matches Some(held) && held.through_slot
                < slot)),
    {
        let (slot, target) = match window {
            RunWindow::Period { slot, target } => (slot, target),
            RunWindow::NoWindow => {
                return Err(TaskFailure::new("sync run without a period window".to_owned()));
            },
        };
        match outcome {
            TaskOutcome::Done => {
                let cursor = match cursors.get(&self.source) {
                    Some(cursor) => cursor,
                    None => SyncCursor::seeded(&self.source, slot, target.to, now),
                };
                let advanced = cursor.advanced(slot, target.to, now);
                cursors.upsert(&advanced);
                Ok(Interpretation::Completed)
            },
            TaskOutcome::NotReady { retry_after_secs } => {
                let cursor = match cursors.get(&self.source) {
                    Some(cursor) => cursor,
                    None => self.cursor_before(slot, target.from, now),
                };
                let held = cursor.held_not_ready(retry_after_secs, now);
                cursors.upsert(&held);
                Ok(Interpretation::Completed)
            },
            TaskOutcome::Failed(error) => Err(TaskFailure::new(error)),
        }
    }

    /// A cursor placed just before a run.
    fn cursor_before(&self, slot: i128, from: i32, now: i128) -> (cursor: SyncCursor)
        requires
            moment::valid_instant(slot as int),
            moment::valid_instant(moment::second_before(slot as int)),
            moment::valid_date(from as int),
        ensures
            cursor@ == self.before_run(slot as int, from as int, now as int),
            cursor@.wf(),
    {
        let through: i32 = match self.schedule.calendar.previous_business_day(from) {
            Some(day) => day,
            None => moment::FIRST_DAY,
        };
        SyncCursor::seeded(&self.source, moment::start_of_second_before(slot), through, now)
    }

    /// How many business days a seeding pass gives up where it drops a
    /// stored cursor that is too far behind; `None` where it keeps it.
    pub fn skipped_days(&self, stored: &SyncCursor, now: i128) -> (skipped: Option<u32>)
        requires
            self.schedule.wf(),
            stored@.wf(),
            moment::valid_instant(now as int),
        ensures
            skipped is Some <==> moment::valid_date(self.schedule.calendar.day_of(now as int))
                && business_between(
                stored@.through_target,
                self.schedule.calendar.day_of(now as int),
            ) > self.max_backfill_days && self.cold_start(now as int) is Some,
            skipped matches Some(days) ==> days == business_between(
                stored@.through_target,
                self.cold_start(now as int)->0.through_target,
            ),
    {
        let today: i32 = match self.schedule.calendar.local_date(now) {
            Some(day) => day,
            None => {
                return None;
            },
        };
        let pending: u32 = self.schedule.calendar.business_days_between(
            stored.through_target(),
            today,
        );
        if pending <= self.max_backfill_days {
            return None;
        }
        match self.cold_start_cursor(now) {
            Some(reseeded) => Some(
                self.schedule.calendar.business_days_between(
                    stored.through_target(),
                    reseeded.through_target(),
                ),
            ),
            None => None,
        }
    }

    /// Whether `h` tells of a source whose cursor now says that it failed:
    /// how often in a row, and until when it is left alone.
    pub open spec fn halts(self, failed: CursorState, now: int, h: Halt) -> bool {
        &&& h.failures == failed.consecutive_failures
        &&& h.until == moment::secs_after(
            now,
            self.cooldown.secs(failed.consecutive_failures),
        )
        &&& h.escalated == (h.failures >= ESCALATE_AFTER_FAILURES)
    }

    /// A run's final attempt failed: counts the failure and starts the
    /// escalating cooldown. The cursor stays where it is.
    pub fn on_terminal(&self, cursors: &mut CursorStore, error: String, now: i128) -> (halt: Option<
        Halt,
    >)
        requires
            old(cursors).wf(),
            moment::valid_instant(now as int),
        ensures
            final(cursors).wf(),
            halt is None <==> self.stored(old(cursors)@) is None,
            halt is None ==> final(cursors)@ == old(cursors)@,
            halt matches Some(h) ==> {
                let cursor = self.stored(old(cursors)@)->0;
                let failed = cursor.failed(error@, h.until as int, now as int);
                &&& self.halts(failed, now as int, h)
                &&& final(cursors)@ == old(cursors)@.insert(self.source@, failed.stored())
            },
    {
        let cursor = match cursors.get(&self.source) {
            Some(cursor) => cursor,
            None => {
                return None;
            },
        };
        let before: u32 = cursor.consecutive_failures();
        let failures: u32 = if before < u32::MAX {
            before + 1
        } else {
            before
        };
        let until: i128 = self.cooldown.until(failures, now);
        let failed = cursor.failed(error, until, now);
        cursors.upsert(&failed);
        Some(Halt { failures, until, escalated: failures >= ESCALATE_AFTER_FAILURES })
    }
}

/// A source that keeps failing on the same period.
#[derive(Clone, Copy, Debug, PartialEq, Eq, Structural)]
pub struct Halt {
    pub failures: u32,
    pub until: i128,
    /// Whether it is reported as an error rather than a warning.
    pub escalated: bool,
}

// ---------------------------------------------------------------- faults
/// The cursor write that a run's outcome calls for.
#[derive(Clone, Copy, Debug, PartialEq, Eq, Structural)]
pub enum CursorWrite {
    Advance,
    Hold,
}

/// A storage call that went wrong: refused by the store, or never run.
#[derive(Clone, Debug)]
pub enum StoreFault {
    Failed(String),
    NotExecuted(String),
}

/// The failure of a run whose cursor could not be written: running a synced
/// period again is safe, losing the advance is not.
pub open spec fn write_failure_text(write: CursorWrite, fault: StoreFault) -> Seq<char> {
    match (write, fault) {
        (CursorWrite::Advance, StoreFault::Failed(e)) => "cursor advance failed: "@ + e@,
        (CursorWrite::Advance, StoreFault::NotExecuted(e)) => "cursor advance not executed: "@ + e@,
        (CursorWrite::Hold, StoreFault::Failed(e)) => "cursor hold failed: "@ + e@,
        (CursorWrite::Hold, StoreFault::NotExecuted(e)) => "cursor hold not executed: "@ + e@,
    }
}

pub fn write_failure(write: CursorWrite, fault: &StoreFault) -> (failure: TaskFailure)
    ensures
        failure@ == write_failure_text(write, *fault),
{
    let message = match (write, fault) {
        (CursorWrite::Advance, StoreFault::Failed(e)) => "cursor advance failed: ".to_owned().concat(
            e.as_str(),
        ),
        (CursorWrite::Advance, StoreFault::NotExecuted(e)) =>
            "cursor advance not executed: ".to_owned().concat(e.as_str()),
        (CursorWrite::Hold, StoreFault::Failed(e)) => "cursor hold failed: ".to_owned().concat(
            e.as_str(),
        ),
        (CursorWrite::Hold, StoreFault::NotExecuted(e)) =>
            "cursor hold not executed: ".to_owned().concat(e.as_str()),
    };
    TaskFailure::new(message)
}

} // verus!
