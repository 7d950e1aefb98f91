//! The simpler planes, interval and recurring, and the choice among all
//! three.
use crate::cursor::{opt_text, CursorState, CursorStore};
use crate::moment;
use crate::plane::{
    window_wf, Interpretation, PlaneConfig, RunWindow, SeedFault, SeedPass, TaskFailure,
    TaskOutcome, TickMode, Tracking, RECONCILE_INTERVAL_SECS,
};
use crate::queue::{pending_task, BackgroundTask, RetryPolicy, RowState, TaskKind};
use crate::schedule::Schedule;
use crate::span::{is_scaled, jittered, within_ten_percent, Span};
use crate::sync_plane::{Halt, SyncPlane};
use crate::task_queue::{has_id, has_kind, placed, TaskQueue};
use crate::text;
use vstd::prelude::*;

verus! {

/// What a tier without a cursor makes of an outcome: a failure is handed
/// back, and an unready run waits for the next occurrence.
pub open spec fn plain_reading(
    outcome: TaskOutcome,
    result: Result<Interpretation, TaskFailure>,
) -> bool {
    match outcome {
        TaskOutcome::Done => result matches Ok(Interpretation::Completed),
        TaskOutcome::NotReady { .. } => result matches Ok(Interpretation::NotReady),
        TaskOutcome::Failed(error) => result matches Err(e) && e@ == error@,
    }
}

fn read_plainly(outcome: TaskOutcome) -> (result: Result<Interpretation, TaskFailure>)
    ensures
        plain_reading(outcome, result),
{
    match outcome {
        TaskOutcome::Done => Ok(Interpretation::Completed),
        TaskOutcome::NotReady { .. } => Ok(Interpretation::NotReady),
        TaskOutcome::Failed(error) => Err(TaskFailure::new(error)),
    }
}

/// Queues one row, unless its id is taken.
fn seed_one(
    queue: &mut TaskQueue,
    kind: &TaskKind,
    scheduled_at: i128,
    retry: RetryPolicy,
    now: i128,
    new_id: u128,
) -> (pass: Result<SeedPass, SeedFault>)
    requires
        old(queue).wf(),
    ensures
        final(queue).wf(),
        if has_id(old(queue)@, new_id as int) {
            &&& pass matches Err(e) && e@ == "task id is already queued"@
            &&& final(queue)@ == old(queue)@
        } else {
            &&& pass matches Ok(SeedPass::Seeded)
            &&& final(queue)@ == placed(
                old(queue)@,
                plain_row(new_id as int, kind@, scheduled_at as int, retry, now as int),
            )
        },
{
    let task = BackgroundTask::pending(new_id, kind, None, scheduled_at, retry, now);
    match queue.insert(&task) {
        Ok(()) => Ok(SeedPass::Seeded),
        Err(_) => Err(SeedFault::new("task id is already queued".to_owned())),
    }
}

/// A row without payload.
pub open spec fn plain_row(
    id: int,
    kind: Seq<char>,
    scheduled_at: int,
    retry: RetryPolicy,
    now: int,
) -> RowState {
    RowState::fresh(pending_task(id, kind, None, scheduled_at, retry, now))
}

// ---------------------------------------------------------------- interval
/// Ticks since boot. A durable tick queues a run that is due at once; an
/// ephemeral one runs inline.
#[derive(Clone, Debug)]
pub struct IntervalTrigger {
    pub kind: String,
    pub period: Span,
    pub jitter: bool,
    pub tracking: Tracking,
}

impl IntervalTrigger {
    pub fn new(kind: &str, period: Span, jitter: bool, tracking: Tracking) -> (trigger:
        IntervalTrigger)
        ensures
            trigger.kind@ == kind@,
            trigger.period == period,
            trigger.jitter == jitter,
            trigger.tracking == tracking,
    {
        IntervalTrigger { kind: kind.to_owned(), period, jitter, tracking }
    }

    /// The period between ticks, also the wait before the first.
    pub fn cadence(&self) -> (period: Span)
        requires
            self.period.wf(),
        ensures
            !self.jitter ==> period == self.period,
            self.jitter ==> exists|percent: nat|
                90 <= percent <= 110 && #[trigger] is_scaled(self.period, percent, period),
            within_ten_percent(self.period, period),
    {
        if self.jitter {
            jittered(self.period)
        } else {
            self.period
        }
    }

    pub fn mode(&self) -> (mode: TickMode)
        ensures
            mode == (match self.tracking {
                Tracking::Durable => TickMode::Seed,
                Tracking::Ephemeral => TickMode::Inline,
            }),
    {
        match self.tracking {
            Tracking::Durable => TickMode::Seed,
            Tracking::Ephemeral => TickMode::Inline,
        }
    }

    /// What a seeding pass does to the queue.
    pub open spec fn passes(
        self,
        before: Seq<RowState>,
        after: Seq<RowState>,
        now: int,
        new_id: int,
        pass: Result<SeedPass, SeedFault>,
    ) -> bool {
        if self.kind@.len() == 0 {
            &&& pass matches Err(e) && e@ == "name must not be empty"@
            &&& after == before
        } else if has_kind(before, self.kind@) {
            &&& pass matches Ok(SeedPass::Idle)
            &&& after == before
        } else if has_id(before, new_id) {
            &&& pass matches Err(e) && e@ == "task id is already queued"@
            &&& after == before
        } else {
            &&& pass matches Ok(SeedPass::Seeded)
            &&& after == placed(
                before,
                plain_row(
                    new_id,
                    self.kind@,
                    now,
                    (RetryPolicy { max_attempts: 1, retry_delay_secs: 0 }),
                    now,
                ),
            )
        }
    }

    /// Queues one run that is due at once, unless a run of the kind is
    /// still queued: one kind never piles up or overlaps.
    pub fn reconcile(&self, queue: &mut TaskQueue, now: i128, new_id: u128) -> (pass: Result<
        SeedPass,
        SeedFault,
    >)
        requires
            old(queue).wf(),
        ensures
            final(queue).wf(),
            self.passes(old(queue)@, final(queue)@, now as int, new_id as int, pass),
    {
        let kind = match TaskKind::new(self.kind.as_str()) {
            Ok(kind) => kind,
            Err(e) => {
                return Err(SeedFault::new(e.message()));
            },
        };
        if queue.exists_active(&kind) {
            return Ok(SeedPass::Idle);
        }
        seed_one(queue, &kind, now, RetryPolicy::none(), now, new_id)
    }

    /// Interval runs have no window.
    pub fn window_for(&self, payload: Option<String>) -> (window: Result<RunWindow, String>)
        ensures
            window matches Ok(w) && w == RunWindow::NoWindow,
    {
        Ok(RunWindow::NoWindow)
    }

    pub fn interpret(&self, outcome: TaskOutcome) -> (result: Result<Interpretation, TaskFailure>)
        ensures
            plain_reading(outcome, result),
    {
        read_plainly(outcome)
    }
}

// ---------------------------------------------------------------- recurring
/// Wall-clock occurrences. The next one is queued ahead: the row is the
/// alarm, so a slot missed while the engine was down runs once at boot.
#[derive(Clone, Debug)]
pub struct RecurringTrigger {
    pub kind: String,
    pub schedule: Schedule,
    pub retry: RetryPolicy,
}

/// The complaint about a schedule that never fires.
pub open spec fn no_occurrence_text(kind: Seq<char>) -> Seq<char> {
    "recurring schedule for "@ + text::quoted_text(kind) + " produced no occurrence"@
}

impl RecurringTrigger {
    pub fn new(kind: &str, schedule: Schedule, retry: RetryPolicy) -> (trigger: RecurringTrigger)
        ensures
            trigger.kind@ == kind@,
            trigger.schedule == schedule,
            trigger.retry == retry,
    {
        RecurringTrigger { kind: kind.to_owned(), schedule, retry }
    }

    /// The fallback period of the seeder; its first pass comes at once.
    pub fn cadence(&self) -> (period: Span)
        ensures
            period.secs == RECONCILE_INTERVAL_SECS,
            period.nanos == 0,
    {
        Span::from_secs(RECONCILE_INTERVAL_SECS)
    }

    pub fn mode(&self) -> (mode: TickMode)
        ensures
            mode == TickMode::Seed,
    {
        TickMode::Seed
    }

    /// What a seeding pass does to the queue.
    pub open spec fn passes(
        self,
        before: Seq<RowState>,
        after: Seq<RowState>,
        now: int,
        new_id: int,
        pass: Result<SeedPass, SeedFault>,
    ) -> bool {
        if self.kind@.len() == 0 {
            &&& pass matches Err(e) && e@ == "name must not be empty"@
            &&& after == before
        } else if has_kind(before, self.kind@) {
            &&& pass matches Ok(SeedPass::Idle)
            &&& after == before
        } else {
            match self.schedule.next_slot(now) {
                None => {
                    &&& pass matches Err(e) && e@ == no_occurrence_text(self.kind@)
                    &&& after == before
                },
                Some(slot) => if has_id(before, new_id) {
                    &&& pass matches Err(e) && e@ == "task id is already queued"@
                    &&& after == before
                } else {
                    &&& pass matches Ok(SeedPass::Seeded)
                    &&& after == placed(
                        before,
                        plain_row(new_id, self.kind@, slot, self.retry, now),
                    )
                },
            }
        }
    }

    /// Queues the next occurrence, unless a run of the kind is queued.
    pub fn reconcile(&self, queue: &mut TaskQueue, now: i128, new_id: u128) -> (pass: Result<
        SeedPass,
        SeedFault,
    >)
        requires
            self.schedule.wf(),
            old(queue).wf(),
            moment::valid_instant(now as int),
        ensures
            final(queue).wf(),
            self.passes(old(queue)@, final(queue)@, now as int, new_id as int, pass),
    {
        let kind = match TaskKind::new(self.kind.as_str()) {
            Ok(kind) => kind,
            Err(e) => {
                return Err(SeedFault::new(e.message()));
            },
        };
        if queue.exists_active(&kind) {
            return Ok(SeedPass::Idle);
        }
        let slot: i128 = match self.schedule.next_occurrence_after(now) {
            Some(slot) => slot,
            None => {
                let head = "recurring schedule for ".to_owned().concat(
                    text::quoted(self.kind.as_str()).as_str(),
                );
                return Err(SeedFault::new(head.concat(" produced no occurrence")));
            },
        };
        seed_one(queue, &kind, slot, self.retry, now, new_id)
    }

    /// Recurring runs have no window.
    pub fn window_for(&self, payload: Option<String>) -> (window: Result<RunWindow, String>)
        ensures
            window matches Ok(w) && w == RunWindow::NoWindow,
    {
        Ok(RunWindow::NoWindow)
    }

    pub fn interpret(&self, outcome: TaskOutcome) -> (result: Result<Interpretation, TaskFailure>)
        ensures
            plain_reading(outcome, result),
    {
        read_plainly(outcome)
    }
}

// ---------------------------------------------------------------- choice
/// The plane of one registered task.
#[derive(Clone, Debug)]
pub enum Plane {
    Interval(IntervalTrigger),
    Recurring(RecurringTrigger),
    Sync(SyncPlane),
}

/// Whether a plane was built from this configuration.
pub open spec fn built_from(plane: Plane, kind: Seq<char>, config: PlaneConfig) -> bool {
    match config {
        PlaneConfig::Interval { period, jitter, tracking } => {
            &&& plane matches Plane::Interval(p)
            &&& p.kind@ == kind
            &&& p.period == period
            &&& p.jitter == jitter
            &&& p.tracking == tracking
        },
        PlaneConfig::Recurring { schedule, retry } => {
            &&& plane matches Plane::Recurring(p)
            &&& p.kind@ == kind
            &&& p.schedule == schedule
            &&& p.retry == retry
        },
        PlaneConfig::Sync { source, schedule, retry, cooldown, max_backfill_days } => {
            &&& plane matches Plane::Sync(p)
            &&& p.kind@ == kind
            &&& p.source@ == source@
            &&& p.schedule == schedule
            &&& p.retry == retry
            &&& p.cooldown == cooldown
            &&& p.max_backfill_days == max_backfill_days
        },
    }
}

/// Builds the plane of one registration.
pub fn build(kind: &str, config: &PlaneConfig) -> (plane: Plane)
    ensures
        built_from(plane, kind@, *config),
{
    match config {
        PlaneConfig::Interval { period, jitter, tracking } => Plane::Interval(
            IntervalTrigger::new(kind, *period, *jitter, *tracking),
        ),
        PlaneConfig::Recurring { schedule, retry } => Plane::Recurring(
            RecurringTrigger::new(kind, *schedule, *retry),
        ),
        PlaneConfig::Sync { source, schedule, retry, cooldown, max_backfill_days } => Plane::Sync(
            SyncPlane::new(kind, source, *schedule, *retry, *cooldown, *max_backfill_days),
        ),
    }
}

impl Plane {
    /// Whether the plane's schedule or period is well formed.
    pub open spec fn wf(&self) -> bool {
        match *self {
            Plane::Interval(p) => p.period.wf(),
            Plane::Recurring(p) => p.schedule.wf(),
            Plane::Sync(p) => p.schedule.wf(),
        }
    }

    /// Whether the plane's schedule, where it has one, is sound.
    pub open spec fn schedule_wf(self) -> bool {
        match self {
            Plane::Interval(_) => true,
            Plane::Recurring(p) => p.schedule.wf(),
            Plane::Sync(p) => p.schedule.wf(),
        }
    }

    /// What a seeding pass of the plane does to the queue and the cursors.
    pub open spec fn passes(
        self,
        before: Seq<RowState>,
        after: Seq<RowState>,
        cursors: Map<Seq<char>, CursorState>,
        kept: Map<Seq<char>, CursorState>,
        now: int,
        new_id: int,
        pass: Result<SeedPass, SeedFault>,
    ) -> bool {
        match self {
            Plane::Interval(p) => p.passes(before, after, now, new_id, pass) && kept == cursors,
            Plane::Recurring(p) => p.passes(before, after, now, new_id, pass) && kept == cursors,
            Plane::Sync(p) => p.passes(before, after, cursors, kept, now, new_id, pass),
        }
    }

    /// One seeding pass.
    pub fn reconcile(
        &self,
        queue: &mut TaskQueue,
        cursors: &mut CursorStore,
        now: i128,
        new_id: u128,
    ) -> (pass: Result<SeedPass, SeedFault>)
        requires
            self.schedule_wf(),
            old(queue).wf(),
            old(cursors).wf(),
            moment::valid_instant(now as int),
        ensures
            final(queue).wf(),
            final(cursors).wf(),
            self.passes(
                old(queue)@,
                final(queue)@,
                old(cursors)@,
                final(cursors)@,
                now as int,
                new_id as int,
                pass,
            ),
    {
        match self {
            Plane::Interval(p) => p.reconcile(queue, now, new_id),
            Plane::Recurring(p) => p.reconcile(queue, now, new_id),
            Plane::Sync(p) => p.reconcile(queue, cursors, now, new_id),
        }
    }

    /// Whether `window` is what the plane makes of a claimed row's payload:
    /// only the runs of a sync source have one.
    pub open spec fn reads_window(
        self,
        payload: Option<Seq<char>>,
        window: Result<RunWindow, String>,
    ) -> bool {
        match self {
            Plane::Sync(p) => p.reads_window(payload, window),
            _ => window matches Ok(w) && w == RunWindow::NoWindow,
        }
    }

    /// Parses a claimed row's payload into the run's window.
    pub fn window_for(&self, payload: Option<String>) -> (window: Result<RunWindow, String>)
        ensures
            self.reads_window(opt_text(payload), window),
            window matches Ok(w) ==> window_wf(w),
    {
        match self {
            Plane::Interval(p) => p.window_for(payload),
            Plane::Recurring(p) => p.window_for(payload),
            Plane::Sync(p) => p.window_for(payload),
        }
    }

    /// A run's final attempt failed; only a sync source records it.
    pub fn on_terminal(&self, cursors: &mut CursorStore, error: String, now: i128) -> (halt: Option<
        Halt,
    >)
        requires
            old(cursors).wf(),
            moment::valid_instant(now as int),
        ensures
            final(cursors).wf(),
            !(*self is Sync) ==> halt is None && final(cursors)@ == old(cursors)@,
            *self is Sync ==> {
                let plane = self->Sync_0;
                &&& halt is None <==> plane.stored(old(cursors)@) is None
                &&& halt is None ==> final(cursors)@ == old(cursors)@
                &&& halt matches Some(h) ==> {
                    let cursor = plane.stored(old(cursors)@)->0;
                    let failed = cursor.failed(error@, h.until as int, now as int);
                    &&& plane.halts(failed, now as int, h)
                    &&& final(cursors)@ == old(cursors)@.insert(plane.source@, failed.stored())
                }
            },
    {
        match self {
            Plane::Sync(plane) => plane.on_terminal(cursors, error, now),
            _ => None,
        }
    }
}

} // verus!
