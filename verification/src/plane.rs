//! Execution planes: what a task's tier means.
//!
//! An interval task ticks since boot, a recurring one fires on the business
//! days of a schedule, a sync one follows a cursor and catches up. One
//! vocabulary of outcomes serves them all.
use crate::cursor::{CooldownPolicy, SyncSource};
use crate::moment;
use crate::queue::RetryPolicy;
use crate::schedule::{schedule_text, Schedule, TargetPeriod};
use crate::span::Span;
use crate::text;
use vstd::prelude::*;

verus! {

/// Fallback cadence of the wall-clock seeders, in seconds.
pub const RECONCILE_INTERVAL_SECS: u64 = 60;

/// What span of work a run is responsible for.
#[derive(Clone, Copy, Debug, PartialEq, Eq, Structural)]
pub enum RunWindow {
    /// No window: interval and recurring work.
    NoWindow,
    /// The occurrence a sync run belongs to and the dates it must cover;
    /// both from the row's payload, never from the clock.
    Period { slot: i128, target: TargetPeriod },
}

/// Whether a window is one that a payload can name. What nothing precedes in
/// the calendar is no slot.
pub open spec fn window_wf(window: RunWindow) -> bool {
    window matches RunWindow::Period { slot, target } ==> moment::valid_instant(slot as int)
        && moment::valid_instant(moment::second_before(slot as int)) && moment::valid_date(
        target.from as int,
    ) && moment::valid_date(target.to as int)
}

/// How a handler reports one run.
#[derive(Clone, Debug)]
pub enum TaskOutcome {
    Done,
    /// The work cannot proceed yet; not an error.
    NotReady { retry_after_secs: u32 },
    Failed(String),
}

/// What a plane made of an outcome that was not a failure.
#[derive(Clone, Copy, Debug, PartialEq, Eq, Structural)]
pub enum Interpretation {
    Completed,
    NotReady,
}

/// What a run reports when it fails.
#[derive(Clone, Debug)]
pub struct TaskFailure {
    message: String,
}

impl View for TaskFailure {
    type V = Seq<char>;

    closed spec fn view(&self) -> Seq<char> {
        self.message@
    }
}

impl TaskFailure {
    pub fn new(message: String) -> (failure: TaskFailure)
        ensures
            failure@ == message@,
    {
        TaskFailure { message }
    }

    /// The message, recorded as the row's last error.
    pub fn message(&self) -> (out: String)
        ensures
            out@ == self@,
    {
        self.message.clone()
    }
}

/// Whether a plane's runs are persisted as rows or executed in memory.
#[derive(Clone, Copy, Debug, PartialEq, Eq, Structural)]
pub enum Tracking {
    Durable,
    Ephemeral,
}

impl Tracking {
    /// The persisted name.
    pub open spec fn name(self) -> Seq<char> {
        match self {
            Tracking::Durable => "DURABLE"@,
            Tracking::Ephemeral => "EPHEMERAL"@,
        }
    }

    /// The value that a persisted name spells.
    pub open spec fn named(raw: Seq<char>) -> Option<Tracking> {
        if raw == "DURABLE"@ {
            Some(Tracking::Durable)
        } else if raw == "EPHEMERAL"@ {
            Some(Tracking::Ephemeral)
        } else {
            None
        }
    }

    pub fn as_str(self) -> (name: &'static str)
        ensures
            name@ == self.name(),
    {
        match self {
            Tracking::Durable => "DURABLE",
            Tracking::Ephemeral => "EPHEMERAL",
        }
    }

    /// Reads a persisted name.
    pub fn from_text(raw: &str) -> (read: Option<Tracking>)
        ensures
            read == Tracking::named(raw@),
    {
        if text::same_text(raw, "DURABLE") {
            Some(Tracking::Durable)
        } else if text::same_text(raw, "EPHEMERAL") {
            Some(Tracking::Ephemeral)
        } else {
            None
        }
    }
}

/// The tier of a task.
#[derive(Clone, Copy, Debug, PartialEq, Eq, Structural)]
pub enum TaskTier {
    Interval,
    Recurring,
    Sync,
}

impl TaskTier {
    /// The persisted name.
    pub open spec fn name(self) -> Seq<char> {
        match self {
            TaskTier::Interval => "INTERVAL"@,
            TaskTier::Recurring => "RECURRING"@,
            TaskTier::Sync => "SYNC"@,
        }
    }

    /// The value that a persisted name spells.
    pub open spec fn named(raw: Seq<char>) -> Option<TaskTier> {
        if raw == "INTERVAL"@ {
            Some(TaskTier::Interval)
        } else if raw == "RECURRING"@ {
            Some(TaskTier::Recurring)
        } else if raw == "SYNC"@ {
            Some(TaskTier::Sync)
        } else {
            None
        }
    }

    pub fn as_str(self) -> (name: &'static str)
        ensures
            name@ == self.name(),
    {
        match self {
            TaskTier::Interval => "INTERVAL",
            TaskTier::Recurring => "RECURRING",
            TaskTier::Sync => "SYNC",
        }
    }

    /// Reads a persisted name.
    pub fn from_text(raw: &str) -> (read: Option<TaskTier>)
        ensures
            read == TaskTier::named(raw@),
    {
        if text::same_text(raw, "INTERVAL") {
            Some(TaskTier::Interval)
        } else if text::same_text(raw, "RECURRING") {
            Some(TaskTier::Recurring)
        } else if text::same_text(raw, "SYNC") {
            Some(TaskTier::Sync)
        } else {
            None
        }
    }
}

/// How a plane's seeder ticks are executed.
#[derive(Clone, Copy, Debug, PartialEq, Eq, Structural)]
pub enum TickMode {
    /// Each tick may seed a durable row.
    Seed,
    /// Each tick runs the handler inline, leaving no row behind.
    Inline,
}

/// What one seeding pass decided.
#[derive(Clone, Copy, Debug, PartialEq, Eq, Structural)]
pub enum SeedPass {
    /// A row was inserted; the dispatcher should wake.
    Seeded,
    /// Nothing to do.
    Idle,
    /// Paused by an operator; decided by the manager's gate.
    Paused,
}

/// A seeding pass that could not be carried out; nothing was changed.
#[derive(Clone, Debug)]
pub struct SeedFault {
    message: String,
}

impl View for SeedFault {
    type V = Seq<char>;

    closed spec fn view(&self) -> Seq<char> {
        self.message@
    }
}

impl SeedFault {
    pub(crate) fn new(message: String) -> (fault: SeedFault)
        ensures
            fault@ == message@,
    {
        SeedFault { message }
    }

    pub fn message(&self) -> (out: String)
        ensures
            out@ == self@,
    {
        self.message.clone()
    }
}

/// Everything the manager needs to know about a task's tier.
#[derive(Clone, Debug)]
pub enum PlaneConfig {
    /// Monotonic interval since boot.
    Interval { period: Span, jitter: bool, tracking: Tracking },
    /// Wall-clock business-day recurrence.
    Recurring { schedule: Schedule, retry: RetryPolicy },
    /// Cursor-driven recurrence with sequential catch-up.
    Sync {
        source: SyncSource,
        schedule: Schedule,
        retry: RetryPolicy,
        cooldown: CooldownPolicy,
        max_backfill_days: u32,
    },
}

impl PlaneConfig {
    /// Whether periods and schedules are well formed.
    pub open spec fn wf(&self) -> bool {
        match *self {
            PlaneConfig::Interval { period, .. } => period.wf(),
            PlaneConfig::Recurring { schedule, .. } => schedule.wf(),
            PlaneConfig::Sync { schedule, .. } => schedule.wf(),
        }
    }

    pub open spec fn spec_tier(&self) -> TaskTier {
        match *self {
            PlaneConfig::Interval { .. } => TaskTier::Interval,
            PlaneConfig::Recurring { .. } => TaskTier::Recurring,
            PlaneConfig::Sync { .. } => TaskTier::Sync,
        }
    }

    pub fn tier(&self) -> (tier: TaskTier)
        ensures
            tier == self.spec_tier(),
    {
        match self {
            PlaneConfig::Interval { .. } => TaskTier::Interval,
            PlaneConfig::Recurring { .. } => TaskTier::Recurring,
            PlaneConfig::Sync { .. } => TaskTier::Sync,
        }
    }

    /// Only an interval task can be ephemeral.
    pub open spec fn spec_tracking(&self) -> Tracking {
        match *self {
            PlaneConfig::Interval { tracking, .. } => tracking,
            _ => Tracking::Durable,
        }
    }

    pub fn tracking(&self) -> (tracking: Tracking)
        ensures
            tracking == self.spec_tracking(),
    {
        match self {
            PlaneConfig::Interval { tracking, .. } => *tracking,
            _ => Tracking::Durable,
        }
    }

    /// How ticks are executed: only ephemeral work runs inline.
    pub fn mode(&self) -> (mode: TickMode)
        ensures
            mode == (if self.spec_tracking() == Tracking::Ephemeral {
                TickMode::Inline
            } else {
                TickMode::Seed
            }),
    {
        match self.tracking() {
            Tracking::Durable => TickMode::Seed,
            Tracking::Ephemeral => TickMode::Inline,
        }
    }

    /// The name of the source a sync task follows.
    pub open spec fn source_name(&self) -> Option<Seq<char>> {
        match *self {
            PlaneConfig::Sync { source, .. } => Some(source@),
            _ => None,
        }
    }

    pub fn source(&self) -> (source: Option<SyncSource>)
        ensures
            source is Some <==> self.source_name() is Some,
            source matches Some(s) ==> self.source_name() == Some(s@),
    {
        match self {
            PlaneConfig::Sync { source, .. } => Some(source.copied()),
            _ => None,
        }
    }

    /// The catalog's description of the schedule.
    pub open spec fn text(&self) -> Seq<char> {
        match *self {
            PlaneConfig::Interval { period, jitter, .. } => "interval:"@ + text::decimal_text(
                period.secs as nat,
            ) + if jitter {
                "s±10%"@
            } else {
                "s"@
            },
            PlaneConfig::Recurring { schedule, .. } => "recurring:"@ + schedule_text(schedule),
            PlaneConfig::Sync { schedule, .. } => "sync:"@ + schedule_text(schedule),
        }
    }

    /// Canonical schedule descriptor for the catalog, display-only.
    pub fn descriptor(&self) -> (out: String)
        requires
            self.wf(),
        ensures
            out@ == self.text(),
    {
        match self {
            PlaneConfig::Interval { period, jitter, .. } => {
                let head = "interval:".to_owned().concat(text::decimal(period.as_secs()).as_str());
                if *jitter {
                    head.concat("s±10%")
                } else {
                    head.concat("s")
                }
            },
            PlaneConfig::Recurring { schedule, .. } => "recurring:".to_owned().concat(
                schedule.descriptor().as_str(),
            ),
            PlaneConfig::Sync { schedule, .. } => "sync:".to_owned().concat(
                schedule.descriptor().as_str(),
            ),
        }
    }
}

} // verus!
