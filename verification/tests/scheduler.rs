//! Whole passes of the scheduler: seeding, claiming, running and recording,
//! one step after the other.
use chrono::{TimeZone, Utc};
use std::collections::HashMap;
use uuid::Uuid;
use valqeron_engine::calendar::{MarketCalendar, Weekday};
use valqeron_engine::catalog::{
    LogPolicy, TaskCategory, TaskDeclaration, TaskDefinition, TaskSettings,
};
use valqeron_engine::cursor::{
    CooldownPolicy, CursorStore, SyncCursor, SyncOutcomeKind, SyncSource,
};
use valqeron_engine::engine::{DatabasePath, EngineConfig, SocketPath, SyncSettings};
use valqeron_engine::execute::{execute_one, record_unwritten, RunEnd, RunReport};
use valqeron_engine::history::{RunHistory, TaskExecution};
use valqeron_engine::jobs;
use valqeron_engine::jobs::{cvm, system};
use valqeron_engine::manager::{
    completion_for, enqueue_task, record_completion, recover_stale_running, seed_pass,
    BackgroundTasksBuilder, Drain, DrainStep, RunLabel, TaskSpec, CLAIM_BATCH, INTERRUPTED,
};
use valqeron_engine::moment::{instant, ClockTime, SECOND_TICKS};
use valqeron_engine::plane::{
    Interpretation, PlaneConfig, RunWindow, SeedPass, TaskFailure, TaskOutcome, TaskTier, TickMode,
    Tracking,
};
use valqeron_engine::queue::{BackgroundTask, RetryPolicy, TaskKind, Versioned};
use valqeron_engine::registry::TaskRegistry;
use valqeron_engine::schedule::{Recurrence, Schedule, TargetPeriod};
use valqeron_engine::span::Span;
use valqeron_engine::stats::StatBook;
use valqeron_engine::sync_plane::{
    encode_payload, write_failure, CursorWrite, StoreFault, SyncPlane,
};
use valqeron_engine::task_queue::{ExecutionOutcome, TaskQueue, WriteOutcome};
use valqeron_engine::triggers::{build, IntervalTrigger, Plane, RecurringTrigger};

fn new_id() -> u128 {
    Uuid::now_v7().as_u128()
}

const SECOND: i128 = SECOND_TICKS;
const DAY: i128 = 86_400 * SECOND;

/// Now, to the millisecond.
fn right_now() -> i128 {
    let now = Utc::now();
    instant(now.timestamp(), now.timestamp_subsec_millis() * 1_000_000)
}

fn utc(y: i32, m: u32, d: u32, h: u32) -> i128 {
    let at = Utc.with_ymd_and_hms(y, m, d, h, 0, 0).single().unwrap();
    i128::from(at.timestamp()) * SECOND
}

fn kind(name: &str) -> TaskKind {
    TaskKind::new(name).unwrap()
}

fn source(name: &str) -> SyncSource {
    SyncSource::new(name).unwrap()
}

fn at(hour: u32, minute: u32) -> ClockTime {
    ClockTime::from_hm(hour, minute).unwrap()
}

fn daily_b3() -> Schedule {
    Schedule::new(MarketCalendar::b3(), at(7, 0), Recurrence::Daily)
}

fn no_kinds() -> Vec<TaskKind> {
    Vec::new()
}

/// The occurrence `steps` back from the latest one before `now`.
fn occurrence_back(schedule: &Schedule, now: i128, steps: u32) -> i128 {
    let mut slot = schedule.latest_occurrence_before(now).unwrap();
    for _ in 0..steps {
        slot = schedule.latest_occurrence_before(slot).unwrap();
    }
    slot
}

fn target_day(schedule: &Schedule, slot: i128) -> i32 {
    let calendar = schedule.calendar();
    calendar
        .previous_business_day(calendar.local_date(slot).unwrap())
        .unwrap()
}

fn spec(name: &str, kind: &str, cooldown_secs: u32) -> TaskSpec {
    TaskSpec {
        kind: kind.to_string(),
        category: TaskCategory::FinanceDataSync,
        plane: PlaneConfig::Sync {
            source: source(name),
            schedule: daily_b3(),
            retry: RetryPolicy::none(),
            cooldown: CooldownPolicy::new(cooldown_secs),
            max_backfill_days: 90,
        },
        log_policy: LogPolicy::All,
    }
}

type Handler = Box<dyn FnMut(&RunWindow) -> TaskOutcome>;

/// The stores and the registered planes, driven by hand.
struct Bench {
    now: i128,
    queue: TaskQueue,
    history: RunHistory,
    stats: StatBook,
    cursors: CursorStore,
    registry: TaskRegistry,
    planes: HashMap<String, Plane>,
    handlers: HashMap<String, Handler>,
    runs: Vec<(String, i128, TargetPeriod)>,
}

impl Bench {
    fn new(now: i128) -> Bench {
        Bench {
            now,
            queue: TaskQueue::new(),
            history: RunHistory::new(),
            stats: StatBook::new(),
            cursors: CursorStore::new(),
            registry: TaskRegistry::new(),
            planes: HashMap::new(),
            handlers: HashMap::new(),
            runs: Vec::new(),
        }
    }

    /// Takes over what a builder holds; every kind gets the same outcome.
    fn start(&mut self, builder: &BackgroundTasksBuilder, outcome: TaskOutcome) {
        for i in 0..builder.len() {
            let spec = builder.spec_at(i);
            let reply = outcome.clone();
            self.planes
                .insert(spec.kind.clone(), build(&spec.kind, &spec.plane));
            self.handlers
                .insert(spec.kind.clone(), Box::new(move |_| reply.clone()));
        }
    }

    fn seed_cursor(&mut self, name: &str, schedule: &Schedule, slot: i128) {
        let target = target_day(schedule, slot);
        self.cursors
            .upsert(&SyncCursor::seeded(&source(name), slot, target, self.now));
    }

    fn cursor(&self, name: &str) -> SyncCursor {
        self.cursors.get(&source(name)).expect("cursor exists")
    }

    /// One seeding pass over every plane.
    fn seed(&mut self) -> usize {
        let mut seeded = 0;
        let mut kinds: Vec<String> = self.planes.keys().cloned().collect();
        kinds.sort();
        for name in kinds {
            let pass = seed_pass(
                &self.registry,
                &kind(&name),
                &self.planes[&name],
                &mut self.queue,
                &mut self.cursors,
                self.now,
                new_id(),
            );
            if let Ok(SeedPass::Seeded) = pass {
                seeded += 1;
            }
        }
        seeded
    }

    fn run(&mut self, row: &Versioned<BackgroundTask>) -> RunEnd {
        let name = row.data.kind().as_str().to_string();
        let plane = self.planes.get(&name).cloned();
        let report = match &plane {
            None => RunReport::NoHandler,
            Some(plane) => {
                match plane.window_for(row.data.payload()) {
                    Err(error) => RunReport::BadPayload(error),
                    Ok(window) => {
                        if let RunWindow::Period { slot, target } = &window {
                            self.runs.push((name.clone(), *slot, *target));
                        }
                        let outcome = (self.handlers.get_mut(&name).unwrap())(&window);
                        RunReport::Ran { window, outcome }
                    }
                }
            }
        };
        execute_one(
            &mut self.queue,
            &mut self.history,
            &mut self.stats,
            &mut self.cursors,
            &plane,
            row,
            report,
            Some(5),
            self.now,
        )
    }

    /// Claims and runs until nothing is due.
    fn dispatch(&mut self) -> Vec<RunEnd> {
        let mut ends = Vec::new();
        let mut started = Vec::new();
        let mut drain = Drain::new();
        loop {
            match drain.next() {
                DrainStep::Claim => {
                    let rows = self.queue.claim_due(self.now, CLAIM_BATCH, &no_kinds());
                    drain.claimed(Some(rows));
                }
                DrainStep::Execute(row) => started.push(row),
                DrainStep::Await => {
                    let row = started.remove(0);
                    ends.push(self.run(&row));
                    drain.ended();
                }
                DrainStep::Wait => return ends,
            }
        }
    }

    /// Seeds and dispatches until both are idle.
    fn settle(&mut self) {
        for _ in 0..100 {
            self.seed();
            if self.dispatch().is_empty() {
                return;
            }
        }
        panic!("the bench does not settle");
    }

    fn outcomes(&self, outcome: ExecutionOutcome) -> Vec<TaskExecution> {
        self.history
            .list_recent(100)
            .into_iter()
            .filter(|r| r.outcome == outcome)
            .collect()
    }
}

// ---------------------------------------------------------------- backfill
#[test]
fn ten_missed_business_days_backfill_sequentially_in_order() {
    let schedule = daily_b3();
    let now = right_now();
    let mut bench = Bench::new(now);

    // The cursor as a run 10 occurrences ago left it: 10 slots are missed.
    let seed_slot = occurrence_back(&schedule, now, 10);
    let latest = occurrence_back(&schedule, now, 0);
    bench.seed_cursor("cvm", &schedule, seed_slot);

    let builder = BackgroundTasksBuilder::new().register(spec("cvm", "test_cvm_sync", 300));
    bench.start(&builder, TaskOutcome::Done);
    bench.settle();

    // Exactly ten runs, strictly ascending, each covering exactly one
    // business day, contiguous with the previous.
    let runs = bench.runs.clone();
    assert_eq!(runs.len(), 10, "one run per missed business day");
    let calendar = schedule.calendar();
    let mut expected_from = calendar
        .next_business_day(target_day(&schedule, seed_slot))
        .unwrap();
    for (i, (_, slot, target)) in runs.iter().enumerate() {
        if i > 0 {
            assert!(*slot > runs[i - 1].1, "slots must be strictly ascending");
        }
        assert_eq!(target.from, target.to, "daily runs cover one day");
        assert_eq!(
            target.from, expected_from,
            "run {i} covers the next uncovered business day"
        );
        expected_from = calendar.next_business_day(target.to).unwrap();
    }

    let cursor = bench.cursor("cvm");
    assert_eq!(cursor.through_slot(), latest);
    assert_eq!(cursor.last_outcome(), Some(SyncOutcomeKind::Synced));
    assert_eq!(cursor.consecutive_failures(), 0);

    // And the next occurrence is already seeded, in the future.
    let pending = bench.queue.list_queued(100);
    assert_eq!(pending.len(), 1, "exactly one future row");
    assert!(
        pending.iter().all(|t| t.data.scheduled_at() > now),
        "the seeded row waits for a future slot"
    );
    assert_eq!(bench.outcomes(ExecutionOutcome::Succeeded).len(), 10);
    let stats = bench.stats.get(&kind("test_cvm_sync")).unwrap();
    assert_eq!((stats.total_runs, stats.total_duration_ms), (10, 50));
}

// ---------------------------------------------------------------- outcomes
#[test]
fn not_ready_holds_the_cursor_without_burning_failures() {
    let schedule = daily_b3();
    let now = right_now();
    let mut bench = Bench::new(now);
    let seed_slot = occurrence_back(&schedule, now, 2);
    bench.seed_cursor("cvm", &schedule, seed_slot);

    let builder = BackgroundTasksBuilder::new().register(spec("cvm", "test_cvm_sync", 300));
    bench.start(
        &builder,
        TaskOutcome::NotReady {
            retry_after_secs: 3600,
        },
    );
    bench.settle();

    assert_eq!(bench.runs.len(), 1, "no run during cooldown");
    let cursor = bench.cursor("cvm");
    assert_eq!(cursor.through_slot(), seed_slot, "position held");
    assert_eq!(cursor.consecutive_failures(), 0, "not a failure");
    assert_eq!(cursor.last_outcome(), Some(SyncOutcomeKind::NotReady));
    assert!(cursor.cooldown_until().is_some());
    assert_eq!(cursor.cooldown_until(), Some(now + 3_600 * SECOND));

    assert_eq!(bench.queue.len(), 0);
    let records = bench.history.list_recent(100);
    assert_eq!(records.len(), 1, "one run total");
    assert_eq!(
        records[0].outcome,
        ExecutionOutcome::Succeeded,
        "not-ready is not an error"
    );
    assert_eq!(records[0].error, None);
}

#[test]
fn terminal_failure_halts_on_the_same_slot_with_cooldown() {
    let schedule = daily_b3();
    let now = right_now();
    let mut bench = Bench::new(now);
    let seed_slot = occurrence_back(&schedule, now, 2);
    let first_missed = schedule.next_occurrence_after(seed_slot).unwrap();
    bench.seed_cursor("cvm", &schedule, seed_slot);

    let builder = BackgroundTasksBuilder::new().register(spec("cvm", "test_cvm_sync", 3600));
    bench.start(&builder, TaskOutcome::Failed("cvm exploded".into()));
    bench.settle();

    assert_eq!(bench.runs.len(), 1);
    let cursor = bench.cursor("cvm");
    assert_eq!(cursor.through_slot(), seed_slot, "cursor never advanced");
    assert_eq!(cursor.last_outcome(), Some(SyncOutcomeKind::Failed));
    assert_eq!(cursor.last_error().as_deref(), Some("cvm exploded"));
    assert_eq!(cursor.consecutive_failures(), 1);
    assert!(cursor.cooldown_until().is_some_and(|u| u > now));

    assert_eq!(bench.queue.len(), 0, "halted: no further seeds");
    let records = bench.history.list_recent(100);
    assert_eq!(records.len(), 1);
    assert_eq!(records[0].outcome, ExecutionOutcome::Failed);
    assert_eq!(records[0].scheduled_at, first_missed);
}

#[test]
fn zero_cooldown_retries_the_same_slot_and_counts_failures() {
    let schedule = daily_b3();
    let now = right_now();
    let mut bench = Bench::new(now);
    let seed_slot = occurrence_back(&schedule, now, 2);
    let first_missed = schedule.next_occurrence_after(seed_slot).unwrap();
    bench.seed_cursor("cvm", &schedule, seed_slot);

    let builder = BackgroundTasksBuilder::new().register(spec("cvm", "test_cvm_sync", 0));
    bench.start(&builder, TaskOutcome::Failed("still broken".into()));
    let mut halts = Vec::new();
    for _ in 0..5 {
        assert_eq!(bench.seed(), 1);
        for end in bench.dispatch() {
            assert_eq!(end.label, RunLabel::Failed);
            halts.push(end.halt.expect("a final failure halts its source"));
        }
    }

    // Halt semantics: every retry targets the same first missed slot.
    assert!(bench.runs.len() >= 3);
    assert!(
        bench.runs.iter().all(|(_, slot, _)| *slot == first_missed),
        "all retries target the first missed slot"
    );
    let cursor = bench.cursor("cvm");
    assert_eq!(cursor.through_slot(), seed_slot, "never advanced");
    assert!(cursor.consecutive_failures() >= 3);
    assert_eq!(
        halts.iter().map(|h| h.failures).collect::<Vec<u32>>(),
        vec![1, 2, 3, 4, 5]
    );
    assert_eq!(
        halts.iter().map(|h| h.escalated).collect::<Vec<bool>>(),
        vec![false, false, false, false, true]
    );
}

#[test]
fn the_cooldown_doubles_with_every_failure() {
    let plane = SyncPlane::new(
        "t",
        &source("cvm"),
        daily_b3(),
        RetryPolicy::none(),
        CooldownPolicy::new(600),
        90,
    );
    let now = right_now();
    let mut cursors = CursorStore::new();
    assert!(plane.on_terminal(&mut cursors, "x".into(), now).is_none());
    cursors.upsert(&SyncCursor::seeded(&source("cvm"), now, 20_000, now));
    let waits: Vec<i128> = (0..5)
        .map(|_| {
            let halt = plane.on_terminal(&mut cursors, "x".into(), now).unwrap();
            (halt.until - now) / SECOND
        })
        .collect();
    assert_eq!(waits, vec![600, 1200, 2400, 3600, 3600]);
    assert_eq!(CooldownPolicy::new(600).until(2, now), now + 1_200 * SECOND);
}

// ---------------------------------------------------------------- cold start
#[test]
fn cold_start_runs_only_the_most_recent_period() {
    let schedule = daily_b3();
    let now = right_now();
    let mut bench = Bench::new(now);
    let latest = occurrence_back(&schedule, now, 0);

    let builder = BackgroundTasksBuilder::new().register(spec("cvm", "test_cvm_sync", 300));
    bench.start(&builder, TaskOutcome::Done);
    bench.settle();
    assert_eq!(bench.cursor("cvm").through_slot(), latest);

    assert_eq!(bench.runs.len(), 1, "no history on a fresh install");
    let (_, slot, target) = bench.runs[0].clone();
    assert_eq!(slot, latest);
    let expected_target = target_day(&schedule, latest);
    assert_eq!(target.from, expected_target);
    assert_eq!(target.to, expected_target);
}

#[test]
fn stale_cursor_beyond_the_cap_skips_ahead_to_the_latest() {
    let schedule = daily_b3();
    let now = right_now();
    let mut bench = Bench::new(now);
    let seed_slot = occurrence_back(&schedule, now, 10);
    let latest = occurrence_back(&schedule, now, 0);
    bench.seed_cursor("cvm", &schedule, seed_slot);

    let mut clamped = spec("cvm", "test_cvm_sync", 300);
    if let PlaneConfig::Sync {
        max_backfill_days, ..
    } = &mut clamped.plane
    {
        *max_backfill_days = 3; // 10 pending days are more than 3: skip ahead.
    }
    let builder = BackgroundTasksBuilder::new().register(clamped);
    bench.start(&builder, TaskOutcome::Done);
    bench.settle();

    assert_eq!(bench.cursor("cvm").through_slot(), latest);
    assert_eq!(bench.runs.len(), 1, "the gap is skipped, not backfilled");
    assert_eq!(bench.runs[0].1, latest, "only the most recent slot ran");
}

// ---------------------------------------------------------------- registry
#[test]
fn two_sources_advance_independently() {
    let schedule = daily_b3();
    let now = right_now();
    let mut bench = Bench::new(now);
    let a_seed = occurrence_back(&schedule, now, 3);
    let latest = occurrence_back(&schedule, now, 0);
    bench.seed_cursor("alpha", &schedule, a_seed);
    // "beta" cold-starts.

    let builder = BackgroundTasksBuilder::new()
        .register(spec("alpha", "test_alpha_sync", 300))
        .register(spec("beta", "test_beta_sync", 300));
    bench.start(&builder, TaskOutcome::Done);
    bench.settle();

    assert_eq!(bench.cursor("alpha").through_slot(), latest);
    assert_eq!(bench.cursor("beta").through_slot(), latest);
    let ran = |name: &str| bench.runs.iter().filter(|(k, _, _)| k == name).count();
    assert_eq!(ran("test_alpha_sync"), 3, "alpha caught up");
    assert_eq!(ran("test_beta_sync"), 1, "beta cold-started");

    let rows = |name: &str| {
        let queued = bench.queue.list_queued(100);
        let recorded = bench.history.list_recent(100);
        queued
            .iter()
            .filter(|t| t.data.kind().as_str() == name)
            .count()
            + recorded.iter().filter(|r| r.kind.as_str() == name).count()
    };
    assert_eq!(rows("test_alpha_sync"), 4, "3 succeeded + 1 future");
    assert_eq!(rows("test_beta_sync"), 2, "1 succeeded + 1 future");
}

#[test]
fn duplicate_sync_kind_is_skipped_with_no_cursor() {
    let mut bench = Bench::new(right_now());
    let builder = BackgroundTasksBuilder::new()
        .register(TaskSpec {
            kind: "test_dup_kind".to_string(),
            category: TaskCategory::EngineSystem,
            plane: PlaneConfig::Interval {
                period: Span::from_secs(600),
                jitter: false,
                tracking: Tracking::Durable,
            },
            log_policy: LogPolicy::All,
        })
        .register(spec("cvm", "test_dup_kind", 300));
    assert_eq!(builder.len(), 1);
    assert!(builder.has_handler("test_dup_kind"));
    assert_eq!(builder.spec_at(0).plane.tier(), TaskTier::Interval);
    bench.start(&builder, TaskOutcome::Done);
    bench.settle_once();

    assert!(bench.runs.is_empty(), "source never ran");
    assert!(
        bench.cursors.get(&source("cvm")).is_none(),
        "no sync seeder, no cursor"
    );
}

impl Bench {
    fn settle_once(&mut self) {
        self.seed();
        self.dispatch();
    }
}

#[test]
fn paused_source_resumes_with_sequential_catchup() {
    let schedule = daily_b3();
    let now = right_now();
    let mut bench = Bench::new(now);
    let seed_slot = occurrence_back(&schedule, now, 3);
    let latest = occurrence_back(&schedule, now, 0);
    bench.seed_cursor("cvm", &schedule, seed_slot);

    // Pause before boot: the catalogue's row carries the flag.
    let declaration = TaskDeclaration {
        kind: kind("test_cvm_sync"),
        category: TaskCategory::FinanceDataSync,
        tier: TaskTier::Sync,
        tracking: Tracking::Durable,
        schedule: "sync:daily@07:00-03:00".into(),
        source: Some(source("cvm")),
        log_policy: LogPolicy::All,
        config_enabled: true,
        settings: TaskSettings::default(),
    };
    bench.registry.declare(&declaration, now);
    assert!(bench
        .registry
        .set_paused(&kind("test_cvm_sync"), true, now));
    bench.registry.declare(&declaration, now);

    let builder = BackgroundTasksBuilder::new().register(spec("cvm", "test_cvm_sync", 300));
    bench.start(&builder, TaskOutcome::Done);
    bench.settle();
    assert!(bench.runs.is_empty(), "paused: no runs");
    assert_eq!(bench.queue.len(), 0, "paused: no seeds");

    // Unpause and seed again: catch-up of the three missed periods.
    assert!(bench
        .registry
        .set_paused(&kind("test_cvm_sync"), false, now));
    bench.settle();
    assert_eq!(bench.cursor("cvm").through_slot(), latest);
    assert_eq!(
        bench.runs.len(),
        3,
        "one run per missed period after resume"
    );
    assert!(
        bench.runs.windows(2).all(|w| w[0].1 < w[1].1),
        "strictly chronological"
    );
}

#[test]
fn a_kind_that_an_operator_holds_back_is_never_seeded() {
    let now = right_now();
    let plane = build("t", &spec("cvm", "t", 300).plane);
    let mut registry = TaskRegistry::new();
    let mut queue = TaskQueue::new();
    let mut cursors = CursorStore::new();
    let declaration = TaskDefinition::sync("t", &source("cvm"), daily_b3())
        .run()
        .into_parts()
        .unwrap()
        .0;
    registry.declare(&declaration, now);
    let mut pass = |registry: &TaskRegistry| {
        seed_pass(
            registry,
            &kind("t"),
            &plane,
            &mut queue,
            &mut cursors,
            now,
            new_id(),
        )
        .unwrap()
    };
    assert!(registry.set_enabled(&kind("t"), false, now));
    assert_eq!(pass(&registry), SeedPass::Paused);
    assert!(registry.set_enabled(&kind("t"), true, now));
    assert!(registry.set_paused(&kind("t"), true, now));
    assert_eq!(pass(&registry), SeedPass::Paused);
    assert!(registry.set_paused(&kind("t"), false, now));
    assert_eq!(pass(&registry), SeedPass::Seeded);
    assert_eq!(pass(&registry), SeedPass::Idle);
}

#[test]
fn crash_between_handler_success_and_completion_reruns_idempotently() {
    // A row left running with the cursor already advanced: recovery puts it
    // back, and the second run leaves the cursor exactly where it was.
    let schedule = daily_b3();
    let now = right_now();
    let mut bench = Bench::new(now);
    let seed_slot = occurrence_back(&schedule, now, 1);
    let missed = schedule.next_occurrence_after(seed_slot).unwrap();
    let target = schedule
        .target_period(target_day(&schedule, seed_slot), missed)
        .unwrap();

    bench.seed_cursor("cvm", &schedule, missed);
    let retry = RetryPolicy {
        max_attempts: 2,
        retry_delay_secs: 0,
    };
    let task = BackgroundTask::pending(
        new_id(),
        &kind("test_cvm_sync"),
        Some(encode_payload(missed, target)),
        missed,
        retry,
        now,
    );
    bench.queue.insert(&task).unwrap();
    assert_eq!(bench.queue.claim_due(now, 8, &no_kinds()).len(), 1);

    let recovery = recover_stale_running(
        &mut bench.queue,
        &mut bench.history,
        &mut bench.stats,
        now,
    );
    assert_eq!((recovery.requeued, recovery.failed), (1, 0));
    let builder = BackgroundTasksBuilder::new().register(spec("cvm", "test_cvm_sync", 300));
    bench.start(&builder, TaskOutcome::Done);
    bench.settle();

    assert_eq!(
        bench.runs[0].1, missed,
        "the recovered run targets its own slot"
    );
    assert_eq!(
        bench.cursor("cvm").through_slot(),
        missed,
        "re-running an already-recorded slot is a no-op on the cursor"
    );
}

// ---------------------------------------------------------------- intervals
#[test]
fn durable_periodic_enqueues_executes_and_records_history() {
    let mut bench = Bench::new(right_now());
    let builder = BackgroundTasksBuilder::new().task(
        TaskDefinition::interval("test_durable", Span::from_millis(20))
            .no_jitter()
            .run(),
    );
    bench.start(&builder, TaskOutcome::Done);
    for _ in 0..2 {
        assert_eq!(bench.seed(), 1);
        assert_eq!(bench.dispatch().len(), 1);
        bench.now += 20;
    }

    let rows = bench.history.list_recent(50);
    assert!(!rows.is_empty(), "durable runs must leave history rows");
    assert!(
        rows.iter().all(|t| t.kind.as_str() == "test_durable"),
        "only the durable kind is recorded"
    );
    assert_eq!(bench.outcomes(ExecutionOutcome::Succeeded).len(), 2);
}

#[test]
fn ephemeral_periodic_runs_without_rows() {
    let mut bench = Bench::new(right_now());
    let definition = TaskDefinition::interval("test_ephemeral", Span::from_millis(10))
        .ephemeral()
        .run();
    assert_eq!(definition.trigger.mode(), TickMode::Inline);
    let builder = BackgroundTasksBuilder::new().task(definition);
    bench.start(&builder, TaskOutcome::Done);
    match &bench.planes["test_ephemeral"] {
        Plane::Interval(p) => assert_eq!(p.mode(), TickMode::Inline),
        _ => panic!("expected an interval"),
    }
    assert_eq!(bench.queue.len(), 0);
    assert!(
        bench.history.list_recent(50).is_empty(),
        "ephemeral runs must not persist rows"
    );
}

#[test]
fn durable_ticks_do_not_pile_up_while_a_run_is_active() {
    let mut bench = Bench::new(right_now());
    let builder = BackgroundTasksBuilder::new().task(
        TaskDefinition::interval("test_slow", Span::from_millis(10))
            .no_jitter()
            .run(),
    );
    bench.start(&builder, TaskOutcome::Done);
    assert_eq!(bench.seed(), 1);
    let running = bench.queue.claim_due(bench.now, 8, &no_kinds());
    assert_eq!(running.len(), 1);
    // Several periods elapse while the first run is still active.
    for _ in 0..10 {
        bench.now += 10;
        assert_eq!(bench.seed(), 0);
    }
    assert_eq!(
        bench.queue.len(),
        1,
        "runs of one kind must not pile up"
    );
    assert_eq!(bench.run(&running[0]).outcome, WriteOutcome::Applied);
    assert_eq!(bench.seed(), 1);
}

#[test]
fn a_recurrence_waits_for_its_next_occurrence() {
    let schedule = Schedule::new(MarketCalendar::utc(), at(3, 0), Recurrence::Daily);
    let now = utc(2026, 8, 12, 9);
    let trigger = RecurringTrigger::new("t", schedule, RetryPolicy::none());
    let mut queue = TaskQueue::new();
    let next = utc(2026, 8, 13, 3);
    match trigger.reconcile(&mut queue, now, new_id()) {
        Ok(SeedPass::Seeded) => {}
        other => panic!("expected a seed, got {other:?}"),
    }
    assert_eq!(queue.next_due_at(&no_kinds()), Some(next));
    assert!(matches!(
        trigger.reconcile(&mut queue, now, new_id()),
        Ok(SeedPass::Idle)
    ));
    assert_eq!(queue.len(), 1);
}

#[test]
fn an_unnamed_trigger_cannot_seed() {
    let trigger = IntervalTrigger::new("", Span::from_secs(1), false, Tracking::Durable);
    let mut queue = TaskQueue::new();
    let fault = trigger
        .reconcile(&mut queue, right_now(), new_id())
        .unwrap_err();
    assert_eq!(fault.message(), "name must not be empty");
}

#[test]
fn a_weekend_recurrence_never_occurs() {
    let schedule = Schedule::new(
        MarketCalendar::utc(),
        at(3, 0),
        Recurrence::Weekly { on: Weekday::Sat },
    );
    assert_eq!(schedule.next_occurrence_after(right_now()), None);
    assert_eq!(schedule.latest_occurrence_before(right_now()), None);
}

// ---------------------------------------------------------------- attempts
#[test]
fn failing_enqueued_task_retries_until_it_succeeds() {
    let mut bench = Bench::new(right_now());
    bench.planes.insert(
        "test_retry".into(),
        build(
            "test_retry",
            &PlaneConfig::Interval {
                period: Span::from_secs(600),
                jitter: false,
                tracking: Tracking::Durable,
            },
        ),
    );
    let mut attempts = 0;
    bench.handlers.insert(
        "test_retry".into(),
        Box::new(move |_| {
            // Fail the first two attempts, succeed on the third.
            attempts += 1;
            if attempts <= 2 {
                TaskOutcome::Failed("transient".into())
            } else {
                TaskOutcome::Done
            }
        }),
    );
    let id = enqueue_task(
        &mut bench.queue,
        "test_retry",
        Some(r#"{"n":1}"#.to_string()),
        RetryPolicy {
            max_attempts: 3,
            retry_delay_secs: 0,
        },
        bench.now,
        new_id(),
    )
    .expect("enqueue succeeds");

    let labels: Vec<RunLabel> = bench.dispatch().iter().map(|e| e.label).collect();
    assert_eq!(
        labels,
        vec![RunLabel::Retry, RunLabel::Retry, RunLabel::Succeeded],
        "two failures + one success"
    );
    let row = bench.history.find_by_id(id).unwrap();
    assert_eq!(row.outcome, ExecutionOutcome::Succeeded);
    assert_eq!(row.attempts, 3);
    assert_eq!(row.payload.as_deref(), Some(r#"{"n":1}"#));
}

#[test]
fn exhausted_retries_end_terminally_failed() {
    let mut bench = Bench::new(right_now());
    let builder = BackgroundTasksBuilder::new().task(
        TaskDefinition::interval("test_fatal", Span::from_secs(600)).run(),
    );
    bench.start(&builder, TaskOutcome::Failed("always broken".into()));
    let id = enqueue_task(
        &mut bench.queue,
        "test_fatal",
        None,
        RetryPolicy {
            max_attempts: 2,
            retry_delay_secs: 0,
        },
        bench.now,
        new_id(),
    )
    .expect("enqueue succeeds");
    bench.dispatch();

    let row = bench.history.find_by_id(id).unwrap();
    assert_eq!(row.outcome, ExecutionOutcome::Failed);
    assert_eq!(row.attempts, 2, "the full budget was spent");
    assert_eq!(row.error.as_deref(), Some("always broken"));
}

#[test]
fn unknown_kind_fails_terminally_with_a_named_error() {
    let mut bench = Bench::new(right_now());
    let id = enqueue_task(
        &mut bench.queue,
        "test_unregistered",
        None,
        RetryPolicy::none(),
        bench.now,
        new_id(),
    )
    .expect("enqueue succeeds");
    bench.dispatch();

    let row = bench.history.find_by_id(id).unwrap();
    assert_eq!(row.outcome, ExecutionOutcome::Failed);
    assert!(
        row.error
            .as_deref()
            .is_some_and(|e| e.contains("no handler registered")),
        "error names the missing handler: {:?}",
        row.error
    );
    assert_eq!(
        row.error.as_deref(),
        Some("no handler registered for kind \"test_unregistered\"")
    );
}

#[test]
fn startup_recovers_rows_left_running_by_a_previous_process() {
    let now = right_now();
    let mut bench = Bench::new(now);

    // A crash: a claimed row nobody will complete.
    let retry = RetryPolicy {
        max_attempts: 2,
        retry_delay_secs: 0,
    };
    let task = BackgroundTask::pending(new_id(), &kind("test_recovered"), None, now, retry, now);
    let id = task.id();
    bench.queue.insert(&task).unwrap();
    assert_eq!(bench.queue.claim_due(now, 8, &no_kinds()).len(), 1);

    // The next start requeues and executes it.
    recover_stale_running(
        &mut bench.queue,
        &mut bench.history,
        &mut bench.stats,
        now,
    );
    let builder = BackgroundTasksBuilder::new().task(
        TaskDefinition::interval("test_recovered", Span::from_secs(600)).run(),
    );
    bench.start(&builder, TaskOutcome::Done);
    bench.dispatch();

    let row = bench.history.find_by_id(id).unwrap();
    assert_eq!(row.outcome, ExecutionOutcome::Succeeded);
    assert_eq!(row.attempts, 2, "interrupted attempt + recovered run");
}

#[test]
fn recovery_records_interrupted_final_attempts() {
    let now = right_now();
    let mut bench = Bench::new(now);
    let task = BackgroundTask::pending(
        new_id(),
        &kind("t"),
        None,
        now,
        RetryPolicy::none(),
        now,
    );
    bench.queue.insert(&task).unwrap();
    bench.queue.claim_due(now, 8, &no_kinds());
    let recovery = recover_stale_running(
        &mut bench.queue,
        &mut bench.history,
        &mut bench.stats,
        now,
    );
    assert_eq!((recovery.requeued, recovery.failed), (0, 1));
    assert_eq!(bench.queue.len(), 0);
    let row = bench.history.find_by_id(task.id()).unwrap();
    assert_eq!(row.error.as_deref(), Some(INTERRUPTED));
    assert_eq!(row.duration_ms, None);
    assert_eq!(bench.stats.get(&kind("t")).unwrap().total_failures, 1);
}

#[test]
fn a_run_that_was_touched_since_its_claim_records_nothing() {
    let now = right_now();
    let mut bench = Bench::new(now);
    let task = BackgroundTask::pending(
        new_id(),
        &kind("t"),
        None,
        now,
        RetryPolicy::none(),
        now,
    );
    bench.queue.insert(&task).unwrap();
    let stale = bench.queue.find_by_id(task.id()).unwrap();
    bench.queue.claim_due(now, 8, &no_kinds());
    let (completion, label) = completion_for(&stale.data, &Ok(Interpretation::Completed), now);
    assert_eq!(label, RunLabel::Succeeded);
    let outcome = record_completion(
        &mut bench.queue,
        &mut bench.history,
        &mut bench.stats,
        &stale,
        &completion,
        None,
    );
    assert!(matches!(outcome, WriteOutcome::VersionMismatch { .. }));
    assert_eq!(bench.queue.len(), 1);
    assert!(bench.history.list_recent(10).is_empty());
}

#[test]
fn the_end_of_an_attempt_decides_its_label() {
    let now = right_now();
    let retry = RetryPolicy {
        max_attempts: 2,
        retry_delay_secs: 10,
    };
    let mut queue = TaskQueue::new();
    queue
        .insert(&BackgroundTask::pending(
            new_id(),
            &kind("t"),
            None,
            now,
            retry,
            now,
        ))
        .unwrap();
    let first = queue.claim_due(now, 1, &no_kinds()).remove(0);
    let label = |result: Result<Interpretation, TaskFailure>| {
        completion_for(&first.data, &result, now).1
    };
    assert_eq!(label(Ok(Interpretation::Completed)), RunLabel::Succeeded);
    assert_eq!(label(Ok(Interpretation::NotReady)), RunLabel::NotReady);
    assert_eq!(label(Err(TaskFailure::new("x".into()))), RunLabel::Retry);
    assert!(first.data.can_retry());
    assert_eq!(first.data.next_retry_at(now), now + 10 * SECOND);
}

#[test]
fn only_named_kinds_with_fresh_ids_are_enqueued() {
    let mut queue = TaskQueue::new();
    let now = right_now();
    let none = RetryPolicy::none();
    assert_eq!(
        enqueue_task(&mut queue, "", None, none, now, 1),
        Err("name must not be empty".to_string())
    );
    assert_eq!(enqueue_task(&mut queue, "t", None, none, now, 1), Ok(1));
    assert_eq!(
        enqueue_task(&mut queue, "t", None, none, now, 1),
        Err("task id is already queued".to_string())
    );
    assert_eq!(queue.len(), 1);
}

#[test]
fn a_drain_ends_when_nothing_is_due() {
    let mut drain = Drain::new();
    assert!(matches!(drain.next(), DrainStep::Claim));
    drain.claimed(Some(Vec::new()));
    assert!(matches!(drain.next(), DrainStep::Wait));
    let mut drain = Drain::new();
    drain.claimed(None);
    assert!(matches!(drain.next(), DrainStep::Wait));
}

#[test]
fn a_batch_runs_two_at_a_time_and_ends_before_the_next_claim() {
    let now = right_now();
    let mut queue = TaskQueue::new();
    for id in 1..=3u128 {
        queue
            .insert(&BackgroundTask::pending(
                id,
                &kind("t"),
                None,
                now - 10 + id as i128,
                RetryPolicy::none(),
                now,
            ))
            .unwrap();
    }
    let mut drain = Drain::new();
    drain.claimed(Some(queue.claim_due(now, CLAIM_BATCH, &no_kinds())));
    let mut started = Vec::new();
    loop {
        match drain.next() {
            DrainStep::Execute(row) => started.push(row.data.id()),
            DrainStep::Await => break,
            other => panic!("expected a run, got {other:?}"),
        }
    }
    assert_eq!(started, vec![1, 2], "oldest first, two at once");
    drain.ended();
    match drain.next() {
        DrainStep::Execute(row) => assert_eq!(row.data.id(), 3),
        other => panic!("expected a run, got {other:?}"),
    }
    drain.ended();
    assert!(matches!(drain.next(), DrainStep::Await));
    drain.ended();
    assert!(matches!(drain.next(), DrainStep::Claim));
}

#[test]
fn a_sync_run_needs_a_readable_payload() {
    let plane = SyncPlane::new(
        "t",
        &source("cvm"),
        daily_b3(),
        RetryPolicy::none(),
        CooldownPolicy::new(300),
        90,
    );
    assert_eq!(
        plane.window_for(None).unwrap_err(),
        "sync run has no payload"
    );
    assert_eq!(
        plane.window_for(Some("junk".into())).unwrap_err(),
        "corrupt sync payload: \"junk\""
    );
    let mut bench = Bench::new(right_now());
    bench.planes.insert("t".into(), Plane::Sync(plane));
    let id = enqueue_task(
        &mut bench.queue,
        "t",
        None,
        RetryPolicy::none(),
        bench.now,
        new_id(),
    )
    .unwrap();
    bench.dispatch();
    let row = bench.history.find_by_id(id).unwrap();
    assert_eq!(row.error.as_deref(), Some("sync run has no payload"));
}

#[test]
fn lost_cursor_writes_fail_the_run() {
    for (write, fault, message) in [
        (
            CursorWrite::Advance,
            StoreFault::Failed("x".into()),
            "cursor advance failed: x",
        ),
        (
            CursorWrite::Advance,
            StoreFault::NotExecuted("x".into()),
            "cursor advance not executed: x",
        ),
        (
            CursorWrite::Hold,
            StoreFault::Failed("x".into()),
            "cursor hold failed: x",
        ),
        (
            CursorWrite::Hold,
            StoreFault::NotExecuted("x".into()),
            "cursor hold not executed: x",
        ),
    ] {
        assert_eq!(write_failure(write, &fault).message(), message);
    }
}

fn cvm_plane(max_attempts: u32) -> SyncPlane {
    SyncPlane::new(
        "t",
        &source("cvm"),
        daily_b3(),
        RetryPolicy {
            max_attempts,
            retry_delay_secs: 0,
        },
        CooldownPolicy::new(600),
        90,
    )
}

/// A run that was not ready while its cursor had vanished is held before its
/// slot, and the same period is seeded again.
#[test]
fn a_vanished_cursor_holds_before_the_slot() {
    let plane = cvm_plane(1);
    let now = utc(2026, 8, 14, 12);
    let mut queue = TaskQueue::new();
    let mut cursors = CursorStore::new();
    assert!(matches!(
        plane.reconcile(&mut queue, &mut cursors, now, 1),
        Ok(SeedPass::Seeded)
    ));
    let first = queue.claim_due(now, 1, &no_kinds()).remove(0);
    let Ok(window) = plane.window_for(first.data.payload()) else {
        panic!("a payload");
    };
    let RunWindow::Period { slot, .. } = window else {
        panic!("a period");
    };

    let mut vanished = CursorStore::new();
    let outcome = TaskOutcome::NotReady {
        retry_after_secs: 60,
    };
    let result = plane.interpret(&mut vanished, window, outcome, now);
    assert!(matches!(result, Ok(Interpretation::Completed)));
    let held = vanished.get(&source("cvm")).unwrap();
    assert!(held.through_slot() < slot);
    assert_eq!(held.cooldown_until(), Some(now + 60 * SECOND));

    let mut queue = TaskQueue::new();
    assert!(matches!(
        plane.reconcile(&mut queue, &mut vanished, now, 2),
        Ok(SeedPass::Idle)
    ));
    assert!(matches!(
        plane.reconcile(&mut queue, &mut vanished, now + 60 * SECOND, 2),
        Ok(SeedPass::Seeded)
    ));
    let again = queue.claim_due(now + 60 * SECOND, 1, &no_kinds()).remove(0);
    assert_eq!(again.data.payload(), first.data.payload());

    // Done moves past the slot, with or without a cursor.
    let mut vanished = CursorStore::new();
    let Ok(window) = plane.window_for(first.data.payload()) else {
        panic!("a payload");
    };
    let result = plane.interpret(&mut vanished, window, TaskOutcome::Done, now);
    assert!(matches!(result, Ok(Interpretation::Completed)));
    assert_eq!(vanished.get(&source("cvm")).unwrap().through_slot(), slot);
}

/// A run whose cursor could not be written failed: it is retried, and its
/// last attempt halts the source.
#[test]
fn an_unwritten_cursor_fails_the_run() {
    let now = utc(2026, 8, 14, 12);
    let sync = cvm_plane(2);
    let mut queue = TaskQueue::new();
    let mut cursors = CursorStore::new();
    assert!(matches!(
        sync.reconcile(&mut queue, &mut cursors, now, 1),
        Ok(SeedPass::Seeded)
    ));
    let placed = cursors.get(&source("cvm")).unwrap();
    let plane = Some(Plane::Sync(sync));
    let mut history = RunHistory::new();
    let mut stats = StatBook::new();
    for (label, failures) in [(RunLabel::Retry, 0), (RunLabel::Failed, 1)] {
        let row = queue.claim_due(now, 1, &no_kinds()).remove(0);
        let end = record_unwritten(
            &mut queue,
            &mut history,
            &mut stats,
            &mut cursors,
            &plane,
            &row,
            CursorWrite::Advance,
            StoreFault::Failed("disk full".into()),
            Some(5),
            now,
        );
        assert_eq!(end.label, label);
        assert_eq!(end.outcome, WriteOutcome::Applied);
        assert_eq!(end.halt.is_some(), failures == 1);
        let cursor = cursors.get(&source("cvm")).unwrap();
        assert_eq!(cursor.through_slot(), placed.through_slot());
        assert_eq!(cursor.through_target(), placed.through_target());
        assert_eq!(cursor.consecutive_failures(), failures);
    }
    assert_eq!(queue.len(), 0);
    let records = history.list_recent(10);
    assert_eq!(records.len(), 1);
    assert_eq!(
        records[0].error.as_deref(),
        Some("cursor advance failed: disk full")
    );
}

#[test]
fn only_a_sync_run_with_a_period_writes_a_cursor() {
    let sync = Some(Plane::Sync(cvm_plane(1)));
    let period = || RunWindow::Period {
        slot: utc(2026, 8, 14, 10),
        target: TargetPeriod {
            from: 20_000,
            to: 20_000,
        },
    };
    let ran = |window, outcome| RunReport::Ran { window, outcome };
    assert_eq!(
        ran(period(), TaskOutcome::Done).cursor_write(&sync),
        Some(CursorWrite::Advance)
    );
    let unready = TaskOutcome::NotReady {
        retry_after_secs: 1,
    };
    assert_eq!(
        ran(period(), unready).cursor_write(&sync),
        Some(CursorWrite::Hold)
    );
    let failed = TaskOutcome::Failed("x".into());
    assert_eq!(ran(period(), failed).cursor_write(&sync), None);
    assert_eq!(
        ran(RunWindow::NoWindow, TaskOutcome::Done).cursor_write(&sync),
        None
    );
    assert_eq!(ran(period(), TaskOutcome::Done).cursor_write(&None), None);
}

#[test]
fn a_dropped_cursor_counts_the_days_it_skips() {
    let plane = cvm_plane(1);
    let now = utc(2026, 8, 14, 12);
    let calendar = MarketCalendar::b3();
    let today = calendar.local_date(now).unwrap();
    let reseeded = plane.cold_start_cursor(now).unwrap();
    let old = SyncCursor::seeded(&source("cvm"), now - 400 * DAY, today - 400, now);
    assert_eq!(
        plane.skipped_days(&old, now),
        Some(calendar.business_days_between(today - 400, reseeded.through_target()))
    );
    let recent = SyncCursor::seeded(&source("cvm"), now - 10 * DAY, today - 10, now);
    assert_eq!(plane.skipped_days(&recent, now), None);
}

// ---------------------------------------------------------------- jobs
fn config(cvm_sync: Option<SyncSettings>) -> EngineConfig {
    EngineConfig {
        db_path: DatabasePath(b"/tmp/x.db".to_vec()),
        socket_path: SocketPath(b"/tmp/x.sock".to_vec()),
        log_file: None,
        durable: false,
        maintenance_interval: Span::from_secs(3600),
        heartbeat_interval: Span::from_secs(300),
        cvm_sync,
    }
}

fn kinds(builder: &BackgroundTasksBuilder) -> Vec<String> {
    (0..builder.len())
        .map(|i| builder.spec_at(i).kind.clone())
        .collect()
}

#[test]
fn the_system_jobs_are_always_registered() {
    let settings = SyncSettings {
        at: at(7, 0),
        recurrence: Recurrence::Daily,
        cooldown_secs: 300,
        max_backfill_days: 90,
    };
    let builder = jobs::background_tasks(&config(Some(settings)), Some(Span::from_secs(20)));
    assert_eq!(
        kinds(&builder),
        vec![
            system::DB_MAINTENANCE_TASK,
            system::HEARTBEAT_TASK,
            system::TASK_PRUNE_TASK,
            system::SD_WATCHDOG_TASK,
            cvm::CVM_DAILY_SYNC_TASK,
        ]
    );
    let plane = |i: usize| builder.spec_at(i).plane.clone();
    assert_eq!(plane(0).descriptor(), "interval:3600s±10%");
    assert_eq!(plane(1).descriptor(), "interval:300s");
    assert_eq!(plane(1).mode(), TickMode::Inline);
    assert_eq!(plane(2).descriptor(), "recurring:daily@03:00+00:00");
    assert_eq!(plane(3).descriptor(), "interval:10s");
    assert_eq!(plane(4).descriptor(), "sync:daily@07:00-03:00");
}

#[test]
fn a_disabled_source_is_declared_and_never_runs() {
    let builder = jobs::background_tasks(&config(None), None);
    assert_eq!(builder.len(), 3);
    assert!(!builder.has_handler(cvm::CVM_DAILY_SYNC_TASK));
    let declared: Vec<&TaskDeclaration> = (0..builder.declaration_count())
        .map(|i| builder.declaration_at(i))
        .filter(|d| d.kind.as_str() == cvm::CVM_DAILY_SYNC_TASK)
        .collect();
    assert_eq!(declared.len(), 1);
    assert!(!declared[0].config_enabled);
}

#[test]
fn pruning_keeps_a_week() {
    let now = right_now();
    assert_eq!(system::prune_cutoff(now), Some(now - 7 * DAY));
    let mut history = RunHistory::new();
    let task = BackgroundTask::pending(1, &kind("t"), None, now, RetryPolicy::none(), now);
    for (id, age) in [(1u128, 8i128), (2, 6)] {
        let mut record = TaskExecution::of_task(
            &task,
            ExecutionOutcome::Succeeded,
            None,
            None,
            now - age * DAY,
        );
        record.id = id;
        history.insert(&record).unwrap();
    }
    assert_eq!(system::prune(&mut history, now), Some(1));
    assert!(history.find_by_id(2).is_some());
    assert!(history.find_by_id(1).is_none());
}

#[test]
fn a_storage_job_reports_what_went_wrong() {
    assert!(matches!(
        system::storage_outcome(Ok(Ok(()))),
        TaskOutcome::Done
    ));
    for call in [Ok(Err("x".to_string())), Err("x".to_string())] {
        match system::storage_outcome(call) {
            TaskOutcome::Failed(message) => assert!(message.contains('x')),
            other => panic!("expected a failure, got {other:?}"),
        }
    }
}

#[test]
fn the_cvm_sync_needs_its_window() {
    let window = RunWindow::Period {
        slot: right_now(),
        target: TargetPeriod { from: 1, to: 1 },
    };
    assert!(matches!(cvm::run(&window), TaskOutcome::Done));
    assert!(matches!(
        cvm::run(&RunWindow::NoWindow),
        TaskOutcome::Failed(_)
    ));
}
