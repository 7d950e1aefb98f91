//! The queue, the cursors, the history, the registry and the statistics, and
//! the rows that they are stored as.
use chrono::{NaiveDate, TimeZone, Utc};
use uuid::Uuid;
use valqeron_engine::catalog::{LogPolicy, TaskCategory, TaskDeclaration, TaskSettings};
use valqeron_engine::cursor::{CursorStore, SyncCursor, SyncOutcomeKind, SyncSource};
use valqeron_engine::history::{RunHistory, TaskExecution};
use valqeron_engine::jobs::system::prune_cutoff;
use valqeron_engine::moment::{
    instant, is_instant, truncated_to_millis, ClockTime, FIRST_DAY, FIRST_INSTANT, FIRST_RFC3339,
    LAST_DAY, LAST_INSTANT, LAST_RFC3339, SECOND_TICKS,
};
use valqeron_engine::plane::{TaskTier, Tracking};
use valqeron_engine::queue::{BackgroundTask, RetryPolicy, TaskKind, TaskStatus, Versioned};
use valqeron_engine::registry::{TaskRegistration, TaskRegistry};
use valqeron_engine::registry_rows::{registration_from_row, registration_to_row};
use valqeron_engine::rows::{
    column_datetime, column_naive_date, column_opt_u64, column_opt_uuid, column_u64, column_uuid, cursor_from_row, cursor_to_row,
    date_column, execution_from_row, execution_to_row, id_column, instant_column, stat_from_row, stat_to_row, task_from_row,
    task_to_row, ColumnType,
};
use valqeron_engine::schedule::Recurrence;
use valqeron_engine::settings::{settings_from_row, Cell, SettingsColumns};
use valqeron_engine::stats::{StatBook, TaskStats};
use valqeron_engine::task_queue::{ExecutionOutcome, TaskCompletion, TaskQueue, WriteOutcome};

const INTERRUPTED: &str = "interrupted: the engine stopped while the task was running";
const MILLI: i128 = 1_000_000;
const MINUTE: i128 = 60 * SECOND_TICKS;
const HOUR: i128 = 60 * MINUTE;
const DAY: i128 = 24 * HOUR;

fn utc(y: i32, m: u32, d: u32, h: u32) -> i128 {
    let at = Utc.with_ymd_and_hms(y, m, d, h, 0, 0).single().unwrap();
    instant(at.timestamp(), 0)
}

fn date(y: i32, m: u32, d: u32) -> i32 {
    let epoch = NaiveDate::from_ymd_opt(1970, 1, 1).unwrap();
    let day = NaiveDate::from_ymd_opt(y, m, d).unwrap();
    day.signed_duration_since(epoch).num_days() as i32
}

/// Now, to the millisecond.
fn right_now() -> i128 {
    let now = Utc::now();
    instant(now.timestamp(), now.timestamp_subsec_millis() * 1_000_000)
}

fn new_id() -> u128 {
    Uuid::now_v7().as_u128()
}

fn kind(name: &str) -> TaskKind {
    TaskKind::new(name).unwrap()
}

fn source(name: &str) -> SyncSource {
    SyncSource::new(name).unwrap()
}

fn none() -> Vec<TaskKind> {
    Vec::new()
}

/// A task as it reads back from its row.
fn stored(row: &Versioned<BackgroundTask>) -> Versioned<BackgroundTask> {
    task_from_row(&task_to_row(row).expect("times that can be written")).expect("a sound row")
}

fn find(queue: &TaskQueue, id: u128) -> Option<Versioned<BackgroundTask>> {
    queue.find_by_id(id).map(|row| stored(&row))
}

fn task_due_at(at: i128, max_attempts: u32) -> BackgroundTask {
    let retry = RetryPolicy {
        max_attempts,
        retry_delay_secs: 30,
    };
    BackgroundTask::pending(new_id(), &kind("test_task"), None, at, retry, right_now())
}

fn terminal(outcome: ExecutionOutcome, finished_at: i128) -> TaskCompletion {
    TaskCompletion::Terminal {
        outcome,
        error: None,
        finished_at,
    }
}

// ---------------------------------------------------------------- cursors
fn stored_cursor(store: &CursorStore, name: &str) -> Option<SyncCursor> {
    store.get(&source(name)).map(|cursor| {
        cursor_from_row(&cursor_to_row(&cursor).expect("times that can be written"))
            .expect("a sound row")
    })
}

#[test]
fn get_returns_none_for_an_unknown_source() {
    let store = CursorStore::new();
    assert!(store.get(&source("cvm")).is_none());
}

#[test]
fn upsert_then_get_round_trips_all_fields() {
    let mut store = CursorStore::new();
    let now = utc(2026, 8, 12, 12);
    let cursor = SyncCursor::seeded(
        &source("cvm"),
        utc(2026, 8, 11, 10),
        date(2026, 8, 10),
        now,
    )
    .failed("connection refused".into(), utc(2026, 8, 12, 13), now);

    store.upsert(&cursor);

    let found = stored_cursor(&store, "cvm").expect("cursor found");
    assert_eq!(found.source().as_str(), "cvm");
    assert_eq!(found.through_slot(), utc(2026, 8, 11, 10));
    assert_eq!(found.through_target(), date(2026, 8, 10));
    assert_eq!(found.cooldown_until(), Some(utc(2026, 8, 12, 13)));
    assert_eq!(found.consecutive_failures(), 1);
    assert_eq!(found.last_outcome(), Some(SyncOutcomeKind::Failed));
    assert_eq!(found.last_error().as_deref(), Some("connection refused"));
    assert_eq!(found.updated_at(), now);
}

#[test]
fn upsert_replaces_the_existing_row() {
    let mut store = CursorStore::new();
    let now = utc(2026, 8, 12, 12);
    let seeded = SyncCursor::seeded(
        &source("cvm"),
        utc(2026, 8, 11, 10),
        date(2026, 8, 10),
        now,
    );
    store.upsert(&seeded);

    let advanced = seeded.advanced(utc(2026, 8, 12, 10), date(2026, 8, 11), now);
    store.upsert(&advanced);

    let found = stored_cursor(&store, "cvm").expect("cursor found");
    assert_eq!(found.through_slot(), utc(2026, 8, 12, 10));
    assert_eq!(found.through_target(), date(2026, 8, 11));
    assert_eq!(found.last_outcome(), Some(SyncOutcomeKind::Synced));
    assert_eq!(found.cooldown_until(), None, "advance clears the cooldown");
}

#[test]
fn sources_are_independent_rows() {
    let mut store = CursorStore::new();
    let now = utc(2026, 8, 12, 12);
    let cvm = SyncCursor::seeded(
        &source("cvm"),
        utc(2026, 8, 11, 10),
        date(2026, 8, 10),
        now,
    );
    let b3 = SyncCursor::seeded(&source("b3"), utc(2026, 8, 5, 10), date(2026, 8, 4), now);
    store.upsert(&cvm);
    store.upsert(&b3);

    let found_cvm = stored_cursor(&store, "cvm").expect("cvm row");
    let found_b3 = stored_cursor(&store, "b3").expect("b3 row");
    assert_eq!(found_cvm.through_target(), date(2026, 8, 10));
    assert_eq!(found_b3.through_target(), date(2026, 8, 4));
}

#[test]
fn not_ready_state_round_trips_without_error_text() {
    let mut store = CursorStore::new();
    let now = utc(2026, 8, 12, 12);
    let cursor = SyncCursor::seeded(
        &source("cvm"),
        utc(2026, 8, 11, 10),
        date(2026, 8, 10),
        now,
    )
    .held_not_ready(600, now);
    store.upsert(&cursor);

    let found = stored_cursor(&store, "cvm").expect("cursor found");
    assert_eq!(found.last_outcome(), Some(SyncOutcomeKind::NotReady));
    assert_eq!(found.consecutive_failures(), 0);
    assert!(found.last_error().is_none());
    assert!(found.cooldown_until().is_some());
    assert_eq!(found.cooldown_until(), Some(now + 10 * MINUTE));
    assert!(!found.is_ready(now + 599_999));
    assert!(found.is_ready(now + 10 * MINUTE));
}

// ---------------------------------------------------------------- queue
fn execution(outcome: ExecutionOutcome, finished_at: i128, error: Option<&str>) -> TaskExecution {
    TaskExecution {
        id: new_id(),
        kind: kind("test_task"),
        outcome,
        payload: Some("slot|from|to".into()),
        scheduled_at: finished_at - MINUTE,
        started_at: Some(finished_at - MINUTE / 2),
        finished_at,
        attempts: 2,
        duration_ms: Some(1234),
        error: error.map(str::to_owned),
        created_at: finished_at - 2 * MINUTE,
    }
}

fn stored_execution(record: &TaskExecution) -> TaskExecution {
    execution_from_row(&execution_to_row(record).expect("times that can be written"))
        .expect("a sound row")
}

#[test]
fn repository_insert_then_find_round_trips_all_fields() {
    let mut queue = TaskQueue::new();
    let now = right_now();
    let retry = RetryPolicy {
        max_attempts: 3,
        retry_delay_secs: 60,
    };
    let task = BackgroundTask::pending(
        new_id(),
        &kind("round_trip"),
        Some(r#"{"limit":5}"#.into()),
        now + 5 * MINUTE,
        retry,
        now,
    );

    queue.insert(&task).unwrap();

    let found = find(&queue, task.id()).expect("task found");
    assert_eq!(found.version, 1);
    assert_eq!(found.data.id(), task.id());
    assert_eq!(found.data.kind().as_str(), "round_trip");
    assert_eq!(found.data.status(), TaskStatus::Pending);
    assert_eq!(found.data.payload().as_deref(), Some(r#"{"limit":5}"#));
    assert_eq!(found.data.scheduled_at(), now + 5 * MINUTE);
    assert_eq!(found.data.attempts(), 0);
    assert_eq!(found.data.max_attempts(), 3);
    assert_eq!(found.data.retry_delay_secs(), 60);
    assert!(found.data.started_at().is_none());
    assert!(found.data.last_error().is_none());
    assert_eq!(found.data.created_at(), now);

    let mut history = RunHistory::new();
    let record = execution(
        ExecutionOutcome::Failed,
        utc(2026, 8, 17, 12),
        Some("boom"),
    );
    history.insert(&record).unwrap();

    let found = stored_execution(&history.find_by_id(record.id).expect("row"));
    assert_eq!(found.id, record.id);
    assert_eq!(found.kind.as_str(), record.kind.as_str());
    assert_eq!(found.outcome, record.outcome);
    assert_eq!(found.payload, record.payload);
    assert_eq!(found.scheduled_at, record.scheduled_at);
    assert_eq!(found.started_at, record.started_at);
    assert_eq!(found.finished_at, record.finished_at);
    assert_eq!(found.attempts, record.attempts);
    assert_eq!(found.duration_ms, record.duration_ms);
    assert_eq!(found.error, record.error);
    assert_eq!(found.created_at, record.created_at);
}

/// The watermark: the earliest pending `scheduled_at`, without the kinds an
/// operator disabled (their frozen rows must not produce a past watermark).
#[test]
fn next_due_at_reports_the_earliest_claimable_row() {
    let mut queue = TaskQueue::new();
    let mut registry = TaskRegistry::new();
    assert_eq!(queue.next_due_at(&none()), None, "empty queue");

    let now = right_now();
    let sooner = now + 5 * MINUTE;
    let later = now + 30 * MINUTE;
    let frozen = BackgroundTask::pending(
        new_id(),
        &kind("frozen_kind"),
        None,
        now - MINUTE,
        RetryPolicy::none(),
        now,
    );
    queue.insert(&frozen).unwrap();
    queue.insert(&task_due_at(later, 1)).unwrap();
    queue.insert(&task_due_at(sooner, 1)).unwrap();

    // Without a registry row, every kind is claimable: the frozen kind's
    // past-due row is the minimum.
    let watermark = queue
        .next_due_at(&registry.disabled_kinds())
        .expect("rows queued");
    assert!(watermark < now, "past-due row wins");

    // Disable the kind: its rows leave the watermark entirely.
    registry.declare(
        &TaskDeclaration {
            kind: kind("frozen_kind"),
            category: TaskCategory::Other,
            tier: TaskTier::Interval,
            tracking: Tracking::Durable,
            schedule: "interval:1s".into(),
            source: None,
            log_policy: LogPolicy::All,
            config_enabled: true,
            settings: TaskSettings::default(),
        },
        utc(2026, 8, 1, 0),
    );
    assert!(registry.set_enabled(&kind("frozen_kind"), false, utc(2026, 8, 1, 0)));
    assert_eq!(
        queue.next_due_at(&registry.disabled_kinds()),
        Some(sooner),
        "disabled kinds are excluded; the earliest claimable row wins"
    );
    assert!(queue
        .claim_due(now, 8, &registry.disabled_kinds())
        .is_empty());
}

#[test]
fn a_drained_queue_wakes_later_and_retries_run_out() {
    let mut queue = TaskQueue::new();
    let now = right_now();
    let task = BackgroundTask::pending(
        new_id(),
        &kind("eager"),
        None,
        now,
        RetryPolicy {
            max_attempts: 2,
            retry_delay_secs: 0,
        },
        now,
    );
    queue.insert(&task).unwrap();
    queue.insert(&task_due_at(now + MINUTE, 1)).unwrap();

    for attempt in 1..=2 {
        let claimed = queue.claim_due(now, 8, &none());
        assert_eq!(claimed.len(), 1);
        assert_eq!(claimed[0].data.attempts(), attempt);
        assert_eq!(queue.next_due_at(&none()), Some(now + MINUTE));
        let completion = if claimed[0].data.can_retry() {
            TaskCompletion::Retry {
                error: "boom".into(),
                failed_at: now,
                retry_at: claimed[0].data.next_retry_at(now),
            }
        } else {
            terminal(ExecutionOutcome::Failed, now)
        };
        assert_eq!(
            queue.complete(task.id(), claimed[0].version, &completion),
            WriteOutcome::Applied
        );
    }
    assert!(queue.claim_due(now, 8, &none()).is_empty());
    assert!(find(&queue, task.id()).is_none());
}

#[test]
fn claim_due_claims_oldest_first_and_counts_the_attempt() {
    let mut queue = TaskQueue::new();
    let now = right_now();
    let older = task_due_at(now - 10 * MINUTE, 1);
    let newer = task_due_at(now - 5 * MINUTE, 1);
    queue.insert(&newer).unwrap();
    queue.insert(&older).unwrap();

    let claimed = queue.claim_due(now, 1, &none());
    assert_eq!(claimed.len(), 1);
    let first = stored(&claimed[0]);
    assert_eq!(first.data.id(), older.id(), "oldest due task claims first");
    assert_eq!(first.data.status(), TaskStatus::Running);
    assert_eq!(first.data.attempts(), 1);
    assert!(first.data.started_at().is_some());
    assert_eq!(first.version, 2, "claiming bumps the version");

    // The second claim picks the remaining task.
    let claimed = queue.claim_due(now, 8, &none());
    assert_eq!(claimed.len(), 1);
    assert_eq!(claimed[0].data.id(), newer.id());

    // Nothing pending remains.
    assert!(queue.claim_due(now, 8, &none()).is_empty());
}

#[test]
fn exists_active_sees_every_queue_row_until_completion_removes_it() {
    let mut queue = TaskQueue::new();
    let now = right_now();
    let task_kind = kind("test_task");
    assert!(!queue.exists_active(&task_kind));

    queue.insert(&task_due_at(now, 1)).unwrap();
    assert!(queue.exists_active(&task_kind), "PENDING is active");

    let claimed = queue.claim_due(now, 1, &none()).remove(0);
    assert!(queue.exists_active(&task_kind), "RUNNING is active");

    let outcome = queue.complete(
        claimed.data.id(),
        claimed.version,
        &terminal(ExecutionOutcome::Succeeded, now),
    );
    assert!(outcome.applied());
    assert!(
        !queue.exists_active(&task_kind),
        "a terminal completion leaves the queue"
    );
}

#[test]
fn claim_due_ignores_future_tasks() {
    let mut queue = TaskQueue::new();
    let now = right_now();
    queue.insert(&task_due_at(now + 5 * MINUTE, 1)).unwrap();

    assert!(queue.claim_due(now, 8, &none()).is_empty());
    assert_eq!(
        queue.claim_due(now + 6 * MINUTE, 8, &none()).len(),
        1,
        "the same task claims once due"
    );
}

#[test]
fn terminal_completion_deletes_the_row() {
    let mut queue = TaskQueue::new();
    let now = right_now();
    queue.insert(&task_due_at(now, 1)).unwrap();
    let claimed = queue.claim_due(now, 1, &none()).remove(0);

    let outcome = queue.complete(
        claimed.data.id(),
        claimed.version,
        &terminal(ExecutionOutcome::Succeeded, now),
    );
    assert_eq!(outcome, WriteOutcome::Applied);
    assert!(
        queue.find_by_id(claimed.data.id()).is_none(),
        "the queue holds live work only"
    );
}

#[test]
fn complete_retry_requeues_at_the_backoff_time() {
    let mut queue = TaskQueue::new();
    let now = right_now();
    queue.insert(&task_due_at(now, 3)).unwrap();
    let claimed = queue.claim_due(now, 1, &none()).remove(0);

    let retry_at = claimed.data.next_retry_at(now);
    assert_eq!(retry_at, now + MINUTE / 2);
    let outcome = queue.complete(
        claimed.data.id(),
        claimed.version,
        &TaskCompletion::Retry {
            error: "boom".into(),
            failed_at: now,
            retry_at,
        },
    );
    assert_eq!(outcome, WriteOutcome::Applied);

    let requeued = find(&queue, claimed.data.id()).unwrap();
    assert_eq!(requeued.data.status(), TaskStatus::Pending);
    assert_eq!(requeued.data.last_error().as_deref(), Some("boom"));
    assert_eq!(requeued.data.attempts(), 1, "attempt count is preserved");

    // Not due before the backoff expires; due after.
    assert!(queue.claim_due(now, 8, &none()).is_empty());
    let reclaimed = queue.claim_due(retry_at, 8, &none());
    assert_eq!(reclaimed.len(), 1);
    assert_eq!(reclaimed[0].data.attempts(), 2);
}

#[test]
fn complete_reports_version_mismatch_on_stale_version() {
    let mut queue = TaskQueue::new();
    let now = right_now();
    queue.insert(&task_due_at(now, 1)).unwrap();
    let claimed = queue.claim_due(now, 1, &none()).remove(0);

    let stale = queue.complete(
        claimed.data.id(),
        claimed.version - 1,
        &terminal(ExecutionOutcome::Succeeded, now),
    );
    assert_eq!(
        stale,
        WriteOutcome::VersionMismatch {
            expected: claimed.version - 1,
            actual: claimed.version,
        }
    );
    assert!(
        queue.find_by_id(claimed.data.id()).is_some(),
        "a stale completion must not delete the row"
    );
}

#[test]
fn complete_reports_missing_for_unknown_ids() {
    let mut queue = TaskQueue::new();
    let outcome = queue.complete(
        new_id(),
        1,
        &terminal(ExecutionOutcome::Succeeded, right_now()),
    );
    assert_eq!(outcome, WriteOutcome::Missing);
}

#[test]
fn recovery_requeues_or_takes_by_attempt_budget() {
    let mut queue = TaskQueue::new();
    let now = right_now();
    // Task A: 1 of 3 attempts spent, requeued.
    let a = task_due_at(now, 3);
    // Task B: 1 of 1 attempts spent, removed and returned.
    let b = task_due_at(now, 1);
    queue.insert(&a).unwrap();
    queue.insert(&b).unwrap();
    let claimed = queue.claim_due(now, 8, &none());
    assert_eq!(claimed.len(), 2, "both tasks are RUNNING now");

    let requeued = queue.requeue_interrupted(INTERRUPTED, now);
    assert_eq!(requeued, 1);
    let exhausted = queue.take_exhausted_running();
    assert_eq!(exhausted.len(), 1);
    assert_eq!(exhausted[0].data.id(), b.id());
    assert_eq!(exhausted[0].data.attempts(), 1);

    let a_row = find(&queue, a.id()).unwrap();
    assert_eq!(a_row.data.status(), TaskStatus::Pending);
    assert_eq!(a_row.data.last_error().as_deref(), Some(INTERRUPTED));

    assert!(
        queue.find_by_id(b.id()).is_none(),
        "exhausted rows leave the queue"
    );

    // Idempotent: nothing running remains.
    assert_eq!(queue.requeue_interrupted(INTERRUPTED, now), 0);
    assert!(queue.take_exhausted_running().is_empty());
}

#[test]
fn take_pending_removes_and_returns_only_pending_rows() {
    let mut queue = TaskQueue::new();
    let now = right_now();
    let running = task_due_at(now - MINUTE, 1);
    let pending = task_due_at(now + 5 * MINUTE, 1);
    queue.insert(&running).unwrap();
    queue.insert(&pending).unwrap();
    assert_eq!(queue.claim_due(now, 1, &none()).len(), 1);

    let taken = queue.take_pending(&kind("test_task"));
    assert_eq!(taken.len(), 1);
    assert_eq!(taken[0].data.id(), pending.id());

    assert!(queue.find_by_id(pending.id()).is_none());
    assert!(
        queue.find_by_id(running.id()).is_some(),
        "RUNNING rows are not cancelled"
    );
    assert_eq!(queue.len(), 1);
}

#[test]
fn an_id_is_queued_once() {
    let mut queue = TaskQueue::new();
    let task = task_due_at(right_now(), 1);
    queue.insert(&task).unwrap();
    assert_eq!(queue.insert(&task).unwrap_err().id, task.id());
    assert_eq!(queue.len(), 1);
    let mut loaded = TaskQueue::new();
    loaded.load(queue.find_by_id(task.id()).unwrap()).unwrap();
    assert!(loaded.load(queue.find_by_id(task.id()).unwrap()).is_err());
    assert_eq!(
        loaded
            .find_active(&kind("test_task"))
            .map(|row| row.data.id()),
        Some(task.id())
    );
    assert_eq!(loaded.list_queued(10).len(), 1);
    assert!(loaded.list_queued(0).is_empty());
}

// ---------------------------------------------------------------- history
#[test]
fn list_recent_orders_by_finish_descending() {
    let mut history = RunHistory::new();
    let now = utc(2026, 8, 17, 12);
    let older = execution(ExecutionOutcome::Succeeded, now - 10 * MINUTE, None);
    let newer = execution(ExecutionOutcome::NotReady, now, None);
    history.insert(&older).unwrap();
    history.insert(&newer).unwrap();

    let recent = history.list_recent(10);
    assert_eq!(recent.len(), 2);
    assert_eq!(recent[0].id, newer.id);
    assert_eq!(recent[0].outcome, ExecutionOutcome::NotReady);
    assert_eq!(recent[1].id, older.id);

    assert_eq!(history.list_recent(1).len(), 1);
    assert!(history.insert(&older).is_err());
}

#[test]
fn prune_finished_removes_only_old_rows() {
    let mut history = RunHistory::new();
    let now = utc(2026, 8, 17, 12);
    let old = execution(ExecutionOutcome::Succeeded, now - 10 * DAY, None);
    let fresh = execution(ExecutionOutcome::Succeeded, now, None);
    history.insert(&old).unwrap();
    history.insert(&fresh).unwrap();

    let removed = history.prune_finished(now - 7 * DAY);
    assert_eq!(removed, 1);
    assert!(history.find_by_id(old.id).is_none());
    assert!(history.find_by_id(fresh.id).is_some());
}

#[test]
fn pruning_compares_to_the_millisecond() {
    let mut history = RunHistory::new();
    let cutoff = utc(2026, 8, 17, 12) + 7 * MILLI;
    let kept = execution(ExecutionOutcome::Succeeded, cutoff, None);
    let gone = execution(ExecutionOutcome::Succeeded, cutoff - MILLI, None);
    history.insert(&kept).unwrap();
    history.insert(&gone).unwrap();
    assert_eq!(history.prune_finished(cutoff + 999_999), 1);
    assert!(history.find_by_id(kept.id).is_some());
    assert!(history.find_by_id(gone.id).is_none());
}

// ---------------------------------------------------------------- registry
fn declaration(name: &str) -> TaskDeclaration {
    TaskDeclaration {
        kind: kind(name),
        category: TaskCategory::FinanceDataSync,
        tier: TaskTier::Sync,
        tracking: Tracking::Durable,
        schedule: "sync:daily@07:00-03:00".into(),
        source: Some(source("cvm")),
        log_policy: LogPolicy::All,
        config_enabled: true,
        settings: TaskSettings::default(),
    }
}

fn morning() -> i128 {
    utc(2026, 8, 17, 9)
}

fn stored_registration(registry: &TaskRegistry, name: &str) -> Option<TaskRegistration> {
    registry.get(&kind(name)).map(|record| {
        registration_from_row(&registration_to_row(&record).expect("times that can be written"))
            .expect("a sound row")
    })
}

#[test]
fn declare_then_get_round_trips_all_fields() {
    let mut registry = TaskRegistry::new();
    registry.declare(&declaration("cvm_daily_sync"), morning());

    let found = stored_registration(&registry, "cvm_daily_sync").expect("row");
    assert_eq!(found.kind.as_str(), "cvm_daily_sync");
    assert_eq!(found.category, TaskCategory::FinanceDataSync);
    assert_eq!(found.tier, TaskTier::Sync);
    assert_eq!(found.tracking, Tracking::Durable);
    assert_eq!(found.schedule, "sync:daily@07:00-03:00");
    assert_eq!(found.source.as_ref().map(|s| s.as_str()), Some("cvm"));
    assert_eq!(found.log_policy, LogPolicy::All);
    assert!(found.config_enabled);
    assert!(!found.paused);
    assert!(found.registered);
    assert_eq!(found.first_registered_at, morning());
}

#[test]
fn redeclare_preserves_paused_intent() {
    let mut registry = TaskRegistry::new();
    let k = kind("cvm_daily_sync");
    registry.declare(&declaration("cvm_daily_sync"), morning());
    assert!(registry.set_paused(&k, true, morning()));

    // Next boot re-declares with a changed schedule and disabled config.
    let mut redeclared = declaration("cvm_daily_sync");
    redeclared.schedule = "sync:daily@08:30-03:00".into();
    redeclared.config_enabled = false;
    let later = morning() + HOUR;
    registry.declare(&redeclared, later);

    let found = stored_registration(&registry, "cvm_daily_sync").expect("row");
    assert_eq!(
        found.schedule, "sync:daily@08:30-03:00",
        "declaration updated"
    );
    assert!(!found.config_enabled, "declaration updated");
    assert!(found.paused, "operator intent preserved");
    assert_eq!(
        found.first_registered_at,
        morning(),
        "first registration timestamp preserved"
    );
    assert_eq!(found.updated_at, later);
}

#[test]
fn retire_missing_flags_only_absent_kinds_and_declare_revives() {
    let mut registry = TaskRegistry::new();
    registry.declare(&declaration("keep_me"), morning());
    registry.declare(&declaration("retire_me"), morning());

    let retired = registry.retire_missing(&vec![kind("keep_me")], morning());
    assert_eq!(retired.len(), 1);
    assert_eq!(retired[0].as_str(), "retire_me");

    assert!(registry.get(&kind("keep_me")).unwrap().registered);
    assert!(!registry.get(&kind("retire_me")).unwrap().registered);

    // Retiring again is a no-op (already retired rows are skipped).
    let again = registry.retire_missing(&vec![kind("keep_me")], morning());
    assert!(again.is_empty());

    // A kind that returns to code is revived by declare.
    registry.declare(&declaration("retire_me"), morning());
    assert!(registry.get(&kind("retire_me")).unwrap().registered);
}

#[test]
fn retire_missing_with_no_kinds_retires_everything() {
    let mut registry = TaskRegistry::new();
    registry.declare(&declaration("a"), morning());
    registry.declare(&declaration("b"), morning());
    let retired = registry.retire_missing(&none(), morning());
    assert_eq!(retired.len(), 2);
}

#[test]
fn is_paused_and_set_paused_semantics() {
    let mut registry = TaskRegistry::new();
    let k = kind("t");
    assert!(!registry.is_paused(&k), "unknown kinds are not paused");
    assert!(!registry.set_paused(&k, true, morning()), "no row to flip");

    registry.declare(&declaration("t"), morning());
    assert!(registry.set_paused(&k, true, morning()));
    assert!(registry.is_paused(&k));
    assert!(registry.set_paused(&k, false, morning()));
    assert!(!registry.is_paused(&k));
}

#[test]
fn list_orders_by_category_then_kind() {
    let mut registry = TaskRegistry::new();
    let mut sys = declaration("z_system");
    sys.category = TaskCategory::EngineSystem;
    sys.tier = TaskTier::Interval;
    sys.source = None;
    registry.declare(&sys, morning());
    registry.declare(&declaration("a_sync"), morning());

    let listed = registry.list();
    assert_eq!(listed.len(), 2);
    assert_eq!(listed[0].kind.as_str(), "z_system", "ENGINE_SYSTEM first");
    assert_eq!(listed[1].kind.as_str(), "a_sync");
}

#[test]
fn settings_of_an_operator_survive_the_next_boot() {
    let mut registry = TaskRegistry::new();
    let k = kind("t");
    registry.declare(&declaration("t"), morning());
    let settings = TaskSettings {
        period_secs: Some(60),
        at_local: ClockTime::from_hm(8, 5),
        recurrence: Some(Recurrence::Daily),
        cooldown_secs: None,
        max_backfill_days: Some(7),
    };
    assert!(registry.update_settings(&k, settings, morning()));
    assert!(registry.set_enabled(&k, false, morning()));
    registry.declare(&declaration("t"), morning() + HOUR);
    let found = stored_registration(&registry, "t").unwrap();
    assert_eq!(found.settings, settings);
    assert_eq!(registry.is_enabled(&k), Some(false));
    assert_eq!(registry.is_enabled(&kind("other")), None);
    assert!(!registry.update_settings(&kind("other"), settings, morning()));
}

#[test]
fn a_time_outside_the_day_is_not_written() {
    let mut registry = TaskRegistry::new();
    let k = kind("t");
    registry.declare(&declaration("t"), morning());
    for at in [ClockTime { hour: 24, minute: 0 }, ClockTime { hour: 0, minute: 60 }] {
        let settings = TaskSettings {
            at_local: Some(at),
            ..TaskSettings::default()
        };
        assert!(registry.update_settings(&k, settings, morning()));
        assert!(registration_to_row(&registry.get(&k).unwrap()).is_none());
    }
    let settings = TaskSettings {
        at_local: ClockTime::from_hm(23, 59),
        ..TaskSettings::default()
    };
    assert!(registry.update_settings(&k, settings, morning()));
    let row = registration_to_row(&registry.get(&k).unwrap()).unwrap();
    assert!(matches!(&row.settings.at_local, Cell::Text(t) if t == "23:59"));
}

fn empty_columns() -> SettingsColumns {
    SettingsColumns {
        period_secs: Cell::Null,
        at_local: Cell::Null,
        recurrence: Cell::Null,
        cooldown_secs: Cell::Null,
        max_backfill_days: Cell::Null,
    }
}

#[test]
fn a_setting_of_another_type_reads_as_unset() {
    for broken in [
        Cell::Text("abc".into()),
        Cell::Real(1.5f64.to_bits()),
        Cell::Blob(vec![1]),
        Cell::Integer(-1),
        Cell::Integer(1 << 32),
    ] {
        let row = SettingsColumns {
            period_secs: broken,
            ..empty_columns()
        };
        assert_eq!(settings_from_row(&row), TaskSettings::default());
    }
    let row = SettingsColumns {
        at_local: Cell::Integer(7),
        recurrence: Cell::Blob(b"daily".to_vec()),
        cooldown_secs: Cell::Integer(5),
        ..empty_columns()
    };
    let settings = settings_from_row(&row);
    assert_eq!(settings.at_local, None);
    assert_eq!(settings.recurrence, None);
    assert_eq!(settings.cooldown_secs, Some(5));
}

#[test]
fn a_broken_setting_is_not_overwritten_by_a_declaration() {
    let mut registry = TaskRegistry::new();
    registry.declare(&declaration("t"), morning());
    let mut row = registration_to_row(&registry.get(&kind("t")).unwrap()).unwrap();
    row.settings = SettingsColumns {
        period_secs: Cell::Integer(-1),
        recurrence: Cell::Text("monthly".into()),
        cooldown_secs: Cell::Text("abc".into()),
        ..empty_columns()
    };
    registry.load(registration_from_row(&row).unwrap());

    let mut again = declaration("t");
    again.settings = TaskSettings {
        period_secs: Some(60),
        at_local: ClockTime::from_hm(8, 5),
        recurrence: Some(Recurrence::Daily),
        cooldown_secs: Some(30),
        max_backfill_days: Some(9),
    };
    registry.declare(&again, morning() + HOUR);
    let record = registry.get(&kind("t")).unwrap();
    assert_eq!(record.settings.period_secs, None);
    assert_eq!(record.settings.recurrence, None);
    assert_eq!(record.settings.cooldown_secs, None);
    assert_eq!(record.settings.at_local, ClockTime::from_hm(8, 5));
    assert_eq!(record.settings.max_backfill_days, Some(9));

    let written = registration_to_row(&record).unwrap().settings;
    assert!(matches!(written.period_secs, Cell::Integer(-1)));
    assert!(matches!(&written.recurrence, Cell::Text(t) if t == "monthly"));
    assert!(matches!(&written.cooldown_secs, Cell::Text(t) if t == "abc"));
    assert!(matches!(written.max_backfill_days, Cell::Integer(9)));

    // An operator's own update replaces the broken values.
    assert!(registry.update_settings(&kind("t"), TaskSettings::default(), morning()));
    registry.declare(&again, morning() + HOUR);
    let record = registry.get(&kind("t")).unwrap();
    assert_eq!(record.settings, again.settings);
}

#[test]
fn unreadable_settings_fall_back_to_unset() {
    let mut row = {
        let mut registry = TaskRegistry::new();
        registry.declare(&declaration("t"), morning());
        registration_to_row(&registry.get(&kind("t")).unwrap()).unwrap()
    };
    row.settings = SettingsColumns {
        period_secs: Cell::Integer(-1),
        at_local: Cell::Text("soon".into()),
        recurrence: Cell::Text("monthly".into()),
        cooldown_secs: Cell::Integer(i64::MAX),
        max_backfill_days: Cell::Integer(3),
    };
    let read = registration_from_row(&row).unwrap();
    assert_eq!(read.settings.period_secs, None);
    assert_eq!(read.settings.at_local, None);
    assert_eq!(read.settings.recurrence, None);
    assert_eq!(read.settings.cooldown_secs, None);
    assert_eq!(read.settings.max_backfill_days, Some(3));
    row.category = "NOPE".into();
    assert_eq!(registration_from_row(&row).unwrap_err().column, "category");
}

// ---------------------------------------------------------------- statistics
fn at(h: u32) -> i128 {
    utc(2026, 8, 17, h)
}

fn stored_stats(stats: &TaskStats) -> TaskStats {
    stat_from_row(&stat_to_row(stats).expect("times that can be written")).expect("a sound row")
}

#[test]
fn record_run_folds_totals_and_last_state_forward() {
    let mut book = StatBook::new();
    let k = kind("t");
    assert!(book.get(&k).is_none());

    book.record_run(&k, ExecutionOutcome::Succeeded, None, Some(100), at(9));
    book.record_run(
        &k,
        ExecutionOutcome::Failed,
        Some("boom".into()),
        Some(50),
        at(10),
    );
    book.record_run(&k, ExecutionOutcome::NotReady, None, None, at(11));

    let stats = stored_stats(&book.get(&k).expect("row"));
    assert_eq!(stats.total_runs, 3, "every terminal outcome counts");
    assert_eq!(stats.total_failures, 1, "only FAILED counts as a failure");
    assert_eq!(stats.total_duration_ms, 150, "unmeasured runs add nothing");
    assert_eq!(stats.last_run_at, Some(at(11)));
    assert_eq!(stats.last_outcome, Some(ExecutionOutcome::NotReady));
    assert_eq!(stats.last_error, None, "last error reflects the last run");
    assert_eq!(
        stats.last_success_at,
        Some(at(9)),
        "the last success survives later non-successes"
    );
    assert_eq!(stats.last_duration_ms, None);
}

#[test]
fn list_orders_by_kind() {
    let mut book = StatBook::new();
    book.record_run(&kind("b"), ExecutionOutcome::Succeeded, None, None, at(9));
    book.record_run(&kind("a"), ExecutionOutcome::Succeeded, None, None, at(9));

    let listed = book.list();
    assert_eq!(listed.len(), 2);
    assert_eq!(listed[0].kind.as_str(), "a");
    assert_eq!(listed[1].kind.as_str(), "b");
}

// ---------------------------------------------------------------- columns
#[test]
fn ids_are_sixteen_bytes_most_significant_first() {
    let id: u128 = 0x0102_0304_0506_0708_090a_0b0c_0d0e_0f10;
    let bytes = id_column(id);
    assert_eq!(bytes, (1u8..=16).collect::<Vec<u8>>());
    assert_eq!(column_uuid("id", &bytes).unwrap(), id);
    assert_eq!(column_opt_uuid("id", &None).unwrap(), None);
    assert_eq!(column_opt_uuid("id", &Some(bytes)).unwrap(), Some(id));
    assert!(column_opt_uuid("id", &Some(Vec::new())).is_err());
    let fault = column_uuid("id", &vec![1, 2, 3]).unwrap_err();
    assert_eq!((fault.column.as_str(), fault.kind), ("id", ColumnType::Blob));
}

#[test]
fn times_are_stored_with_milliseconds() {
    assert_eq!(
        instant_column(utc(2026, 8, 12, 10) + 7 * MILLI + 999_999).unwrap(),
        "2026-08-12T10:00:00.007Z"
    );
    assert_eq!(instant_column(i128::MAX), None);
}

#[test]
fn the_calendar_ends_where_its_text_does() {
    assert_eq!(
        instant_column(FIRST_INSTANT).unwrap(),
        "-262143-01-01T00:00:00.000Z"
    );
    assert_eq!(
        instant_column(LAST_INSTANT).unwrap(),
        "+262142-12-31T23:59:59.999Z"
    );
    assert_eq!(instant_column(FIRST_INSTANT - 1), None);
    assert_eq!(instant_column(LAST_INSTANT + 1), None);
    for day in [FIRST_DAY, -719_529, -719_528, -1, 0, 2_932_896, 2_932_897, LAST_DAY] {
        let text = date_column(day).unwrap();
        assert_eq!(column_naive_date("day", &text).unwrap(), day, "{text}");
    }
    assert_eq!(date_column(0).unwrap(), "1970-01-01");
    assert_eq!(date_column(FIRST_DAY - 1), None);
    assert_eq!(date_column(LAST_DAY + 1), None);
}

#[test]
fn times_of_four_digit_years_read_back() {
    for at in [
        0,
        instant(-1, 999_000_000),
        MILLI,
        instant(253_402_300_799, 999_000_000),
        instant(-62_167_219_200, 0),
    ] {
        let text = instant_column(at).unwrap();
        assert_eq!(column_datetime("at", &text).unwrap(), at, "{text}");
    }
    let before = instant(-1, 999_000_000);
    for (at, whole) in [(before + 999_999, before), (1, 0), (MILLI + 1, MILLI)] {
        let text = instant_column(at).unwrap();
        assert_eq!(column_datetime("at", &text).unwrap(), whole, "{text}");
        assert_eq!(truncated_to_millis(at), whole);
    }
    assert_eq!(
        instant_column(FIRST_RFC3339).unwrap(),
        "0000-01-01T00:00:00.000Z"
    );
    assert_eq!(
        instant_column(LAST_RFC3339).unwrap(),
        "9999-12-31T23:59:60.999Z"
    );
    assert!(column_datetime("at", &instant_column(LAST_RFC3339 + 1).unwrap()).is_err());
    assert_eq!(
        column_datetime("at", "1970-01-01T00:00:00.0019999Z").unwrap(),
        1_999_900
    );
    assert_eq!(
        column_datetime("at", "1969-12-31T21:00:00-03:00").unwrap(),
        0
    );
}

/// A leap second sorts between the seconds around it and survives its text;
/// what leaves it counts from the second it belongs to.
#[test]
fn leap_seconds_read_back() {
    let text = "2016-12-31T23:59:60.250Z";
    let leap = column_datetime("at", text).unwrap();
    assert_eq!(instant_column(leap).unwrap(), text);
    assert_eq!(leap, utc(2017, 1, 1, 0) - SECOND_TICKS + 1_250_000_000);
    let last = column_datetime("at", "2016-12-31T23:59:59.999Z").unwrap();
    assert!(last < leap && leap < utc(2017, 1, 1, 0));
    assert!(is_instant(leap));
    assert_eq!(instant_column(utc(2017, 1, 1, 0) + 1_250_000_000), None);

    let mut store = CursorStore::new();
    let cursor = SyncCursor::seeded(&source("cvm"), leap, 0, leap).held_not_ready(1, leap);
    store.upsert(&cursor);
    let columns = cursor_to_row(&store.get(&source("cvm")).unwrap()).unwrap();
    assert_eq!(columns.through_slot, text);
    assert_eq!(columns.cooldown_until.unwrap(), "2017-01-01T00:00:00.250Z");
    let cutoff = prune_cutoff(leap).unwrap();
    assert_eq!(instant_column(cutoff).unwrap(), "2016-12-25T00:00:00.250Z");
}

/// A run is due from the millisecond that it is scheduled in.
#[test]
fn a_row_is_claimed_in_its_millisecond() {
    let base = utc(2026, 8, 12, 10);
    let mut queue = TaskQueue::new();
    let task = BackgroundTask::pending(
        new_id(),
        &kind("t"),
        None,
        base + 700_000,
        RetryPolicy {
            max_attempts: 2,
            retry_delay_secs: 1,
        },
        base + 600_000,
    );
    queue.insert(&task).unwrap();
    let stored = queue.find_by_id(task.id()).unwrap();
    assert_eq!(stored.data.scheduled_at(), base);
    assert_eq!(stored.data.created_at(), base);
    assert_eq!(queue.next_due_at(&none()), Some(base));
    assert!(queue.claim_due(base - 1, 8, &none()).is_empty());
    let claimed = queue.claim_due(base + 500_000, 8, &none());
    assert_eq!(claimed.len(), 1);
    assert_eq!(claimed[0].data.started_at(), Some(base));

    // The same for a retry.
    let failed_at = base + MILLI + 400_000;
    let retry_at = claimed[0].data.next_retry_at(failed_at);
    assert_eq!(retry_at, failed_at + SECOND_TICKS);
    let completion = TaskCompletion::Retry {
        error: "x".into(),
        failed_at,
        retry_at,
    };
    let done = queue.complete(task.id(), claimed[0].version, &completion);
    assert_eq!(done, WriteOutcome::Applied);
    let waiting = queue.find_by_id(task.id()).unwrap();
    assert_eq!(waiting.data.scheduled_at(), base + MILLI + SECOND_TICKS);
    assert_eq!(waiting.data.updated_at(), base + MILLI);
    assert!(queue.claim_due(base + SECOND_TICKS + 999_999, 8, &none()).is_empty());
    assert_eq!(queue.claim_due(base + SECOND_TICKS + MILLI, 8, &none()).len(), 1);

    // A row whose text names more digits is due with its millisecond too.
    let mut row = task_to_row(&stored).unwrap();
    row.scheduled_at = "2026-08-12T10:00:00.0007Z".into();
    let mut loaded = TaskQueue::new();
    loaded.load(task_from_row(&row).unwrap()).unwrap();
    assert_eq!(loaded.claim_due(base + 500_000, 8, &none()).len(), 1);
}

/// Every store keeps whole milliseconds.
#[test]
fn stores_keep_milliseconds() {
    let base = utc(2026, 8, 12, 10);
    let odd = base + 700_000;
    let mut history = RunHistory::new();
    let record = execution(ExecutionOutcome::Succeeded, odd, None);
    history.insert(&record).unwrap();
    assert_eq!(history.find_by_id(record.id).unwrap().finished_at, base);

    let mut cursors = CursorStore::new();
    let held = SyncCursor::seeded(&source("cvm"), base, 0, base).held_not_ready(60, odd);
    assert_eq!(held.cooldown_until(), Some(odd + MINUTE));
    cursors.upsert(&held);
    let stored = cursors.get(&source("cvm")).unwrap();
    assert_eq!(stored.cooldown_until(), Some(base + MINUTE));
    assert!(stored.is_ready(base + MINUTE + 500_000));
    let mut again = CursorStore::new();
    again.load(&held);
    assert_eq!(again.get(&source("cvm")).unwrap().updated_at(), odd);

    let mut book = StatBook::new();
    book.record_run(&kind("t"), ExecutionOutcome::Succeeded, None, None, odd);
    let stats = book.get(&kind("t")).unwrap();
    assert_eq!((stats.last_run_at, stats.last_success_at), (Some(base), Some(base)));

    let mut registry = TaskRegistry::new();
    registry.declare(&declaration("t"), odd);
    assert_eq!(registry.get(&kind("t")).unwrap().first_registered_at, base);
    assert!(registry.set_paused(&kind("t"), true, odd + MILLI));
    assert_eq!(registry.get(&kind("t")).unwrap().updated_at, base + MILLI);
}

#[test]
fn negative_counters_read_as_zero() {
    assert_eq!(column_u64(-1), 0);
    assert_eq!(column_u64(42), 42);
    assert_eq!(column_opt_u64(Some(-5)), Some(0));
    assert_eq!(column_opt_u64(None), None);
}

#[test]
fn the_first_unsound_column_is_blamed() {
    let mut queue = TaskQueue::new();
    let task = task_due_at(right_now(), 1);
    queue.insert(&task).unwrap();
    let sound = task_to_row(&queue.find_by_id(task.id()).unwrap()).unwrap();
    let mut row = sound.clone();
    row.status = "DONE".into();
    row.scheduled_at = "soon".into();
    let fault = task_from_row(&row).unwrap_err();
    assert_eq!(
        (fault.column.as_str(), fault.kind),
        ("status", ColumnType::Text)
    );
    row = sound.clone();
    row.scheduled_at = "soon".into();
    assert_eq!(task_from_row(&row).unwrap_err().column, "scheduled_at");
    row = sound;
    row.kind = String::new();
    assert_eq!(task_from_row(&row).unwrap_err().column, "kind");
}
