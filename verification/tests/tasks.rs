//! Periods, planes and the definitions of tasks.
use chrono::{NaiveDate, TimeZone, Utc};
use valqeron_engine::backoff::backoff_secs;
use valqeron_engine::calendar::MarketCalendar;
use valqeron_engine::catalog::{
    LogPolicy, TaskCategory, TaskDefinition, DEFAULT_SYNC_ATTEMPTS, DEFAULT_SYNC_COOLDOWN_SECS,
    DEFAULT_SYNC_MAX_BACKFILL_DAYS, DEFAULT_SYNC_RETRY_DELAY_SECS,
};
use valqeron_engine::cursor::{CooldownPolicy, SyncSource};
use valqeron_engine::moment::{instant, ClockTime};
use valqeron_engine::plane::{PlaneConfig, RunWindow, TaskFailure, TaskTier, TickMode, Tracking};
use valqeron_engine::queue::{RetryPolicy, TaskKind};
use valqeron_engine::schedule::{Recurrence, Schedule, TargetPeriod};
use valqeron_engine::span::{jittered, jittered_by, Span};
use valqeron_engine::sync_plane::{decode_payload, encode_payload};
use valqeron_engine::triggers::{build, IntervalTrigger, Plane, RecurringTrigger};

fn utc(y: i32, m: u32, d: u32, h: u32) -> i128 {
    let at = Utc.with_ymd_and_hms(y, m, d, h, 0, 0).single().unwrap();
    instant(at.timestamp(), 0)
}

fn date(y: i32, m: u32, d: u32) -> i32 {
    let epoch = NaiveDate::from_ymd_opt(1970, 1, 1).unwrap();
    let day = NaiveDate::from_ymd_opt(y, m, d).unwrap();
    day.signed_duration_since(epoch).num_days() as i32
}

fn at(hour: u32, minute: u32) -> ClockTime {
    ClockTime::from_hm(hour, minute).unwrap()
}

fn b3_daily() -> Schedule {
    Schedule::new(MarketCalendar::b3(), at(7, 0), Recurrence::Daily)
}

fn utc_daily() -> Schedule {
    Schedule::new(MarketCalendar::utc(), at(3, 0), Recurrence::Daily)
}

fn nanos(span: Span) -> u128 {
    span.secs as u128 * 1_000_000_000 + span.nanos as u128
}

fn within_ten_percent() {
    let base = Span::from_secs(3600);
    for _ in 0..50 {
        let j = jittered(base);
        assert!(
            nanos(j) >= nanos(Span::from_secs(3240)) && nanos(j) <= nanos(Span::from_secs(3960)),
            "jittered value out of ±10% envelope: {j:?}"
        );
    }
}

fn never_zero() {
    assert!(nanos(jittered(Span::from_millis(1))) > 0);
}

#[test]
fn runtime_jitter_stays_within_ten_percent() {
    within_ten_percent();
}

#[test]
fn runtime_jitter_never_zeroes_a_tiny_period() {
    never_zero();
}

#[test]
fn tasks_jitter_stays_within_ten_percent() {
    within_ten_percent();
}

#[test]
fn tasks_jitter_never_zeroes_a_tiny_period() {
    never_zero();
}

#[test]
fn interval_jitter_stays_within_ten_percent() {
    within_ten_percent();
}

#[test]
fn interval_jitter_never_zeroes_a_tiny_period() {
    never_zero();
}

#[test]
fn the_clock_picks_the_percentage() {
    let base = Span::from_secs(3600);
    assert_eq!(jittered_by(base, 0), Span::from_secs(3240));
    assert_eq!(jittered_by(base, 10), base);
    assert_eq!(jittered_by(base, 20), Span::from_secs(3960));
    assert_eq!(jittered_by(base, 21), Span::from_secs(3240));
    let tiny = Span { secs: 0, nanos: 5 };
    assert_eq!(jittered_by(tiny, 20), tiny);
}

/// Short, odd and very long periods stay within ten percent too.
#[test]
fn every_period_stays_within_ten_percent() {
    assert_eq!(
        jittered_by(Span::from_millis(7), 0),
        Span::from_micros(6_300)
    );
    assert_eq!(
        jittered_by(Span::from_micros(1_500), 20),
        Span::from_micros(1_350)
    );
    assert_eq!(jittered_by(Span::from_millis(7), 20), Span::from_millis(7));
    for base in [
        Span { secs: 0, nanos: 0 },
        Span { secs: 0, nanos: 1 },
        Span { secs: 0, nanos: 999_999 },
        Span { secs: 0, nanos: 1_999_999 },
        Span { secs: 0, nanos: 11_000_001 },
        Span { secs: 3, nanos: 999_999_999 },
        Span { secs: u64::MAX / 1000, nanos: 1 },
        Span { secs: u64::MAX, nanos: 999_999_999 },
    ] {
        for clock in 0..21 {
            let out = jittered_by(base, clock);
            assert!(
                90 * nanos(base) <= 100 * nanos(out) && 100 * nanos(out) <= 110 * nanos(base),
                "{base:?} {out:?}"
            );
        }
    }
}

#[test]
fn delays_double_up_to_an_hour() {
    assert_eq!(backoff_secs(300, 0), 300);
    assert_eq!(backoff_secs(300, 1), 600);
    assert_eq!(backoff_secs(300, 3), 2400);
    assert_eq!(backoff_secs(300, 4), 3600);
    assert_eq!(backoff_secs(300, u32::MAX), 3600);
    assert_eq!(backoff_secs(0, 9), 0);
}

// ---------------------------------------------------------------- planes
#[test]
fn modes_follow_tracking() {
    let durable = IntervalTrigger::new("t", Span::from_secs(1), false, Tracking::Durable);
    assert_eq!(durable.mode(), TickMode::Seed);
    let ephemeral = IntervalTrigger::new("t", Span::from_secs(1), false, Tracking::Ephemeral);
    assert_eq!(ephemeral.mode(), TickMode::Inline);
    assert!(matches!(ephemeral.window_for(None), Ok(RunWindow::NoWindow)));
}

#[test]
fn descriptors_render_per_tier() {
    let interval = PlaneConfig::Interval {
        period: Span::from_secs(3600),
        jitter: true,
        tracking: Tracking::Durable,
    };
    assert_eq!(interval.descriptor(), "interval:3600s±10%");
    assert_eq!(interval.tier(), TaskTier::Interval);
    assert_eq!(interval.tracking(), Tracking::Durable);
    assert!(interval.source().is_none());

    let plain = PlaneConfig::Interval {
        period: Span::from_secs(300),
        jitter: false,
        tracking: Tracking::Ephemeral,
    };
    assert_eq!(plain.descriptor(), "interval:300s");
    assert_eq!(plain.tracking(), Tracking::Ephemeral);

    let recurring = PlaneConfig::Recurring {
        schedule: utc_daily(),
        retry: RetryPolicy::none(),
    };
    assert_eq!(recurring.descriptor(), "recurring:daily@03:00+00:00");
    assert_eq!(recurring.tracking(), Tracking::Durable);

    let sync = PlaneConfig::Sync {
        source: SyncSource::new("cvm").unwrap(),
        schedule: b3_daily(),
        retry: RetryPolicy::none(),
        cooldown: CooldownPolicy::new(300),
        max_backfill_days: 90,
    };
    assert_eq!(sync.descriptor(), "sync:daily@07:00-03:00");
    assert_eq!(sync.tier(), TaskTier::Sync);
    assert_eq!(
        sync.source().map(|s| s.as_str().to_owned()),
        Some("cvm".into())
    );
}

#[test]
fn every_configuration_builds_its_plane() {
    let interval = PlaneConfig::Interval {
        period: Span::from_secs(1),
        jitter: false,
        tracking: Tracking::Durable,
    };
    match build("t", &interval) {
        Plane::Interval(trigger) => {
            assert_eq!(trigger.kind, "t");
            assert_eq!(trigger.cadence(), Span::from_secs(1));
        }
        _ => panic!("expected an interval"),
    }
    let recurring = PlaneConfig::Recurring {
        schedule: utc_daily(),
        retry: RetryPolicy::none(),
    };
    match build("t", &recurring) {
        Plane::Recurring(trigger) => {
            assert_eq!(trigger.mode(), TickMode::Seed);
            assert_eq!(trigger.cadence(), Span::from_secs(60));
        }
        _ => panic!("expected a recurrence"),
    }
    let trigger = RecurringTrigger::new("t", utc_daily(), RetryPolicy::none());
    assert!(matches!(trigger.window_for(None), Ok(RunWindow::NoWindow)));
}

#[test]
fn a_failure_keeps_its_message() {
    assert_eq!(TaskFailure::new("boom".to_string()).message(), "boom");
}

// ---------------------------------------------------------------- payloads
#[test]
fn payload_round_trips() {
    let slot = utc(2026, 8, 12, 10);
    let target = TargetPeriod {
        from: date(2026, 8, 11),
        to: date(2026, 8, 11),
    };
    let encoded = encode_payload(slot, target);
    assert_eq!(encoded, "2026-08-12T10:00:00.000Z|2026-08-11|2026-08-11");
    assert_eq!(decode_payload(&encoded), Some((slot, target)));
}

#[test]
fn corrupt_payloads_decode_to_none() {
    for bad in [
        "",
        "not-a-date|2026-08-11|2026-08-11",
        "2026-08-12T10:00:00Z|not-a-date|2026-08-11",
        "2026-08-12T10:00:00Z|2026-08-11",
        "2026-08-12T10:00:00Z",
    ] {
        assert_eq!(decode_payload(bad), None, "{bad:?} must not decode");
    }
}

#[test]
fn a_payload_may_carry_an_offset_and_no_fourth_part() {
    let target = TargetPeriod {
        from: date(2026, 8, 10),
        to: date(2026, 8, 11),
    };
    assert_eq!(
        decode_payload("2026-08-12T07:00:00-03:00|2026-08-10|2026-08-11"),
        Some((utc(2026, 8, 12, 10), target))
    );
    assert_eq!(
        decode_payload("2026-08-12T10:00:00Z|2026-08-10|2026-08-11|more"),
        None
    );
    assert_eq!(
        decode_payload("2026-08-12T10:00:00Z|2026-08-10|2026-08-11|"),
        None
    );
    assert_eq!(
        decode_payload("2026-08-12T10:00:00.0000005Z|2026-08-10|2026-08-11"),
        Some((utc(2026, 8, 12, 10) + 500, target))
    );
    assert_eq!(
        encode_payload(utc(2026, 8, 12, 10) + 500, target),
        "2026-08-12T10:00:00.000Z|2026-08-10|2026-08-11"
    );
}

// ---------------------------------------------------------------- definitions
#[test]
fn task_interval_defaults_are_durable_with_jitter_and_full_logging() {
    let definition = TaskDefinition::interval("t", Span::from_secs(3600))
        .category(TaskCategory::EngineSystem)
        .run();
    assert_eq!(definition.category, TaskCategory::EngineSystem);
    assert_eq!(definition.log_policy, LogPolicy::All);
    assert_eq!(definition.trigger.tier(), TaskTier::Interval);
    assert_eq!(definition.trigger.tracking(), Tracking::Durable);
    assert_eq!(definition.trigger.descriptor(), "interval:3600s±10%");
}

#[test]
fn task_ephemeral_flips_jitter_off_and_quiets_the_log() {
    let definition = TaskDefinition::interval("t", Span::from_secs(300))
        .ephemeral()
        .run();
    assert_eq!(definition.log_policy, LogPolicy::FailuresOnly);
    assert_eq!(definition.trigger.tracking(), Tracking::Ephemeral);
    assert_eq!(definition.trigger.descriptor(), "interval:300s");

    // Explicit overrides still win, in both directions.
    let loud = TaskDefinition::interval("t", Span::from_secs(300))
        .ephemeral()
        .log_all()
        .run();
    assert_eq!(loud.log_policy, LogPolicy::All);

    let quiet = TaskDefinition::interval("t", Span::from_secs(300))
        .no_jitter()
        .log_failures_only()
        .run();
    assert_eq!(quiet.log_policy, LogPolicy::FailuresOnly);
    assert_eq!(quiet.trigger.descriptor(), "interval:300s");
    assert_eq!(quiet.trigger.tracking(), Tracking::Durable);
}

#[test]
fn task_recurring_defaults_to_a_single_attempt_with_overrides_available() {
    let definition = TaskDefinition::recurring("t", utc_daily()).run();
    assert_eq!(definition.trigger.tier(), TaskTier::Recurring);
    assert_eq!(
        definition.trigger.descriptor(),
        "recurring:daily@03:00+00:00"
    );
    assert_eq!(
        definition.settings.at_local,
        ClockTime::from_hm(3, 0),
        "recurring settings capture the schedule"
    );
    assert_eq!(definition.settings.recurrence, Some(Recurrence::Daily));
    assert_eq!(definition.settings.period_secs, None);
    match definition.trigger {
        PlaneConfig::Recurring { retry, .. } => assert_eq!(retry.max_attempts, 1),
        _ => panic!("expected a recurrence"),
    }

    let overridden = TaskDefinition::recurring("t", utc_daily())
        .retry(RetryPolicy {
            max_attempts: 2,
            retry_delay_secs: 600,
        })
        .log_failures_only()
        .run();
    assert_eq!(overridden.log_policy, LogPolicy::FailuresOnly);
    match overridden.trigger {
        PlaneConfig::Recurring { retry, .. } => {
            assert_eq!(retry.max_attempts, 2);
            assert_eq!(retry.retry_delay_secs, 600);
        }
        _ => panic!("expected a recurrence"),
    }

    let declaration = TaskDefinition::recurring("t", utc_daily())
        .disabled()
        .expect("valid kind");
    assert_eq!(declaration.tier, TaskTier::Recurring);
    assert!(!declaration.config_enabled);
}

#[test]
fn sync_definition_captures_defaults_as_settings() {
    let source = SyncSource::new("cvm").unwrap();
    let definition = TaskDefinition::sync("cvm_daily_sync", &source, b3_daily())
        .category(TaskCategory::Other)
        .cooldown_secs(600)
        .max_backfill_days(30)
        .run();
    assert_eq!(definition.trigger.descriptor(), "sync:daily@07:00-03:00");
    assert_eq!(definition.settings.cooldown_secs, Some(600));
    assert_eq!(definition.settings.max_backfill_days, Some(30));
    assert_eq!(definition.settings.recurrence, Some(Recurrence::Daily));

    let pending = definition.validate().expect("valid kind");
    assert_eq!(pending.kind.as_str(), "cvm_daily_sync");
    assert_eq!(pending.category, TaskCategory::Other, "category override");
    assert_eq!(
        pending.config.source().map(|s| s.as_str().to_owned()),
        Some("cvm".into())
    );
}

#[test]
fn sync_defaults_and_disabled_declaration_share_one_source_of_truth() {
    let source = SyncSource::new("cvm").unwrap();
    let declaration = TaskDefinition::sync("cvm_daily_sync", &source, b3_daily())
        .disabled()
        .expect("valid kind");
    assert_eq!(declaration.kind.as_str(), "cvm_daily_sync");
    assert_eq!(declaration.category, TaskCategory::FinanceDataSync);
    assert_eq!(declaration.tier, TaskTier::Sync);
    assert_eq!(declaration.tracking, Tracking::Durable);
    assert_eq!(declaration.schedule, "sync:daily@07:00-03:00");
    assert_eq!(
        declaration.source.map(|s| s.as_str().to_owned()),
        Some("cvm".into())
    );
    assert!(!declaration.config_enabled);

    // The run terminal derives the identical shape, enabled.
    let definition = TaskDefinition::sync("cvm_daily_sync", &source, b3_daily())
        .category(TaskCategory::Other)
        .cooldown_secs(600)
        .max_backfill_days(30)
        .run();
    let (declared, registration) = definition.into_parts().expect("valid kind");
    assert!(declared.config_enabled);
    assert_eq!(declared.schedule, "sync:daily@07:00-03:00");
    assert_eq!(declared.category, TaskCategory::Other, "category override");
    assert_eq!(registration.category, TaskCategory::Other);
}

#[test]
fn interval_settings_capture_the_period_unless_pinned() {
    let tunable = TaskDefinition::interval("t", Span::from_secs(3600)).run();
    assert_eq!(tunable.settings.period_secs, Some(3600));

    let pinned = TaskDefinition::interval("t", Span::from_secs(3600))
        .ephemeral()
        .pinned()
        .run();
    assert_eq!(
        pinned.settings.period_secs, None,
        "pinned periods stay code-owned"
    );
}

#[test]
fn invalid_kinds_yield_no_pending_task() {
    let definition = TaskDefinition::interval("", Span::from_secs(1)).run();
    assert!(definition.validate().is_none());
}

#[test]
fn invalid_kinds_yield_no_parts_and_no_declaration() {
    let definition = TaskDefinition::interval("", Span::from_secs(1)).run();
    assert!(definition.into_parts().is_none());
    assert!(TaskDefinition::interval("", Span::from_secs(1))
        .disabled()
        .is_none());
}

#[test]
fn a_sync_source_defaults_to_three_attempts() {
    let source = SyncSource::new("cvm").unwrap();
    match TaskDefinition::sync("t", &source, b3_daily()).run().trigger {
        PlaneConfig::Sync {
            retry,
            cooldown,
            max_backfill_days,
            ..
        } => {
            assert_eq!(retry.max_attempts, DEFAULT_SYNC_ATTEMPTS);
            assert_eq!(retry.retry_delay_secs, DEFAULT_SYNC_RETRY_DELAY_SECS);
            assert_eq!(cooldown.base_secs, DEFAULT_SYNC_COOLDOWN_SECS);
            assert_eq!(max_backfill_days, DEFAULT_SYNC_MAX_BACKFILL_DAYS);
        }
        _ => panic!("expected a sync source"),
    }
}

#[test]
fn names_are_never_empty() {
    assert!(TaskKind::new("").is_err());
    assert!(SyncSource::new("").is_err());
    assert_eq!(TaskKind::new("t").unwrap().as_str(), "t");
}

#[test]
fn stored_names_read_back() {
    for category in [
        TaskCategory::FinanceDataSync,
        TaskCategory::EngineSystem,
        TaskCategory::Other,
    ] {
        assert_eq!(TaskCategory::from_text(category.as_str()), Some(category));
    }
    for policy in [LogPolicy::All, LogPolicy::FailuresOnly] {
        assert_eq!(LogPolicy::from_text(policy.as_str()), Some(policy));
    }
    assert!(LogPolicy::All.logs(false));
    assert!(LogPolicy::FailuresOnly.logs(true));
    assert!(!LogPolicy::FailuresOnly.logs(false));
    for tier in [TaskTier::Interval, TaskTier::Recurring, TaskTier::Sync] {
        assert_eq!(TaskTier::from_text(tier.as_str()), Some(tier));
    }
    for tracking in [Tracking::Durable, Tracking::Ephemeral] {
        assert_eq!(Tracking::from_text(tracking.as_str()), Some(tracking));
    }
    assert_eq!(TaskTier::from_text("durable"), None);
    assert_eq!(TaskCategory::from_text(""), None);
}

// ---------------------------------------------------------------- schedules
#[test]
fn daily_occurrences_fall_on_business_days() {
    let schedule = b3_daily();
    // A Friday's slot, then Monday's.
    let friday = utc(2026, 8, 14, 10);
    assert_eq!(
        schedule.next_occurrence_after(utc(2026, 8, 14, 9)),
        Some(friday)
    );
    assert_eq!(
        schedule.next_occurrence_after(friday),
        Some(utc(2026, 8, 17, 10))
    );
    assert_eq!(
        schedule.latest_occurrence_before(utc(2026, 8, 16, 0)),
        Some(friday)
    );
    assert_eq!(
        schedule.target_period(date(2026, 8, 11), friday),
        Some(TargetPeriod {
            from: date(2026, 8, 12),
            to: date(2026, 8, 13),
        })
    );
}

#[test]
fn the_local_date_follows_the_offset() {
    let b3 = MarketCalendar::b3();
    assert_eq!(b3.local_date(utc(2026, 8, 12, 2)), Some(date(2026, 8, 11)));
    assert_eq!(b3.local_date(utc(2026, 8, 12, 3)), Some(date(2026, 8, 12)));
    let friday = date(2026, 8, 14);
    assert_eq!(b3.next_business_day(friday), Some(date(2026, 8, 17)));
    assert_eq!(b3.previous_business_day(date(2026, 8, 17)), Some(friday));
    assert_eq!(b3.business_days_between(friday, date(2026, 8, 19)), 2);
}

#[test]
fn recurrences_read_back() {
    for text in ["daily", "weekly:mon", "weekly:fri"] {
        assert_eq!(Recurrence::from_text(text).unwrap().to_text(), text);
    }
    assert_eq!(Recurrence::from_text("monthly"), None);
}
