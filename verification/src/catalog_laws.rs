//! What the catalog and the registry say of a task, part by part.
use crate::catalog::{
    declared, DeclarationState, IntervalTaskBuilder, LogPolicy, RecurringTaskBuilder,
    SyncTaskBuilder, TaskCategory, TaskDeclaration, TaskSettings,
};
use crate::cursor::SyncOutcomeKind;
use crate::engine::{EngineConfig, SyncSettings};
use crate::jobs::cvm::{
    catalog_settings, default_settings, is_cvm_plane, registered, CVM_DAILY_SYNC_TASK,
};
use crate::jobs::system::{ping_period, with_system_tasks};
use crate::manager::{has_kind, spec_states, with_task, BackgroundTasksBuilder, SpecState};
use crate::plane::{PlaneConfig, TaskTier, Tracking};
use crate::queue::TaskStatus;
use crate::registry::{after_declaration, retired, RegistrationState};
use crate::schedule::{recurrence_spelled, recurrence_text, schedule_text, Recurrence};
use crate::settings::{
    broken_of, lenient_clock, lenient_number, lenient_recurring, settings_written, BrokenState,
    CellState, SettingsColumns,
};
use crate::moment::{self, clock_read, clock_text};
use crate::span::Span;
use crate::task_queue::ExecutionOutcome;
use crate::text;
use vstd::prelude::*;

verus! {

// ---------------------------------------------------------------- names
/// Every persisted name reads back as what it names, and nothing else reads.
pub proof fn law_persisted_names_read_back(
    status: TaskStatus,
    outcome: ExecutionOutcome,
    sync: SyncOutcomeKind,
    raw: Seq<char>,
)
    ensures
        TaskStatus::named(status.name()) == Some(status),
        ExecutionOutcome::named(outcome.name()) == Some(outcome),
        SyncOutcomeKind::named(sync.name()) == Some(sync),
        TaskStatus::named(raw) matches Some(s) ==> s.name() == raw,
        ExecutionOutcome::named(raw) matches Some(o) ==> o.name() == raw,
        SyncOutcomeKind::named(raw) matches Some(o) ==> o.name() == raw,
        TaskStatus::Pending.name() == "PENDING"@ && TaskStatus::Running.name() == "RUNNING"@,
        ExecutionOutcome::Succeeded.name() == "SUCCEEDED"@,
        ExecutionOutcome::NotReady.name() == "NOT_READY"@,
        ExecutionOutcome::Failed.name() == "FAILED"@,
        SyncOutcomeKind::Synced.name() == "SYNCED"@,
        SyncOutcomeKind::NotReady.name() == "NOT_READY"@,
        SyncOutcomeKind::Failed.name() == "FAILED"@,
{
    reveal_strlit("PENDING");
    reveal_strlit("RUNNING");
    reveal_strlit("SUCCEEDED");
    reveal_strlit("NOT_READY");
    reveal_strlit("FAILED");
    reveal_strlit("SYNCED");
    assert("PENDING"@[0] == 'P' && "RUNNING"@[0] == 'R');
    assert("SUCCEEDED"@[0] == 'S' && "NOT_READY"@[0] == 'N' && "FAILED"@[0] == 'F');
    assert("SYNCED"@[0] == 'S');
}

/// Every persisted name of the catalog reads back as what it names, and
/// nothing else reads.
pub proof fn law_catalog_names_read_back(
    tracking: Tracking,
    tier: TaskTier,
    category: TaskCategory,
    policy: LogPolicy,
    raw: Seq<char>,
)
    ensures
        Tracking::named(tracking.name()) == Some(tracking),
        TaskTier::named(tier.name()) == Some(tier),
        TaskCategory::named(category.name()) == Some(category),
        LogPolicy::named(policy.name()) == Some(policy),
        Tracking::named(raw) matches Some(t) ==> t.name() == raw,
        TaskTier::named(raw) matches Some(t) ==> t.name() == raw,
        TaskCategory::named(raw) matches Some(c) ==> c.name() == raw,
        LogPolicy::named(raw) matches Some(p) ==> p.name() == raw,
        Tracking::Durable.name() == "DURABLE"@ && Tracking::Ephemeral.name() == "EPHEMERAL"@,
        TaskTier::Interval.name() == "INTERVAL"@,
        TaskTier::Recurring.name() == "RECURRING"@,
        TaskTier::Sync.name() == "SYNC"@,
        TaskCategory::EngineSystem.name() == "ENGINE_SYSTEM"@,
        TaskCategory::FinanceDataSync.name() == "FINANCE_DATA_SYNC"@,
        TaskCategory::Other.name() == "OTHER"@,
        LogPolicy::All.name() == "ALL"@ && LogPolicy::FailuresOnly.name() == "FAILURES_ONLY"@,
{
    reveal_strlit("DURABLE");
    reveal_strlit("EPHEMERAL");
    reveal_strlit("INTERVAL");
    reveal_strlit("RECURRING");
    reveal_strlit("SYNC");
    reveal_strlit("ENGINE_SYSTEM");
    reveal_strlit("FINANCE_DATA_SYNC");
    reveal_strlit("OTHER");
    reveal_strlit("ALL");
    reveal_strlit("FAILURES_ONLY");
    assert("DURABLE"@[0] == 'D' && "EPHEMERAL"@[0] == 'E');
    assert("INTERVAL"@[0] == 'I' && "RECURRING"@[0] == 'R' && "SYNC"@[0] == 'S');
    assert("ENGINE_SYSTEM"@[0] == 'E' && "FINANCE_DATA_SYNC"@[0] == 'F' && "OTHER"@[0] == 'O');
    assert("ALL"@[0] == 'A' && "FAILURES_ONLY"@[0] == 'F');
}

/// A text spells a recurrence only where it is that recurrence's own text.
pub proof fn law_only_its_own_text_spells_a_recurrence(raw: Seq<char>, recurrence: Recurrence)
    requires
        recurrence_spelled(raw) == Some(recurrence),
    ensures
        recurrence is Daily ==> raw == "daily"@,
        recurrence matches Recurrence::Weekly { on } ==> raw == "weekly:"@ + on.name(),
{
    crate::schedule::lemma_spelled(raw);
}

// ---------------------------------------------------------------- tiers
/// A task's tier and tracking follow from its plane: only an interval task can
/// be ephemeral, and only a sync task names a source.
pub proof fn law_a_plane_decides_tier_and_tracking(config: PlaneConfig)
    ensures
        config matches PlaneConfig::Interval { tracking, .. } ==> config.spec_tier()
            == TaskTier::Interval && config.spec_tracking() == tracking && config.source_name()
            is None,
        config is Recurring ==> config.spec_tier() == TaskTier::Recurring && config.spec_tracking()
            == Tracking::Durable && config.source_name() is None,
        config matches PlaneConfig::Sync { source, .. } ==> config.spec_tier() == TaskTier::Sync
            && config.spec_tracking() == Tracking::Durable && config.source_name() == Some(source@),
{
}

/// The catalog describes a task by its tier and its period or schedule.
pub proof fn law_a_task_is_described_by_its_schedule(config: PlaneConfig)
    ensures
        config matches PlaneConfig::Interval { period, jitter, .. } ==> (jitter ==> config.text()
            == "interval:"@ + text::decimal_text(period.secs as nat) + "s±10%"@) && (!jitter
            ==> config.text() == "interval:"@ + text::decimal_text(period.secs as nat) + "s"@),
        config matches PlaneConfig::Recurring { schedule, .. } ==> config.text() == "recurring:"@
            + schedule_text(schedule),
        config matches PlaneConfig::Sync { schedule, .. } ==> config.text() == "sync:"@
            + schedule_text(schedule),
{
}

// ---------------------------------------------------------------- builders
/// An interval task ticks as it was told to. It logs every run where it is
/// durable and only failures where it is not, unless it was told otherwise,
/// and an operator may tune its period unless that is pinned.
pub proof fn law_an_interval_task_is_as_it_was_built(builder: IntervalTaskBuilder)
    ensures
        builder.built_config() matches PlaneConfig::Interval { period, jitter, tracking } && period
            == builder.period && jitter == builder.jitter && tracking == builder.tracking,
        builder.log_policy matches Some(policy) ==> builder.resolved() == policy,
        builder.log_policy is None && builder.tracking == Tracking::Durable ==> builder.resolved()
            == LogPolicy::All,
        builder.log_policy is None && builder.tracking == Tracking::Ephemeral
            ==> builder.resolved() == LogPolicy::FailuresOnly,
        ({
            let settings = builder.built_settings();
            &&& builder.pinned ==> settings.period_secs is None
            &&& !builder.pinned && 1 <= builder.period.secs <= 0xffff_ffff ==> (
            settings.period_secs matches Some(secs) && secs == builder.period.secs)
            &&& builder.period.secs == 0 || builder.period.secs > 0xffff_ffff
                ==> settings.period_secs is None
            &&& settings.at_local is None && settings.recurrence is None
            &&& settings.cooldown_secs is None && settings.max_backfill_days is None
        }),
{
}

/// Recurring and sync tasks run on their own schedule, with their own retry
/// policy; an operator may tune the time of day and the recurrence, and of a
/// sync task the cooldown and the backlog.
pub proof fn law_scheduled_tasks_are_as_they_were_built(
    recurring: RecurringTaskBuilder,
    sync: SyncTaskBuilder,
)
    ensures
        recurring.built_config() matches PlaneConfig::Recurring { schedule, retry } && schedule
            == recurring.schedule && retry == recurring.retry,
        sync.built_config() matches PlaneConfig::Sync {
            source,
            schedule,
            retry,
            cooldown,
            max_backfill_days,
        } && source@ == sync.source@ && schedule == sync.schedule && retry == sync.retry
            && cooldown.base_secs == sync.cooldown_secs && max_backfill_days
            == sync.max_backfill_days,
        ({
            let settings = recurring.built_settings();
            &&& settings.at_local == Some(recurring.schedule.at)
            &&& settings.recurrence == Some(recurring.schedule.recurrence)
            &&& settings.period_secs is None && settings.cooldown_secs is None
            &&& settings.max_backfill_days is None
        }),
        ({
            let settings = sync.built_settings();
            &&& settings.at_local == Some(sync.schedule.at)
            &&& settings.recurrence == Some(sync.schedule.recurrence)
            &&& settings.cooldown_secs == Some(sync.cooldown_secs)
            &&& settings.max_backfill_days == Some(sync.max_backfill_days)
            &&& settings.period_secs is None
        }),
{
}

/// A declaration repeats what the task is.
pub proof fn law_a_declaration_repeats_the_task(
    kind: Seq<char>,
    category: TaskCategory,
    log_policy: LogPolicy,
    config: PlaneConfig,
    settings: TaskSettings,
    enabled: bool,
)
    ensures
        ({
            let d = declared(kind, category, log_policy, config, settings, enabled);
            &&& (d.kind, d.category, d.log_policy) == (kind, category, log_policy)
            &&& d.config_enabled == enabled
            &&& d.settings == settings
            &&& config is Interval <==> d.tier == TaskTier::Interval
            &&& config is Sync <==> d.tier == TaskTier::Sync
            &&& config is Sync <==> d.source is Some
            &&& d.tracking == Tracking::Ephemeral <==> (config matches PlaneConfig::Interval {
                tracking,
                ..
            } && tracking == Tracking::Ephemeral)
            &&& d.schedule == config.text()
        }),
{
}

/// A task comes after those registered before it, unless its kind is empty or
/// taken; then nothing changes.
pub proof fn law_a_kind_is_registered_once(states: Seq<SpecState>, added: SpecState)
    ensures
        ({
            let taken = exists|i: int|
                0 <= i < states.len() && (#[trigger] states[i]).kind == added.kind;
            let after = with_task(states, added);
            &&& added.kind.len() == 0 || taken ==> after == states
            &&& added.kind.len() > 0 && !taken ==> after.len() == states.len() + 1
                && after.last() == added && after.drop_last() == states
        }),
{
    assert(states.push(added).drop_last() =~= states);
}

// ---------------------------------------------------------------- registry
/// A first declaration registers the task as declared: enabled, not paused,
/// with the declared settings. A later one rewrites what identifies the task
/// and fills the settings that nothing is stored for.
pub proof fn law_a_declaration_is_registered(
    stored: Option<RegistrationState>,
    declaration: DeclarationState,
    now: int,
)
    requires
        moment::valid_instant(now),
    ensures
        ({
            let after = after_declaration(stored, declaration, now);
            &&& (after.kind, after.category, after.tier) == (
                declaration.kind,
                declaration.category,
                declaration.tier,
            )
            &&& (after.tracking, after.schedule, after.source) == (
                declaration.tracking,
                declaration.schedule,
                declaration.source,
            )
            &&& (after.log_policy, after.config_enabled) == (
                declaration.log_policy,
                declaration.config_enabled,
            )
            &&& after.registered
            &&& after.updated_at == now - now % 1_000_000
            &&& stored is None ==> after.enabled && !after.paused && after.settings
                == declaration.settings && after.first_registered_at == after.updated_at
            &&& stored is None ==> after.broken == BrokenState::none()
            &&& stored matches Some(s) ==> {
                let (was, now_is) = (s.settings, after.settings);
                &&& was.period_secs is None && s.broken.period_secs is None ==> now_is.period_secs
                    == declaration.settings.period_secs
                &&& was.at_local is None && s.broken.at_local is None ==> now_is.at_local
                    == declaration.settings.at_local
                &&& was.recurrence is None && s.broken.recurrence is None ==> now_is.recurrence
                    == declaration.settings.recurrence
                &&& was.cooldown_secs is None && s.broken.cooldown_secs is None ==> now_is.cooldown_secs
                    == declaration.settings.cooldown_secs
                &&& was.max_backfill_days is None && s.broken.max_backfill_days is None
                    ==> now_is.max_backfill_days == declaration.settings.max_backfill_days
            }
        }),
{
}

/// Retiring marks exactly the registered kinds that the code no longer has,
/// and changes nothing else of any record.
pub proof fn law_retiring_marks_what_the_code_lost(
    records: Map<Seq<char>, RegistrationState>,
    kept: Seq<Seq<char>>,
    now: int,
    kind: Seq<char>,
)
    requires
        moment::valid_instant(now),
    ensures
        ({
            let after = retired(records, kept, now);
            &&& after.dom() == records.dom()
            &&& records.dom().contains(kind) ==> {
                let (was, now_is) = (records[kind], after[kind]);
                let lost = was.registered && !kept.contains(was.kind);
                &&& lost ==> !now_is.registered && now_is.updated_at == now - now % 1_000_000
                &&& !lost ==> now_is == was
                &&& (now_is.kind, now_is.paused, now_is.enabled) == (was.kind, was.paused, was.enabled)
                &&& (now_is.settings, now_is.broken) == (was.settings, was.broken)
                &&& now_is.first_registered_at == was.first_registered_at
                &&& (now_is.category, now_is.tier, now_is.tracking) == (was.category, was.tier, was.tracking)
                &&& (now_is.schedule, now_is.source) == (was.schedule, was.source)
                &&& (now_is.log_policy, now_is.config_enabled) == (was.log_policy, was.config_enabled)
            }
        }),
{
    assert(retired(records, kept, now).dom() =~= records.dom());
}

// ---------------------------------------------------------------- settings
/// A settings column reads as a value only where it holds one of its type in
/// range; anything else that is not empty is kept as it is.
pub proof fn law_a_settings_column_reads_its_own_type(raw: CellState, row: SettingsColumns)
    ensures
        lenient_number(raw) matches Some(n) ==> raw == CellState::Integer(n as int),
        raw matches CellState::Integer(n) ==> 0 <= n <= 0xffff_ffff ==> lenient_number(raw)
            is Some,
        lenient_clock(raw) is Some <==> (raw matches CellState::Text(t) && clock_read(t) is Ok),
        lenient_clock(raw) matches Some(at) ==> (raw matches CellState::Text(t) && (clock_read(
            t,
        ) matches Ok(hm) && at.hour == hm.0 as u32 && at.minute == hm.1 as u32)),
        lenient_recurring(raw) == (match raw {
            CellState::Text(t) => recurrence_spelled(t),
            _ => None,
        }),
        broken_of(row).period_secs == (if row.period_secs@ is Null || lenient_number(
            row.period_secs@,
        ) is Some {
            None
        } else {
            Some(row.period_secs@)
        }),
        broken_of(row).cooldown_secs == (if row.cooldown_secs@ is Null || lenient_number(
            row.cooldown_secs@,
        ) is Some {
            None
        } else {
            Some(row.cooldown_secs@)
        }),
        broken_of(row).max_backfill_days == (if row.max_backfill_days@ is Null || lenient_number(
            row.max_backfill_days@,
        ) is Some {
            None
        } else {
            Some(row.max_backfill_days@)
        }),
        broken_of(row).at_local == (if row.at_local@ is Null || lenient_clock(
            row.at_local@,
        ) is Some {
            None
        } else {
            Some(row.at_local@)
        }),
        broken_of(row).recurrence == (if row.recurrence@ is Null || lenient_recurring(
            row.recurrence@,
        ) is Some {
            None
        } else {
            Some(row.recurrence@)
        }),
{
}

/// A setting is written into its own column; a column without one keeps what
/// did not read, or is empty.
pub proof fn law_a_setting_is_written_into_its_column(
    settings: TaskSettings,
    broken: BrokenState,
    columns: SettingsColumns,
)
    requires
        settings_written(settings, broken, columns),
    ensures
        settings.period_secs matches Some(n) ==> columns.period_secs@ == CellState::Integer(
            n as int,
        ),
        settings.cooldown_secs matches Some(n) ==> columns.cooldown_secs@ == CellState::Integer(
            n as int,
        ),
        settings.max_backfill_days matches Some(n) ==> columns.max_backfill_days@
            == CellState::Integer(n as int),
        settings.at_local matches Some(at) ==> columns.at_local@ == CellState::Text(clock_text(at)),
        settings.recurrence matches Some(r) ==> columns.recurrence@ == CellState::Text(
            recurrence_text(r),
        ),
        settings.period_secs is None ==> columns.period_secs@ == (match broken.period_secs {
            Some(c) => c,
            None => CellState::Null,
        }),
        settings.at_local is None ==> columns.at_local@ == (match broken.at_local {
            Some(c) => c,
            None => CellState::Null,
        }),
        settings.recurrence is None ==> columns.recurrence@ == (match broken.recurrence {
            Some(c) => c,
            None => CellState::Null,
        }),
        settings.cooldown_secs is None ==> columns.cooldown_secs@ == (match broken.cooldown_secs {
            Some(c) => c,
            None => CellState::Null,
        }),
        settings.max_backfill_days is None ==> columns.max_backfill_days@ == (
        match broken.max_backfill_days {
            Some(c) => c,
            None => CellState::Null,
        }),
{
}

// ---------------------------------------------------------------- jobs
/// The engine's own tasks, in order: durable maintenance at its interval with
/// jitter, the quiet heartbeat at its own, the daily prune at three in the
/// morning UTC with a single attempt and, where a watchdog is armed, the quiet
/// ping.
pub proof fn law_the_engine_runs_its_own_tasks(config: EngineConfig, watchdog: Option<Span>)
    ensures
        ({
            let tasks = with_system_tasks(Seq::empty(), config, watchdog);
            &&& tasks.len() == if watchdog is Some {
                4int
            } else {
                3int
            }
            &&& tasks[0].kind == "db_maintenance"@ && tasks[0].log_policy == LogPolicy::All
            &&& tasks[0].plane == (PlaneConfig::Interval {
                period: config.maintenance_interval,
                jitter: true,
                tracking: Tracking::Durable,
            })
            &&& tasks[1].kind == "heartbeat"@ && tasks[1].log_policy == LogPolicy::FailuresOnly
            &&& tasks[1].plane == (PlaneConfig::Interval {
                period: config.heartbeat_interval,
                jitter: false,
                tracking: Tracking::Ephemeral,
            })
            &&& tasks[2].kind == "task_prune"@ && tasks[2].log_policy == LogPolicy::All
            &&& tasks[2].plane matches PlaneConfig::Recurring { schedule, retry }
                && schedule.calendar.offset_minutes == 0 && schedule.at.hour == 3
                && schedule.at.minute == 0 && schedule.recurrence == Recurrence::Daily
                && retry.max_attempts == 1 && retry.retry_delay_secs == 0
            &&& watchdog matches Some(interval) ==> {
                &&& tasks[3].kind == "sd_watchdog"@ && tasks[3].log_policy
                    == LogPolicy::FailuresOnly
                &&& tasks[3].plane == (PlaneConfig::Interval {
                    period: ping_period(interval),
                    jitter: false,
                    tracking: Tracking::Ephemeral,
                })
            }
            &&& forall|i: int|
                0 <= i < tasks.len() ==> (#[trigger] tasks[i]).category
                    == TaskCategory::EngineSystem
        }),
{
    reveal_strlit("db_maintenance");
    reveal_strlit("heartbeat");
    reveal_strlit("task_prune");
    reveal_strlit("sd_watchdog");
    assert("db_maintenance"@.len() == 14);
    assert("heartbeat"@.len() == 9);
    assert("task_prune"@.len() == 10);
    assert("sd_watchdog"@.len() == 11);
}

/// A watchdog is pinged twice per interval, to the nanosecond.
pub proof fn law_a_watchdog_is_pinged_at_half_its_interval(interval: Span)
    requires
        interval.wf(),
    ensures
        ping_period(interval).wf(),
        2 * ping_period(interval).total_nanos() <= interval.total_nanos() <= 2 * ping_period(
            interval,
        ).total_nanos() + 1,
{
    let half = interval.total_nanos() / 2;
    assert(half / 1_000_000_000 <= u64::MAX);
    assert(ping_period(interval).total_nanos() == half);
}

/// The CVM source runs at its configured local time in the Brazilian market,
/// three hours behind UTC, with three attempts five minutes apart, and with
/// the cooldown and the backlog that it is configured with.
pub proof fn law_the_cvm_source_runs_as_configured(plane: PlaneConfig, settings: SyncSettings)
    requires
        is_cvm_plane(plane, settings),
    ensures
        plane matches PlaneConfig::Sync { source, schedule, retry, cooldown, max_backfill_days }
            && source@ == "cvm"@ && schedule.calendar.offset_minutes == -180 && schedule.at
            == settings.at && schedule.recurrence == settings.recurrence && retry.max_attempts == 3
            && retry.retry_delay_secs == 300 && cooldown.base_secs == settings.cooldown_secs
            && max_backfill_days == settings.max_backfill_days,
        ({
            let held = catalog_settings(settings);
            &&& held.at_local == Some(settings.at)
            &&& held.recurrence == Some(settings.recurrence)
            &&& held.cooldown_secs == Some(settings.cooldown_secs)
            &&& held.max_backfill_days == Some(settings.max_backfill_days)
            &&& held.period_secs is None
        }),
        ({
            let unset = default_settings();
            &&& unset.at.hour == 7 && unset.at.minute == 0
            &&& unset.recurrence == Recurrence::Daily
            &&& unset.cooldown_secs == 300 && unset.max_backfill_days == 90
        }),
{
}

/// A configured CVM source is registered behind the other tasks and declared
/// as enabled; one that is switched off is declared with its defaults, as not
/// enabled, and no task is registered for it.
pub proof fn law_the_cvm_source_is_declared_either_way(
    states: Seq<SpecState>,
    declarations: Seq<TaskDeclaration>,
    sync: Option<SyncSettings>,
    out: BackgroundTasksBuilder,
)
    requires
        registered(states, declarations, sync, out),
        !has_kind(states, "cvm_daily_sync"@),
    ensures
        ({
            let after = spec_states(out.tasks());
            let told = out.declared().last()@;
            &&& out.declared().len() == declarations.len() + 1
            &&& out.declared().take(declarations.len() as int) == declarations
            &&& told.kind == "cvm_daily_sync"@
            &&& told.category == TaskCategory::FinanceDataSync
            &&& told.tier == TaskTier::Sync
            &&& told.source == Some("cvm"@)
            &&& told.log_policy == LogPolicy::All
            &&& told.config_enabled == sync is Some
            &&& sync is None ==> after == states
            &&& sync is None ==> told.settings.cooldown_secs == Some(300u32)
                && told.settings.max_backfill_days == Some(90u32) && told.settings.recurrence
                == Some(Recurrence::Daily)
            &&& sync is Some ==> {
                &&& after.len() == states.len() + 1
                &&& after.take(states.len() as int) == states
                &&& after.last().kind == "cvm_daily_sync"@
                &&& after.last().category == TaskCategory::FinanceDataSync
                &&& after.last().log_policy == LogPolicy::All
                &&& is_cvm_plane(after.last().plane, sync->0)
                &&& told.settings.at_local == Some(sync->0.at)
                &&& told.settings.recurrence == Some(sync->0.recurrence)
                &&& told.settings.cooldown_secs == Some(sync->0.cooldown_secs)
                &&& told.settings.max_backfill_days == Some(sync->0.max_backfill_days)
            }
        }),
        CVM_DAILY_SYNC_TASK@ == "cvm_daily_sync"@,
{
    assert(out.declared().take(declarations.len() as int) =~= out.declared().drop_last());
    if sync is Some {
        let after = spec_states(out.tasks());
        assert(after.take(states.len() as int) =~= after.drop_last());
    }
}

} // verus!
