//! The CVM daily sync: every business day at the configured local time it
//! targets the previous business day, and it catches up one day at a time
//! after downtime.
use crate::calendar::MarketCalendar;
use crate::catalog::{declared, LogPolicy, TaskCategory, TaskDeclaration, TaskDefinition};
use crate::catalog::TaskSettings;
use crate::cursor::SyncSource;
use crate::engine::{
    default_sync_at, default_sync_time, EngineConfig, SyncSettings, DEFAULT_SYNC_COOLDOWN_SECS,
    DEFAULT_SYNC_MAX_BACKFILL_DAYS,
};
use crate::manager::{has_kind, spec_states, BackgroundTasksBuilder, SpecState};
use crate::plane::{PlaneConfig, RunWindow, TaskOutcome};
use crate::queue::RetryPolicy;
use crate::schedule::{Recurrence, Schedule};
use vstd::prelude::*;

verus! {

/// The kind of the task.
pub const CVM_DAILY_SYNC_TASK: &'static str = "cvm_daily_sync";

/// The name that the source's cursor is kept under.
pub const CVM_SYNC_SOURCE: &'static str = "cvm";

/// Retries of one run: three attempts, five minutes apart at first, before
/// the failure is terminal and the source cools down.
pub const CVM_SYNC_ATTEMPTS: u32 = 3;

pub const CVM_SYNC_RETRY_DELAY_SECS: u32 = 300;

/// The schedule of the source at a time of day.
pub open spec fn cvm_schedule(settings: SyncSettings) -> Schedule {
    Schedule {
        calendar: MarketCalendar { offset_minutes: -180i32 },
        at: settings.at,
        recurrence: settings.recurrence,
    }
}

/// What the source runs with where it is not configured.
pub open spec fn default_settings() -> SyncSettings {
    SyncSettings {
        at: default_sync_time(),
        recurrence: Recurrence::Daily,
        cooldown_secs: DEFAULT_SYNC_COOLDOWN_SECS,
        max_backfill_days: DEFAULT_SYNC_MAX_BACKFILL_DAYS,
    }
}

/// Whether a plane is that of the source under some settings.
pub open spec fn is_cvm_plane(plane: PlaneConfig, settings: SyncSettings) -> bool {
    plane matches PlaneConfig::Sync { source, schedule, retry, cooldown, max_backfill_days }
        && source@ == CVM_SYNC_SOURCE@ && schedule == cvm_schedule(settings) && retry.max_attempts
        == CVM_SYNC_ATTEMPTS && retry.retry_delay_secs == CVM_SYNC_RETRY_DELAY_SECS
        && cooldown.base_secs == settings.cooldown_secs && max_backfill_days
        == settings.max_backfill_days
}

/// The settings as the catalog holds them.
pub open spec fn catalog_settings(settings: SyncSettings) -> TaskSettings {
    TaskSettings {
        period_secs: None,
        at_local: Some(settings.at),
        recurrence: Some(settings.recurrence),
        cooldown_secs: Some(settings.cooldown_secs),
        max_backfill_days: Some(settings.max_backfill_days),
    }
}

/// Whether a declaration is that of the source.
pub open spec fn is_cvm_declaration(
    declaration: TaskDeclaration,
    settings: SyncSettings,
    enabled: bool,
) -> bool {
    exists|plane: PlaneConfig| #[trigger]
        is_cvm_plane(plane, settings) && declaration@ == declared(
            CVM_DAILY_SYNC_TASK@,
            TaskCategory::FinanceDataSync,
            LogPolicy::All,
            plane,
            catalog_settings(settings),
            enabled,
        )
}

/// What registering the source makes of a builder that held `states` and
/// `declarations`: where the source is configured, its task is added and
/// declared; where it is off, it is declared as disabled and nothing runs. A
/// kind that is taken is left as it is.
pub open spec fn registered(
    states: Seq<SpecState>,
    declarations: Seq<TaskDeclaration>,
    sync: Option<SyncSettings>,
    out: BackgroundTasksBuilder,
) -> bool {
    let after = spec_states(out.tasks());
    match sync {
        None => {
            &&& after == states
            &&& out.declared().len() == declarations.len() + 1
            &&& out.declared().drop_last() == declarations
            &&& is_cvm_declaration(out.declared().last(), default_settings(), false)
        },
        Some(settings) => if has_kind(states, CVM_DAILY_SYNC_TASK@) {
            after == states && out.declared() == declarations
        } else {
            &&& after.len() == states.len() + 1
            &&& after.drop_last() == states
            &&& after.last().kind == CVM_DAILY_SYNC_TASK@
            &&& after.last().category == TaskCategory::FinanceDataSync
            &&& after.last().log_policy == LogPolicy::All
            &&& is_cvm_plane(after.last().plane, settings)
            &&& out.declared().len() == declarations.len() + 1
            &&& out.declared().drop_last() == declarations
            &&& is_cvm_declaration(out.declared().last(), settings, true)
        },
    }
}

/// Registers the source or, where it is off, declares it as disabled, so
/// that the catalog shows it.
pub fn register(builder: BackgroundTasksBuilder, config: &EngineConfig) -> (out:
    BackgroundTasksBuilder)
    requires
        builder.wf(),
        config.wf(),
    ensures
        out.wf(),
        registered(spec_states(builder.tasks()), builder.declared(), config.cvm_sync, out),
{
    proof {
        reveal_strlit("cvm");
        reveal_strlit("cvm_daily_sync");
        assert(CVM_SYNC_SOURCE@.len() == 3);
        assert(CVM_DAILY_SYNC_TASK@.len() == 14);
    }
    let source = match SyncSource::new(CVM_SYNC_SOURCE) {
        Ok(source) => source,
        Err(_) => {
            return builder;
        },
    };
    let retry = RetryPolicy {
        max_attempts: CVM_SYNC_ATTEMPTS,
        retry_delay_secs: CVM_SYNC_RETRY_DELAY_SECS,
    };
    let settings = match config.cvm_sync() {
        Some(settings) => settings,
        None => {
            let schedule = Schedule::new(
                MarketCalendar::b3(),
                default_sync_at(),
                Recurrence::Daily,
            );
            let disabled = TaskDefinition::sync(CVM_DAILY_SYNC_TASK, &source, schedule).retry(
                retry,
            );
            let ghost plane = disabled.built_config();
            let out = builder.declare(disabled.disabled());
            proof {
                assert(is_cvm_plane(plane, default_settings()));
                assert(out.declared().drop_last() =~= builder.declared());
            }
            return out;
        },
    };
    let task = TaskDefinition::sync(
        CVM_DAILY_SYNC_TASK,
        &source,
        Schedule::new(MarketCalendar::b3(), settings.at, settings.recurrence),
    ).retry(retry).cooldown_secs(settings.cooldown_secs).max_backfill_days(
        settings.max_backfill_days,
    ).run();
    let ghost plane = task.trigger;
    let out = builder.task(task);
    proof {
        assert(is_cvm_plane(plane, settings));
        if !has_kind(spec_states(builder.tasks()), CVM_DAILY_SYNC_TASK@) {
            assert(spec_states(out.tasks()).drop_last() =~= spec_states(builder.tasks()));
        }
    }
    out
}

/// What a run of the source reports: without a period it cannot know what to
/// cover.
pub fn run(window: &RunWindow) -> (outcome: TaskOutcome)
    ensures
        *window is Period <==> outcome is Done,
        *window is NoWindow ==> (outcome matches TaskOutcome::Failed(m) && m@
            == "cvm sync run without a period window"@),
{
    match window {
        RunWindow::Period { .. } => TaskOutcome::Done,
        RunWindow::NoWindow => TaskOutcome::Failed(
            "cvm sync run without a period window".to_owned(),
        ),
    }
}

} // verus!
