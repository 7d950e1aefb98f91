//! The engine's own housekeeping and liveness work.
use crate::calendar::MarketCalendar;
use crate::catalog::{LogPolicy, TaskCategory};
use crate::engine::EngineConfig;
use crate::history::{finished_since, RunHistory};
use crate::manager::{spec_states, with_task, BackgroundTasksBuilder, SpecState, TaskSpec};
use crate::moment::{self, ClockTime};
use crate::plane::{PlaneConfig, TaskOutcome, Tracking};
use crate::queue::RetryPolicy;
use crate::schedule::{Recurrence, Schedule};
use crate::span::Span;
use vstd::prelude::*;

verus! {

/// The kinds of the tasks, which are also what their rows are stored under.
pub const DB_MAINTENANCE_TASK: &'static str = "db_maintenance";

pub const HEARTBEAT_TASK: &'static str = "heartbeat";

pub const TASK_PRUNE_TASK: &'static str = "task_prune";

pub const SD_WATCHDOG_TASK: &'static str = "sd_watchdog";

/// How many days finished runs are kept.
pub const TASK_RETENTION_DAYS: u32 = 7;

/// The time of day, in UTC, that the prune recurs at. A wall-clock time: a
/// ticker would start from zero at every boot and never fire on a machine
/// that restarts daily.
pub const TASK_PRUNE_HOUR: u32 = 3;

pub const TASK_PRUNE_MINUTE: u32 = 0;

/// When finished runs are pruned.
pub open spec fn prune_schedule() -> Schedule {
    Schedule {
        calendar: MarketCalendar { offset_minutes: 0 },
        at: ClockTime { hour: TASK_PRUNE_HOUR, minute: TASK_PRUNE_MINUTE },
        recurrence: Recurrence::Daily,
    }
}

/// A task of the engine on a fixed period.
pub open spec fn ticking(
    kind: Seq<char>,
    period: Span,
    jitter: bool,
    tracking: Tracking,
    log_policy: LogPolicy,
) -> SpecState {
    SpecState {
        kind,
        category: TaskCategory::EngineSystem,
        plane: PlaneConfig::Interval { period, jitter, tracking },
        log_policy,
    }
}

/// The prune task.
pub open spec fn pruning() -> SpecState {
    SpecState {
        kind: TASK_PRUNE_TASK@,
        category: TaskCategory::EngineSystem,
        plane: PlaneConfig::Recurring {
            schedule: prune_schedule(),
            retry: RetryPolicy { max_attempts: 1, retry_delay_secs: 0 },
        },
        log_policy: LogPolicy::All,
    }
}

/// The pinging period of a watchdog.
pub open spec fn ping_period(interval: Span) -> Span {
    Span {
        secs: (interval.total_nanos() / 2 / 1_000_000_000) as u64,
        nanos: (interval.total_nanos() / 2 % 1_000_000_000) as u32,
    }
}

/// Some tasks with the engine's own after them: durable maintenance, the
/// ephemeral heartbeat, the prune and, where a watchdog is armed, the
/// ephemeral ping at half its interval.
pub open spec fn with_system_tasks(
    states: Seq<SpecState>,
    config: EngineConfig,
    watchdog: Option<Span>,
) -> Seq<SpecState> {
    let maintained = with_task(
        states,
        ticking(
            DB_MAINTENANCE_TASK@,
            config.maintenance_interval,
            true,
            Tracking::Durable,
            LogPolicy::All,
        ),
    );
    let beating = with_task(
        maintained,
        ticking(
            HEARTBEAT_TASK@,
            config.heartbeat_interval,
            false,
            Tracking::Ephemeral,
            LogPolicy::FailuresOnly,
        ),
    );
    let pruned = with_task(beating, pruning());
    match watchdog {
        Some(interval) => with_task(
            pruned,
            ticking(
                SD_WATCHDOG_TASK@,
                ping_period(interval),
                false,
                Tracking::Ephemeral,
                LogPolicy::FailuresOnly,
            ),
        ),
        None => pruned,
    }
}

/// The prune's time of day.
fn task_prune_at() -> (at: ClockTime)
    ensures
        at == prune_schedule().at,
{
    ClockTime { hour: TASK_PRUNE_HOUR, minute: TASK_PRUNE_MINUTE }
}

/// Registers the engine's own tasks. `watchdog` is the interval within which
/// the service manager expects a ping, where it expects one.
pub fn register(builder: BackgroundTasksBuilder, config: &EngineConfig, watchdog: Option<Span>) -> (
    out: BackgroundTasksBuilder)
    requires
        builder.wf(),
        config.wf(),
        watchdog matches Some(w) ==> w.wf(),
    ensures
        out.wf(),
        out.declared() == builder.declared(),
        spec_states(out.tasks()) == with_system_tasks(
            spec_states(builder.tasks()),
            *config,
            watchdog,
        ),
{
    let builder = builder.register(
        TaskSpec {
            kind: DB_MAINTENANCE_TASK.to_owned(),
            category: TaskCategory::EngineSystem,
            plane: PlaneConfig::Interval {
                period: config.maintenance_interval(),
                jitter: true,
                tracking: Tracking::Durable,
            },
            log_policy: LogPolicy::All,
        },
    );
    let builder = builder.register(
        TaskSpec {
            kind: HEARTBEAT_TASK.to_owned(),
            category: TaskCategory::EngineSystem,
            plane: PlaneConfig::Interval {
                period: config.heartbeat_interval(),
                jitter: false,
                tracking: Tracking::Ephemeral,
            },
            log_policy: LogPolicy::FailuresOnly,
        },
    );
    let builder = builder.register(
        TaskSpec {
            kind: TASK_PRUNE_TASK.to_owned(),
            category: TaskCategory::EngineSystem,
            plane: PlaneConfig::Recurring {
                schedule: Schedule::new(MarketCalendar::utc(), task_prune_at(), Recurrence::Daily),
                retry: RetryPolicy::none(),
            },
            log_policy: LogPolicy::All,
        },
    );
    match watchdog {
        Some(interval) => {
            let period = interval.half();
            assert(period == ping_period(interval)) by {
                assert(period.total_nanos() == interval.total_nanos() / 2);
                assert(period.total_nanos() / 1_000_000_000 == period.secs);
                assert(period.total_nanos() % 1_000_000_000 == period.nanos);
            }
            builder.register(
                TaskSpec {
                    kind: SD_WATCHDOG_TASK.to_owned(),
                    category: TaskCategory::EngineSystem,
                    plane: PlaneConfig::Interval {
                        period,
                        jitter: false,
                        tracking: Tracking::Ephemeral,
                    },
                    log_policy: LogPolicy::FailuresOnly,
                },
            )
        },
        None => builder,
    }
}

// ---------------------------------------------------------------- runs
/// What the end of a storage call means for the run that made it: `call` is
/// an error where the call itself was not executed.
pub fn storage_outcome(call: Result<Result<(), String>, String>) -> (outcome: TaskOutcome)
    ensures
        outcome is Done <==> call matches Ok(Ok(_)),
        outcome !is NotReady,
        call matches Ok(Err(e)) ==> (outcome matches TaskOutcome::Failed(m) && m@ == e@),
        call matches Err(e) ==> (outcome matches TaskOutcome::Failed(m) && m@ == e@),
{
    match call {
        Ok(Ok(_)) => TaskOutcome::Done,
        Ok(Err(e)) => TaskOutcome::Failed(e),
        Err(e) => TaskOutcome::Failed(e),
    }
}

/// The instant before which finished runs are pruned; `None` where the
/// calendar does not reach back that far.
pub fn prune_cutoff(now: i128) -> (cutoff: Option<i128>)
    requires
        moment::valid_instant(now as int),
    ensures
        cutoff is Some <==> moment::valid_instant(moment::days_before(now as int, TASK_RETENTION_DAYS as nat)),
        cutoff matches Some(c) ==> c == moment::days_before(now as int, TASK_RETENTION_DAYS as nat),
{
    moment::before_days(now, TASK_RETENTION_DAYS)
}

/// One prune: removes the runs that finished more than the retention ago and
/// counts them; does nothing where the calendar does not reach back that far.
pub fn prune(history: &mut RunHistory, now: i128) -> (removed: Option<u32>)
    requires
        old(history).wf(),
        moment::valid_instant(now as int),
    ensures
        final(history).wf(),
        removed is Some <==> moment::valid_instant(moment::days_before(now as int, TASK_RETENTION_DAYS as nat)),
        removed is None ==> final(history)@ == old(history)@,
        removed matches Some(n) ==> {
            &&& final(history)@ == old(history)@.filter(
                finished_since(moment::days_before(now as int, TASK_RETENTION_DAYS as nat)),
            )
            &&& n == (if old(history)@.len() - final(history)@.len() <= u32::MAX {
                old(history)@.len() - final(history)@.len()
            } else {
                u32::MAX as int
            })
        },
{
    match prune_cutoff(now) {
        Some(cutoff) => Some(history.prune_finished(cutoff)),
        None => None,
    }
}

// ---------------------------------------------------------------- laws
/// The heartbeat and the watchdog ping never leave a row; maintenance and
/// the prune always do.
pub proof fn law_only_liveness_work_is_ephemeral(config: EngineConfig, watchdog: Option<Span>)
    ensures
        ({
            let tasks = with_system_tasks(Seq::empty(), config, watchdog);
            &&& tasks.len() == (if watchdog is Some {
                4int
            } else {
                3int
            })
            &&& forall|i: int| #![trigger tasks[i]]
                0 <= i < tasks.len() ==> (tasks[i].plane.spec_tracking() == Tracking::Ephemeral
                    <==> (tasks[i].kind == HEARTBEAT_TASK@ || tasks[i].kind == SD_WATCHDOG_TASK@))
        }),
{
    reveal_strlit("db_maintenance");
    reveal_strlit("heartbeat");
    reveal_strlit("task_prune");
    reveal_strlit("sd_watchdog");
    let tasks = with_system_tasks(Seq::empty(), config, watchdog);
    assert("db_maintenance"@.len() == 14);
    assert("heartbeat"@.len() == 9);
    assert("task_prune"@.len() == 10);
    assert("sd_watchdog"@.len() == 11);
}

/// A prune keeps exactly what finished within the last seven days, to the
/// millisecond.
pub proof fn law_a_prune_keeps_a_week(now: int, record: crate::history::ExecutionState)
    requires
        now % 2_000_000_000 < 1_000_000_000,
    ensures
        ({
            let cutoff = now - 7 * 86_400 * 2_000_000_000;
            finished_since(moment::days_before(now, TASK_RETENTION_DAYS as nat))(record)
                <==> record.finished_at >= cutoff - cutoff % 1_000_000
        }),
{
    moment::law_days_earlier(now, 7);
}

} // verus!
