//! The task vocabulary: what a task is, and one typed builder per tier.
//!
//! Builders carry the framework's defaults, so a task states only what makes
//! it different. `run` yields the definition, `disabled` the declaration of
//! a task that is configured off; both describe the task the same way.
use crate::cursor::{CooldownPolicy, SyncSource};
use crate::moment::ClockTime;
use crate::plane::{PlaneConfig, TaskTier, Tracking};
use crate::queue::{RetryPolicy, TaskKind};
use crate::schedule::{Recurrence, Schedule};
use crate::span::Span;
use crate::text;
use vstd::prelude::*;

verus! {

/// Attempts of one sync run unless overridden: three, five minutes apart.
pub const DEFAULT_SYNC_ATTEMPTS: u32 = 3;

pub const DEFAULT_SYNC_RETRY_DELAY_SECS: u32 = 300;

/// Base of a source's failure cooldown unless overridden.
pub const DEFAULT_SYNC_COOLDOWN_SECS: u32 = 300;

/// Business days of unattended catch-up unless overridden.
pub const DEFAULT_SYNC_MAX_BACKFILL_DAYS: u32 = 90;

/// What a task is for.
#[derive(Clone, Copy, Debug, PartialEq, Eq, Structural)]
pub enum TaskCategory {
    EngineSystem,
    FinanceDataSync,
    Other,
}

impl TaskCategory {
    /// The persisted name; categories are listed in the order of their names.
    pub open spec fn name(self) -> Seq<char> {
        match self {
            TaskCategory::EngineSystem => "ENGINE_SYSTEM"@,
            TaskCategory::FinanceDataSync => "FINANCE_DATA_SYNC"@,
            TaskCategory::Other => "OTHER"@,
        }
    }

    /// The place of the category in a listing.
    pub open spec fn rank(self) -> int {
        match self {
            TaskCategory::EngineSystem => 0,
            TaskCategory::FinanceDataSync => 1,
            TaskCategory::Other => 2,
        }
    }

    pub fn as_str(self) -> (name: &'static str)
        ensures
            name@ == self.name(),
    {
        match self {
            TaskCategory::EngineSystem => "ENGINE_SYSTEM",
            TaskCategory::FinanceDataSync => "FINANCE_DATA_SYNC",
            TaskCategory::Other => "OTHER",
        }
    }

    /// The value that a persisted name spells.
    pub open spec fn named(raw: Seq<char>) -> Option<TaskCategory> {
        if raw == "ENGINE_SYSTEM"@ {
            Some(TaskCategory::EngineSystem)
        } else if raw == "FINANCE_DATA_SYNC"@ {
            Some(TaskCategory::FinanceDataSync)
        } else if raw == "OTHER"@ {
            Some(TaskCategory::Other)
        } else {
            None
        }
    }

    /// Reads a persisted name.
    pub fn from_text(raw: &str) -> (category: Option<TaskCategory>)
        ensures
            category == TaskCategory::named(raw@),
    {
        if text::same_text(raw, "ENGINE_SYSTEM") {
            Some(TaskCategory::EngineSystem)
        } else if text::same_text(raw, "FINANCE_DATA_SYNC") {
            Some(TaskCategory::FinanceDataSync)
        } else if text::same_text(raw, "OTHER") {
            Some(TaskCategory::Other)
        } else {
            None
        }
    }
}

/// Which runs of a task are logged.
#[derive(Clone, Copy, Debug, PartialEq, Eq, Structural)]
pub enum LogPolicy {
    All,
    FailuresOnly,
}

impl LogPolicy {
    /// The persisted name.
    pub open spec fn name(self) -> Seq<char> {
        match self {
            LogPolicy::All => "ALL"@,
            LogPolicy::FailuresOnly => "FAILURES_ONLY"@,
        }
    }

    pub fn as_str(self) -> (name: &'static str)
        ensures
            name@ == self.name(),
    {
        match self {
            LogPolicy::All => "ALL",
            LogPolicy::FailuresOnly => "FAILURES_ONLY",
        }
    }

    /// The value that a persisted name spells.
    pub open spec fn named(raw: Seq<char>) -> Option<LogPolicy> {
        if raw == "ALL"@ {
            Some(LogPolicy::All)
        } else if raw == "FAILURES_ONLY"@ {
            Some(LogPolicy::FailuresOnly)
        } else {
            None
        }
    }

    /// Reads a persisted name.
    pub fn from_text(raw: &str) -> (policy: Option<LogPolicy>)
        ensures
            policy == LogPolicy::named(raw@),
    {
        if text::same_text(raw, "ALL") {
            Some(LogPolicy::All)
        } else if text::same_text(raw, "FAILURES_ONLY") {
            Some(LogPolicy::FailuresOnly)
        } else {
            None
        }
    }

    /// Whether a run with this result is logged.
    pub fn logs(self, failed: bool) -> (yes: bool)
        ensures
            yes == (failed || self == LogPolicy::All),
    {
        match self {
            LogPolicy::All => true,
            LogPolicy::FailuresOnly => failed,
        }
    }
}

/// Settings an operator may tune; `None` means the code decides.
#[derive(Clone, Copy, Debug, PartialEq, Eq, Structural)]
pub struct TaskSettings {
    pub period_secs: Option<u32>,
    pub at_local: Option<ClockTime>,
    pub recurrence: Option<Recurrence>,
    pub cooldown_secs: Option<u32>,
    pub max_backfill_days: Option<u32>,
}

impl TaskSettings {
    /// Everything decided by the code.
    pub open spec fn unset() -> TaskSettings {
        TaskSettings {
            period_secs: None,
            at_local: None,
            recurrence: None,
            cooldown_secs: None,
            max_backfill_days: None,
        }
    }

    /// Whether the time of day, where there is one, is within a day.
    pub open spec fn wf(self) -> bool {
        self.at_local matches Some(at) ==> at.wf()
    }
}

impl Default for TaskSettings {
    fn default() -> (settings: TaskSettings)
        ensures
            settings == TaskSettings::unset(),
    {
        TaskSettings {
            period_secs: None,
            at_local: None,
            recurrence: None,
            cooldown_secs: None,
            max_backfill_days: None,
        }
    }
}

// ---------------------------------------------------------------- declaration
/// What the catalog is told of a task.
#[verifier::ext_equal]
pub struct DeclarationState {
    pub kind: Seq<char>,
    pub category: TaskCategory,
    pub tier: TaskTier,
    pub tracking: Tracking,
    pub schedule: Seq<char>,
    pub source: Option<Seq<char>>,
    pub log_policy: LogPolicy,
    pub config_enabled: bool,
    pub settings: TaskSettings,
}

/// What the catalog is told of a task at boot.
#[derive(Clone, Debug)]
pub struct TaskDeclaration {
    pub kind: TaskKind,
    pub category: TaskCategory,
    pub tier: TaskTier,
    pub tracking: Tracking,
    pub schedule: String,
    pub source: Option<SyncSource>,
    pub log_policy: LogPolicy,
    pub config_enabled: bool,
    pub settings: TaskSettings,
}

/// The name behind an optional source.
pub open spec fn opt_source(source: Option<SyncSource>) -> Option<Seq<char>> {
    match source {
        Some(s) => Some(s@),
        None => None,
    }
}

impl View for TaskDeclaration {
    type V = DeclarationState;

    open spec fn view(&self) -> DeclarationState {
        DeclarationState {
            kind: self.kind@,
            category: self.category,
            tier: self.tier,
            tracking: self.tracking,
            schedule: self.schedule@,
            source: opt_source(self.source),
            log_policy: self.log_policy,
            config_enabled: self.config_enabled,
            settings: self.settings,
        }
    }
}

/// The declaration that a task's parts amount to.
pub open spec fn declared(
    kind: Seq<char>,
    category: TaskCategory,
    log_policy: LogPolicy,
    config: PlaneConfig,
    settings: TaskSettings,
    enabled: bool,
) -> DeclarationState {
    DeclarationState {
        kind,
        category,
        tier: config.spec_tier(),
        tracking: config.spec_tracking(),
        schedule: config.text(),
        source: config.source_name(),
        log_policy,
        config_enabled: enabled,
        settings,
    }
}

fn declare_parts(
    kind: &str,
    category: TaskCategory,
    log_policy: LogPolicy,
    config: &PlaneConfig,
    settings: TaskSettings,
    enabled: bool,
) -> (declaration: Option<TaskDeclaration>)
    requires
        config.wf(),
    ensures
        declaration is Some <==> kind@.len() > 0,
        declaration matches Some(d) ==> d@ == declared(
            kind@,
            category,
            log_policy,
            *config,
            settings,
            enabled,
        ),
{
    match TaskKind::new(kind) {
        Ok(kind) => Some(
            TaskDeclaration {
                kind,
                category,
                tier: config.tier(),
                tracking: config.tracking(),
                schedule: config.descriptor(),
                source: config.source(),
                log_policy,
                config_enabled: enabled,
                settings,
            },
        ),
        Err(_) => None,
    }
}

// ---------------------------------------------------------------- definition
/// One fully specified task.
#[derive(Clone, Debug)]
pub struct TaskDefinition {
    pub kind: String,
    pub category: TaskCategory,
    pub trigger: PlaneConfig,
    pub log_policy: LogPolicy,
    /// Defaults that the registry is seeded with; `None` stays with the code.
    pub settings: TaskSettings,
}

/// The runtime form of a definition.
#[derive(Clone, Debug)]
pub struct Registration {
    pub kind: TaskKind,
    pub category: TaskCategory,
    pub log_policy: LogPolicy,
    pub config: PlaneConfig,
    /// The registry's enabled flag, as of the last time it was read.
    pub enabled: bool,
}

impl TaskDefinition {
    /// Whether the task's period or schedule is well formed.
    pub open spec fn wf(&self) -> bool {
        self.trigger.wf()
    }

    /// Ticks since boot: durable, with jitter, every run logged.
    pub fn interval(kind: &str, period: Span) -> (builder: IntervalTaskBuilder)
        ensures
            builder.kind@ == kind@,
            builder.category == TaskCategory::Other,
            builder.period == period,
            builder.jitter,
            builder.tracking == Tracking::Durable,
            builder.log_policy is None,
            !builder.pinned,
    {
        IntervalTaskBuilder {
            kind: kind.to_owned(),
            category: TaskCategory::Other,
            period,
            jitter: true,
            tracking: Tracking::Durable,
            log_policy: None,
            pinned: false,
        }
    }

    /// Business-day occurrences: one attempt each, every run logged.
    pub fn recurring(kind: &str, schedule: Schedule) -> (builder: RecurringTaskBuilder)
        ensures
            builder.kind@ == kind@,
            builder.category == TaskCategory::Other,
            builder.schedule == schedule,
            builder.retry == (RetryPolicy { max_attempts: 1, retry_delay_secs: 0 }),
            builder.log_policy == LogPolicy::All,
    {
        RecurringTaskBuilder {
            kind: kind.to_owned(),
            category: TaskCategory::Other,
            schedule,
            retry: RetryPolicy::none(),
            log_policy: LogPolicy::All,
        }
    }

    /// Data ingestion that follows a cursor, with the sync defaults.
    pub fn sync(kind: &str, source: &SyncSource, schedule: Schedule) -> (builder: SyncTaskBuilder)
        ensures
            builder.kind@ == kind@,
            builder.category == TaskCategory::FinanceDataSync,
            builder.source@ == source@,
            builder.schedule == schedule,
            builder.retry.max_attempts == DEFAULT_SYNC_ATTEMPTS,
            builder.retry.retry_delay_secs == DEFAULT_SYNC_RETRY_DELAY_SECS,
            builder.cooldown_secs == DEFAULT_SYNC_COOLDOWN_SECS,
            builder.max_backfill_days == DEFAULT_SYNC_MAX_BACKFILL_DAYS,
            builder.log_policy == LogPolicy::All,
    {
        SyncTaskBuilder {
            kind: kind.to_owned(),
            category: TaskCategory::FinanceDataSync,
            source: source.copied(),
            schedule,
            retry: RetryPolicy {
                max_attempts: DEFAULT_SYNC_ATTEMPTS,
                retry_delay_secs: DEFAULT_SYNC_RETRY_DELAY_SECS,
            },
            cooldown_secs: DEFAULT_SYNC_COOLDOWN_SECS,
            max_backfill_days: DEFAULT_SYNC_MAX_BACKFILL_DAYS,
            log_policy: LogPolicy::All,
        }
    }

    /// The declaration and the registration of a task; `None` when its kind
    /// is not a valid name.
    pub fn into_parts(self) -> (parts: Option<(TaskDeclaration, Registration)>)
        requires
            self.wf(),
        ensures
            parts is Some <==> self.kind@.len() > 0,
            parts matches Some(p) ==> {
                &&& p.0@ == declared(
                    self.kind@,
                    self.category,
                    self.log_policy,
                    self.trigger,
                    self.settings,
                    true,
                )
                &&& p.1.kind@ == self.kind@
                &&& p.1.category == self.category
                &&& p.1.log_policy == self.log_policy
                &&& p.1.config == self.trigger
                &&& p.1.enabled
            },
    {
        let declaration = declare_parts(
            self.kind.as_str(),
            self.category,
            self.log_policy,
            &self.trigger,
            self.settings,
            true,
        );
        match declaration {
            Some(declaration) => {
                let registration = Registration {
                    kind: declaration.kind.copied(),
                    category: self.category,
                    log_policy: self.log_policy,
                    config: self.trigger,
                    enabled: true,
                };
                Some((declaration, registration))
            },
            None => None,
        }
    }

    /// The task on its way through the boot reconcile; `None` when its kind
    /// is not a valid name.
    pub fn validate(self) -> (pending: Option<PendingTask>)
        ensures
            pending is Some <==> self.kind@.len() > 0,
            pending matches Some(p) ==> {
                &&& p.kind@ == self.kind@
                &&& p.category == self.category
                &&& p.log_policy == self.log_policy
                &&& p.defaults == self.settings
                &&& p.config == self.trigger
                &&& p.enabled
            },
    {
        match TaskKind::new(self.kind.as_str()) {
            Ok(kind) => Some(
                PendingTask {
                    kind,
                    category: self.category,
                    log_policy: self.log_policy,
                    defaults: self.settings,
                    config: self.trigger,
                    enabled: true,
                },
            ),
            Err(_) => None,
        }
    }
}

/// A validated definition on its way through the boot reconcile.
#[derive(Clone, Debug)]
pub struct PendingTask {
    pub kind: TaskKind,
    pub category: TaskCategory,
    pub log_policy: LogPolicy,
    /// Code defaults, the payload of the declaration.
    pub defaults: TaskSettings,
    /// Code values until the stored settings are merged in.
    pub config: PlaneConfig,
    /// The row's enabled flag; true until the reconcile reads otherwise.
    pub enabled: bool,
}

// ---------------------------------------------------------------- interval
/// Builds an interval task.
#[derive(Clone, Debug)]
pub struct IntervalTaskBuilder {
    pub kind: String,
    pub category: TaskCategory,
    pub period: Span,
    pub jitter: bool,
    pub tracking: Tracking,
    /// Resolved at the end unless set.
    pub log_policy: Option<LogPolicy>,
    /// Whether the period stays with the code.
    pub pinned: bool,
}

impl IntervalTaskBuilder {
    /// The log policy in effect: durable work logs every run, ephemeral work
    /// only failures, unless one was set.
    pub open spec fn resolved(&self) -> LogPolicy {
        match self.log_policy {
            Some(policy) => policy,
            None => match self.tracking {
                Tracking::Durable => LogPolicy::All,
                Tracking::Ephemeral => LogPolicy::FailuresOnly,
            },
        }
    }

    pub open spec fn built_config(&self) -> PlaneConfig {
        PlaneConfig::Interval {
            period: self.period,
            jitter: self.jitter,
            tracking: self.tracking,
        }
    }

    /// The period as a setting: unless pinned, when it is a positive number
    /// of whole seconds that a setting can hold.
    pub open spec fn built_settings(&self) -> TaskSettings {
        TaskSettings {
            period_secs: if !self.pinned && 0 < self.period.secs <= u32::MAX {
                Some(self.period.secs as u32)
            } else {
                None
            },
            ..TaskSettings::unset()
        }
    }

    pub fn category(self, category: TaskCategory) -> (builder: IntervalTaskBuilder)
        ensures
            builder == (IntervalTaskBuilder { category, ..self }),
    {
        IntervalTaskBuilder { category, ..self }
    }

    /// Runs inline without rows: precise cadence, quiet log.
    pub fn ephemeral(self) -> (builder: IntervalTaskBuilder)
        ensures
            builder == (IntervalTaskBuilder {
                tracking: Tracking::Ephemeral,
                jitter: false,
                ..self
            }),
    {
        IntervalTaskBuilder { tracking: Tracking::Ephemeral, jitter: false, ..self }
    }

    /// Keeps the period with the code.
    pub fn pinned(self) -> (builder: IntervalTaskBuilder)
        ensures
            builder == (IntervalTaskBuilder { pinned: true, ..self }),
    {
        IntervalTaskBuilder { pinned: true, ..self }
    }

    pub fn no_jitter(self) -> (builder: IntervalTaskBuilder)
        ensures
            builder == (IntervalTaskBuilder { jitter: false, ..self }),
    {
        IntervalTaskBuilder { jitter: false, ..self }
    }

    pub fn log_all(self) -> (builder: IntervalTaskBuilder)
        ensures
            builder == (IntervalTaskBuilder { log_policy: Some(LogPolicy::All), ..self }),
    {
        IntervalTaskBuilder { log_policy: Some(LogPolicy::All), ..self }
    }

    pub fn log_failures_only(self) -> (builder: IntervalTaskBuilder)
        ensures
            builder == (IntervalTaskBuilder { log_policy: Some(LogPolicy::FailuresOnly), ..self }),
    {
        IntervalTaskBuilder { log_policy: Some(LogPolicy::FailuresOnly), ..self }
    }

    fn resolved_log_policy(&self) -> (policy: LogPolicy)
        ensures
            policy == self.resolved(),
    {
        match self.log_policy {
            Some(policy) => policy,
            None => match self.tracking {
                Tracking::Durable => LogPolicy::All,
                Tracking::Ephemeral => LogPolicy::FailuresOnly,
            },
        }
    }

    fn config(&self) -> (config: PlaneConfig)
        ensures
            config == self.built_config(),
    {
        PlaneConfig::Interval {
            period: self.period,
            jitter: self.jitter,
            tracking: self.tracking,
        }
    }

    fn settings(&self) -> (settings: TaskSettings)
        ensures
            settings == self.built_settings(),
    {
        let secs: u64 = self.period.as_secs();
        let period_secs: Option<u32> = if !self.pinned && 0 < secs && secs <= u32::MAX as u64 {
            Some(secs as u32)
        } else {
            None
        };
        TaskSettings {
            period_secs,
            at_local: None,
            recurrence: None,
            cooldown_secs: None,
            max_backfill_days: None,
        }
    }

    /// The definition.
    pub fn run(self) -> (definition: TaskDefinition)
        ensures
            definition.kind@ == self.kind@,
            definition.category == self.category,
            definition.log_policy == self.resolved(),
            definition.settings == self.built_settings(),
            definition.trigger == self.built_config(),
    {
        TaskDefinition {
            category: self.category,
            log_policy: self.resolved_log_policy(),
            settings: self.settings(),
            trigger: self.config(),
            kind: self.kind,
        }
    }

    /// The declaration of the task configured off.
    pub fn disabled(self) -> (declaration: Option<TaskDeclaration>)
        requires
            self.period.wf(),
        ensures
            declaration is Some <==> self.kind@.len() > 0,
            declaration matches Some(d) ==> d@ == declared(
                self.kind@,
                self.category,
                self.resolved(),
                self.built_config(),
                self.built_settings(),
                false,
            ),
    {
        let config = self.config();
        declare_parts(
            self.kind.as_str(),
            self.category,
            self.resolved_log_policy(),
            &config,
            self.settings(),
            false,
        )
    }
}

// ---------------------------------------------------------------- recurring
/// Builds a recurring task.
#[derive(Clone, Debug)]
pub struct RecurringTaskBuilder {
    pub kind: String,
    pub category: TaskCategory,
    pub schedule: Schedule,
    pub retry: RetryPolicy,
    pub log_policy: LogPolicy,
}

impl RecurringTaskBuilder {
    pub open spec fn built_config(&self) -> PlaneConfig {
        PlaneConfig::Recurring { schedule: self.schedule, retry: self.retry }
    }

    pub open spec fn built_settings(&self) -> TaskSettings {
        TaskSettings {
            at_local: Some(self.schedule.at),
            recurrence: Some(self.schedule.recurrence),
            ..TaskSettings::unset()
        }
    }

    pub fn category(self, category: TaskCategory) -> (builder: RecurringTaskBuilder)
        ensures
            builder == (RecurringTaskBuilder { category, ..self }),
    {
        RecurringTaskBuilder { category, ..self }
    }

    pub fn retry(self, retry: RetryPolicy) -> (builder: RecurringTaskBuilder)
        ensures
            builder == (RecurringTaskBuilder { retry, ..self }),
    {
        RecurringTaskBuilder { retry, ..self }
    }

    pub fn log_failures_only(self) -> (builder: RecurringTaskBuilder)
        ensures
            builder == (RecurringTaskBuilder { log_policy: LogPolicy::FailuresOnly, ..self }),
    {
        RecurringTaskBuilder { log_policy: LogPolicy::FailuresOnly, ..self }
    }

    fn config(&self) -> (config: PlaneConfig)
        ensures
            config == self.built_config(),
    {
        PlaneConfig::Recurring { schedule: self.schedule, retry: self.retry }
    }

    fn settings(&self) -> (settings: TaskSettings)
        ensures
            settings == self.built_settings(),
    {
        TaskSettings {
            period_secs: None,
            at_local: Some(self.schedule.at),
            recurrence: Some(self.schedule.recurrence),
            cooldown_secs: None,
            max_backfill_days: None,
        }
    }

    /// The definition.
    pub fn run(self) -> (definition: TaskDefinition)
        ensures
            definition.kind@ == self.kind@,
            definition.category == self.category,
            definition.log_policy == self.log_policy,
            definition.settings == self.built_settings(),
            definition.trigger == self.built_config(),
    {
        TaskDefinition {
            category: self.category,
            log_policy: self.log_policy,
            settings: self.settings(),
            trigger: self.config(),
            kind: self.kind,
        }
    }

    /// The declaration of the task configured off.
    pub fn disabled(self) -> (declaration: Option<TaskDeclaration>)
        requires
            self.schedule.wf(),
        ensures
            declaration is Some <==> self.kind@.len() > 0,
            declaration matches Some(d) ==> d@ == declared(
                self.kind@,
                self.category,
                self.log_policy,
                self.built_config(),
                self.built_settings(),
                false,
            ),
    {
        let config = self.config();
        declare_parts(
            self.kind.as_str(),
            self.category,
            self.log_policy,
            &config,
            self.settings(),
            false,
        )
    }
}

// ---------------------------------------------------------------- sync
/// Builds a sync task.
#[derive(Clone, Debug)]
pub struct SyncTaskBuilder {
    pub kind: String,
    pub category: TaskCategory,
    pub source: SyncSource,
    pub schedule: Schedule,
    pub retry: RetryPolicy,
    pub cooldown_secs: u32,
    pub max_backfill_days: u32,
    pub log_policy: LogPolicy,
}

impl SyncTaskBuilder {
    pub open spec fn built_config(&self) -> PlaneConfig {
        PlaneConfig::Sync {
            source: self.source,
            schedule: self.schedule,
            retry: self.retry,
            cooldown: CooldownPolicy { base_secs: self.cooldown_secs },
            max_backfill_days: self.max_backfill_days,
        }
    }

    pub open spec fn built_settings(&self) -> TaskSettings {
        TaskSettings {
            period_secs: None,
            at_local: Some(self.schedule.at),
            recurrence: Some(self.schedule.recurrence),
            cooldown_secs: Some(self.cooldown_secs),
            max_backfill_days: Some(self.max_backfill_days),
        }
    }

    pub fn category(self, category: TaskCategory) -> (builder: SyncTaskBuilder)
        ensures
            builder == (SyncTaskBuilder { category, ..self }),
    {
        SyncTaskBuilder { category, ..self }
    }

    pub fn retry(self, retry: RetryPolicy) -> (builder: SyncTaskBuilder)
        ensures
            builder == (SyncTaskBuilder { retry, ..self }),
    {
        SyncTaskBuilder { retry, ..self }
    }

    pub fn cooldown_secs(self, base_secs: u32) -> (builder: SyncTaskBuilder)
        ensures
            builder == (SyncTaskBuilder { cooldown_secs: base_secs, ..self }),
    {
        SyncTaskBuilder { cooldown_secs: base_secs, ..self }
    }

    pub fn max_backfill_days(self, days: u32) -> (builder: SyncTaskBuilder)
        ensures
            builder == (SyncTaskBuilder { max_backfill_days: days, ..self }),
    {
        SyncTaskBuilder { max_backfill_days: days, ..self }
    }

    fn settings(&self) -> (settings: TaskSettings)
        ensures
            settings == self.built_settings(),
    {
        TaskSettings {
            period_secs: None,
            at_local: Some(self.schedule.at),
            recurrence: Some(self.schedule.recurrence),
            cooldown_secs: Some(self.cooldown_secs),
            max_backfill_days: Some(self.max_backfill_days),
        }
    }

    /// The definition.
    pub fn run(self) -> (definition: TaskDefinition)
        ensures
            definition.kind@ == self.kind@,
            definition.category == self.category,
            definition.log_policy == self.log_policy,
            definition.settings == self.built_settings(),
            definition.trigger == self.built_config(),
    {
        let settings = self.settings();
        TaskDefinition {
            category: self.category,
            log_policy: self.log_policy,
            settings,
            trigger: PlaneConfig::Sync {
                source: self.source,
                schedule: self.schedule,
                retry: self.retry,
                cooldown: CooldownPolicy::new(self.cooldown_secs),
                max_backfill_days: self.max_backfill_days,
            },
            kind: self.kind,
        }
    }

    /// The declaration of the task configured off.
    pub fn disabled(self) -> (declaration: Option<TaskDeclaration>)
        requires
            self.schedule.wf(),
        ensures
            declaration is Some <==> self.kind@.len() > 0,
            declaration matches Some(d) ==> d@ == declared(
                self.kind@,
                self.category,
                self.log_policy,
                self.built_config(),
                self.built_settings(),
                false,
            ),
    {
        let definition = self.run();
        declare_parts(
            definition.kind.as_str(),
            definition.category,
            definition.log_policy,
            &definition.trigger,
            definition.settings,
            false,
        )
    }
}

/// A task that is configured off is declared exactly as it would be when
/// on, but for the flag.
pub proof fn law_disabled_and_enabled_declarations_agree(
    kind: Seq<char>,
    category: TaskCategory,
    log_policy: LogPolicy,
    config: PlaneConfig,
    settings: TaskSettings,
)
    ensures
        declared(kind, category, log_policy, config, settings, false) == (DeclarationState {
            config_enabled: false,
            ..declared(kind, category, log_policy, config, settings, true)
        }),
{
}

} // verus!
