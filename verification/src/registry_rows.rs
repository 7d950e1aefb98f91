//! Rows of the task registry: how records are written to columns and read
//! back. What identifies a task must be readable; settings that were broken
//! by hand count as unset.
use crate::catalog::{opt_source, LogPolicy, TaskCategory, TaskSettings};
use crate::cursor::{opt_text, SyncSource};
use crate::moment::{instant_read, instant_text, exact_text, valid_instant};
use crate::plane::{TaskTier, Tracking};
use crate::registry::{RegistrationState, TaskRegistration};
use crate::rows::{column_datetime, column_task_kind, fault, instant_column, ColumnFault, ColumnType};
use crate::settings::{
    broken_from_row, broken_of, lenient_clock, lenient_number, lenient_recurring,
    reads_as_settings, settings_from_row, settings_to_row, settings_written, SettingsColumns,
};
use vstd::prelude::*;

verus! {

/// A row of the task registry.
#[derive(Clone, Debug)]
pub struct RegistrationColumns {
    pub kind: String,
    pub category: String,
    pub trigger_kind: String,
    pub tracking: String,
    pub schedule: String,
    pub source: Option<String>,
    pub log_policy: String,
    pub config_enabled: bool,
    pub paused: bool,
    pub enabled: bool,
    pub settings: SettingsColumns,
    pub registered: bool,
    pub first_registered_at: String,
    pub updated_at: String,
}

/// The first column of a registry row that does not hold what it should.
pub open spec fn registration_fault(row: RegistrationColumns) -> Option<Seq<char>> {
    if row.kind@.len() == 0 {
        Some("kind"@)
    } else if TaskCategory::named(row.category@) is None {
        Some("category"@)
    } else if TaskTier::named(row.trigger_kind@) is None {
        Some("trigger_kind"@)
    } else if Tracking::named(row.tracking@) is None {
        Some("tracking"@)
    } else if row.source matches Some(s) && s@.len() == 0 {
        Some("source"@)
    } else if LogPolicy::named(row.log_policy@) is None {
        Some("log_policy"@)
    } else if instant_read(row.first_registered_at@) is None {
        Some("first_registered_at"@)
    } else if instant_read(row.updated_at@) is None {
        Some("updated_at"@)
    } else {
        None
    }
}

/// What the settings columns hold, read leniently.
pub open spec fn settings_read(row: SettingsColumns) -> TaskSettings {
    TaskSettings {
        period_secs: lenient_number(row.period_secs@),
        at_local: lenient_clock(row.at_local@),
        recurrence: lenient_recurring(row.recurrence@),
        cooldown_secs: lenient_number(row.cooldown_secs@),
        max_backfill_days: lenient_number(row.max_backfill_days@),
    }
}

/// What a registry row holds.
pub open spec fn registration_read(row: RegistrationColumns) -> RegistrationState {
    RegistrationState {
        kind: row.kind@,
        category: TaskCategory::named(row.category@)->0,
        tier: TaskTier::named(row.trigger_kind@)->0,
        tracking: Tracking::named(row.tracking@)->0,
        schedule: row.schedule@,
        source: opt_text(row.source),
        log_policy: LogPolicy::named(row.log_policy@)->0,
        config_enabled: row.config_enabled,
        paused: row.paused,
        enabled: row.enabled,
        settings: settings_read(row.settings),
        broken: broken_of(row.settings),
        registered: row.registered,
        first_registered_at: instant_read(row.first_registered_at@)->0,
        updated_at: instant_read(row.updated_at@)->0,
    }
}

/// Reads the source of a column that may be empty.
pub fn column_opt_sync_source(column: &str, raw: &Option<String>) -> (source: Result<
    Option<SyncSource>,
    ColumnFault,
>)
    ensures
        source is Ok <==> !(*raw matches Some(s) && s@.len() == 0),
        source matches Ok(s) ==> opt_source(s) == opt_text(*raw),
        source matches Err(f) ==> crate::rows::blames(f, column@, ColumnType::Text),
{
    match raw {
        None => Ok(None),
        Some(raw) => match SyncSource::new(raw.as_str()) {
            Ok(source) => Ok(Some(source)),
            Err(_) => Err(fault(column, ColumnType::Text)),
        },
    }
}

/// Reads a registry row.
pub fn registration_from_row(row: &RegistrationColumns) -> (record: Result<
    TaskRegistration,
    ColumnFault,
>)
    ensures
        record is Ok <==> registration_fault(*row) is None,
        record matches Ok(r) ==> r@ == registration_read(*row) && reads_as_settings(
            row.settings,
            r@.settings,
        ) && r@.settings.wf(),
        record matches Err(f) ==> Some(f.column@) == registration_fault(*row),
{
    let kind = match column_task_kind("kind", row.kind.as_str()) {
        Ok(kind) => kind,
        Err(f) => {
            return Err(f);
        },
    };
    let category = match TaskCategory::from_text(row.category.as_str()) {
        Some(category) => category,
        None => {
            return Err(fault("category", ColumnType::Text));
        },
    };
    let tier = match TaskTier::from_text(row.trigger_kind.as_str()) {
        Some(tier) => tier,
        None => {
            return Err(fault("trigger_kind", ColumnType::Text));
        },
    };
    let tracking = match Tracking::from_text(row.tracking.as_str()) {
        Some(tracking) => tracking,
        None => {
            return Err(fault("tracking", ColumnType::Text));
        },
    };
    let source = match column_opt_sync_source("source", &row.source) {
        Ok(source) => source,
        Err(f) => {
            return Err(f);
        },
    };
    let log_policy = match LogPolicy::from_text(row.log_policy.as_str()) {
        Some(policy) => policy,
        None => {
            return Err(fault("log_policy", ColumnType::Text));
        },
    };
    let first_registered_at: i128 = match column_datetime(
        "first_registered_at",
        row.first_registered_at.as_str(),
    ) {
        Ok(ticks) => ticks,
        Err(f) => {
            return Err(f);
        },
    };
    let updated_at: i128 = match column_datetime("updated_at", row.updated_at.as_str()) {
        Ok(ticks) => ticks,
        Err(f) => {
            return Err(f);
        },
    };
    let settings = settings_from_row(&row.settings);
    assert(settings == settings_read(row.settings));
    Ok(
        TaskRegistration {
            kind,
            category,
            tier,
            tracking,
            schedule: row.schedule.clone(),
            source,
            log_policy,
            config_enabled: row.config_enabled,
            paused: row.paused,
            enabled: row.enabled,
            settings,
            broken: broken_from_row(&row.settings),
            registered: row.registered,
            first_registered_at,
            updated_at,
        },
    )
}

proof fn lemma_names(category: TaskCategory, tier: TaskTier, tracking: Tracking, policy: LogPolicy)
    ensures
        TaskCategory::named(category.name()) == Some(category),
        TaskTier::named(tier.name()) == Some(tier),
        Tracking::named(tracking.name()) == Some(tracking),
        LogPolicy::named(policy.name()) == Some(policy),
{
    reveal_strlit("ENGINE_SYSTEM");
    reveal_strlit("FINANCE_DATA_SYNC");
    reveal_strlit("OTHER");
    reveal_strlit("INTERVAL");
    reveal_strlit("RECURRING");
    reveal_strlit("SYNC");
    reveal_strlit("DURABLE");
    reveal_strlit("EPHEMERAL");
    reveal_strlit("ALL");
    reveal_strlit("FAILURES_ONLY");
    assert("ENGINE_SYSTEM"@[0] != "FINANCE_DATA_SYNC"@[0]);
    assert("ENGINE_SYSTEM"@[0] != "OTHER"@[0]);
    assert("FINANCE_DATA_SYNC"@[0] != "OTHER"@[0]);
    assert("INTERVAL"@[0] != "RECURRING"@[0]);
    assert("INTERVAL"@[0] != "SYNC"@[0]);
    assert("RECURRING"@[0] != "SYNC"@[0]);
    assert("DURABLE"@[0] != "EPHEMERAL"@[0]);
    assert("ALL"@[0] != "FAILURES_ONLY"@[0]);
}

/// Writes a registry row. Everything but the settings reads back the same,
/// as long as the instants are whole milliseconds of the years 0000 to 9999;
/// so do the settings (see [`crate::settings::law_settings_read_back`]).
/// `None` where an instant lies outside the calendar, or a time of day outside
/// the day.
pub fn registration_to_row(record: &TaskRegistration) -> (columns: Option<RegistrationColumns>)
    ensures
        columns is Some <==> valid_instant(record@.first_registered_at) && valid_instant(
            record@.updated_at,
        ) && record@.settings.wf(),
        columns matches Some(c) ==> {
            &&& c.kind@ == record@.kind
            &&& c.category@ == record@.category.name()
            &&& c.trigger_kind@ == record@.tier.name()
            &&& c.tracking@ == record@.tracking.name()
            &&& c.schedule@ == record@.schedule
            &&& opt_text(c.source) == record@.source
            &&& c.log_policy@ == record@.log_policy.name()
            &&& c.config_enabled == record@.config_enabled
            &&& c.paused == record@.paused
            &&& c.enabled == record@.enabled
            &&& c.registered == record@.registered
            &&& c.first_registered_at@ == instant_text(record@.first_registered_at)
            &&& c.updated_at@ == instant_text(record@.updated_at)
            &&& settings_written(record@.settings, record@.broken, c.settings)
            &&& exact_text(record@.first_registered_at) && exact_text(record@.updated_at)
                && record@.kind.len() > 0 && (record@.source matches Some(s) ==> s.len() > 0)
                ==> registration_fault(c) is None && registration_read(c) == (RegistrationState {
                settings: settings_read(c.settings),
                broken: broken_of(c.settings),
                ..record@
            })
        },
{
    if let Some(at) = record.settings.at_local {
        if at.hour >= 24 || at.minute >= 60 {
            return None;
        }
    }
    let first_registered_at = instant_column(record.first_registered_at);
    let updated_at = instant_column(record.updated_at);
    match (first_registered_at, updated_at) {
        (Some(first_registered_at), Some(updated_at)) => {
            let source = match &record.source {
                Some(source) => Some(source.as_str().to_owned()),
                None => None,
            };
            let columns = RegistrationColumns {
                kind: record.kind.as_str().to_owned(),
                category: record.category.as_str().to_owned(),
                trigger_kind: record.tier.as_str().to_owned(),
                tracking: record.tracking.as_str().to_owned(),
                schedule: record.schedule.clone(),
                source,
                log_policy: record.log_policy.as_str().to_owned(),
                config_enabled: record.config_enabled,
                paused: record.paused,
                enabled: record.enabled,
                settings: settings_to_row(&record.settings, &record.broken),
                registered: record.registered,
                first_registered_at,
                updated_at,
            };
            proof {
                lemma_names(record@.category, record@.tier, record@.tracking, record@.log_policy);
                if exact_text(record@.first_registered_at) && exact_text(record@.updated_at) {
                    assert(registration_read(columns) =~= (RegistrationState {
                        settings: settings_read(columns.settings),
                        broken: broken_of(columns.settings),
                        ..record@
                    }));
                }
            }
            Some(columns)
        },
        _ => None,
    }
}

} // verus!
