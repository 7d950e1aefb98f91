//! The task registry: what the catalog knows of every kind, and what
//! operators decided about it.
use crate::catalog::{
    declared, opt_source, DeclarationState, IntervalTaskBuilder, LogPolicy, TaskCategory,
    TaskDeclaration, TaskSettings,
};
use crate::cursor::SyncSource;
use crate::moment;
use crate::moment::stored_instant;
use crate::plane::{TaskTier, Tracking};
use crate::queue::{kind_names, names_kind, TaskKind};
use crate::seqs::{lemma_filter_from, lemma_filter_none, lemma_filter_step};
use crate::settings::{BrokenSettings, BrokenState};
use crate::table::{text_before, Table};
use vstd::prelude::*;

verus! {

/// What the registry records of a kind.
#[verifier::ext_equal]
pub struct RegistrationState {
    pub kind: Seq<char>,
    pub category: TaskCategory,
    pub tier: TaskTier,
    pub tracking: Tracking,
    pub schedule: Seq<char>,
    pub source: Option<Seq<char>>,
    pub log_policy: LogPolicy,
    pub config_enabled: bool,
    pub paused: bool,
    pub enabled: bool,
    pub settings: TaskSettings,
    pub broken: BrokenState,
    pub registered: bool,
    pub first_registered_at: int,
    pub updated_at: int,
}

/// The stored value, or the declared one where nothing is stored. A column
/// that holds something unreadable is not empty.
pub open spec fn coalesce<T>(stored: Option<T>, broken: bool, declared: Option<T>) -> Option<T> {
    if stored is Some || broken {
        stored
    } else {
        declared
    }
}

/// Settings where every stored column wins over the declared one.
pub open spec fn merged(
    stored: TaskSettings,
    broken: BrokenState,
    declared: TaskSettings,
) -> TaskSettings {
    TaskSettings {
        period_secs: coalesce(
            stored.period_secs,
            broken.period_secs is Some,
            declared.period_secs,
        ),
        at_local: coalesce(stored.at_local, broken.at_local is Some, declared.at_local),
        recurrence: coalesce(stored.recurrence, broken.recurrence is Some, declared.recurrence),
        cooldown_secs: coalesce(
            stored.cooldown_secs,
            broken.cooldown_secs is Some,
            declared.cooldown_secs,
        ),
        max_backfill_days: coalesce(
            stored.max_backfill_days,
            broken.max_backfill_days is Some,
            declared.max_backfill_days,
        ),
    }
}

fn first_of<T: Copy>(stored: Option<T>, broken: bool, declared: Option<T>) -> (value: Option<T>)
    ensures
        value == coalesce(stored, broken, declared),
{
    if stored.is_some() || broken {
        stored
    } else {
        declared
    }
}

fn merge(stored: TaskSettings, broken: &BrokenSettings, declared: TaskSettings) -> (settings:
    TaskSettings)
    ensures
        settings == merged(stored, broken@, declared),
{
    TaskSettings {
        period_secs: first_of(
            stored.period_secs,
            broken.period_secs.is_some(),
            declared.period_secs,
        ),
        at_local: first_of(stored.at_local, broken.at_local.is_some(), declared.at_local),
        recurrence: first_of(stored.recurrence, broken.recurrence.is_some(), declared.recurrence),
        cooldown_secs: first_of(
            stored.cooldown_secs,
            broken.cooldown_secs.is_some(),
            declared.cooldown_secs,
        ),
        max_backfill_days: first_of(
            stored.max_backfill_days,
            broken.max_backfill_days.is_some(),
            declared.max_backfill_days,
        ),
    }
}

/// The record after a declaration. What identifies the task is rewritten;
/// what an operator decided (paused, enabled, stored settings) and the first
/// registration survive. Instants are kept to the millisecond.
pub open spec fn after_declaration(
    stored: Option<RegistrationState>,
    declaration: DeclarationState,
    now: int,
) -> RegistrationState {
    RegistrationState {
        kind: declaration.kind,
        category: declaration.category,
        tier: declaration.tier,
        tracking: declaration.tracking,
        schedule: declaration.schedule,
        source: declaration.source,
        log_policy: declaration.log_policy,
        config_enabled: declaration.config_enabled,
        paused: stored is Some && stored->0.paused,
        enabled: stored is None || stored->0.enabled,
        settings: match stored {
            Some(s) => merged(s.settings, s.broken, declaration.settings),
            None => declaration.settings,
        },
        broken: match stored {
            Some(s) => s.broken,
            None => BrokenState::none(),
        },
        registered: true,
        first_registered_at: match stored {
            Some(s) => s.first_registered_at,
            None => stored_instant(now),
        },
        updated_at: stored_instant(now),
    }
}

/// The registry's record of one kind.
#[derive(Clone, Debug)]
pub struct TaskRegistration {
    pub kind: TaskKind,
    pub category: TaskCategory,
    pub tier: TaskTier,
    pub tracking: Tracking,
    pub schedule: String,
    pub source: Option<SyncSource>,
    pub log_policy: LogPolicy,
    pub config_enabled: bool,
    pub paused: bool,
    pub enabled: bool,
    pub settings: TaskSettings,
    /// What the settings columns hold that does not read.
    pub broken: BrokenSettings,
    pub registered: bool,
    pub first_registered_at: i128,
    pub updated_at: i128,
}

impl View for TaskRegistration {
    type V = RegistrationState;

    open spec fn view(&self) -> RegistrationState {
        RegistrationState {
            kind: self.kind@,
            category: self.category,
            tier: self.tier,
            tracking: self.tracking,
            schedule: self.schedule@,
            source: opt_source(self.source),
            log_policy: self.log_policy,
            config_enabled: self.config_enabled,
            paused: self.paused,
            enabled: self.enabled,
            settings: self.settings,
            broken: self.broken@,
            registered: self.registered,
            first_registered_at: self.first_registered_at as int,
            updated_at: self.updated_at as int,
        }
    }
}

fn copy_source(source: &Option<SyncSource>) -> (same: Option<SyncSource>)
    ensures
        opt_source(same) == opt_source(*source),
{
    match source {
        Some(s) => Some(s.copied()),
        None => None,
    }
}

impl TaskRegistration {
    /// The same record again.
    pub fn copied(&self) -> (same: TaskRegistration)
        ensures
            same@ == self@,
    {
        TaskRegistration {
            kind: self.kind.copied(),
            category: self.category,
            tier: self.tier,
            tracking: self.tracking,
            schedule: self.schedule.clone(),
            source: copy_source(&self.source),
            log_policy: self.log_policy,
            config_enabled: self.config_enabled,
            paused: self.paused,
            enabled: self.enabled,
            settings: self.settings,
            broken: self.broken.copied(),
            registered: self.registered,
            first_registered_at: self.first_registered_at,
            updated_at: self.updated_at,
        }
    }
}

// ---------------------------------------------------------------- the store
/// One record per kind.
pub struct TaskRegistry {
    table: Table<TaskRegistration>,
}

impl View for TaskRegistry {
    type V = Map<Seq<char>, RegistrationState>;

    closed spec fn view(&self) -> Map<Seq<char>, RegistrationState> {
        self.table@.map_values(|r: TaskRegistration| r@)
    }
}

/// The record of a kind, if there is one.
pub open spec fn record_of(records: Map<Seq<char>, RegistrationState>, kind: Seq<char>) -> Option<
    RegistrationState,
> {
    if records.dom().contains(kind) {
        Some(records[kind])
    } else {
        None
    }
}

/// Whether a record is still registered and its kind is not among `kept`.
pub open spec fn is_missing(record: RegistrationState, kept: Seq<Seq<char>>) -> bool {
    record.registered && !kept.contains(record.kind)
}

/// The registry after the kinds that the code no longer has were retired.
pub open spec fn retired(
    records: Map<Seq<char>, RegistrationState>,
    kept: Seq<Seq<char>>,
    now: int,
) -> Map<Seq<char>, RegistrationState> {
    records.map_values(
        |r: RegistrationState|
            if is_missing(r, kept) {
                RegistrationState { registered: false, updated_at: stored_instant(now), ..r }
            } else {
                r
            },
    )
}

impl TaskRegistry {
    /// Every record is kept under its own kind, which is a valid name.
    pub closed spec fn wf(&self) -> bool {
        &&& self.table.wf()
        &&& forall|i: int|
            0 <= i < self.table.key_seq().len() ==> (#[trigger] self.table.row_seq()[i])@.kind
                == self.table.key_seq()[i]
    }

    /// The kinds, in the order of their names.
    pub closed spec fn kinds(&self) -> Seq<Seq<char>> {
        self.table.key_seq()
    }

    /// The records, in the order of their kinds.
    pub closed spec fn records(&self) -> Seq<RegistrationState> {
        self.table.row_seq().map_values(|r: TaskRegistration| r@)
    }

    proof fn lemma_key_kind(&self, key: Seq<char>)
        requires
            self.wf(),
            self.table@.dom().contains(key),
        ensures
            self.table@[key]@.kind == key,
    {
        let i = self.table.key_seq().index_of(key);
        assert(0 <= i < self.table.key_seq().len() && self.table.key_seq()[i] == key);
        assert(self.table.row_seq()[i]@.kind == key);
    }

    proof fn lemma_put_wf(&self, before: TaskRegistry, key: Seq<char>, row: TaskRegistration)
        requires
            before.wf(),
            self.table.wf(),
            self.table@ == before.table@.insert(key, row),
            row@.kind == key,
        ensures
            self.wf(),
            self@ == before@.insert(key, row@),
    {
        assert(self@ =~= before@.insert(key, row@));
        assert forall|i: int| 0 <= i < self.table.key_seq().len() implies (
        #[trigger] self.table.row_seq()[i])@.kind == self.table.key_seq()[i] by {
            self.table.lemma_row_at(i);
            let k = self.table.key_seq()[i];
            if k != key {
                before.lemma_key_kind(k);
            }
        }
    }

    pub fn new() -> (registry: TaskRegistry)
        ensures
            registry.wf(),
            registry@ == Map::<Seq<char>, RegistrationState>::empty(),
    {
        let registry = TaskRegistry { table: Table::new() };
        assert(registry@ =~= Map::<Seq<char>, RegistrationState>::empty());
        registry
    }

    /// Puts back a record that was persisted.
    pub fn load(&mut self, record: TaskRegistration)
        requires
            old(self).wf(),
        ensures
            final(self).wf(),
            final(self)@ == old(self)@.insert(record@.kind, record@),
    {
        let ghost before = *self;
        let ghost row = record;
        let kind = record.kind.copied();
        self.table.put(kind.as_str(), record);
        proof {
            self.lemma_put_wf(before, row@.kind, row);
        }
    }

    /// The record of `kind`.
    pub fn get(&self, kind: &TaskKind) -> (record: Option<TaskRegistration>)
        requires
            self.wf(),
        ensures
            record is Some <==> self@.dom().contains(kind@),
            record matches Some(r) ==> r@ == self@[kind@] && r@.kind == kind@,
    {
        match self.table.get(kind.as_str()) {
            Some(record) => {
                proof {
                    self.lemma_key_kind(kind@);
                }
                Some(record.copied())
            },
            None => None,
        }
    }

    /// Records a declaration; operator decisions survive.
    pub fn declare(&mut self, declaration: &TaskDeclaration, now: i128)
        requires
            old(self).wf(),
        ensures
            final(self).wf(),
            final(self)@ == old(self)@.insert(
                declaration@.kind,
                after_declaration(
                    record_of(old(self)@, declaration@.kind),
                    declaration@,
                    now as int,
                ),
            ),
    {
        let stored = self.get(&declaration.kind);
        let (paused, enabled, settings, broken, first) = match &stored {
            Some(s) => (
                s.paused,
                s.enabled,
                merge(s.settings, &s.broken, declaration.settings),
                s.broken.copied(),
                s.first_registered_at,
            ),
            None => (false, true, declaration.settings, BrokenSettings::none(), moment::kept(now)),
        };
        let record = TaskRegistration {
            kind: declaration.kind.copied(),
            category: declaration.category,
            tier: declaration.tier,
            tracking: declaration.tracking,
            schedule: declaration.schedule.clone(),
            source: copy_source(&declaration.source),
            log_policy: declaration.log_policy,
            config_enabled: declaration.config_enabled,
            paused,
            enabled,
            settings,
            broken,
            registered: true,
            first_registered_at: first,
            updated_at: moment::kept(now),
        };
        proof {
            assert(record@ == after_declaration(
                record_of(self@, declaration@.kind),
                declaration@,
                now as int,
            ));
        }
        self.load(record);
    }

    /// Retires the registered kinds that are not among `kept` and names
    /// them, in order.
    pub fn retire_missing(&mut self, kept: &Vec<TaskKind>, now: i128) -> (names: Vec<TaskKind>)
        requires
            old(self).wf(),
        ensures
            final(self).wf(),
            final(self)@ == retired(old(self)@, kind_names(kept@), now as int),
            kind_names(names@) == old(self).kinds().filter(
                |k: Seq<char>| is_missing(old(self)@[k], kind_names(kept@)),
            ),
    {
        let ghost before = *self;
        let ghost list = kind_names(kept@);
        let ghost gone = |k: Seq<char>| is_missing(before@[k], list);
        let ghost keys = self.kinds();
        let mut names: Vec<TaskKind> = Vec::new();
        let mut i: usize = 0;
        proof {
            lemma_filter_none(keys, gone);
        }
        assert(kind_names(names@) =~= Seq::<Seq<char>>::empty());
        let count: usize = self.table.len();
        while i < count
            invariant
                i <= count,
                before.wf(),
                self.wf(),
                list == kind_names(kept@),
                gone == (|k: Seq<char>| is_missing(before@[k], list)),
                keys == before.kinds(),
                self.kinds() == keys,
                count == keys.len(),
                count == self.table.row_seq().len(),
                kind_names(names@) == keys.take(i as int).filter(gone),
                forall|j: int|
                    0 <= j < i ==> (#[trigger] self.table.row_seq()[j])@ == retired_record(
                        before.table.row_seq()[j]@,
                        list,
                        now as int,
                    ),
                forall|j: int|
                    i <= j < count ==> #[trigger] self.table.row_seq()[j]
                        == before.table.row_seq()[j],
            decreases count - i,
        {
            proof {
                before.table.lemma_row_at(i as int);
                lemma_filter_step(keys, i as int, gone);
            }
            let mut record = self.table.row_at(i).copied();
            assert(record@ == before@[keys[i as int]]);
            if record.registered && !names_kind(kept, &record.kind) {
                let ghost held = names@;
                names.push(record.kind.copied());
                assert(kind_names(names@) =~= kind_names(held).push(keys[i as int]));
                record.registered = false;
                record.updated_at = moment::kept(now);
                self.table.set_row(i, record);
            }
            i += 1;
        }
        proof {
            assert(keys.take(count as int) =~= keys);
            let after = retired(before@, list, now as int);
            assert forall|k: Seq<char>| keys.contains(k) implies #[trigger] self@[k] == after[k] by {
                let j = keys.index_of(k);
                assert(keys[j] == k);
                self.table.lemma_row_at(j);
                before.table.lemma_row_at(j);
            }
            assert(self@ =~= after);
        }
        names
    }

    /// All records: by category, then by kind.
    pub fn list(&self) -> (records: Vec<TaskRegistration>)
        requires
            self.wf(),
        ensures
            records@.map_values(|r: TaskRegistration| r@) == of_category(
                self.records(),
                TaskCategory::EngineSystem,
            ) + of_category(self.records(), TaskCategory::FinanceDataSync) + of_category(
                self.records(),
                TaskCategory::Other,
            ),
    {
        let mut records: Vec<TaskRegistration> = Vec::new();
        self.push_category(&mut records, TaskCategory::EngineSystem);
        self.push_category(&mut records, TaskCategory::FinanceDataSync);
        self.push_category(&mut records, TaskCategory::Other);
        assert(records@.map_values(|r: TaskRegistration| r@) =~= of_category(
            self.records(),
            TaskCategory::EngineSystem,
        ) + of_category(self.records(), TaskCategory::FinanceDataSync) + of_category(
            self.records(),
            TaskCategory::Other,
        ));
        records
    }

    fn push_category(&self, records: &mut Vec<TaskRegistration>, category: TaskCategory)
        requires
            self.wf(),
        ensures
            final(records)@.map_values(|r: TaskRegistration| r@) == old(records)@.map_values(
                |r: TaskRegistration| r@,
            ) + of_category(self.records(), category),
    {
        let ghost all = self.records();
        let ghost pick = |r: RegistrationState| r.category == category;
        let ghost start = records@.map_values(|r: TaskRegistration| r@);
        let mut i: usize = 0;
        proof {
            lemma_filter_none(all, pick);
        }
        assert(start + all.take(0).filter(pick) =~= start);
        while i < self.table.len()
            invariant
                self.wf(),
                i <= self.table.row_seq().len(),
                all == self.records(),
                all.len() == self.table.row_seq().len(),
                pick == (|r: RegistrationState| r.category == category),
                records@.map_values(|r: TaskRegistration| r@) == start + all.take(
                    i as int,
                ).filter(pick),
            decreases self.table.row_seq().len() - i,
        {
            proof {
                lemma_filter_step(all, i as int, pick);
            }
            let record = self.table.row_at(i);
            if record.category == category {
                let ghost held = records@;
                let copy = record.copied();
                let ghost state = copy@;
                records.push(copy);
                assert(records@.map_values(|r: TaskRegistration| r@) =~= held.map_values(
                    |r: TaskRegistration| r@,
                ).push(state));
                assert(start + all.take(i as int).filter(pick).push(state) =~= (start + all.take(
                    i as int,
                ).filter(pick)).push(state));
            }
            i += 1;
        }
        assert(all.take(i as int) =~= all);
    }

    /// Whether the kind is paused; unknown kinds are not.
    pub fn is_paused(&self, kind: &TaskKind) -> (paused: bool)
        requires
            self.wf(),
        ensures
            paused == (record_of(self@, kind@) is Some && record_of(self@, kind@)->0.paused),
    {
        match self.table.get(kind.as_str()) {
            Some(record) => record.paused,
            None => false,
        }
    }

    /// Pauses or resumes a kind; says whether it has a record.
    pub fn set_paused(&mut self, kind: &TaskKind, paused: bool, now: i128) -> (found: bool)
        requires
            old(self).wf(),
        ensures
            final(self).wf(),
            found == old(self)@.dom().contains(kind@),
            !found ==> final(self)@ == old(self)@,
            found ==> final(self)@ == old(self)@.insert(
                kind@,
                RegistrationState { paused, updated_at: stored_instant(now as int), ..old(self)@[kind@] },
            ),
    {
        match self.get(kind) {
            Some(mut record) => {
                record.paused = paused;
                record.updated_at = moment::kept(now);
                self.load(record);
                true
            },
            None => false,
        }
    }

    /// Whether the kind is enabled, if it has a record.
    pub fn is_enabled(&self, kind: &TaskKind) -> (enabled: Option<bool>)
        requires
            self.wf(),
        ensures
            enabled is Some <==> self@.dom().contains(kind@),
            enabled matches Some(e) ==> e == self@[kind@].enabled,
    {
        match self.table.get(kind.as_str()) {
            Some(record) => Some(record.enabled),
            None => None,
        }
    }

    /// Enables or disables a kind; says whether it has a record.
    pub fn set_enabled(&mut self, kind: &TaskKind, enabled: bool, now: i128) -> (found: bool)
        requires
            old(self).wf(),
        ensures
            final(self).wf(),
            found == old(self)@.dom().contains(kind@),
            !found ==> final(self)@ == old(self)@,
            found ==> final(self)@ == old(self)@.insert(
                kind@,
                RegistrationState { enabled, updated_at: stored_instant(now as int), ..old(self)@[kind@] },
            ),
    {
        match self.get(kind) {
            Some(mut record) => {
                record.enabled = enabled;
                record.updated_at = moment::kept(now);
                self.load(record);
                true
            },
            None => false,
        }
    }

    /// Replaces a kind's settings, the unreadable ones included; says whether
    /// it has a record.
    pub fn update_settings(&mut self, kind: &TaskKind, settings: TaskSettings, now: i128) -> (found:
        bool)
        requires
            old(self).wf(),
        ensures
            final(self).wf(),
            found == old(self)@.dom().contains(kind@),
            !found ==> final(self)@ == old(self)@,
            found ==> final(self)@ == old(self)@.insert(
                kind@,
                RegistrationState {
                    settings,
                    broken: BrokenState::none(),
                    updated_at: stored_instant(now as int),
                    ..old(self)@[kind@]
                },
            ),
    {
        match self.get(kind) {
            Some(mut record) => {
                record.settings = settings;
                record.broken = BrokenSettings::none();
                record.updated_at = moment::kept(now);
                self.load(record);
                true
            },
            None => false,
        }
    }

    /// The kinds an operator disabled: their queued rows are not claimed.
    pub fn disabled_kinds(&self) -> (kinds: Vec<TaskKind>)
        requires
            self.wf(),
        ensures
            forall|k: Seq<char>|
                #[trigger] kind_names(kinds@).contains(k) <==> self@.dom().contains(k)
                    && !self@[k].enabled,
    {
        let mut kinds: Vec<TaskKind> = Vec::new();
        let ghost keys = self.kinds();
        let mut i: usize = 0;
        while i < self.table.len()
            invariant
                self.wf(),
                keys == self.kinds(),
                i <= keys.len(),
                keys.len() == self.table.row_seq().len(),
                forall|k: Seq<char>| #[trigger]
                    kind_names(kinds@).contains(k) <==> exists|j: int|
                        0 <= j < i && k == #[trigger] keys[j] && !self@[k].enabled,
            decreases keys.len() - i,
        {
            proof {
                self.table.lemma_row_at(i as int);
            }
            let record = self.table.row_at(i);
            let ghost held = kind_names(kinds@);
            let ghost key = keys[i as int];
            assert(record@ == self@[key]);
            if !record.enabled {
                kinds.push(record.kind.copied());
                assert(kind_names(kinds@) =~= held.push(key));
                assert forall|k: Seq<char>|
                    #[trigger] kind_names(kinds@).contains(k) <==> held.contains(k) || k == key by {
                    if held.contains(k) {
                        let m = held.index_of(k);
                        assert(kind_names(kinds@)[m] == k);
                    }
                    if k == key {
                        assert(kind_names(kinds@)[held.len() as int] == k);
                    }
                }
            }
            i += 1;
        }
        proof {
            assert forall|k: Seq<char>|
                #[trigger] kind_names(kinds@).contains(k) <==> self@.dom().contains(k)
                    && !self@[k].enabled by {
                if self@.dom().contains(k) && !self@[k].enabled {
                    let j = keys.index_of(k);
                    assert(keys[j] == k);
                }
            }
        }
        kinds
    }
}

/// A record that lost its code, or the record as it is.
pub open spec fn retired_record(
    record: RegistrationState,
    kept: Seq<Seq<char>>,
    now: int,
) -> RegistrationState {
    if is_missing(record, kept) {
        RegistrationState { registered: false, updated_at: stored_instant(now), ..record }
    } else {
        record
    }
}

/// The records of one category, in order.
pub open spec fn of_category(records: Seq<RegistrationState>, category: TaskCategory) -> Seq<
    RegistrationState,
> {
    records.filter(|r: RegistrationState| r.category == category)
}

// ---------------------------------------------------------------- laws
/// Declaring a kind again, whatever the new declaration says, keeps what an
/// operator decided: pause, enablement and every settings column that is not
/// empty, readable or not.
pub proof fn law_redeclaring_keeps_operator_intent(
    stored: RegistrationState,
    declaration: DeclarationState,
    now: int,
)
    ensures
        after_declaration(Some(stored), declaration, now).paused == stored.paused,
        after_declaration(Some(stored), declaration, now).enabled == stored.enabled,
        after_declaration(Some(stored), declaration, now).first_registered_at
            == stored.first_registered_at,
        ({
            let settings = after_declaration(Some(stored), declaration, now).settings;
            &&& stored.settings.period_secs is Some || stored.broken.period_secs is Some
                ==> settings.period_secs == stored.settings.period_secs
            &&& stored.settings.at_local is Some || stored.broken.at_local is Some
                ==> settings.at_local == stored.settings.at_local
            &&& stored.settings.recurrence is Some || stored.broken.recurrence is Some
                ==> settings.recurrence == stored.settings.recurrence
            &&& stored.settings.cooldown_secs is Some || stored.broken.cooldown_secs is Some
                ==> settings.cooldown_secs == stored.settings.cooldown_secs
            &&& stored.settings.max_backfill_days is Some || stored.broken.max_backfill_days is Some
                ==> settings.max_backfill_days == stored.settings.max_backfill_days
        }),
        after_declaration(Some(stored), declaration, now).broken == stored.broken,
        after_declaration(Some(stored), declaration, now).registered,
{
}

/// The registry's kinds are exactly those that have a record: each once, in
/// ascending order, its record at the same place.
pub proof fn law_kinds_and_records_agree(registry: TaskRegistry)
    requires
        registry.wf(),
    ensures
        registry.records().len() == registry.kinds().len(),
        registry.kinds().no_duplicates(),
        forall|kind: Seq<char>| #[trigger]
            registry.kinds().contains(kind) <==> registry@.dom().contains(kind),
        forall|i: int, j: int|
            0 <= i < j < registry.kinds().len() ==> text_before(
                #[trigger] registry.kinds()[i],
                #[trigger] registry.kinds()[j],
            ),
        forall|i: int|
            #![trigger registry.records()[i]]
            #![trigger registry.kinds()[i]]
            0 <= i < registry.kinds().len() ==> registry.records()[i]
                == registry@[registry.kinds()[i]] && registry.records()[i].kind
                == registry.kinds()[i],
{
    registry.table.lemma_keys();
    assert forall|i: int| 0 <= i < registry.kinds().len() implies registry.records()[i]
        == registry@[registry.kinds()[i]] && registry.records()[i].kind == registry.kinds()[i] by {
        registry.table.lemma_row_at(i);
    }
}

/// Every record is listed under its category, and what is listed there is a
/// record of that category.
pub proof fn law_every_record_is_listed(registry: TaskRegistry, category: TaskCategory)
    requires
        registry.wf(),
    ensures
        forall|kind: Seq<char>|
            registry@.dom().contains(kind) && (#[trigger] registry@[kind]).category == category
                ==> of_category(registry.records(), category).contains(registry@[kind]),
        forall|record: RegistrationState| #[trigger]
            of_category(registry.records(), category).contains(record) ==> record.category
                == category && registry@.dom().contains(record.kind) && registry@[record.kind]
                == record,
{
    law_kinds_and_records_agree(registry);
    let pick = |r: RegistrationState| r.category == category;
    let all = registry.records();
    assert forall|kind: Seq<char>|
        registry@.dom().contains(kind) && (#[trigger] registry@[kind]).category
            == category implies of_category(all, category).contains(registry@[kind]) by {
        assert(registry.kinds().contains(kind));
        let i = registry.kinds().index_of(kind);
        assert(all[i] == registry@[kind]);
        all.lemma_filter_contains(pick, i);
        assert(all.filter(pick).contains(all[i]));
    }
    assert forall|record: RegistrationState| #[trigger]
        of_category(all, category).contains(record) implies record.category == category
        && registry@.dom().contains(record.kind) && registry@[record.kind] == record by {
        let picked = all.filter(pick);
        let i = lemma_filter_from(all, pick, picked.index_of(record));
        assert(registry.kinds()[i] == record.kind);
    }
}

/// A pinned period stays with the code: no declaration of it ever puts a
/// period into the registry.
pub proof fn law_a_pinned_period_stays_with_the_code(
    builder: IntervalTaskBuilder,
    stored: Option<RegistrationState>,
    enabled: bool,
    now: int,
)
    requires
        builder.pinned,
        stored matches Some(s) ==> s.settings.period_secs is None,
    ensures
        after_declaration(
            stored,
            declared(
                builder.kind@,
                builder.category,
                builder.resolved(),
                builder.built_config(),
                builder.built_settings(),
                enabled,
            ),
            now,
        ).settings.period_secs is None,
{
}

/// Retiring twice retires nothing more.
pub proof fn law_retiring_again_changes_nothing(
    records: Map<Seq<char>, RegistrationState>,
    kept: Seq<Seq<char>>,
    now: int,
    later: int,
)
    ensures
        retired(retired(records, kept, now), kept, later) == retired(records, kept, now),
{
    let once = retired(records, kept, now);
    assert(retired(once, kept, later) =~= once);
}

} // verus!
