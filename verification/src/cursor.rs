//! Sync cursors: how far each data source has been synchronised.
use crate::backoff::{
    backoff_secs, doubled, law_backoff_grows_up_to_the_cap, law_doubling_is_a_capped_power_of_two,
    BACKOFF_CAP_SECS,
};
use crate::moment::{after_secs, kept, secs_after, stored_instant};
use crate::moment;
use crate::table::Table;
use crate::text;
use vstd::arithmetic::power2::pow2;
use vstd::prelude::*;

verus! {

/// Why a name was refused.
#[derive(Clone, Copy, Debug, PartialEq, Eq, Structural)]
pub enum NameError {
    Empty,
}

impl NameError {
    /// The message, for logs and errors.
    pub open spec fn text(self) -> Seq<char> {
        "name must not be empty"@
    }

    pub fn message(&self) -> (out: String)
        ensures
            out@ == self.text(),
    {
        "name must not be empty".to_owned()
    }
}

/// The name of a data source: cursor key and log identity.
#[derive(Clone, Debug)]
pub struct SyncSource {
    name: String,
}

impl View for SyncSource {
    type V = Seq<char>;

    closed spec fn view(&self) -> Seq<char> {
        self.name@
    }
}

impl SyncSource {
    /// Any non-empty name.
    pub fn new(name: &str) -> (source: Result<SyncSource, NameError>)
        ensures
            source is Ok <==> name@.len() > 0,
            source matches Ok(s) ==> s@ == name@,
            source matches Err(e) ==> e == NameError::Empty,
    {
        if name.is_empty() {
            Err(NameError::Empty)
        } else {
            Ok(SyncSource { name: name.to_owned() })
        }
    }

    pub fn as_str(&self) -> (name: &str)
        ensures
            name@ == self@,
    {
        self.name.as_str()
    }

    /// The same source again.
    pub fn copied(&self) -> (same: SyncSource)
        ensures
            same@ == self@,
    {
        SyncSource { name: self.name.clone() }
    }
}

/// How the last run of a source ended.
#[derive(Clone, Copy, Debug, PartialEq, Eq, Structural)]
pub enum SyncOutcomeKind {
    Synced,
    NotReady,
    Failed,
}

impl SyncOutcomeKind {
    /// The persisted name.
    pub open spec fn name(self) -> Seq<char> {
        match self {
            SyncOutcomeKind::Synced => "SYNCED"@,
            SyncOutcomeKind::NotReady => "NOT_READY"@,
            SyncOutcomeKind::Failed => "FAILED"@,
        }
    }

    /// The outcome that a persisted name spells.
    pub open spec fn named(raw: Seq<char>) -> Option<SyncOutcomeKind> {
        if raw == "SYNCED"@ {
            Some(SyncOutcomeKind::Synced)
        } else if raw == "NOT_READY"@ {
            Some(SyncOutcomeKind::NotReady)
        } else if raw == "FAILED"@ {
            Some(SyncOutcomeKind::Failed)
        } else {
            None
        }
    }

    pub fn as_str(self) -> (name: &'static str)
        ensures
            name@ == self.name(),
    {
        match self {
            SyncOutcomeKind::Synced => "SYNCED",
            SyncOutcomeKind::NotReady => "NOT_READY",
            SyncOutcomeKind::Failed => "FAILED",
        }
    }

    /// Reads a persisted name.
    pub fn from_text(raw: &str) -> (outcome: Option<SyncOutcomeKind>)
        ensures
            outcome == SyncOutcomeKind::named(raw@),
    {
        if text::same_text(raw, "SYNCED") {
            Some(SyncOutcomeKind::Synced)
        } else if text::same_text(raw, "NOT_READY") {
            Some(SyncOutcomeKind::NotReady)
        } else if text::same_text(raw, "FAILED") {
            Some(SyncOutcomeKind::Failed)
        } else {
            None
        }
    }
}

/// The text behind an optional string.
pub open spec fn opt_text(text: Option<String>) -> Option<Seq<char>> {
    match text {
        Some(t) => Some(t@),
        None => None,
    }
}

/// A copy of an optional string.
pub(crate) fn copy_opt(text: &Option<String>) -> (same: Option<String>)
    ensures
        opt_text(same) == opt_text(*text),
{
    match text {
        Some(t) => Some(t.clone()),
        None => None,
    }
}

// ---------------------------------------------------------------- cooldown
/// The cooldown after terminal failures: a base that doubles with each
/// consecutive failure, capped at one hour.
#[derive(Clone, Copy, Debug, PartialEq, Eq, Structural)]
pub struct CooldownPolicy {
    pub base_secs: u32,
}

impl CooldownPolicy {
    /// Seconds to wait after the `failures`-th consecutive failure.
    pub open spec fn secs(self, failures: nat) -> nat {
        doubled(
            self.base_secs as nat,
            if failures == 0 {
                0
            } else {
                (failures - 1) as nat
            },
            BACKOFF_CAP_SECS as nat,
        )
    }

    pub fn new(base_secs: u32) -> (policy: CooldownPolicy)
        ensures
            policy.base_secs == base_secs,
    {
        CooldownPolicy { base_secs }
    }

    /// When a source may run again after its `failures`-th consecutive
    /// terminal failure.
    pub fn until(&self, failures: u32, now: i128) -> (until: i128)
        requires
            moment::valid_instant(now as int),
        ensures
            until == secs_after(now as int, self.secs(failures as nat)),
            moment::valid_instant(until as int),
            now <= until,
    {
        let times: u32 = if failures == 0 {
            0
        } else {
            failures - 1
        };
        after_secs(now, backoff_secs(self.base_secs, times))
    }
}

// ---------------------------------------------------------------- cursor
/// What a cursor records.
#[verifier::ext_equal]
pub struct CursorState {
    pub source: Seq<char>,
    pub through_slot: int,
    pub through_target: int,
    pub cooldown_until: Option<int>,
    pub consecutive_failures: nat,
    pub last_outcome: Option<SyncOutcomeKind>,
    pub last_error: Option<Seq<char>>,
    pub updated_at: int,
}

impl CursorState {
    /// A cursor placed at a position, with nothing recorded yet.
    pub open spec fn seeded(
        source: Seq<char>,
        through_slot: int,
        through_target: int,
        now: int,
    ) -> CursorState {
        CursorState {
            source,
            through_slot,
            through_target,
            cooldown_until: None,
            consecutive_failures: 0,
            last_outcome: None,
            last_error: None,
            updated_at: now,
        }
    }

    /// The cursor after a run that covered everything up to `target`.
    pub open spec fn advanced(self, slot: int, target: int, now: int) -> CursorState {
        CursorState {
            source: self.source,
            through_slot: slot,
            through_target: target,
            cooldown_until: None,
            consecutive_failures: 0,
            last_outcome: Some(SyncOutcomeKind::Synced),
            last_error: None,
            updated_at: now,
        }
    }

    /// The cursor held in place because the source has nothing yet.
    pub open spec fn held(self, until: int, now: int) -> CursorState {
        CursorState {
            cooldown_until: Some(until),
            last_outcome: Some(SyncOutcomeKind::NotReady),
            last_error: None,
            updated_at: now,
            ..self
        }
    }

    /// The cursor held in place because a run failed for good.
    pub open spec fn failed(self, error: Seq<char>, until: int, now: int) -> CursorState {
        CursorState {
            cooldown_until: Some(until),
            consecutive_failures: if self.consecutive_failures < u32::MAX {
                self.consecutive_failures + 1
            } else {
                self.consecutive_failures
            },
            last_outcome: Some(SyncOutcomeKind::Failed),
            last_error: Some(error),
            updated_at: now,
            ..self
        }
    }

    /// Whether no cooldown is running at `now`.
    pub open spec fn ready(self, now: int) -> bool {
        self.cooldown_until matches Some(until) ==> until <= now
    }

    /// The cursor as a store keeps it: instants to the millisecond.
    pub open spec fn stored(self) -> CursorState {
        CursorState {
            through_slot: stored_instant(self.through_slot),
            cooldown_until: opt_stored(self.cooldown_until),
            updated_at: stored_instant(self.updated_at),
            ..self
        }
    }

    /// Whether position and failure count are representable.
    pub open spec fn wf(self) -> bool {
        moment::valid_instant(self.through_slot) && moment::valid_date(self.through_target)
            && self.consecutive_failures <= u32::MAX
    }
}

/// How far one source has been synchronised, and whether it may run.
#[derive(Clone, Debug)]
pub struct SyncCursor {
    source: SyncSource,
    through_slot: i128,
    through_target: i32,
    cooldown_until: Option<i128>,
    consecutive_failures: u32,
    last_outcome: Option<SyncOutcomeKind>,
    last_error: Option<String>,
    updated_at: i128,
}

/// An optional instant as a number.
pub open spec fn opt_int(ticks: Option<i128>) -> Option<int> {
    match ticks {
        Some(m) => Some(m as int),
        None => None,
    }
}

/// An optional instant as a store keeps it.
pub open spec fn opt_stored(ticks: Option<int>) -> Option<int> {
    match ticks {
        Some(t) => Some(stored_instant(t)),
        None => None,
    }
}

/// An optional instant as a store keeps it.
pub(crate) fn kept_opt(ticks: Option<i128>) -> (stored: Option<i128>)
    ensures
        opt_int(stored) == opt_stored(opt_int(ticks)),
{
    match ticks {
        Some(t) => Some(kept(t)),
        None => None,
    }
}

impl View for SyncCursor {
    type V = CursorState;

    closed spec fn view(&self) -> CursorState {
        CursorState {
            source: self.source@,
            through_slot: self.through_slot as int,
            through_target: self.through_target as int,
            cooldown_until: opt_int(self.cooldown_until),
            consecutive_failures: self.consecutive_failures as nat,
            last_outcome: self.last_outcome,
            last_error: opt_text(self.last_error),
            updated_at: self.updated_at as int,
        }
    }
}

impl SyncCursor {
    /// A cursor at a position, with no run recorded.
    pub fn seeded(
        source: &SyncSource,
        through_slot: i128,
        through_target: i32,
        now: i128,
    ) -> (cursor: SyncCursor)
        ensures
            cursor@ == CursorState::seeded(
                source@,
                through_slot as int,
                through_target as int,
                now as int,
            ),
    {
        SyncCursor {
            source: source.copied(),
            through_slot,
            through_target,
            cooldown_until: None,
            consecutive_failures: 0,
            last_outcome: None,
            last_error: None,
            updated_at: now,
        }
    }

    /// Rebuilds a cursor from its persisted parts.
    pub fn reconstitute(
        source: &SyncSource,
        through_slot: i128,
        through_target: i32,
        cooldown_until: Option<i128>,
        consecutive_failures: u32,
        last_outcome: Option<SyncOutcomeKind>,
        last_error: Option<String>,
        updated_at: i128,
    ) -> (cursor: SyncCursor)
        ensures
            cursor@.source == source@,
            cursor@.through_slot == through_slot,
            cursor@.through_target == through_target,
            cursor@.cooldown_until == opt_int(cooldown_until),
            cursor@.consecutive_failures == consecutive_failures,
            cursor@.last_outcome == last_outcome,
            cursor@.last_error == opt_text(last_error),
            cursor@.updated_at == updated_at,
    {
        SyncCursor {
            source: source.copied(),
            through_slot,
            through_target,
            cooldown_until,
            consecutive_failures,
            last_outcome,
            last_error,
            updated_at,
        }
    }

    /// Moves to `slot` and `target` after a completed run; clears cooldown,
    /// failures and error.
    pub fn advanced(self, slot: i128, target: i32, now: i128) -> (cursor: SyncCursor)
        ensures
            cursor@ == self@.advanced(slot as int, target as int, now as int),
    {
        SyncCursor {
            source: self.source,
            through_slot: slot,
            through_target: target,
            cooldown_until: None,
            consecutive_failures: 0,
            last_outcome: Some(SyncOutcomeKind::Synced),
            last_error: None,
            updated_at: now,
        }
    }

    /// Holds the position for `retry_after_secs`; not a failure.
    pub fn held_not_ready(self, retry_after_secs: u32, now: i128) -> (cursor: SyncCursor)
        requires
            moment::valid_instant(now as int),
        ensures
            cursor@ == self@.held(secs_after(now as int, retry_after_secs as nat), now as int),
    {
        let until: i128 = after_secs(now, retry_after_secs);
        SyncCursor {
            source: self.source,
            through_slot: self.through_slot,
            through_target: self.through_target,
            cooldown_until: Some(until),
            consecutive_failures: self.consecutive_failures,
            last_outcome: Some(SyncOutcomeKind::NotReady),
            last_error: None,
            updated_at: now,
        }
    }

    /// Holds the position until `until` and counts one more failure.
    pub fn failed(self, error: String, until: i128, now: i128) -> (cursor: SyncCursor)
        ensures
            cursor@ == self@.failed(error@, until as int, now as int),
    {
        let failures: u32 = if self.consecutive_failures < u32::MAX {
            self.consecutive_failures + 1
        } else {
            self.consecutive_failures
        };
        SyncCursor {
            source: self.source,
            through_slot: self.through_slot,
            through_target: self.through_target,
            cooldown_until: Some(until),
            consecutive_failures: failures,
            last_outcome: Some(SyncOutcomeKind::Failed),
            last_error: Some(error),
            updated_at: now,
        }
    }

    /// Whether the source may run at `now`.
    pub fn is_ready(&self, now: i128) -> (ready: bool)
        ensures
            ready == self@.ready(now as int),
    {
        match self.cooldown_until {
            Some(until) => until <= now,
            None => true,
        }
    }

    pub fn source(&self) -> (source: &SyncSource)
        ensures
            source@ == self@.source,
    {
        &self.source
    }

    pub fn through_slot(&self) -> (slot: i128)
        ensures
            slot == self@.through_slot,
    {
        self.through_slot
    }

    pub fn through_target(&self) -> (target: i32)
        ensures
            target == self@.through_target,
    {
        self.through_target
    }

    pub fn cooldown_until(&self) -> (until: Option<i128>)
        ensures
            opt_int(until) == self@.cooldown_until,
    {
        self.cooldown_until
    }

    pub fn consecutive_failures(&self) -> (failures: u32)
        ensures
            failures == self@.consecutive_failures,
    {
        self.consecutive_failures
    }

    pub fn last_outcome(&self) -> (outcome: Option<SyncOutcomeKind>)
        ensures
            outcome == self@.last_outcome,
    {
        self.last_outcome
    }

    pub fn last_error(&self) -> (error: Option<String>)
        ensures
            opt_text(error) == self@.last_error,
    {
        copy_opt(&self.last_error)
    }

    pub fn updated_at(&self) -> (at: i128)
        ensures
            at == self@.updated_at,
    {
        self.updated_at
    }

    /// The same cursor again.
    pub fn copied(&self) -> (same: SyncCursor)
        ensures
            same@ == self@,
    {
        SyncCursor {
            source: self.source.copied(),
            through_slot: self.through_slot,
            through_target: self.through_target,
            cooldown_until: self.cooldown_until,
            consecutive_failures: self.consecutive_failures,
            last_outcome: self.last_outcome,
            last_error: copy_opt(&self.last_error),
            updated_at: self.updated_at,
        }
    }
}

/// Holding a cursor, for want of data or after a failure, never moves it;
/// only an advance does.
pub proof fn law_holding_keeps_the_position(
    cursor: CursorState,
    error: Seq<char>,
    until: int,
    now: int,
)
    ensures
        cursor.held(until, now).through_slot == cursor.through_slot,
        cursor.held(until, now).through_target == cursor.through_target,
        cursor.held(until, now).consecutive_failures == cursor.consecutive_failures,
        cursor.failed(error, until, now).through_slot == cursor.through_slot,
        cursor.failed(error, until, now).through_target == cursor.through_target,
{
}

/// An advance forgets every failure and opens the source at once.
pub proof fn law_advancing_clears_the_record(
    cursor: CursorState,
    slot: int,
    target: int,
    now: int,
    later: int,
)
    ensures
        cursor.advanced(slot, target, now).consecutive_failures == 0,
        cursor.advanced(slot, target, now).last_error is None,
        cursor.advanced(slot, target, now).ready(later),
{
}

// ---------------------------------------------------------------- store
/// The cursors of all sources, one each.
pub struct CursorStore {
    table: Table<SyncCursor>,
}

impl View for CursorStore {
    type V = Map<Seq<char>, CursorState>;

    closed spec fn view(&self) -> Map<Seq<char>, CursorState> {
        self.table@.map_values(|c: SyncCursor| c@)
    }
}

impl CursorStore {
    /// Every cursor is well formed and kept under the name of its own source.
    pub closed spec fn wf(&self) -> bool {
        &&& self.table.wf()
        &&& forall|key: Seq<char>|
            #[trigger] self.table@.dom().contains(key) ==> self.table@[key]@.source == key
                && self.table@[key]@.wf()
    }

    pub fn new() -> (store: CursorStore)
        ensures
            store.wf(),
            store@ == Map::<Seq<char>, CursorState>::empty(),
    {
        let store = CursorStore { table: Table::new() };
        assert(store@ =~= Map::<Seq<char>, CursorState>::empty());
        store
    }

    /// The cursor of `source`, if one was ever put.
    pub fn get(&self, source: &SyncSource) -> (cursor: Option<SyncCursor>)
        requires
            self.wf(),
        ensures
            cursor is Some <==> self@.dom().contains(source@),
            cursor matches Some(c) ==> c@ == self@[source@] && c@.source == source@ && c@.wf(),
    {
        match self.table.get(source.as_str()) {
            Some(cursor) => Some(cursor.copied()),
            None => None,
        }
    }

    /// Puts back a cursor that was persisted.
    pub fn load(&mut self, cursor: &SyncCursor)
        requires
            old(self).wf(),
            cursor@.wf(),
        ensures
            final(self).wf(),
            final(self)@ == old(self)@.insert(cursor@.source, cursor@),
    {
        let copy = cursor.copied();
        let ghost before = self@;
        self.table.put(cursor.source().as_str(), copy);
        proof {
            assert(self@ =~= before.insert(cursor@.source, cursor@));
        }
    }

    /// Stores a cursor under its source, in place of the one there.
    pub fn upsert(&mut self, cursor: &SyncCursor)
        requires
            old(self).wf(),
            cursor@.wf(),
        ensures
            final(self).wf(),
            final(self)@ == old(self)@.insert(cursor@.source, cursor@.stored()),
    {
        let mut stored = cursor.copied();
        stored.through_slot = kept(cursor.through_slot);
        stored.cooldown_until = kept_opt(cursor.cooldown_until);
        stored.updated_at = kept(cursor.updated_at);
        proof {
            moment::lemma_whole_millis(cursor@.through_slot);
        }
        self.load(&stored);
    }
}

/// What a cursor becomes, by its parts. An advance stands at the run's slot
/// and last date; a hold and a failure stay and wait until the given instant,
/// and only a failure counts one more and keeps its error.
pub proof fn law_a_cursor_records_how_its_run_ended(
    cursor: CursorState,
    slot: int,
    target: int,
    error: Seq<char>,
    until: int,
    now: int,
)
    requires
        cursor.consecutive_failures < u32::MAX,
    ensures
        ({
            let advanced = cursor.advanced(slot, target, now);
            &&& advanced.source == cursor.source
            &&& (advanced.through_slot, advanced.through_target) == (slot, target)
            &&& advanced.cooldown_until is None && advanced.last_error is None
            &&& advanced.consecutive_failures == 0
            &&& advanced.last_outcome == Some(SyncOutcomeKind::Synced)
            &&& advanced.updated_at == now
        }),
        ({
            let held = cursor.held(until, now);
            &&& held.source == cursor.source
            &&& (held.through_slot, held.through_target) == (
                cursor.through_slot,
                cursor.through_target,
            )
            &&& held.cooldown_until == Some(until) && held.last_error is None
            &&& held.consecutive_failures == cursor.consecutive_failures
            &&& held.last_outcome == Some(SyncOutcomeKind::NotReady)
            &&& held.updated_at == now
        }),
        ({
            let failed = cursor.failed(error, until, now);
            &&& failed.source == cursor.source
            &&& (failed.through_slot, failed.through_target) == (
                cursor.through_slot,
                cursor.through_target,
            )
            &&& failed.cooldown_until == Some(until) && failed.last_error == Some(error)
            &&& failed.consecutive_failures == cursor.consecutive_failures + 1
            &&& failed.last_outcome == Some(SyncOutcomeKind::Failed)
            &&& failed.updated_at == now
        }),
        ({
            let seeded = CursorState::seeded(cursor.source, slot, target, now);
            &&& seeded.source == cursor.source
            &&& (seeded.through_slot, seeded.through_target) == (slot, target)
            &&& seeded.cooldown_until is None && seeded.last_error is None
            &&& seeded.consecutive_failures == 0 && seeded.last_outcome is None
            &&& seeded.updated_at == now
        }),
{
}

/// A held or failed source is closed until its cooldown ends and open from
/// that instant on; one without a cooldown is open.
pub proof fn law_a_cooldown_ends_at_its_instant(
    cursor: CursorState,
    error: Seq<char>,
    until: int,
    at: int,
    now: int,
)
    ensures
        cursor.held(until, at).ready(now) <==> now >= until,
        cursor.failed(error, until, at).ready(now) <==> now >= until,
        cursor.cooldown_until is None ==> cursor.ready(now),
{
}

/// The store keeps a cursor's instants to the millisecond and everything else
/// as it is.
pub proof fn law_a_store_keeps_the_cursor(cursor: CursorState)
    requires
        moment::valid_instant(cursor.through_slot),
        moment::valid_instant(cursor.updated_at),
        cursor.cooldown_until matches Some(until) ==> moment::valid_instant(until),
    ensures
        ({
            let stored = cursor.stored();
            &&& stored.source == cursor.source
            &&& stored.through_slot <= cursor.through_slot < stored.through_slot + 1_000_000
            &&& stored.through_slot % 1_000_000 == 0
            &&& stored.updated_at <= cursor.updated_at < stored.updated_at + 1_000_000
            &&& stored.cooldown_until is Some <==> cursor.cooldown_until is Some
            &&& cursor.cooldown_until matches Some(until) ==> stored.cooldown_until->0 <= until
                < stored.cooldown_until->0 + 1_000_000
            &&& stored.through_target == cursor.through_target
            &&& stored.consecutive_failures == cursor.consecutive_failures
            &&& stored.last_outcome == cursor.last_outcome
            &&& stored.last_error == cursor.last_error
        }),
{
    moment::law_a_store_keeps_the_millisecond(cursor.through_slot);
    moment::law_a_store_keeps_the_millisecond(cursor.updated_at);
    if let Some(until) = cursor.cooldown_until {
        moment::law_a_store_keeps_the_millisecond(until);
    }
}

/// The wait after so many failures in a row: the base, doubled with each one
/// after the first, and one hour at most.
pub proof fn law_the_cooldown_doubles_up_to_an_hour(policy: CooldownPolicy, failures: nat)
    ensures
        failures >= 1 ==> {
            let full = policy.base_secs as nat * pow2((failures - 1) as nat);
            policy.secs(failures) == if full <= 3600 {
                full
            } else {
                3600
            }
        },
        failures >= 1 ==> policy.secs(failures) <= policy.secs(failures + 1) <= 3600,
        failures >= 1 && policy.base_secs <= 3600 ==> policy.secs(failures) >= policy.base_secs,
        failures >= 1 && policy.base_secs > 3600 ==> policy.secs(failures) == 3600,
        policy.base_secs <= 3600 ==> policy.secs(1) == policy.base_secs,
{
    let base = policy.base_secs as nat;
    if failures >= 1 {
        let times = (failures - 1) as nat;
        law_doubling_is_a_capped_power_of_two(base, times, 3600);
        law_backoff_grows_up_to_the_cap(base, times, failures, 3600);
        law_backoff_grows_up_to_the_cap(base, 0, times, 3600);
    }
}

} // verus!
