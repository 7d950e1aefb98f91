//! How the database is opened, configured and shared.
//!
//! One connection writes, a pool of read-only ones serves reads; everything
//! runs in WAL mode. What touches the file happens elsewhere: this module
//! says which connections are opened in which order, how each is configured,
//! and which statements a dry run, a maintenance and a close consist of.
use crate::span::Span;
use crate::text;
use vstd::multiset::Multiset;
use vstd::prelude::*;

verus! {

// ---------------------------------------------------------------- errors
/// What can go wrong with the database. Sources are their messages.
#[derive(Clone, Debug)]
pub enum SqliteError {
    Connection { source: String },
    Pragma { source: String },
    Migration { source: String },
    Maintenance { source: String },
    UnknownSchemaVersion { found: i64, known: usize },
    InvalidPoolSize,
}

/// A whole number, negative ones with their sign.
pub open spec fn signed_text(n: int) -> Seq<char> {
    if n < 0 {
        "-"@ + text::decimal_text((-n) as nat)
    } else {
        text::decimal_text(n as nat)
    }
}

fn write_signed(n: i64) -> (out: String)
    ensures
        out@ == signed_text(n as int),
{
    if n == i64::MIN {
        "-".to_owned().concat(text::decimal(9_223_372_036_854_775_808).as_str())
    } else if n < 0 {
        "-".to_owned().concat(text::decimal((-n) as u64).as_str())
    } else {
        text::decimal(n as u64)
    }
}

impl SqliteError {
    pub open spec fn text(&self) -> Seq<char> {
        match *self {
            SqliteError::Connection { .. } => "failed to open sqlite connection"@,
            SqliteError::Pragma { .. } => "failed to configure connection"@,
            SqliteError::Migration { .. } => "failed to apply schema migrations"@,
            SqliteError::Maintenance { .. } => "database maintenance failed"@,
            SqliteError::UnknownSchemaVersion { found, known } => "database schema version "@
                + signed_text(found as int) + " is newer than the "@ + text::decimal_text(
                known as nat,
            ) + " migration(s) this binary knows about — upgrade the binary"@,
            SqliteError::InvalidPoolSize => "reader pool size must be at least 1"@,
        }
    }

    pub fn message(&self) -> (out: String)
        ensures
            out@ == self.text(),
    {
        match self {
            SqliteError::Connection { .. } => "failed to open sqlite connection".to_owned(),
            SqliteError::Pragma { .. } => "failed to configure connection".to_owned(),
            SqliteError::Migration { .. } => "failed to apply schema migrations".to_owned(),
            SqliteError::Maintenance { .. } => "database maintenance failed".to_owned(),
            SqliteError::UnknownSchemaVersion { found, known } => {
                let head = "database schema version ".to_owned().concat(
                    write_signed(*found).as_str(),
                );
                head.concat(" is newer than the ").concat(
                    text::decimal(*known as u64).as_str(),
                ).concat(" migration(s) this binary knows about — upgrade the binary")
            },
            SqliteError::InvalidPoolSize => "reader pool size must be at least 1".to_owned(),
        }
    }
}

// ---------------------------------------------------------------- settings
/// How hard a write is pushed to disk.
#[derive(Clone, Copy, Debug, PartialEq, Eq, Structural)]
pub enum Synchronous {
    /// Relaxed: the last transactions may be lost if the power fails.
    Normal,
    /// Strict.
    Full,
}

impl Default for Synchronous {
    fn default() -> (synchronous: Synchronous)
        ensures
            synchronous == Synchronous::Normal,
    {
        Synchronous::Normal
    }
}

impl Synchronous {
    pub open spec fn name(self) -> Seq<char> {
        match self {
            Synchronous::Normal => "NORMAL"@,
            Synchronous::Full => "FULL"@,
        }
    }

    /// The value of the pragma.
    pub fn as_pragma(self) -> (name: &'static str)
        ensures
            name@ == self.name(),
    {
        match self {
            Synchronous::Normal => "NORMAL",
            Synchronous::Full => "FULL",
        }
    }
}

/// The largest pool of readers that is chosen by default.
pub const MAX_DEFAULT_READERS: usize = 6;

/// The pool of readers where the machine's parallelism is not known.
pub const FALLBACK_READERS: usize = 2;

/// How long a connection waits for a lock by default.
pub const BUSY_TIMEOUT_SECS: u64 = 5;

/// How a database is opened.
#[derive(Clone, Copy, Debug, PartialEq, Eq, Structural)]
pub struct DatabaseConfig {
    pub reader_pool_size: usize,
    pub synchronous: Synchronous,
    pub busy_timeout: Span,
}

/// The size of the pool of readers: as many as can run at once, up to six.
pub fn default_reader_pool_size(parallelism: Option<usize>) -> (size: usize)
    ensures
        size == (match parallelism {
            Some(n) => if n < MAX_DEFAULT_READERS {
                n
            } else {
                MAX_DEFAULT_READERS
            },
            None => FALLBACK_READERS,
        }),
{
    match parallelism {
        Some(n) => if n < MAX_DEFAULT_READERS {
            n
        } else {
            MAX_DEFAULT_READERS
        },
        None => FALLBACK_READERS,
    }
}

impl DatabaseConfig {
    /// The default configuration on a machine of some parallelism.
    pub fn for_machine(parallelism: Option<usize>) -> (config: DatabaseConfig)
        ensures
            config.reader_pool_size == (match parallelism {
                Some(n) => if n < MAX_DEFAULT_READERS {
                    n
                } else {
                    MAX_DEFAULT_READERS
                },
                None => FALLBACK_READERS,
            }),
            config.synchronous == Synchronous::Normal,
            config.busy_timeout.secs == BUSY_TIMEOUT_SECS,
            config.busy_timeout.nanos == 0,
    {
        DatabaseConfig {
            reader_pool_size: default_reader_pool_size(parallelism),
            synchronous: Synchronous::Normal,
            busy_timeout: Span::from_secs(BUSY_TIMEOUT_SECS),
        }
    }
}

/// What a WAL checkpoint reports.
#[derive(Clone, Copy, Debug, PartialEq, Eq, Structural)]
pub struct WalCheckpointStats {
    /// `1` where another connection kept the checkpoint from completing.
    pub busy: i64,
    /// Frames in the WAL file.
    pub log_frames: i64,
    /// Frames moved into the database file.
    pub checkpointed_frames: i64,
}

// ---------------------------------------------------------------- connections
/// What a connection is for.
#[derive(Clone, Copy, Debug, PartialEq, Eq, Structural)]
pub enum ConnectionRole {
    Writer,
    Reader,
}

/// How a connection opens the file.
#[derive(Clone, Copy, Debug, PartialEq, Eq, Structural)]
pub struct OpenMode {
    pub read_only: bool,
    pub create: bool,
}

/// The writer may create the file; a reader can only read it.
pub fn open_mode(role: ConnectionRole) -> (mode: OpenMode)
    ensures
        mode.read_only == (role == ConnectionRole::Reader),
        mode.create == (role == ConnectionRole::Writer),
{
    match role {
        ConnectionRole::Writer => OpenMode { read_only: false, create: true },
        ConnectionRole::Reader => OpenMode { read_only: true, create: false },
    }
}

/// One thing done to a fresh connection.
#[derive(Clone, Debug)]
pub enum Setting {
    /// Set a pragma.
    Pragma { name: String, value: String },
    /// Read a pragma.
    Query { name: String },
    /// Wait this long for locks.
    BusyTimeout(Span),
    /// Keep this many prepared statements.
    StatementCache(usize),
}

/// What is done to a fresh connection.
#[verifier::ext_equal]
pub enum SettingState {
    Pragma { name: Seq<char>, value: Seq<char> },
    Query { name: Seq<char> },
    BusyTimeout(Span),
    StatementCache(usize),
}

impl View for Setting {
    type V = SettingState;

    open spec fn view(&self) -> SettingState {
        match *self {
            Setting::Pragma { name, value } => SettingState::Pragma { name: name@, value: value@ },
            Setting::Query { name } => SettingState::Query { name: name@ },
            Setting::BusyTimeout(span) => SettingState::BusyTimeout(span),
            Setting::StatementCache(n) => SettingState::StatementCache(n),
        }
    }
}

/// What some settings do.
pub open spec fn setting_states(settings: Seq<Setting>) -> Seq<SettingState> {
    settings.map_values(|s: Setting| s@)
}

/// A pragma and its value.
pub open spec fn pragma(name: Seq<char>, value: Seq<char>) -> SettingState {
    SettingState::Pragma { name, value }
}

/// How a connection is configured, in order: only the writer switches to WAL,
/// which the file then remembers; a reader refuses to write on top of being
/// opened read-only.
pub open spec fn configuration(
    role: ConnectionRole,
    synchronous: Synchronous,
    busy_timeout: Span,
) -> Seq<SettingState> {
    let journal = match role {
        ConnectionRole::Writer => pragma("journal_mode"@, "WAL"@),
        ConnectionRole::Reader => SettingState::Query { name: "journal_mode"@ },
    };
    let common = seq![
        journal,
        pragma("synchronous"@, synchronous.name()),
        pragma("foreign_keys"@, "ON"@),
        SettingState::BusyTimeout(busy_timeout),
        pragma("cache_size"@, "-64000"@),
        pragma("temp_store"@, "MEMORY"@),
        pragma("mmap_size"@, "268435456"@),
        pragma("wal_autocheckpoint"@, "1000"@),
        SettingState::StatementCache(64),
    ];
    match role {
        ConnectionRole::Writer => common,
        ConnectionRole::Reader => common.push(pragma("query_only"@, "ON"@)),
    }
}

fn set(name: &str, value: &str) -> (setting: Setting)
    ensures
        setting@ == pragma(name@, value@),
{
    Setting::Pragma { name: name.to_owned(), value: value.to_owned() }
}

/// How a connection is configured.
pub fn configure(role: ConnectionRole, synchronous: Synchronous, busy_timeout: Span) -> (settings:
    Vec<Setting>)
    ensures
        setting_states(settings@) == configuration(role, synchronous, busy_timeout),
{
    let mut settings: Vec<Setting> = Vec::new();
    match role {
        ConnectionRole::Writer => {
            settings.push(set("journal_mode", "WAL"));
        },
        ConnectionRole::Reader => {
            settings.push(Setting::Query { name: "journal_mode".to_owned() });
        },
    }
    settings.push(set("synchronous", synchronous.as_pragma()));
    settings.push(set("foreign_keys", "ON"));
    settings.push(Setting::BusyTimeout(busy_timeout));
    settings.push(set("cache_size", "-64000"));
    settings.push(set("temp_store", "MEMORY"));
    settings.push(set("mmap_size", "268435456"));
    settings.push(set("wal_autocheckpoint", "1000"));
    settings.push(Setting::StatementCache(64));
    match role {
        ConnectionRole::Writer => {},
        ConnectionRole::Reader => {
            settings.push(set("query_only", "ON"));
        },
    }
    assert(setting_states(settings@) =~= configuration(role, synchronous, busy_timeout));
    settings
}

// ---------------------------------------------------------------- opening
/// One step of opening a database.
#[derive(Clone, Copy, Debug, PartialEq, Eq, Structural)]
pub enum OpenStep {
    /// Open a connection and configure it.
    Connect(ConnectionRole),
    /// Bring the schema up to date, on the writer.
    Migrate,
}

/// Some readers, one after the other.
pub open spec fn readers(n: nat) -> Seq<OpenStep> {
    Seq::new(n, |i: int| OpenStep::Connect(ConnectionRole::Reader))
}

/// The steps of opening: the writer, the migrations, then the readers.
pub open spec fn opening(reader_pool_size: nat) -> Seq<OpenStep> {
    seq![OpenStep::Connect(ConnectionRole::Writer), OpenStep::Migrate] + readers(reader_pool_size)
}

/// The steps of opening a database; a pool without readers is refused.
pub fn open_with_config(config: &DatabaseConfig) -> (steps: Result<Vec<OpenStep>, SqliteError>)
    ensures
        steps is Ok <==> config.reader_pool_size >= 1,
        steps matches Ok(s) ==> s@ == opening(config.reader_pool_size as nat),
        steps matches Err(e) ==> e is InvalidPoolSize,
{
    if config.reader_pool_size < 1 {
        return Err(SqliteError::InvalidPoolSize);
    }
    let mut steps: Vec<OpenStep> = Vec::new();
    steps.push(OpenStep::Connect(ConnectionRole::Writer));
    steps.push(OpenStep::Migrate);
    let mut i: usize = 0;
    assert(steps@ =~= opening(0));
    while i < config.reader_pool_size
        invariant
            i <= config.reader_pool_size,
            steps@ == opening(i as nat),
        decreases config.reader_pool_size - i,
    {
        steps.push(OpenStep::Connect(ConnectionRole::Reader));
        assert(opening(i as nat).push(OpenStep::Connect(ConnectionRole::Reader)) =~= opening(
            (i + 1) as nat,
        ));
        i += 1;
    }
    Ok(steps)
}

/// The schema is up to date before any reader exists, and every reader of
/// the configuration is opened.
pub proof fn law_migrations_precede_every_reader(reader_pool_size: nat, i: int)
    requires
        0 <= i < opening(reader_pool_size).len(),
        opening(reader_pool_size)[i] == OpenStep::Connect(ConnectionRole::Reader),
    ensures
        opening(reader_pool_size)[1] == OpenStep::Migrate,
        1 < i,
        opening(reader_pool_size).len() == reader_pool_size + 2,
        forall|j: int|
            2 <= j < reader_pool_size + 2 ==> #[trigger] opening(reader_pool_size)[j]
                == OpenStep::Connect(ConnectionRole::Reader),
{
}

// ---------------------------------------------------------------- pool
/// How long a checkout waits before it is reported as slow, in seconds.
pub const READER_CHECKOUT_WARN_AFTER_SECS: u64 = 5;

/// Idle items that are taken and put back. Who finds it empty waits for a
/// put.
pub struct WaitPool<T> {
    idle: Vec<T>,
}

impl<T> View for WaitPool<T> {
    type V = Seq<T>;

    closed spec fn view(&self) -> Seq<T> {
        self.idle@
    }
}

impl<T> WaitPool<T> {
    pub fn new(items: Vec<T>) -> (pool: WaitPool<T>)
        ensures
            pool@ == items@,
    {
        WaitPool { idle: items }
    }

    /// The item put back last; `None` where all are out.
    pub fn take(&mut self) -> (item: Option<T>)
        ensures
            item is None <==> old(self)@.len() == 0,
            item is None ==> final(self)@ == old(self)@,
            item matches Some(t) ==> t == old(self)@.last() && final(self)@ == old(
                self,
            )@.drop_last(),
    {
        self.idle.pop()
    }

    /// Puts an item back, which wakes one waiter.
    pub fn put(&mut self, item: T)
        ensures
            final(self)@ == old(self)@.push(item),
    {
        self.idle.push(item);
    }

    /// How many items are idle.
    pub fn idle(&self) -> (n: usize)
        ensures
            n == self@.len(),
    {
        self.idle.len()
    }
}

/// No item is lost or handed out twice: what is idle and what is out are
/// together the same items after a take as before it.
pub proof fn law_taking_keeps_every_item<T>(idle: Seq<T>, out: Multiset<T>)
    requires
        idle.len() > 0,
    ensures
        idle.drop_last().to_multiset().add(out.insert(idle.last())) =~= idle.to_multiset().add(out),
{
    broadcast use vstd::seq_lib::group_to_multiset_ensures;

    assert(idle =~= idle.drop_last().push(idle.last()));
}

/// Nor by a put of an item that was out.
pub proof fn law_putting_keeps_every_item<T>(idle: Seq<T>, out: Multiset<T>, item: T)
    requires
        out.contains(item),
    ensures
        idle.push(item).to_multiset().add(out.remove(item)) =~= idle.to_multiset().add(out),
{
    broadcast use vstd::seq_lib::group_to_multiset_ensures;

}

/// Whoever waits on an empty pool is served by the next put.
pub proof fn law_a_put_serves_a_waiter<T>(item: T)
    ensures
        Seq::<T>::empty().push(item).len() > 0,
        Seq::<T>::empty().push(item).last() == item,
        Seq::<T>::empty().push(item).drop_last() == Seq::<T>::empty(),
{
    assert(Seq::<T>::empty().push(item).drop_last() =~= Seq::<T>::empty());
}

// ---------------------------------------------------------------- writer
/// What is done with the writer's connection once its lock is held.
#[derive(Clone, Copy, Debug, PartialEq, Eq, Structural)]
pub enum WriterCare {
    /// Nothing: its last holder left it in order.
    Sound,
    /// Its last holder panicked outside a transaction: only note it.
    Recovered,
    /// Its last holder panicked inside a transaction: roll that back.
    Rollback,
}

/// What a writer needs, by whether its last holder panicked and whether a
/// transaction is open.
pub fn lock_writer(poisoned: bool, autocommit: bool) -> (care: WriterCare)
    ensures
        care == (if !poisoned {
            WriterCare::Sound
        } else if autocommit {
            WriterCare::Recovered
        } else {
            WriterCare::Rollback
        }),
{
    if !poisoned {
        WriterCare::Sound
    } else if autocommit {
        WriterCare::Recovered
    } else {
        WriterCare::Rollback
    }
}

// ---------------------------------------------------------------- guards
/// How long one operation may take, in seconds.
pub const MAX_OPERATION_EXECUTION_SECS: u64 = 15;

/// How many virtual machine instructions pass between two looks at the clock.
pub const PROGRESS_OPS: i32 = 5_000;

/// Whether an operation that has run for `elapsed` is interrupted.
pub fn interrupts(elapsed: Span, limit: Span) -> (yes: bool)
    requires
        elapsed.wf(),
        limit.wf(),
    ensures
        yes == (elapsed.total_nanos() > limit.total_nanos()),
{
    elapsed.secs > limit.secs || (elapsed.secs == limit.secs && elapsed.nanos > limit.nanos)
}

/// How a handle reaches the database.
#[derive(Clone, Copy, Debug, PartialEq, Eq, Structural)]
pub enum HandleKind {
    Live,
    DryRun,
}

/// Which connection serves an access.
#[derive(Clone, Copy, Debug, PartialEq, Eq, Structural)]
pub enum Route {
    /// The writer, under its lock.
    Writer,
    /// A reader of the pool.
    Pool,
    /// The connection that the dry run holds: it sees its own writes.
    DryRunConnection,
}

/// Which connection serves an access through a handle.
pub fn route(handle: HandleKind, write: bool) -> (route: Route)
    ensures
        handle == HandleKind::DryRun <==> route == Route::DryRunConnection,
        handle == HandleKind::Live ==> route == (if write {
            Route::Writer
        } else {
            Route::Pool
        }),
{
    match handle {
        HandleKind::DryRun => Route::DryRunConnection,
        HandleKind::Live => if write {
            Route::Writer
        } else {
            Route::Pool
        },
    }
}

// ---------------------------------------------------------------- dry run
/// A step of a dry run, which holds the writer from start to end.
#[derive(Clone, Copy, Debug, PartialEq, Eq, Structural)]
pub enum DryRunStep {
    /// Set the savepoint.
    Savepoint,
    /// Run the body on the writer's connection.
    Body,
    /// Undo everything and let the savepoint go.
    Rollback,
    /// The rollback failed: let the savepoint go at least.
    Release,
    /// The body's result is returned.
    Finished,
    /// The savepoint could not be set: nothing was run.
    Refused,
}

/// The step after a step that went well, or did not.
pub open spec fn dry_run_after(step: DryRunStep, ok: bool) -> DryRunStep {
    match step {
        DryRunStep::Savepoint => if ok {
            DryRunStep::Body
        } else {
            DryRunStep::Refused
        },
        DryRunStep::Body => DryRunStep::Rollback,
        DryRunStep::Rollback => if ok {
            DryRunStep::Finished
        } else {
            DryRunStep::Release
        },
        DryRunStep::Release => DryRunStep::Finished,
        DryRunStep::Finished => DryRunStep::Finished,
        DryRunStep::Refused => DryRunStep::Refused,
    }
}

impl DryRunStep {
    /// The next step.
    pub fn next(self, ok: bool) -> (step: DryRunStep)
        ensures
            step == dry_run_after(self, ok),
    {
        match self {
            DryRunStep::Savepoint => if ok {
                DryRunStep::Body
            } else {
                DryRunStep::Refused
            },
            DryRunStep::Body => DryRunStep::Rollback,
            DryRunStep::Rollback => if ok {
                DryRunStep::Finished
            } else {
                DryRunStep::Release
            },
            DryRunStep::Release => DryRunStep::Finished,
            DryRunStep::Finished => DryRunStep::Finished,
            DryRunStep::Refused => DryRunStep::Refused,
        }
    }

    /// The statement of a step.
    pub open spec fn statement(self) -> Option<Seq<char>> {
        match self {
            DryRunStep::Savepoint => Some("SAVEPOINT valqeron_dry_run"@),
            DryRunStep::Rollback => Some(
                "ROLLBACK TO valqeron_dry_run; RELEASE valqeron_dry_run"@,
            ),
            DryRunStep::Release => Some("RELEASE valqeron_dry_run"@),
            _ => None,
        }
    }

    /// The statement of a step; `None` where there is none to execute.
    pub fn sql(self) -> (sql: Option<&'static str>)
        ensures
            sql is Some <==> self.statement() is Some,
            sql matches Some(s) ==> self.statement() == Some(s@),
    {
        match self {
            DryRunStep::Savepoint => Some("SAVEPOINT valqeron_dry_run"),
            DryRunStep::Rollback => Some("ROLLBACK TO valqeron_dry_run; RELEASE valqeron_dry_run"),
            DryRunStep::Release => Some("RELEASE valqeron_dry_run"),
            _ => None,
        }
    }
}

/// A body that was run is always rolled back, however it went, and its
/// result is returned even where the rollback fails.
pub proof fn law_a_dry_run_always_rolls_back(body_ok: bool, rollback_ok: bool, release_ok: bool)
    ensures
        dry_run_after(DryRunStep::Body, body_ok) == DryRunStep::Rollback,
        ({
            let undone = dry_run_after(DryRunStep::Rollback, rollback_ok);
            undone == DryRunStep::Finished || dry_run_after(undone, release_ok)
                == DryRunStep::Finished
        }),
{
}

/// A body is only run inside a savepoint.
pub proof fn law_a_dry_run_runs_inside_a_savepoint(step: DryRunStep, ok: bool)
    requires
        dry_run_after(step, ok) == DryRunStep::Body,
    ensures
        step == DryRunStep::Savepoint,
        ok,
{
}

// ---------------------------------------------------------------- upkeep
/// What maintenance starts with.
pub const OPTIMIZE: &'static str = "PRAGMA optimize;";

/// The checkpoint of maintenance: it never blocks other connections.
pub const PASSIVE_CHECKPOINT: &'static str = "PRAGMA wal_checkpoint(PASSIVE);";

/// The checkpoint of a close, when everything else has stopped.
pub const TRUNCATE_CHECKPOINT: &'static str = "PRAGMA wal_checkpoint(TRUNCATE);";

/// What a maintenance run reports: the checkpoint's numbers, or the first
/// failure. `optimized` comes first; the checkpoint is not asked for where
/// it failed.
pub fn run_maintenance(
    optimized: Result<(), String>,
    checkpoint: Option<Result<WalCheckpointStats, String>>,
) -> (report: Result<WalCheckpointStats, SqliteError>)
    ensures
        report is Ok <==> optimized is Ok && (checkpoint matches Some(Ok(_))),
        report matches Ok(stats) ==> checkpoint == Some(
            Ok::<WalCheckpointStats, String>(stats),
        ),
        report matches Err(e) ==> e is Maintenance,
        optimized matches Err(cause) ==> (report matches Err(SqliteError::Maintenance { source })
            && source@ == cause@),
        optimized is Ok ==> (checkpoint matches Some(Err(cause)) ==> (report matches Err(
            SqliteError::Maintenance { source },
        ) && source@ == cause@)),
{
    match optimized {
        Err(source) => Err(SqliteError::Maintenance { source }),
        Ok(_) => match checkpoint {
            Some(Ok(stats)) => Ok(stats),
            Some(Err(source)) => Err(SqliteError::Maintenance { source }),
            None => Err(SqliteError::Maintenance { source: "no checkpoint was made".to_owned() }),
        },
    }
}

// ---------------------------------------------------------------- migrations
/// The versions that a schema still lacks, in order.
pub open spec fn lacking(current: int, known: int) -> Seq<i64> {
    Seq::new((known - current) as nat, |i: int| (current + 1 + i) as i64)
}

/// The migrations that bring a schema from `current` to the newest of the
/// `known` ones. A schema from the future is refused rather than skipped.
pub fn pending_migrations(current: i64, known: usize) -> (versions: Result<Vec<i64>, SqliteError>)
    requires
        known <= i64::MAX,
    ensures
        versions is Ok <==> 0 <= current <= known,
        versions matches Ok(v) ==> v@ == lacking(current as int, known as int),
        versions matches Err(e) ==> (e matches SqliteError::UnknownSchemaVersion {
            found,
            known: newest,
        } && found == current && newest == known),
{
    if current < 0 || current > known as i64 {
        return Err(SqliteError::UnknownSchemaVersion { found: current, known });
    }
    let mut versions: Vec<i64> = Vec::new();
    let mut next: i64 = current;
    assert(versions@ =~= lacking(current as int, current as int));
    while next < known as i64
        invariant
            0 <= current <= next <= known <= i64::MAX,
            versions@ == lacking(current as int, next as int),
        decreases known - next,
    {
        next += 1;
        versions.push(next);
        assert(versions@ =~= lacking(current as int, next as int));
    }
    Ok(versions)
}

/// Migrating leaves the newest version behind, so that migrating again does
/// nothing.
pub proof fn law_migrating_twice_is_migrating_once(current: int, known: int)
    requires
        0 <= current <= known <= i64::MAX,
    ensures
        lacking(known, known).len() == 0,
        current < known ==> lacking(current, known).last() == known,
        forall|i: int| 0 <= i < lacking(current, known).len() ==> #[trigger] lacking(
            current,
            known,
        )[i] == current + 1 + i,
{
}

/// A dry run takes its savepoint, runs the body, and undoes it by name; where
/// the undoing fails the savepoint is let go of, and without a savepoint
/// nothing is run.
pub proof fn law_a_dry_run_goes_step_by_step(ok: bool)
    ensures
        dry_run_after(DryRunStep::Savepoint, true) == DryRunStep::Body,
        dry_run_after(DryRunStep::Savepoint, false) == DryRunStep::Refused,
        dry_run_after(DryRunStep::Rollback, true) == DryRunStep::Finished,
        dry_run_after(DryRunStep::Rollback, false) == DryRunStep::Release,
        dry_run_after(DryRunStep::Release, ok) == DryRunStep::Finished,
        dry_run_after(DryRunStep::Finished, ok) == DryRunStep::Finished,
        dry_run_after(DryRunStep::Refused, ok) == DryRunStep::Refused,
        DryRunStep::Savepoint.statement() == Some("SAVEPOINT valqeron_dry_run"@),
        DryRunStep::Rollback.statement() == Some(
            "ROLLBACK TO valqeron_dry_run; RELEASE valqeron_dry_run"@,
        ),
        DryRunStep::Release.statement() == Some("RELEASE valqeron_dry_run"@),
        DryRunStep::Body.statement() is None && DryRunStep::Finished.statement() is None
            && DryRunStep::Refused.statement() is None,
{
}

/// Every connection enforces foreign keys, waits for locks as configured and
/// syncs as configured; only the writer sets the journal mode, and only a
/// reader is kept from writing.
pub proof fn law_connections_are_configured_alike(
    role: ConnectionRole,
    synchronous: Synchronous,
    busy_timeout: Span,
)
    ensures
        ({
            let settings = configuration(role, synchronous, busy_timeout);
            &&& settings.contains(pragma_state("foreign_keys"@, "ON"@))
            &&& settings.contains(SettingState::BusyTimeout(busy_timeout))
            &&& synchronous == Synchronous::Full ==> settings.contains(
                pragma_state("synchronous"@, "FULL"@),
            )
            &&& synchronous == Synchronous::Normal ==> settings.contains(
                pragma_state("synchronous"@, "NORMAL"@),
            )
            &&& role == ConnectionRole::Writer ==> settings[0] == pragma_state(
                "journal_mode"@,
                "WAL"@,
            ) && settings.len() == 9
            &&& role == ConnectionRole::Reader ==> settings[0] == (SettingState::Query {
                name: "journal_mode"@,
            }) && settings.last() == pragma_state("query_only"@, "ON"@) && settings.len() == 10
            &&& settings.contains(pragma_state("cache_size"@, "-64000"@))
            &&& settings.contains(pragma_state("temp_store"@, "MEMORY"@))
            &&& settings.contains(pragma_state("mmap_size"@, "268435456"@))
            &&& settings.contains(pragma_state("wal_autocheckpoint"@, "1000"@))
            &&& settings.contains(SettingState::StatementCache(64))
        }),
{
    let settings = configuration(role, synchronous, busy_timeout);
    assert(settings[1] == pragma_state("synchronous"@, synchronous.name()));
    assert(settings[2] == pragma_state("foreign_keys"@, "ON"@));
    assert(settings[3] == SettingState::BusyTimeout(busy_timeout));
    assert(settings[4] == pragma_state("cache_size"@, "-64000"@));
    assert(settings[5] == pragma_state("temp_store"@, "MEMORY"@));
    assert(settings[6] == pragma_state("mmap_size"@, "268435456"@));
    assert(settings[7] == pragma_state("wal_autocheckpoint"@, "1000"@));
    assert(settings[8] == SettingState::StatementCache(64));
}

/// A pragma that is set.
pub open spec fn pragma_state(name: Seq<char>, value: Seq<char>) -> SettingState {
    SettingState::Pragma { name, value }
}

/// The writer comes first, then the migrations, then the readers.
pub proof fn law_the_writer_is_opened_first(reader_pool_size: nat)
    ensures
        opening(reader_pool_size).len() == reader_pool_size + 2,
        opening(reader_pool_size)[0] == OpenStep::Connect(ConnectionRole::Writer),
        opening(reader_pool_size)[1] == OpenStep::Migrate,
        MAX_DEFAULT_READERS == 6 && FALLBACK_READERS == 2 && BUSY_TIMEOUT_SECS == 5,
        MAX_OPERATION_EXECUTION_SECS == 15,
{
}

/// The lacking migrations are exactly the versions after the current one up
/// to the newest, each once and in order.
pub proof fn law_migrations_close_the_gap(current: int, known: int, version: int)
    requires
        0 <= current <= known <= i64::MAX,
    ensures
        lacking(current, known).len() == known - current,
        current < version <= known ==> lacking(current, known)[version - current - 1] == version,
{
}

} // verus!
