//! The plan of a database, carried out on SQLite files.
use rusqlite::{Connection, ErrorCode, OpenFlags, TransactionBehavior};
use std::path::Path;
use std::sync::Mutex;
use std::time::Duration;
use valqeron_engine::database::{
    configure, default_reader_pool_size, interrupts, lock_writer, open_mode, open_with_config,
    pending_migrations, route, run_maintenance, ConnectionRole, DatabaseConfig, DryRunStep,
    HandleKind, OpenStep, Route, Setting, SqliteError, Synchronous, WaitPool, WalCheckpointStats,
    WriterCare, MAX_OPERATION_EXECUTION_SECS, OPTIMIZE, PASSIVE_CHECKPOINT, TRUNCATE_CHECKPOINT,
};
use valqeron_engine::schema::{migration, NEWEST_VERSION};
use valqeron_engine::span::Span;

fn default_config() -> DatabaseConfig {
    DatabaseConfig::for_machine(Some(2))
}

fn connect(path: &Path, role: ConnectionRole) -> Connection {
    let mode = open_mode(role);
    let mut flags = if mode.read_only {
        OpenFlags::SQLITE_OPEN_READ_ONLY
    } else {
        OpenFlags::SQLITE_OPEN_READ_WRITE
    };
    if mode.create {
        flags |= OpenFlags::SQLITE_OPEN_CREATE;
    }
    Connection::open_with_flags(path, flags).unwrap()
}

fn apply(conn: &Connection, settings: &[Setting]) {
    for setting in settings {
        match setting {
            Setting::Pragma { name, value } => conn.pragma_update(None, name, value).unwrap(),
            Setting::Query { name } => {
                conn.pragma_query_value(None, name, |row| row.get::<_, String>(0))
                    .unwrap();
            }
            Setting::BusyTimeout(span) => conn
                .busy_timeout(Duration::new(span.secs, span.nanos))
                .unwrap(),
            Setting::StatementCache(n) => conn.set_prepared_statement_cache_capacity(*n),
        }
    }
}

fn user_version(conn: &Connection) -> i64 {
    conn.pragma_query_value(None, "user_version", |row| row.get(0))
        .unwrap()
}

fn migrate(conn: &mut Connection) -> Result<(), SqliteError> {
    for version in pending_migrations(user_version(conn), NEWEST_VERSION)? {
        let tx = conn
            .transaction_with_behavior(TransactionBehavior::Exclusive)
            .unwrap();
        tx.execute_batch(migration(version).unwrap()).unwrap();
        tx.pragma_update(None, "user_version", version).unwrap();
        tx.commit().unwrap();
    }
    Ok(())
}

struct Database {
    writer: Connection,
    readers: WaitPool<Connection>,
}

fn open_at(path: &Path, config: DatabaseConfig) -> Result<Database, SqliteError> {
    let mut connections = Vec::new();
    for step in open_with_config(&config)? {
        match step {
            OpenStep::Connect(role) => {
                let conn = connect(path, role);
                apply(
                    &conn,
                    &configure(role, config.synchronous, config.busy_timeout),
                );
                connections.push(conn);
            }
            OpenStep::Migrate => migrate(&mut connections[0])?,
        }
    }
    let readers = connections.split_off(1);
    Ok(Database {
        writer: connections.remove(0),
        readers: WaitPool::new(readers),
    })
}

impl Database {
    fn read<T>(&mut self, f: impl FnOnce(&Connection) -> T) -> T {
        let conn = self.readers.take().expect("an idle reader");
        let value = f(&conn);
        self.readers.put(conn);
        value
    }

    fn dry_run<T>(&self, f: impl FnOnce(&Connection) -> T) -> Option<T> {
        let mut body = Some(f);
        let mut value = None;
        let mut step = DryRunStep::Savepoint;
        loop {
            step = match step {
                DryRunStep::Finished => return value,
                DryRunStep::Refused => return None,
                DryRunStep::Body => {
                    assert_eq!(route(HandleKind::DryRun, true), Route::DryRunConnection);
                    value = body.take().map(|f| f(&self.writer));
                    step.next(true)
                }
                other => {
                    let sql = other.sql().expect("a statement");
                    other.next(self.writer.execute_batch(sql).is_ok())
                }
            }
        }
    }
}

fn open_temp_with_config(config: DatabaseConfig) -> (tempfile::TempDir, Database) {
    let dir = tempfile::tempdir().unwrap();
    let db = open_at(&dir.path().join("test.db"), config).expect("open temp test database");
    (dir, db)
}

fn open_temp() -> (tempfile::TempDir, Database) {
    open_temp_with_config(default_config())
}

fn insert_dummy_result(conn: &Connection) -> rusqlite::Result<()> {
    conn.execute_batch(
        "INSERT INTO issuer (id, status, created_at)
         VALUES (randomblob(16), 'ACTIVE', '2026-01-01T00:00:00Z')",
    )
}

fn insert_dummy(conn: &Connection) {
    insert_dummy_result(conn).unwrap();
}

fn count(conn: &Connection) -> i64 {
    conn.query_row("SELECT COUNT(*) FROM issuer", [], |row| row.get(0))
        .unwrap()
}

fn number(conn: &Connection, pragma: &str) -> i64 {
    conn.pragma_query_value(None, pragma, |row| row.get(0))
        .unwrap()
}

// ---------------------------------------------------------------- migrations
#[test]
fn fresh_database_ends_up_at_latest_version() {
    let (_dir, mut db) = open_temp();
    let version = db.read(user_version);
    assert_eq!(version, NEWEST_VERSION as i64);
}

#[test]
fn opening_twice_is_a_harmless_no_op() {
    let dir = tempfile::tempdir().unwrap();
    let path = dir.path().join("twice.db");
    let first = open_at(&path, default_config()).unwrap();
    drop(first);
    // Reopening runs migrations again over an already-migrated file.
    let _second = open_at(&path, default_config()).unwrap();
}

#[test]
fn v3_database_upgrades_to_latest_with_the_new_engine_tables() {
    let dir = tempfile::tempdir().unwrap();
    let path = dir.path().join("upgrade.db");

    // Apply the first three migrations by hand and stamp the version.
    {
        let conn = Connection::open(&path).unwrap();
        for version in 1..=3 {
            conn.execute_batch(migration(version).unwrap()).unwrap();
        }
        conn.pragma_update(None, "user_version", 3).unwrap();
    }

    let mut conn = Connection::open(&path).unwrap();
    migrate(&mut conn).unwrap();

    assert_eq!(user_version(&conn), NEWEST_VERSION as i64);
    for table in ["sync_cursor", "task_registration"] {
        let rows: i64 = conn
            .query_row(&format!("SELECT COUNT(*) FROM {table}"), [], |row| {
                row.get(0)
            })
            .unwrap();
        assert_eq!(rows, 0, "{table} exists and is empty");
    }
}

#[test]
fn there_is_a_migration_for_every_version() {
    assert!(migration(0).is_none());
    assert!(migration(1).unwrap().contains("CREATE TABLE issuer"));
    assert!(migration(4).unwrap().contains("CREATE TABLE sync_cursor"));
    assert!(migration(NEWEST_VERSION as i64).is_some());
    assert!(migration(NEWEST_VERSION as i64 + 1).is_none());
}

#[test]
fn schema_from_the_future_is_rejected_rather_than_silently_skipped() {
    let dir = tempfile::tempdir().unwrap();
    let mut conn = Connection::open(dir.path().join("future.db")).unwrap();

    conn.pragma_update(None, "user_version", (NEWEST_VERSION as i64) + 5)
        .unwrap();

    let result = migrate(&mut conn);
    assert!(matches!(
        result,
        Err(SqliteError::UnknownSchemaVersion { .. })
    ));
    assert_eq!(
        result.unwrap_err().message(),
        "database schema version 10 is newer than the 5 migration(s) this binary knows about — \
         upgrade the binary"
    );
}

#[test]
fn missing_migrations_are_applied_in_order() {
    assert_eq!(pending_migrations(0, 3).unwrap(), vec![1, 2, 3]);
    assert_eq!(pending_migrations(2, 3).unwrap(), vec![3]);
    assert!(pending_migrations(3, 3).unwrap().is_empty());
    match pending_migrations(-1, 3) {
        Err(SqliteError::UnknownSchemaVersion { found, known }) => {
            assert_eq!((found, known), (-1, 3));
        }
        other => panic!("expected a refusal, got {other:?}"),
    }
}

// ---------------------------------------------------------------- opening
#[test]
fn invalid_pool_size_is_rejected() {
    let dir = tempfile::tempdir().unwrap();
    let result = open_at(
        &dir.path().join("invalid.db"),
        DatabaseConfig {
            reader_pool_size: 0,
            ..default_config()
        },
    );
    assert!(matches!(result, Err(SqliteError::InvalidPoolSize)));
}

#[test]
fn the_writer_and_the_migrations_come_before_the_readers() {
    let steps = open_with_config(&default_config()).unwrap();
    assert_eq!(
        steps,
        vec![
            OpenStep::Connect(ConnectionRole::Writer),
            OpenStep::Migrate,
            OpenStep::Connect(ConnectionRole::Reader),
            OpenStep::Connect(ConnectionRole::Reader),
        ]
    );
}

#[test]
fn readers_follow_the_parallelism_up_to_six() {
    assert_eq!(default_reader_pool_size(Some(1)), 1);
    assert_eq!(default_reader_pool_size(Some(6)), 6);
    assert_eq!(default_reader_pool_size(Some(64)), 6);
    assert_eq!(default_reader_pool_size(None), 2);
    assert_eq!(default_config().busy_timeout, Span::from_secs(5));
    assert_eq!(Synchronous::default(), Synchronous::Normal);
}

#[test]
fn journal_mode_is_wal() {
    let (_dir, db) = open_temp();
    let mode: String = db
        .writer
        .pragma_query_value(None, "journal_mode", |row| row.get(0))
        .unwrap();
    assert_eq!(
        mode.to_lowercase(),
        "wal",
        "writer should be in WAL mode"
    );
}

#[test]
fn synchronous_full_is_applied_to_the_writer_when_configured() {
    let (_dir, db) = open_temp_with_config(DatabaseConfig {
        synchronous: Synchronous::Full,
        ..default_config()
    });
    let level = number(&db.writer, "synchronous");
    assert_eq!(level, 2, "synchronous should be FULL (2) when configured");
}

#[test]
fn synchronous_defaults_to_normal_on_the_writer() {
    let (_dir, db) = open_temp();
    let level = number(&db.writer, "synchronous");
    assert_eq!(level, 1, "synchronous should default to NORMAL (1)");
}

#[test]
fn every_connection_is_tuned() {
    let (_dir, mut db) = open_temp();
    let check = |conn: &Connection| {
        assert_eq!(number(conn, "foreign_keys"), 1);
        assert_eq!(number(conn, "cache_size"), -64_000);
        assert_eq!(number(conn, "temp_store"), 2);
        assert_eq!(number(conn, "mmap_size"), 256 * 1024 * 1024);
        assert_eq!(number(conn, "wal_autocheckpoint"), 1000);
        assert_eq!(number(conn, "busy_timeout"), 5000);
    };
    check(&db.writer);
    db.read(check);
}

#[test]
fn reader_connections_are_query_only_and_writer_is_not() {
    let (_dir, mut db) = open_temp();
    assert_eq!(
        db.read(|reader| number(reader, "query_only")),
        1,
        "reader pragma query_only must be ON"
    );
    assert_eq!(
        number(&db.writer, "query_only"),
        0,
        "writer pragma query_only must be OFF"
    );
}

#[test]
fn reader_connections_are_read_only_at_the_sqlite_level() {
    let (_dir, mut db) = open_temp();
    let err = db
        .read(insert_dummy_result)
        .expect_err("write on a reader must fail");
    match err {
        rusqlite::Error::SqliteFailure(e, _) => {
            assert_eq!(
                e.code,
                ErrorCode::ReadOnly,
                "expected SQLITE_READONLY, got {e:?}"
            );
        }
        other => panic!("expected a SqliteFailure(ReadOnly), got {other:?}"),
    }
}

#[test]
fn two_handles_on_one_file_see_each_others_committed_writes() {
    let dir = tempfile::tempdir().unwrap();
    let path = dir.path().join("shared.db");

    let db_a = open_at(&path, default_config()).unwrap();
    let mut db_b = open_at(&path, default_config()).unwrap();

    insert_dummy(&db_a.writer);

    assert_eq!(db_b.read(count), 1);
}

#[test]
fn shared_types_are_send_and_sync() {
    fn assert_send_sync<T: Send + Sync>() {}
    assert_send_sync::<Mutex<WaitPool<Connection>>>();
    assert_send_sync::<DatabaseConfig>();
    assert_send_sync::<SqliteError>();
}

// ---------------------------------------------------------------- dry runs
#[test]
fn dry_run_rolls_back_writes() {
    let (_dir, mut db) = open_temp();

    db.dry_run(|conn| {
        insert_dummy(conn);
        assert_eq!(count(conn), 1, "write visible inside the dry-run");
    })
    .unwrap();

    // After the dry run, nothing persisted.
    assert_eq!(db.read(count), 0);
}

#[test]
fn dry_run_returns_closure_value() {
    let (_dir, db) = open_temp();
    let n = db
        .dry_run(|conn| {
            insert_dummy(conn);
            count(conn)
        })
        .unwrap();
    assert_eq!(n, 1);
}

#[test]
fn dry_run_does_not_roll_back_committed_writes_on_other_connections() {
    let (_dir, mut db) = open_temp();

    insert_dummy(&db.writer);
    assert_eq!(db.read(count), 1);

    db.dry_run(|conn| {
        insert_dummy(conn);
        assert_eq!(count(conn), 2, "sees its own + the committed row");
    })
    .unwrap();

    assert_eq!(db.read(count), 1);
}

#[test]
fn without_a_dry_run_writes_persist_normally() {
    let (_dir, mut db) = open_temp();
    insert_dummy(&db.writer);
    assert_eq!(db.read(count), 1);
}

#[test]
fn a_dry_run_always_rolls_back() {
    assert_eq!(DryRunStep::Savepoint.next(false), DryRunStep::Refused);
    for ok in [false, true] {
        assert_eq!(DryRunStep::Body.next(ok), DryRunStep::Rollback);
        assert_eq!(DryRunStep::Release.next(ok), DryRunStep::Finished);
    }
    assert_eq!(DryRunStep::Rollback.next(true), DryRunStep::Finished);
    assert_eq!(DryRunStep::Rollback.next(false), DryRunStep::Release);
    assert_eq!(DryRunStep::Body.sql(), None);
}

#[test]
fn accesses_are_routed_by_handle() {
    assert_eq!(route(HandleKind::Live, true), Route::Writer);
    assert_eq!(route(HandleKind::Live, false), Route::Pool);
    assert_eq!(route(HandleKind::DryRun, false), Route::DryRunConnection);
}

// ---------------------------------------------------------------- the writer
#[test]
fn a_stranded_transaction_is_rolled_back() {
    let (_dir, db) = open_temp();
    db.writer.execute_batch("BEGIN").unwrap();
    insert_dummy(&db.writer);
    assert_eq!(
        lock_writer(true, db.writer.is_autocommit()),
        WriterCare::Rollback
    );
    db.writer.execute_batch("ROLLBACK").unwrap();
    assert_eq!(
        lock_writer(true, db.writer.is_autocommit()),
        WriterCare::Recovered
    );
    assert_eq!(
        lock_writer(false, db.writer.is_autocommit()),
        WriterCare::Sound
    );
    assert_eq!(count(&db.writer), 0);
}

#[test]
fn an_operation_is_interrupted_past_its_limit() {
    let limit = Span::from_secs(MAX_OPERATION_EXECUTION_SECS);
    assert!(!interrupts(Span::from_secs(15), limit));
    assert!(interrupts(Span { secs: 15, nanos: 1 }, limit));
    assert!(!interrupts(Span::from_millis(14_999), limit));
}

// ---------------------------------------------------------------- upkeep
#[test]
fn maintenance_reports_the_checkpoint() {
    let (_dir, db) = open_temp();
    insert_dummy(&db.writer);
    let checkpoint = |sql: &str| {
        db.writer
            .query_row(sql, [], |row| {
                Ok(WalCheckpointStats {
                    busy: row.get(0)?,
                    log_frames: row.get(1)?,
                    checkpointed_frames: row.get(2)?,
                })
            })
            .map_err(|e| e.to_string())
    };
    let optimized = db
        .writer
        .execute_batch(OPTIMIZE)
        .map_err(|e| e.to_string());
    let stats = run_maintenance(optimized, Some(checkpoint(PASSIVE_CHECKPOINT))).unwrap();
    assert_eq!(stats.busy, 0);
    assert_eq!(stats.log_frames, stats.checkpointed_frames);
    let truncated = checkpoint(TRUNCATE_CHECKPOINT).unwrap();
    assert_eq!(truncated.log_frames, 0);
}

#[test]
fn maintenance_reports_its_first_failure() {
    for report in [
        run_maintenance(Err("x".into()), None),
        run_maintenance(Ok(()), Some(Err("x".into()))),
    ] {
        match report {
            Err(SqliteError::Maintenance { source }) => assert_eq!(source, "x"),
            other => panic!("expected a failure, got {other:?}"),
        }
    }
}

#[test]
fn every_database_error_has_its_message() {
    let source = String::new;
    for (e, message) in [
        (
            SqliteError::Connection { source: source() },
            "failed to open sqlite connection",
        ),
        (
            SqliteError::Pragma { source: source() },
            "failed to configure connection",
        ),
        (
            SqliteError::Migration { source: source() },
            "failed to apply schema migrations",
        ),
        (
            SqliteError::Maintenance { source: source() },
            "database maintenance failed",
        ),
        (
            SqliteError::InvalidPoolSize,
            "reader pool size must be at least 1",
        ),
    ] {
        assert_eq!(e.message(), message);
    }
    let e = SqliteError::UnknownSchemaVersion {
        found: i64::MIN,
        known: 1,
    };
    assert!(e.message().contains(" -9223372036854775808 "));
}

// ---------------------------------------------------------------- the pool
#[test]
fn single_item_is_never_lost_or_duplicated_under_contention() {
    let mut pool = WaitPool::new(vec![0usize]);
    let item = pool.take().unwrap();
    assert!(pool.take().is_none(), "the single item is out");
    pool.put(item);
    assert_eq!(pool.idle(), 1);
    assert_eq!(pool.take(), Some(0));
}

#[test]
fn blocked_take_is_woken_by_a_later_put() {
    let mut pool: WaitPool<usize> = WaitPool::new(vec![]);
    assert_eq!(pool.take(), None);
    pool.put(7);
    assert_eq!(pool.take(), Some(7));
}
