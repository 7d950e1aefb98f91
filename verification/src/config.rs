//! What `valqeron-engine run` runs with: the command line wins over the
//! environment, and that over the platform's defaults.
use crate::cli::{Cli, RunArgs};
use crate::database::Synchronous;
use crate::engine::{
    log_file_setting, no_data_dir_text, write_no_data_dir, DatabasePath, LogFilePath,
    DB_PATH_ENV, DEFAULT_ENGINE_DB_NAME, DEFAULT_VALQERON_APP,
    ENGINE_LOG_FILE_ENV,
};
use crate::error::EngineError;
use crate::notify::opt_bytes;
use crate::paths::{copy_bytes, joined, push_text};
use crate::span::Span;
use vstd::prelude::*;
use vstd::utf8::encode_utf8;

verus! {

/// The engine serves no reads of its own, so it keeps the smallest pool.
pub const READER_POOL_SIZE: usize = 1;

/// The lock file of a database: `.lock` after its whole name.
pub open spec fn lock_of(db_path: Seq<u8>) -> Seq<u8> {
    db_path + encode_utf8(".lock"@)
}

/// The lock file of a database, next to it.
pub fn lock_path_for(db_path: &Vec<u8>) -> (path: Vec<u8>)
    ensures
        path@ == lock_of(db_path@),
{
    let mut path = copy_bytes(db_path);
    push_text(&mut path, ".lock");
    path
}

/// Where the database is.
pub open spec fn db_setting(named: Option<Seq<u8>>, data_dir: Option<Seq<u8>>) -> Option<Seq<u8>> {
    match named {
        Some(path) => Some(path),
        None => match data_dir {
            Some(dir) => Some(joined(dir, encode_utf8(DEFAULT_ENGINE_DB_NAME@))),
            None => None,
        },
    }
}

/// Where the database is: where the line or the environment put it, else in
/// the platform's data directory.
pub fn resolve_db_path(cli: &Cli, data_dir: &Option<Vec<u8>>) -> (path: Result<
    Vec<u8>,
    EngineError,
>)
    ensures
        path is Ok <==> db_setting(opt_bytes(cli.db_path), opt_bytes(*data_dir)) is Some,
        path matches Ok(p) ==> db_setting(opt_bytes(cli.db_path), opt_bytes(*data_dir)) == Some(p@),
        path matches Err(e) ==> (e matches EngineError::Config(m) && m@ == no_data_dir_text(
            DEFAULT_VALQERON_APP@,
            DB_PATH_ENV@,
        )),
{
    match DatabasePath::resolve_with(&cli.db_path, data_dir) {
        Ok(path) => Ok(path.0),
        Err(e) => Err(EngineError::Config(write_no_data_dir(DEFAULT_VALQERON_APP, DB_PATH_ENV))),
    }
}

/// Where the log goes: nowhere where the line refuses it, to the file that
/// the line names, to the default one where it names none, else where the
/// environment says. The outer `None` means that no location is known.
pub open spec fn log_setting(
    run: RunArgs,
    env_value: Option<Seq<u8>>,
    data_dir: Option<Seq<u8>>,
) -> Option<Option<Seq<u8>>> {
    if run.no_log_file {
        Some(None)
    } else {
        match run.log_file {
            Some(path) if path@.len() > 0 => Some(Some(path@)),
            Some(_) => log_file_setting(None, data_dir),
            None => log_file_setting(env_value, data_dir),
        }
    }
}

/// Where the log goes.
pub fn resolve_log_file(
    run: &RunArgs,
    env_value: &Option<Vec<u8>>,
    data_dir: &Option<Vec<u8>>,
) -> (path: Result<Option<Vec<u8>>, EngineError>)
    ensures
        path is Ok <==> log_setting(*run, opt_bytes(*env_value), opt_bytes(*data_dir)) is Some,
        path matches Ok(p) ==> log_setting(*run, opt_bytes(*env_value), opt_bytes(*data_dir))
            == Some(opt_bytes(p)),
        path matches Err(e) ==> (e matches EngineError::Config(m) && m@ == no_data_dir_text(
            DEFAULT_VALQERON_APP@,
            ENGINE_LOG_FILE_ENV@,
        )),
{
    if run.no_log_file {
        return Ok(None);
    }
    let resolved = match run.log_file_arg() {
        Some(Some(path)) => {
            return Ok(Some(path));
        },
        Some(None) => LogFilePath::resolve_with(&None, data_dir),
        None => LogFilePath::resolve_with(env_value, data_dir),
    };
    match resolved {
        Ok(Some(path)) => Ok(Some(path.0)),
        Ok(None) => Ok(None),
        Err(e) => Err(
            EngineError::Config(write_no_data_dir(DEFAULT_VALQERON_APP, ENGINE_LOG_FILE_ENV)),
        ),
    }
}

/// The configuration of a foreground run.
#[derive(Clone, Debug)]
pub struct EngineConfig {
    pub db_path: Vec<u8>,
    /// `None` where logging to a file is off.
    pub log_file: Option<Vec<u8>>,
    pub durable: bool,
    pub maintenance_interval: Span,
    pub heartbeat_interval: Span,
}

/// An interval in seconds, at least one.
pub open spec fn at_least_one(secs: u64) -> u64 {
    if secs == 0 {
        1
    } else {
        secs
    }
}

fn clamped(secs: u64) -> (span: Span)
    ensures
        span.secs == at_least_one(secs),
        span.nanos == 0,
{
    if secs == 0 {
        Span::from_secs(1)
    } else {
        Span::from_secs(secs)
    }
}

impl EngineConfig {
    /// Resolves the configuration from the line, the log file variable and
    /// the platform's data directory.
    pub fn resolve(
        cli: &Cli,
        run: &RunArgs,
        env_log_file: &Option<Vec<u8>>,
        data_dir: &Option<Vec<u8>>,
    ) -> (config: Result<EngineConfig, EngineError>)
        ensures
            config is Ok <==> db_setting(opt_bytes(cli.db_path), opt_bytes(*data_dir)) is Some
                && log_setting(*run, opt_bytes(*env_log_file), opt_bytes(*data_dir)) is Some,
            config matches Ok(c) ==> {
                &&& db_setting(opt_bytes(cli.db_path), opt_bytes(*data_dir)) == Some(c.db_path@)
                &&& log_setting(*run, opt_bytes(*env_log_file), opt_bytes(*data_dir)) == Some(
                    opt_bytes(c.log_file),
                )
                &&& c.durable == run.durable
                &&& c.maintenance_interval.secs == at_least_one(run.maintenance_interval)
                &&& c.maintenance_interval.nanos == 0
                &&& c.heartbeat_interval.secs == at_least_one(run.heartbeat_interval)
                &&& c.heartbeat_interval.nanos == 0
            },
            config matches Err(e) ==> (e matches EngineError::Config(m) && m@ == no_data_dir_text(
                DEFAULT_VALQERON_APP@,
                if db_setting(opt_bytes(cli.db_path), opt_bytes(*data_dir)) is None {
                    DB_PATH_ENV@
                } else {
                    ENGINE_LOG_FILE_ENV@
                },
            )),
    {
        let db_path = match resolve_db_path(cli, data_dir) {
            Ok(path) => path,
            Err(e) => {
                return Err(e);
            },
        };
        let log_file = match resolve_log_file(run, env_log_file, data_dir) {
            Ok(path) => path,
            Err(e) => {
                return Err(e);
            },
        };
        Ok(
            EngineConfig {
                db_path,
                log_file,
                durable: run.durable,
                maintenance_interval: clamped(run.maintenance_interval),
                heartbeat_interval: clamped(run.heartbeat_interval),
            },
        )
    }

    pub fn db_path(&self) -> (path: &Vec<u8>)
        ensures
            path@ == self.db_path@,
    {
        &self.db_path
    }

    pub fn lock_path(&self) -> (path: Vec<u8>)
        ensures
            path@ == lock_of(self.db_path@),
    {
        lock_path_for(&self.db_path)
    }

    pub fn log_file(&self) -> (path: Option<&Vec<u8>>)
        ensures
            path is Some <==> self.log_file is Some,
            path matches Some(p) ==> opt_bytes(self.log_file) == Some(p@),
    {
        match &self.log_file {
            Some(path) => Some(path),
            None => None,
        }
    }

    pub fn synchronous(&self) -> (synchronous: Synchronous)
        ensures
            synchronous == (if self.durable {
                Synchronous::Full
            } else {
                Synchronous::Normal
            }),
    {
        if self.durable {
            Synchronous::Full
        } else {
            Synchronous::Normal
        }
    }

    pub fn durability_label(&self) -> (label: &'static str)
        ensures
            label@ == (if self.durable {
                "strict"@
            } else {
                "relaxed"@
            }),
    {
        if self.durable {
            "strict"
        } else {
            "relaxed"
        }
    }

    pub fn maintenance_interval(&self) -> (interval: Span)
        ensures
            interval == self.maintenance_interval,
    {
        self.maintenance_interval
    }

    pub fn heartbeat_interval(&self) -> (interval: Span)
        ensures
            interval == self.heartbeat_interval,
    {
        self.heartbeat_interval
    }
}

} // verus!
