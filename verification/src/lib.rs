//! The engine of the Valqeron daemon: scheduling, durable queueing, crash
//! recovery, configuration and lifecycle rules, with their contracts proved.
pub mod backoff;
pub mod calendar;
pub mod catalog;
pub mod catalog_laws;
pub mod cli;
pub mod cli_laws;
pub mod config;
pub mod config_laws;
pub mod cursor;
pub mod database;
pub mod engine;
pub mod error;
pub mod execute;
pub mod exit_code;
pub mod grpc;
pub mod history;
pub mod jobs;
pub mod lifecycle;
pub mod lockfile;
pub mod manager;
pub mod moment;
pub mod notify;
pub mod paths;
pub mod plane;
pub mod proto;
pub mod queue;
pub mod queue_laws;
pub mod registry;
pub mod registry_rows;
pub mod row_laws;
pub mod rows;
pub mod run_laws;
pub mod runtime;
pub mod schedule;
pub mod schema;
mod seqs;
pub mod serve;
pub mod service;
pub mod settings;
pub mod span;
pub mod stats;
pub mod sync_laws;
pub mod sync_plane;
pub mod table;
pub mod task_queue;
pub mod text;
pub mod triggers;
