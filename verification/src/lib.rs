//! Verified core of a checkpoint/restore supervisor for a long-running
//! application: the decision logic that picks between cold start and restore,
//! merges the persisted application configuration, drives the restore and
//! cold-start pipelines in order, proxies signals, synthesizes exit codes,
//! and answers control-socket requests. All I/O (process spawning, sockets,
//! files, signals) is performed by an unverified front end that consults the
//! functions in this crate for every decision.

pub mod clock;
pub mod command;
pub mod config;
pub mod consts;
pub mod daemon;
pub mod decimal;
pub mod error;
pub mod logger;
pub mod manifest;
pub mod pgroup;
pub mod pipeline;
pub mod run;
pub mod store;
pub mod supervisor;
