//! Verified core of a release watcher.
//!
//! The crate holds the decisions of a process that polls repositories for
//! their latest release, compares what it finds with what it has stored, and
//! hands each change to the configured alert providers.  Nothing here touches
//! the network, the disk or a clock: every subsystem is a state machine that
//! is told what happened and answers with what to do next.

pub mod cli;
pub mod config;
pub mod db;
pub mod server;
pub mod shutdown;
