//! Presence and backup reconciliation for a small fleet of game servers.
//!
//! The library holds the control-loop logic: diffing player rosters against
//! persisted state, composing the single status notification per server,
//! deciding when a backup cycle is due, sequencing the quiesce protocol, and
//! selecting stale archives for pruning. All I/O (game-server consoles, the
//! chat API, remote storage, the process clock) stays outside; callers feed
//! plain values in and carry the decided actions out.

pub mod backup;
pub mod commands;
pub mod connection;
pub mod console;
pub mod error;
pub mod message;
pub mod players;
pub mod quiesce;
pub mod records;
pub mod store;
pub mod tracker;
pub mod utils;
