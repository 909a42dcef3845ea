//! Incremental replication of a snapshot-based dataset, driven by bookmarks.
//!
//! The crate decides; it never runs a command. A caller executes each
//! [`command::Command`] against the storage engine and hands the captured
//! result back to [`replication::Replication::step`].
//!
//! - [`lines`] splits captured output into lines.
//! - [`command`] holds the requests and their argument lists.
//! - [`dataset`] holds filesystems, snapshots and bookmarks.
//! - [`protocol`] is the bookmark rotation as a mathematical state machine,
//!   and [`replication`] the run that follows it.
//! - [`engine`] is a model of the storage engine, [`play`] a run played
//!   against it, [`laws`] what holds of every such play, and [`witness`] two
//!   plays that happen.

pub mod command;
pub mod dataset;
pub mod engine;
pub mod laws;
pub mod lines;
pub mod play;
pub mod protocol;
pub mod replication;
pub mod witness;
