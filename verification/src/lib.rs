//! A small daemon's verified core: it records that the running release is a
//! dead end (it will not auto-update) by atomically writing a message-of-the-day
//! file, on request of a single bus method.
//!
//! The library holds the logic: rendering the announcement line, choosing the
//! target path and permission bits for the run mode, the atomic-write protocol
//! over a model of the target directory, and the daemon's state machine.  The
//! surrounding process performs the bus and filesystem calls and drives these
//! functions with their outcomes.

pub mod dir_model;
pub mod motd;
pub mod service;
