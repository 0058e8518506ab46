//! Supervision of one auxiliary worker process that runs beside a desktop shell.
//!
//! The library holds the decisions: where the worker's files are found in each
//! build mode, whether a start has to launch anything, what the launch looks
//! like, and what a stop has to terminate. Probing the filesystem, spawning and
//! killing are left to the caller, which feeds their outcomes back in.

pub mod launch;
pub mod paths;
pub mod supervisor;
