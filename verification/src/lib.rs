//! Supervision of a single long-running backend process.
//!
//! The crate holds the decisions of a process supervisor as verified
//! functions on plain values: whether a backend already serves the expected
//! endpoint, how the executable search path is repaired before a launch,
//! when a launch is allowed, what stopping hands back for termination, and
//! which records the output relay forwards. Connecting, spawning, killing
//! and printing are left to the program that embeds it.

pub mod probe;
pub mod search_path;
pub mod repair_laws;
pub mod environment;
pub mod environment_laws;
pub mod supervisor;
pub mod supervisor_laws;
pub mod relay;
pub mod relay_laws;
