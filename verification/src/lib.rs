//! Core of a minimal process-tracing supervisor.
//!
//! The library holds the verified logic of the supervisor: classifying the
//! state changes that the wait primitive reports, keeping the count of live
//! descendants, deriving the supervisor's final exit status, scheduling the
//! shutdown signal escalation, sanitizing the environment handed to the
//! traced program, and formatting a raw command-line buffer for logging.
//! The thin outer layer that performs the actual process control calls
//! drives these functions and carries out the actions they decide.

pub mod cmdline;
pub mod config;
pub mod environ;
pub mod event;
pub mod launcher;
pub mod param;
pub mod shutdown;
pub mod supervisor;

