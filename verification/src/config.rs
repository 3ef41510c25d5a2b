//! Immutable configuration of the supervisor: one suppression flag per log
//! category and the total failure timeout.

use vstd::prelude::*;

verus! {

/// Suppression flags per log category and the total failure timeout.
/// Produced once at startup by the command-line layer and read-only
/// thereafter.
#[derive(Clone, Copy, Debug, PartialEq, Eq, Structural)]
pub struct SupervisorConfig {
    /// Suppress records about newly created descendants.
    pub ignore_new_processes: bool,
    /// Suppress records about descendants that exited or were signal-killed.
    pub ignore_exited_processes: bool,
    /// Suppress records about executed commands.
    pub ignore_executed_commands: bool,
    /// Suppress records about filter-stop events.
    pub ignore_seccomp_events: bool,
    /// Suppress records about syscall stops.
    pub ignore_syscalls: bool,
    /// Suppress records about unrecognized wait statuses.
    pub ignore_unknown_statuses: bool,
    /// Suppress records about unrecognized trace events.
    pub ignore_unknown_events: bool,
    /// Total time budget of the shutdown escalation, in milliseconds.
    pub failure_timeout_ms: u64,
}

} // verus!
