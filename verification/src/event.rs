//! The wait-status model: one tagged value per state change that the wait
//! primitive reports, the structured log records the supervisor emits, and
//! the errors that abort the event loop.

use vstd::prelude::*;

verus! {

/// The kind of a trace stop reported for a traced process.
#[derive(Clone, Copy, Debug, PartialEq, Eq, Structural)]
pub enum TraceKind {
    /// The process created a child by process duplication.
    Fork,
    /// The process created a child that borrows its memory until exec.
    Vfork,
    /// The process created a new task sharing its address space.
    Clone,
    /// The process replaced its image with a new program.
    Exec,
    /// The process hit a kernel-level syscall filter rule.
    Seccomp,
    /// A trace stop this supervisor does not model, by raw event code.
    Other(i32),
}

/// One state change reported by the any-child wait primitive.
#[derive(Clone, Copy, Debug, PartialEq, Eq, Structural)]
pub enum WaitEvent {
    /// A descendant exited normally with the given code.
    Exited { pid: i32, code: i32 },
    /// A descendant was killed by the given signal.
    Signaled { pid: i32, signal: i32, coredumped: bool },
    /// A descendant is parked after raising a stop signal.
    Stopped { pid: i32, signal: i32 },
    /// A descendant stopped at a trace event of the given kind.
    Trace { pid: i32, signal: i32, kind: TraceKind },
    /// A descendant stopped at a syscall boundary.
    SyscallStop { pid: i32 },
    /// A raw status the supervisor does not recognize.
    Unknown { raw: i32 },
}

/// The overall outcome of one blocking any-child wait call.
#[derive(Clone, Copy, Debug, PartialEq, Eq, Structural)]
pub enum WaitOutcome {
    /// One descendant changed state.
    Changed { event: WaitEvent },
    /// No traceable descendant remains.
    NoChildren,
    /// The call was interrupted by an unrelated signal; retry it.
    Interrupted,
    /// The call failed with the given error number.
    Failed { errno: i32 },
}

/// The shutdown signals, in escalation order.
#[derive(Clone, Copy, Debug, PartialEq, Eq, Structural)]
pub enum SigKind {
    /// The polite interrupt, sent first.
    Interrupt,
    /// The termination request, sent after the first pause.
    Terminate,
    /// The unconditional kill, sent last.
    Kill,
}

/// Severity of a structured log record.
#[derive(Clone, Copy, Debug, PartialEq, Eq, Structural)]
pub enum Level {
    Info,
    Warn,
    Error,
}

/// A fatal failure of the event loop.
#[derive(Clone, Copy, Debug, PartialEq, Eq, Structural)]
pub enum LoopError {
    /// Attaching the trace options to the main process failed.
    SetOptionsFailed { pid: i32, errno: i32 },
    /// The any-child wait call failed outright.
    WaitFailed { errno: i32 },
    /// A stopped process could not be resumed and stays parked.
    ContinueFailed { pid: i32, errno: i32 },
}

/// One structured log record, ready for the output layer to render.
#[derive(Clone, Debug, PartialEq, Eq)]
pub enum LogRecord {
    /// The main traced process has been created.
    ChildCreated { pid: i32 },
    /// A descendant exited normally.
    ChildExited { pid: i32, exit_code: i32 },
    /// A descendant was killed by a signal.
    ChildSignaled { pid: i32, signal: i32, coredumped: bool },
    /// A descendant created a new process; the new identity was retrieved.
    ChildForked { kind: TraceKind, pid: i32, new_pid: i64 },
    /// A descendant created a new process, but the new identity could not
    /// be retrieved; the live count was raised regardless.
    ChildForkedPidUnknown { kind: TraceKind, pid: i32, errno: i32 },
    /// A descendant executed a new program.
    ChildExec { pid: i32, cmdline: String, exe: String },
    /// A descendant executed a new program, but its executable path could
    /// not be read.
    ChildExecExeUnknown { pid: i32, cmdline: String, error: String },
    /// A descendant executed a new program, but its command-line buffer
    /// could not be read.
    ChildExecCmdlineUnknown { pid: i32, error: String, exe: String },
    /// A descendant executed a new program, but neither its command-line
    /// buffer nor its executable path could be read.
    ChildExecReadsUnknown { pid: i32, cmdline_error: String, exe_error: String },
    /// A descendant hit a syscall filter rule.
    ChildSeccomp { pid: i32, ret_data: i64 },
    /// A descendant hit a syscall filter rule, but the filter return value
    /// could not be retrieved.
    ChildSeccompDataUnknown { pid: i32, errno: i32 },
    /// A descendant stopped at a trace event this supervisor does not model.
    ChildTraceEvent { pid: i32, signal: i32, code: i32 },
    /// A descendant stopped at a syscall boundary.
    ChildSyscallStop { pid: i32 },
    /// The wait primitive reported a status this supervisor does not model.
    UnknownStatus { raw: i32 },
    /// A shutdown signal could not be sent to the process group.
    SignalSendFailed { sig: SigKind, errno: i32 },
}

impl LogRecord {
    /// The severity of a record: degraded retrievals are warnings, a failed
    /// final kill is an error, everything else is informational.
    pub open spec fn spec_level(self) -> Level {
        match self {
            LogRecord::ChildForkedPidUnknown { .. } => Level::Warn,
            LogRecord::ChildExecExeUnknown { .. } => Level::Warn,
            LogRecord::ChildExecCmdlineUnknown { .. } => Level::Warn,
            LogRecord::ChildExecReadsUnknown { .. } => Level::Warn,
            LogRecord::ChildSeccompDataUnknown { .. } => Level::Warn,
            LogRecord::SignalSendFailed { sig, .. } => if sig is Kill {
                Level::Error
            } else {
                Level::Warn
            },
            _ => Level::Info,
        }
    }

    /// The severity at which this record is emitted.
    pub fn level(&self) -> (r: Level)
        ensures
            r == self.spec_level(),
    {
        match self {
            LogRecord::ChildForkedPidUnknown { .. } => Level::Warn,
            LogRecord::ChildExecExeUnknown { .. } => Level::Warn,
            LogRecord::ChildExecCmdlineUnknown { .. } => Level::Warn,
            LogRecord::ChildExecReadsUnknown { .. } => Level::Warn,
            LogRecord::ChildSeccompDataUnknown { .. } => Level::Warn,
            LogRecord::SignalSendFailed { sig, .. } => match sig {
                SigKind::Kill => Level::Error,
                _ => Level::Warn,
            },
            _ => Level::Info,
        }
    }
}

} // verus!
