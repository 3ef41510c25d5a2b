//! Shutdown coordinator: escalates signals to the whole process group on a
//! fixed schedule bounded by the configured total timeout.
//!
//! The escalation is a small machine: interrupt now, terminate after half
//! the timeout, kill after the remaining half (or after the full timeout
//! when the half rounds to zero). The driving layer sends the pending
//! signal, reports how the send went, and carries out the reaction.

use vstd::prelude::*;

use crate::event::LogRecord;
use crate::event::SigKind;

verus! {

/// Which escalation step is owed next.
#[derive(Clone, Copy, Debug, PartialEq, Eq, Structural)]
pub enum ShutdownPhase {
    /// The interrupt signal is owed.
    Interrupt,
    /// The termination signal is owed.
    Terminate,
    /// The unconditional kill is owed.
    Kill,
    /// The schedule is complete; only the exit remains.
    Done,
}

/// How one group-wide signal send went.
#[derive(Clone, Copy, Debug, PartialEq, Eq, Structural)]
pub enum SendOutcome {
    /// The signal reached the group.
    Delivered,
    /// No member of the group exists any more.
    NoMembers,
    /// The send failed with the given error number.
    Failed { errno: i32 },
}

/// What the driving layer must do after reporting one send outcome.
#[derive(Clone, Debug, PartialEq, Eq)]
pub struct ShutdownReaction {
    /// A record about a failed send, to emit before going on.
    pub log: Option<LogRecord>,
    /// The supervisor exits immediately with its recorded status.
    pub exit_now: bool,
    /// How long to pause before the next send; nothing means no pause at
    /// all, a zero means a deliberate zero-length pause.
    pub pause_ms: Option<u64>,
}

/// The escalation machine: the configured total timeout, the exit status
/// recorded for the supervisor, and the step owed next.
#[derive(Clone, Copy, Debug, PartialEq, Eq, Structural)]
pub struct ShutdownMachine {
    /// Total time budget of the escalation, in milliseconds.
    pub timeout_ms: u64,
    /// The exit status the supervisor leaves with.
    pub exit_code: i32,
    /// The step owed next.
    pub phase: ShutdownPhase,
}

/// Half of the configured timeout, rounded down.
pub open spec fn spec_half(timeout_ms: u64) -> u64 {
    timeout_ms / 2
}

/// The pause owed after the interrupt: half the timeout, skipped entirely
/// when that half rounds to zero.
pub open spec fn pause_after_interrupt(timeout_ms: u64) -> Option<u64> {
    if spec_half(timeout_ms) > 0 {
        Some(spec_half(timeout_ms))
    } else {
        None
    }
}

/// The pause owed after the termination signal: the remaining half, or the
/// full timeout when the half rounded to zero.
pub open spec fn pause_after_terminate(timeout_ms: u64) -> Option<u64> {
    if spec_half(timeout_ms) > 0 {
        Some(spec_half(timeout_ms))
    } else {
        Some(timeout_ms)
    }
}

/// The signal owed in a phase, in the fixed escalation order.
pub open spec fn spec_pending(m: ShutdownMachine) -> Option<SigKind> {
    match m.phase {
        ShutdownPhase::Interrupt => Some(SigKind::Interrupt),
        ShutdownPhase::Terminate => Some(SigKind::Terminate),
        ShutdownPhase::Kill => Some(SigKind::Kill),
        ShutdownPhase::Done => None,
    }
}

/// The record a failed send contributes.
pub open spec fn spec_send_failure_log(sig: SigKind, outcome: SendOutcome) -> Option<LogRecord> {
    match outcome {
        SendOutcome::Failed { errno } => Some(LogRecord::SignalSendFailed { sig, errno }),
        _ => None,
    }
}

/// The transition of the escalation machine on one reported send outcome:
/// an empty group short-circuits to an immediate exit; otherwise the
/// schedule proceeds regardless, logging failed sends, pausing as the
/// schedule says, and exiting once the kill was sent.
pub open spec fn spec_advance(m: ShutdownMachine, outcome: SendOutcome) -> (
    ShutdownMachine,
    ShutdownReaction,
) {
    match m.phase {
        ShutdownPhase::Interrupt => {
            if outcome is NoMembers {
                (
                    ShutdownMachine { phase: ShutdownPhase::Done, ..m },
                    ShutdownReaction { log: None, exit_now: true, pause_ms: None },
                )
            } else {
                (
                    ShutdownMachine { phase: ShutdownPhase::Terminate, ..m },
                    ShutdownReaction {
                        log: spec_send_failure_log(SigKind::Interrupt, outcome),
                        exit_now: false,
                        pause_ms: pause_after_interrupt(m.timeout_ms),
                    },
                )
            }
        },
        ShutdownPhase::Terminate => {
            if outcome is NoMembers {
                (
                    ShutdownMachine { phase: ShutdownPhase::Done, ..m },
                    ShutdownReaction { log: None, exit_now: true, pause_ms: None },
                )
            } else {
                (
                    ShutdownMachine { phase: ShutdownPhase::Kill, ..m },
                    ShutdownReaction {
                        log: spec_send_failure_log(SigKind::Terminate, outcome),
                        exit_now: false,
                        pause_ms: pause_after_terminate(m.timeout_ms),
                    },
                )
            }
        },
        ShutdownPhase::Kill => (
            ShutdownMachine { phase: ShutdownPhase::Done, ..m },
            ShutdownReaction {
                log: if outcome is NoMembers {
                    None
                } else {
                    spec_send_failure_log(SigKind::Kill, outcome)
                },
                exit_now: true,
                pause_ms: None,
            },
        ),
        ShutdownPhase::Done => (
            m,
            ShutdownReaction { log: None, exit_now: true, pause_ms: None },
        ),
    }
}

impl ShutdownMachine {
    /// A fresh escalation: the interrupt is owed first.
    pub fn new(timeout_ms: u64, exit_code: i32) -> (r: ShutdownMachine)
        ensures
            r == (ShutdownMachine { timeout_ms, exit_code, phase: ShutdownPhase::Interrupt }),
    {
        ShutdownMachine { timeout_ms, exit_code, phase: ShutdownPhase::Interrupt }
    }

    /// The signal owed next, in the fixed order interrupt, terminate,
    /// kill; nothing once the schedule is complete.
    pub fn pending_signal(&self) -> (r: Option<SigKind>)
        ensures
            r == spec_pending(*self),
    {
        match self.phase {
            ShutdownPhase::Interrupt => Some(SigKind::Interrupt),
            ShutdownPhase::Terminate => Some(SigKind::Terminate),
            ShutdownPhase::Kill => Some(SigKind::Kill),
            ShutdownPhase::Done => None,
        }
    }

    /// Advances the machine on one reported send outcome.
    pub fn advance(self, outcome: SendOutcome) -> (r: (ShutdownMachine, ShutdownReaction))
        ensures
            r == spec_advance(self, outcome),
    {
        match self.phase {
            ShutdownPhase::Interrupt => {
                match outcome {
                    SendOutcome::NoMembers => (
                        ShutdownMachine { phase: ShutdownPhase::Done, ..self },
                        ShutdownReaction { log: None, exit_now: true, pause_ms: None },
                    ),
                    SendOutcome::Delivered => (
                        ShutdownMachine { phase: ShutdownPhase::Terminate, ..self },
                        ShutdownReaction {
                            log: None,
                            exit_now: false,
                            pause_ms: self.schedule_first_pause(),
                        },
                    ),
                    SendOutcome::Failed { errno } => (
                        ShutdownMachine { phase: ShutdownPhase::Terminate, ..self },
                        ShutdownReaction {
                            log: Some(
                                LogRecord::SignalSendFailed { sig: SigKind::Interrupt, errno },
                            ),
                            exit_now: false,
                            pause_ms: self.schedule_first_pause(),
                        },
                    ),
                }
            },
            ShutdownPhase::Terminate => {
                match outcome {
                    SendOutcome::NoMembers => (
                        ShutdownMachine { phase: ShutdownPhase::Done, ..self },
                        ShutdownReaction { log: None, exit_now: true, pause_ms: None },
                    ),
                    SendOutcome::Delivered => (
                        ShutdownMachine { phase: ShutdownPhase::Kill, ..self },
                        ShutdownReaction {
                            log: None,
                            exit_now: false,
                            pause_ms: self.schedule_second_pause(),
                        },
                    ),
                    SendOutcome::Failed { errno } => (
                        ShutdownMachine { phase: ShutdownPhase::Kill, ..self },
                        ShutdownReaction {
                            log: Some(
                                LogRecord::SignalSendFailed { sig: SigKind::Terminate, errno },
                            ),
                            exit_now: false,
                            pause_ms: self.schedule_second_pause(),
                        },
                    ),
                }
            },
            ShutdownPhase::Kill => (
                ShutdownMachine { phase: ShutdownPhase::Done, ..self },
                ShutdownReaction {
                    log: match outcome {
                        SendOutcome::Failed { errno } => Some(
                            LogRecord::SignalSendFailed { sig: SigKind::Kill, errno },
                        ),
                        _ => None,
                    },
                    exit_now: true,
                    pause_ms: None,
                },
            ),
            ShutdownPhase::Done => (
                self,
                ShutdownReaction { log: None, exit_now: true, pause_ms: None },
            ),
        }
    }

    /// The pause owed after the interrupt was sent.
    fn schedule_first_pause(&self) -> (r: Option<u64>)
        ensures
            r == pause_after_interrupt(self.timeout_ms),
    {
        let half = self.timeout_ms / 2;
        if half > 0 {
            Some(half)
        } else {
            None
        }
    }

    /// The pause owed after the termination signal was sent.
    fn schedule_second_pause(&self) -> (r: Option<u64>)
        ensures
            r == pause_after_terminate(self.timeout_ms),
    {
        let half = self.timeout_ms / 2;
        if half > 0 {
            Some(half)
        } else {
            Some(self.timeout_ms)
        }
    }
}

/// The length of a pause, with no pause counting as zero.
pub open spec fn pause_len(pause: Option<u64>) -> int {
    match pause {
        Some(ms) => ms as int,
        None => 0,
    }
}

/// Law: when neither of the first two sends finds the group empty, the
/// machine asks for interrupt, terminate and kill in that fixed order,
/// exits only after the kill, and the deliberate pauses between the
/// interrupt and the kill add up to the configured total timeout, within
/// one millisecond of rounding.
pub proof fn lemma_escalation_order_and_budget(
    timeout_ms: u64,
    exit_code: i32,
    first: SendOutcome,
    second: SendOutcome,
    third: SendOutcome,
)
    requires
        !(first is NoMembers),
        !(second is NoMembers),
    ensures
        ({
            let m0 = ShutdownMachine { timeout_ms, exit_code, phase: ShutdownPhase::Interrupt };
            let (m1, r1) = spec_advance(m0, first);
            let (m2, r2) = spec_advance(m1, second);
            let (m3, r3) = spec_advance(m2, third);
            &&& spec_pending(m0) == Some(SigKind::Interrupt)
            &&& spec_pending(m1) == Some(SigKind::Terminate)
            &&& spec_pending(m2) == Some(SigKind::Kill)
            &&& spec_pending(m3) is None
            &&& !r1.exit_now
            &&& !r2.exit_now
            &&& r3.exit_now
            &&& timeout_ms - 1 <= pause_len(r1.pause_ms) + pause_len(r2.pause_ms) <= timeout_ms
            &&& m3.exit_code == exit_code
        }),
{
}

/// Law: whenever a send reports that no member of the group exists any
/// more, the schedule short-circuits to an immediate exit with nothing
/// logged and no further pause.
pub proof fn lemma_empty_group_short_circuits(m: ShutdownMachine)
    ensures
        spec_advance(m, SendOutcome::NoMembers).1 == (ShutdownReaction {
            log: None,
            exit_now: true,
            pause_ms: None,
        }),
        spec_pending(spec_advance(m, SendOutcome::NoMembers).0) is None,
{
}

} // verus!