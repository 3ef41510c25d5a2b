//! Event-loop classifier: the decision core of the supervising process.
//!
//! Each blocking any-child wait call yields one [`WaitOutcome`]; `classify`
//! consumes it, updates the live-descendant bookkeeping and the recorded
//! exit status of the main process, and hands the driving layer one
//! [`Directive`] saying what to log, which process to resume, and whether
//! the loop goes on, ends, retries or aborts.

use vstd::prelude::*;

use crate::cmdline::format_cmdline;
use crate::cmdline::spec_cmdline_text;
use crate::config::SupervisorConfig;
use crate::event::LogRecord;
use crate::event::LoopError;
use crate::event::TraceKind;
use crate::event::WaitEvent;
use crate::event::WaitOutcome;

verus! {

/// The mutable bookkeeping of the event loop: the identity of the main
/// traced process (set once, immutable thereafter), the exit status
/// recorded for it so far, and the count of live descendants.
#[derive(Clone, Copy, Debug, PartialEq, Eq, Structural)]
pub struct LoopState {
    /// Identity of the originally launched process.
    pub main_pid: i32,
    /// The supervisor's eventual exit status, as recorded so far.
    pub main_exit_code: i32,
    /// Count of live descendant processes.
    pub children: u64,
}

/// What the driving layer must do after one classified wait outcome.
#[derive(Clone, Debug, PartialEq, Eq)]
pub enum Directive {
    /// Nothing to do; wait again.
    Quiet,
    /// Emit the record, then wait again.
    Log { record: LogRecord },
    /// Resume the process with a plain continue request, then wait again.
    /// A failure to resume aborts the loop with that process's identity.
    Resume { pid: i32 },
    /// Emit the record, resume the process, then wait again.
    LogAndResume { record: LogRecord, pid: i32 },
    /// Query the trace subsystem for the newly created process's identity,
    /// log what `fork_log` decides, resume the process, then wait again.
    QueryFork { pid: i32, kind: TraceKind },
    /// Read the process's command-line buffer and executable path, log
    /// what `exec_log` decides, resume the process, then wait again.
    QueryExec { pid: i32 },
    /// Query the trace subsystem for the filter return value, log what
    /// `seccomp_log` decides, resume the process, then wait again.
    QuerySeccomp { pid: i32 },
    /// No traceable descendant remains: the loop ends normally.
    Finish,
    /// The wait call was interrupted; repeat it without bookkeeping.
    Retry,
    /// The loop aborts with a fatal error.
    Abort { error: LoopError },
}

/// The live count after one observed process-creation event: one more,
/// held at the type's limit if it is ever reached.
pub open spec fn raise_live(children: u64) -> u64 {
    if children < u64::MAX {
        (children + 1) as u64
    } else {
        children
    }
}

/// The live count after one observed termination event: one less, held at
/// zero if no descendant was counted.
pub open spec fn lower_live(children: u64) -> u64 {
    if children > 0 {
        (children - 1) as u64
    } else {
        0
    }
}

/// The exit status that stands for a signal-kill: 128 plus the signal
/// number, reduced modulo 256, with 128 substituted when that value would
/// be 0, so that a signal-kill never reads as success.
pub open spec fn spec_signal_status(signal: int) -> int {
    let m = (128 + signal) % 256;
    if m == 0 {
        128
    } else {
        m
    }
}

/// Whether the event reports a new descendant process.
pub open spec fn is_creation_event(event: WaitEvent) -> bool {
    match event {
        WaitEvent::Trace { kind, .. } => kind is Fork || kind is Vfork || kind is Clone,
        _ => false,
    }
}

/// Whether the event reports a descendant terminating.
pub open spec fn is_termination_event(event: WaitEvent) -> bool {
    event is Exited || event is Signaled
}

/// Whether the outcome reports the main process terminating.
pub open spec fn is_main_termination(main_pid: i32, outcome: WaitOutcome) -> bool {
    match outcome {
        WaitOutcome::Changed { event } => match event {
            WaitEvent::Exited { pid, .. } => pid == main_pid,
            WaitEvent::Signaled { pid, .. } => pid == main_pid,
            _ => false,
        },
        _ => false,
    }
}

/// Signal numbers reported by the wait primitive are nonnegative.
pub open spec fn outcome_wf(outcome: WaitOutcome) -> bool {
    match outcome {
        WaitOutcome::Changed { event } => match event {
            WaitEvent::Signaled { signal, .. } => signal >= 0,
            _ => true,
        },
        _ => true,
    }
}

/// The transition of the classifier on one reported state change.
pub open spec fn spec_classify_event(cfg: SupervisorConfig, st: LoopState, event: WaitEvent) -> (
    LoopState,
    Directive,
) {
    match event {
        WaitEvent::Exited { pid, code } => (
            LoopState {
                children: lower_live(st.children),
                main_exit_code: if pid == st.main_pid {
                    code
                } else {
                    st.main_exit_code
                },
                ..st
            },
            if cfg.ignore_exited_processes {
                Directive::Quiet
            } else {
                Directive::Log { record: LogRecord::ChildExited { pid, exit_code: code } }
            },
        ),
        WaitEvent::Signaled { pid, signal, coredumped } => (
            LoopState {
                children: lower_live(st.children),
                main_exit_code: if pid == st.main_pid {
                    spec_signal_status(signal as int) as i32
                } else {
                    st.main_exit_code
                },
                ..st
            },
            if cfg.ignore_exited_processes {
                Directive::Quiet
            } else {
                Directive::Log { record: LogRecord::ChildSignaled { pid, signal, coredumped } }
            },
        ),
        WaitEvent::Stopped { pid, .. } => (st, Directive::Resume { pid }),
        WaitEvent::Trace { pid, signal, kind } => match kind {
            TraceKind::Fork | TraceKind::Vfork | TraceKind::Clone => (
                LoopState { children: raise_live(st.children), ..st },
                if cfg.ignore_new_processes {
                    Directive::Resume { pid }
                } else {
                    Directive::QueryFork { pid, kind }
                },
            ),
            TraceKind::Exec => (
                st,
                if cfg.ignore_executed_commands {
                    Directive::Resume { pid }
                } else {
                    Directive::QueryExec { pid }
                },
            ),
            TraceKind::Seccomp => (
                st,
                if cfg.ignore_seccomp_events {
                    Directive::Resume { pid }
                } else {
                    Directive::QuerySeccomp { pid }
                },
            ),
            TraceKind::Other(code) => (
                st,
                if cfg.ignore_unknown_events {
                    Directive::Resume { pid }
                } else {
                    Directive::LogAndResume {
                        record: LogRecord::ChildTraceEvent { pid, signal, code },
                        pid,
                    }
                },
            ),
        },
        WaitEvent::SyscallStop { pid } => (
            st,
            if cfg.ignore_syscalls {
                Directive::Resume { pid }
            } else {
                Directive::LogAndResume { record: LogRecord::ChildSyscallStop { pid }, pid }
            },
        ),
        WaitEvent::Unknown { raw } => (
            st,
            if cfg.ignore_unknown_statuses {
                Directive::Quiet
            } else {
                Directive::Log { record: LogRecord::UnknownStatus { raw } }
            },
        ),
    }
}

/// The transition of the event loop on one wait outcome: a reported state
/// change is classified; no remaining children ends the loop; an
/// interruption repeats the wait; any other wait failure is fatal.
pub open spec fn spec_step(cfg: SupervisorConfig, st: LoopState, outcome: WaitOutcome) -> (
    LoopState,
    Directive,
) {
    match outcome {
        WaitOutcome::Changed { event } => spec_classify_event(cfg, st, event),
        WaitOutcome::NoChildren => (st, Directive::Finish),
        WaitOutcome::Interrupted => (st, Directive::Retry),
        WaitOutcome::Failed { errno } => (
            st,
            Directive::Abort { error: LoopError::WaitFailed { errno } },
        ),
    }
}

/// The exit status standing for a signal-kill with the given nonnegative
/// signal number.
pub fn signal_exit_status(signal: i32) -> (r: i32)
    requires
        signal >= 0,
    ensures
        r == spec_signal_status(signal as int),
{
    let m: i32 = (128 + signal % 256) % 256;
    proof {
        vstd::arithmetic::div_mod::lemma_add_mod_noop(signal as int, 128, 256);
        assert((signal as int) % 256 + 128 == 128 + (signal as int) % 256);
    }
    if m == 0 {
        128
    } else {
        m
    }
}

/// The bookkeeping before the first wait call: the launched process is the
/// main process, the only live descendant, with exit status 0 recorded
/// until it reports its own.
pub fn start_state(main_pid: i32) -> (r: LoopState)
    ensures
        r == (LoopState { main_pid, main_exit_code: 0, children: 1 }),
{
    LoopState { main_pid, main_exit_code: 0, children: 1 }
}

/// Classifies one wait outcome: the new bookkeeping and the directive the
/// driving layer must carry out.
pub fn classify(cfg: &SupervisorConfig, st: LoopState, outcome: WaitOutcome) -> (r: (
    LoopState,
    Directive,
))
    requires
        outcome_wf(outcome),
    ensures
        r == spec_step(*cfg, st, outcome),
{
    match outcome {
        WaitOutcome::NoChildren => (st, Directive::Finish),
        WaitOutcome::Interrupted => (st, Directive::Retry),
        WaitOutcome::Failed { errno } => (
            st,
            Directive::Abort { error: LoopError::WaitFailed { errno } },
        ),
        WaitOutcome::Changed { event } => match event {
            WaitEvent::Exited { pid, code } => (
                LoopState {
                    children: if st.children > 0 {
                        st.children - 1
                    } else {
                        0
                    },
                    main_exit_code: if pid == st.main_pid {
                        code
                    } else {
                        st.main_exit_code
                    },
                    ..st
                },
                if cfg.ignore_exited_processes {
                    Directive::Quiet
                } else {
                    Directive::Log { record: LogRecord::ChildExited { pid, exit_code: code } }
                },
            ),
            WaitEvent::Signaled { pid, signal, coredumped } => (
                LoopState {
                    children: if st.children > 0 {
                        st.children - 1
                    } else {
                        0
                    },
                    main_exit_code: if pid == st.main_pid {
                        signal_exit_status(signal)
                    } else {
                        st.main_exit_code
                    },
                    ..st
                },
                if cfg.ignore_exited_processes {
                    Directive::Quiet
                } else {
                    Directive::Log {
                        record: LogRecord::ChildSignaled { pid, signal, coredumped },
                    }
                },
            ),
            WaitEvent::Stopped { pid, .. } => (st, Directive::Resume { pid }),
            WaitEvent::Trace { pid, signal, kind } => match kind {
                TraceKind::Fork | TraceKind::Vfork | TraceKind::Clone => (
                    LoopState {
                        children: if st.children < u64::MAX {
                            st.children + 1
                        } else {
                            st.children
                        },
                        ..st
                    },
                    if cfg.ignore_new_processes {
                        Directive::Resume { pid }
                    } else {
                        Directive::QueryFork { pid, kind }
                    },
                ),
                TraceKind::Exec => (
                    st,
                    if cfg.ignore_executed_commands {
                        Directive::Resume { pid }
                    } else {
                        Directive::QueryExec { pid }
                    },
                ),
                TraceKind::Seccomp => (
                    st,
                    if cfg.ignore_seccomp_events {
                        Directive::Resume { pid }
                    } else {
                        Directive::QuerySeccomp { pid }
                    },
                ),
                TraceKind::Other(code) => (
                    st,
                    if cfg.ignore_unknown_events {
                        Directive::Resume { pid }
                    } else {
                        Directive::LogAndResume {
                            record: LogRecord::ChildTraceEvent { pid, signal, code },
                            pid,
                        }
                    },
                ),
            },
            WaitEvent::SyscallStop { pid } => (
                st,
                if cfg.ignore_syscalls {
                    Directive::Resume { pid }
                } else {
                    Directive::LogAndResume { record: LogRecord::ChildSyscallStop { pid }, pid }
                },
            ),
            WaitEvent::Unknown { raw } => (
                st,
                if cfg.ignore_unknown_statuses {
                    Directive::Quiet
                } else {
                    Directive::Log { record: LogRecord::UnknownStatus { raw } }
                },
            ),
        },
    }
}

/// The record announcing the main process, unless new-process records are
/// suppressed.
pub fn launch_log(cfg: &SupervisorConfig, pid: i32) -> (r: Option<LogRecord>)
    ensures
        r == if cfg.ignore_new_processes {
            Option::<LogRecord>::None
        } else {
            Some(LogRecord::ChildCreated { pid })
        },
{
    if cfg.ignore_new_processes {
        None
    } else {
        Some(LogRecord::ChildCreated { pid })
    }
}

/// What a process-creation event logs, given the attempted retrieval of
/// the new process's identity.
pub open spec fn spec_fork_log(kind: TraceKind, pid: i32, new_pid: Result<i64, i32>) -> LogRecord {
    match new_pid {
        Ok(np) => LogRecord::ChildForked { kind, pid, new_pid: np },
        Err(errno) => LogRecord::ChildForkedPidUnknown { kind, pid, errno },
    }
}

/// The record of a process-creation event: the new identity when the
/// event-data query yielded it, a degraded warning otherwise. The live
/// count was already raised either way.
pub fn fork_log(kind: TraceKind, pid: i32, new_pid: Result<i64, i32>) -> (r: LogRecord)
    requires
        kind is Fork || kind is Vfork || kind is Clone,
    ensures
        r == spec_fork_log(kind, pid, new_pid),
{
    match new_pid {
        Ok(np) => LogRecord::ChildForked { kind, pid, new_pid: np },
        Err(errno) => LogRecord::ChildForkedPidUnknown { kind, pid, errno },
    }
}

/// What a filter-stop event logs, given the attempted retrieval of the
/// filter return value.
pub open spec fn spec_seccomp_log(pid: i32, data: Result<i64, i32>) -> LogRecord {
    match data {
        Ok(ret_data) => LogRecord::ChildSeccomp { pid, ret_data },
        Err(errno) => LogRecord::ChildSeccompDataUnknown { pid, errno },
    }
}

/// The record of a filter-stop event: the filter return value when the
/// event-data query yielded it, a degraded warning otherwise.
pub fn seccomp_log(pid: i32, data: Result<i64, i32>) -> (r: LogRecord)
    ensures
        r == spec_seccomp_log(pid, data),
{
    match data {
        Ok(ret_data) => LogRecord::ChildSeccomp { pid, ret_data },
        Err(errno) => LogRecord::ChildSeccompDataUnknown { pid, errno },
    }
}

/// The record of an exec event: the process's command-line buffer,
/// formatted for one structured-log field, together with its executable
/// path. A failed read of either is a degraded warning that carries the
/// read's error instead of failing the loop.
pub fn exec_log(
    pid: i32,
    cmdline: Result<Vec<u8>, String>,
    exe: Result<String, String>,
) -> (r: LogRecord)
    ensures
        ({
            match (cmdline, exe) {
                (Ok(buffer), Ok(path)) => r matches LogRecord::ChildExec {
                    pid: p,
                    cmdline: c,
                    exe: x,
                } && p == pid && c@ == spec_cmdline_text(buffer@) && x == path,
                (Ok(buffer), Err(exe_error)) => r matches LogRecord::ChildExecExeUnknown {
                    pid: p,
                    cmdline: c,
                    error: e,
                } && p == pid && c@ == spec_cmdline_text(buffer@) && e == exe_error,
                (Err(cmdline_error), Ok(path)) => r matches LogRecord::ChildExecCmdlineUnknown {
                    pid: p,
                    error: e,
                    exe: x,
                } && p == pid && e == cmdline_error && x == path,
                (Err(cmdline_error), Err(exe_error)) => r matches LogRecord::ChildExecReadsUnknown {
                    pid: p,
                    cmdline_error: ce,
                    exe_error: xe,
                } && p == pid && ce == cmdline_error && xe == exe_error,
            }
        }),
{
    match (cmdline, exe) {
        (Ok(buffer), Ok(path)) => {
            let text = format_cmdline(&buffer);
            LogRecord::ChildExec { pid, cmdline: text, exe: path }
        },
        (Ok(buffer), Err(exe_error)) => {
            let text = format_cmdline(&buffer);
            LogRecord::ChildExecExeUnknown { pid, cmdline: text, error: exe_error }
        },
        (Err(cmdline_error), Ok(path)) => LogRecord::ChildExecCmdlineUnknown {
            pid,
            error: cmdline_error,
            exe: path,
        },
        (Err(cmdline_error), Err(exe_error)) => LogRecord::ChildExecReadsUnknown {
            pid,
            cmdline_error,
            exe_error,
        },
    }
}

/// The trace options the supervisor attaches to the main process before
/// the first resume: notifications for exec, clone, fork, vfork and
/// filter-stop events.
pub fn required_trace_options() -> (r: Vec<TraceKind>)
    ensures
        r@ == seq![
            TraceKind::Exec,
            TraceKind::Clone,
            TraceKind::Fork,
            TraceKind::Vfork,
            TraceKind::Seccomp,
        ],
{
    let mut opts: Vec<TraceKind> = Vec::new();
    opts.push(TraceKind::Exec);
    opts.push(TraceKind::Clone);
    opts.push(TraceKind::Fork);
    opts.push(TraceKind::Vfork);
    opts.push(TraceKind::Seccomp);
    proof {
        assert(opts@ =~= seq![
            TraceKind::Exec,
            TraceKind::Clone,
            TraceKind::Fork,
            TraceKind::Vfork,
            TraceKind::Seccomp,
        ]);
    }
    opts
}

/// The supervisor's own outcome once the loop has ended: the recorded
/// exit status and live count on normal or fatal-but-reported completion;
/// a fatal loop error maps to exit status 128 with cleanup owed.
pub fn final_outcome(outcome: Result<(i32, u64), LoopError>) -> (r: (i32, u64))
    ensures
        r == match outcome {
            Ok(p) => p,
            Err(_) => (128i32, 1u64),
        },
{
    match outcome {
        Ok(p) => p,
        Err(_) => (128, 1),
    }
}

/// Whether the shutdown escalation must run: only when descendants were
/// still counted live at loop end.
pub fn should_escalate(children: u64) -> (r: bool)
    ensures
        r == (children > 0),
{
    children > 0
}

/// The bookkeeping after a whole run of the loop over the given sequence
/// of wait outcomes, in the order they were reported.
pub open spec fn run_states(cfg: SupervisorConfig, st: LoopState, outcomes: Seq<WaitOutcome>) -> LoopState
    decreases outcomes.len(),
{
    if outcomes.len() == 0 {
        st
    } else {
        run_states(cfg, spec_step(cfg, st, outcomes[0]).0, outcomes.drop_first())
    }
}

/// Whether the outcome reports a new descendant process.
pub open spec fn is_creation_outcome(outcome: WaitOutcome) -> bool {
    outcome matches WaitOutcome::Changed { event } && is_creation_event(event)
}

/// Whether the outcome reports a descendant terminating.
pub open spec fn is_termination_outcome(outcome: WaitOutcome) -> bool {
    outcome matches WaitOutcome::Changed { event } && is_termination_event(event)
}

/// The number of observed process-creation events among the outcomes.
pub open spec fn creation_count(outcomes: Seq<WaitOutcome>) -> int
    decreases outcomes.len(),
{
    if outcomes.len() == 0 {
        0
    } else {
        (if is_creation_outcome(outcomes[0]) {
            1int
        } else {
            0int
        }) + creation_count(outcomes.drop_first())
    }
}

/// The number of observed termination events among the outcomes.
pub open spec fn termination_count(outcomes: Seq<WaitOutcome>) -> int
    decreases outcomes.len(),
{
    if outcomes.len() == 0 {
        0
    } else {
        (if is_termination_outcome(outcomes[0]) {
            1int
        } else {
            0int
        }) + termination_count(outcomes.drop_first())
    }
}

/// How far the outcomes move the live count: creations minus
/// terminations.
pub open spec fn live_delta(outcomes: Seq<WaitOutcome>) -> int {
    creation_count(outcomes) - termination_count(outcomes)
}

/// Law: over a whole run along which the live count never touches its
/// machine limits, the count moves by exactly one per observed creation
/// or termination event and by nothing else — independently of
/// suppression flags and of any retrieval failure — so the final count is
/// the starting count plus the creations minus the terminations.
pub proof fn lemma_population_run(
    cfg: SupervisorConfig,
    st: LoopState,
    outcomes: Seq<WaitOutcome>,
)
    requires
        forall|k: int|
            0 <= k <= outcomes.len() ==> 0 <= st.children + live_delta(
                #[trigger] outcomes.take(k),
            ) < u64::MAX,
    ensures
        run_states(cfg, st, outcomes).children == st.children + live_delta(outcomes),
    decreases outcomes.len(),
{
    if outcomes.len() == 0 {
    } else {
        let first = outcomes[0];
        let rest = outcomes.drop_first();
        let st1 = spec_step(cfg, st, first).0;
        let delta = live_delta(seq![first]);
        assert(seq![first].drop_first() =~= Seq::<WaitOutcome>::empty());
        assert(creation_count(Seq::<WaitOutcome>::empty()) == 0);
        assert(termination_count(Seq::<WaitOutcome>::empty()) == 0);
        assert(delta == if is_creation_outcome(first) {
            1int
        } else if is_termination_outcome(first) {
            -1int
        } else {
            0int
        });
        assert(outcomes.take(0) =~= Seq::<WaitOutcome>::empty());
        assert(outcomes.take(1) =~= seq![first]);
        assert(0 <= st.children + 0 < u64::MAX);
        assert(0 <= st.children + delta < u64::MAX);
        assert(st1.children == st.children + delta);
        assert forall|k: int| 0 <= k <= rest.len() implies 0 <= st1.children + live_delta(
            #[trigger] rest.take(k),
        ) < u64::MAX by {
            assert(outcomes.take(k + 1).drop_first() =~= rest.take(k));
            assert(outcomes.take(k + 1)[0] == first);
            assert(creation_count(outcomes.take(k + 1)) == (if is_creation_outcome(first) {
                1int
            } else {
                0int
            }) + creation_count(rest.take(k)));
            assert(termination_count(outcomes.take(k + 1)) == (if is_termination_outcome(first) {
                1int
            } else {
                0int
            }) + termination_count(rest.take(k)));
            assert(0 <= st.children + live_delta(outcomes.take(k + 1)) < u64::MAX);
        }
        lemma_population_run(cfg, st1, rest);
        assert(creation_count(outcomes) == (if is_creation_outcome(first) {
            1int
        } else {
            0int
        }) + creation_count(rest));
        assert(termination_count(outcomes) == (if is_termination_outcome(first) {
            1int
        } else {
            0int
        }) + termination_count(rest));
    }
}

/// Law: a loop that starts from the launch state (one live descendant)
/// and stays within the counter's machine limits ends with exactly
/// 1 + F - T live descendants, where F is the number of observed
/// fork/vfork/clone events and T the number of observed exits and
/// signal-kills.
pub proof fn lemma_population_whole_loop(
    cfg: SupervisorConfig,
    main_pid: i32,
    outcomes: Seq<WaitOutcome>,
)
    requires
        forall|k: int|
            0 <= k <= outcomes.len() ==> 0 <= 1 + live_delta(#[trigger] outcomes.take(k))
                < u64::MAX,
    ensures
        run_states(
            cfg,
            LoopState { main_pid, main_exit_code: 0, children: 1 },
            outcomes,
        ).children == 1 + creation_count(outcomes) - termination_count(outcomes),
{
    lemma_population_run(cfg, LoopState { main_pid, main_exit_code: 0, children: 1 }, outcomes);
}

/// Law: every observed process-creation event raises the live count by
/// exactly one, every observed termination event lowers it by exactly
/// one, and no other event changes it. The two bounds keep the count
/// meaningful at the type's limits.
pub proof fn lemma_population_step(cfg: SupervisorConfig, st: LoopState, event: WaitEvent)
    requires
        is_creation_event(event) ==> st.children < u64::MAX,
        is_termination_event(event) ==> st.children >= 1,
    ensures
        is_creation_event(event) ==> spec_classify_event(cfg, st, event).0.children
            == st.children + 1,
        is_termination_event(event) ==> spec_classify_event(cfg, st, event).0.children
            == st.children - 1,
        !is_creation_event(event) && !is_termination_event(event) ==> spec_classify_event(
            cfg,
            st,
            event,
        ).0.children == st.children,
{
}

/// Law: the loop ends normally exactly when the wait primitive reports no
/// remaining children, never on the strength of the counter alone.
pub proof fn lemma_finish_iff_no_children(
    cfg: SupervisorConfig,
    st: LoopState,
    outcome: WaitOutcome,
)
    ensures
        (spec_step(cfg, st, outcome).1 is Finish) <==> (outcome is NoChildren),
{
}

/// The identity of the main process is set before the loop and never
/// changes.
pub proof fn lemma_step_keeps_main_pid(cfg: SupervisorConfig, st: LoopState, outcome: WaitOutcome)
    ensures
        spec_step(cfg, st, outcome).0.main_pid == st.main_pid,
{
}

/// An outcome that does not report the main process terminating leaves
/// the recorded exit status alone.
pub proof fn lemma_step_keeps_status(cfg: SupervisorConfig, st: LoopState, outcome: WaitOutcome)
    requires
        !is_main_termination(st.main_pid, outcome),
    ensures
        spec_step(cfg, st, outcome).0.main_exit_code == st.main_exit_code,
{
}

/// A run over outcomes none of which reports the main process terminating
/// keeps the recorded exit status and the main identity.
pub proof fn lemma_run_keeps_status(
    cfg: SupervisorConfig,
    st: LoopState,
    outcomes: Seq<WaitOutcome>,
)
    requires
        forall|j: int|
            0 <= j < outcomes.len() ==> !is_main_termination(st.main_pid, #[trigger] outcomes[j]),
    ensures
        run_states(cfg, st, outcomes).main_exit_code == st.main_exit_code,
        run_states(cfg, st, outcomes).main_pid == st.main_pid,
    decreases outcomes.len(),
{
    if outcomes.len() > 0 {
        let st1 = spec_step(cfg, st, outcomes[0]).0;
        lemma_step_keeps_main_pid(cfg, st, outcomes[0]);
        lemma_step_keeps_status(cfg, st, outcomes[0]);
        assert forall|j: int| 0 <= j < outcomes.drop_first().len() implies !is_main_termination(
            st1.main_pid,
            #[trigger] outcomes.drop_first()[j],
        ) by {
            assert(outcomes.drop_first()[j] == outcomes[j + 1]);
        }
        lemma_run_keeps_status(cfg, st1, outcomes.drop_first());
    }
}

/// Law: when the main process exits normally with code `code`, and no
/// later outcome reports the main process terminating again, the run
/// records `code` as the supervisor's final exit status.
pub proof fn lemma_final_status_normal_exit(
    cfg: SupervisorConfig,
    st: LoopState,
    outcomes: Seq<WaitOutcome>,
    i: int,
    code: i32,
)
    requires
        0 <= i < outcomes.len(),
        outcomes[i] == (WaitOutcome::Changed {
            event: WaitEvent::Exited { pid: st.main_pid, code },
        }),
        forall|j: int|
            i < j < outcomes.len() ==> !is_main_termination(st.main_pid, #[trigger] outcomes[j]),
    ensures
        run_states(cfg, st, outcomes).main_exit_code == code,
    decreases i,
{
    let st1 = spec_step(cfg, st, outcomes[0]).0;
    lemma_step_keeps_main_pid(cfg, st, outcomes[0]);
    if i == 0 {
        assert(st1.main_exit_code == code);
        assert forall|j: int| 0 <= j < outcomes.drop_first().len() implies !is_main_termination(
            st1.main_pid,
            #[trigger] outcomes.drop_first()[j],
        ) by {
            assert(outcomes.drop_first()[j] == outcomes[j + 1]);
        }
        lemma_run_keeps_status(cfg, st1, outcomes.drop_first());
    } else {
        assert forall|j: int| i - 1 < j < outcomes.drop_first().len() implies !is_main_termination(
            st1.main_pid,
            #[trigger] outcomes.drop_first()[j],
        ) by {
            assert(outcomes.drop_first()[j] == outcomes[j + 1]);
        }
        assert(outcomes.drop_first()[i - 1] == outcomes[i]);
        lemma_final_status_normal_exit(cfg, st1, outcomes.drop_first(), i - 1, code);
    }
}

/// Law: when the main process is killed by signal `signal`, and no later
/// outcome reports the main process terminating again, the run records
/// 128 plus the signal number modulo 256 — substituted with 128 when that
/// value is 0 — as the supervisor's final exit status.
pub proof fn lemma_final_status_signal_kill(
    cfg: SupervisorConfig,
    st: LoopState,
    outcomes: Seq<WaitOutcome>,
    i: int,
    signal: i32,
    coredumped: bool,
)
    requires
        0 <= i < outcomes.len(),
        outcomes[i] == (WaitOutcome::Changed {
            event: WaitEvent::Signaled { pid: st.main_pid, signal, coredumped },
        }),
        forall|j: int|
            i < j < outcomes.len() ==> !is_main_termination(st.main_pid, #[trigger] outcomes[j]),
    ensures
        run_states(cfg, st, outcomes).main_exit_code == spec_signal_status(signal as int) as i32,
        spec_signal_status(signal as int) != 0,
    decreases i,
{
    let st1 = spec_step(cfg, st, outcomes[0]).0;
    lemma_step_keeps_main_pid(cfg, st, outcomes[0]);
    if i == 0 {
        assert(st1.main_exit_code == spec_signal_status(signal as int) as i32);
        assert forall|j: int| 0 <= j < outcomes.drop_first().len() implies !is_main_termination(
            st1.main_pid,
            #[trigger] outcomes.drop_first()[j],
        ) by {
            assert(outcomes.drop_first()[j] == outcomes[j + 1]);
        }
        lemma_run_keeps_status(cfg, st1, outcomes.drop_first());
    } else {
        assert forall|j: int| i - 1 < j < outcomes.drop_first().len() implies !is_main_termination(
            st1.main_pid,
            #[trigger] outcomes.drop_first()[j],
        ) by {
            assert(outcomes.drop_first()[j] == outcomes[j + 1]);
        }
        assert(outcomes.drop_first()[i - 1] == outcomes[i]);
        lemma_final_status_signal_kill(cfg, st1, outcomes.drop_first(), i - 1, signal, coredumped);
    }
}

} // verus!
