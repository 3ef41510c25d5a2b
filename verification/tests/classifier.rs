use ministrace::config::SupervisorConfig;
use ministrace::event::Level;
use ministrace::event::LogRecord;
use ministrace::event::LoopError;
use ministrace::event::TraceKind;
use ministrace::event::WaitEvent;
use ministrace::event::WaitOutcome;
use ministrace::supervisor::classify;
use ministrace::supervisor::exec_log;
use ministrace::supervisor::final_outcome;
use ministrace::supervisor::fork_log;
use ministrace::supervisor::launch_log;
use ministrace::supervisor::required_trace_options;
use ministrace::supervisor::seccomp_log;
use ministrace::supervisor::should_escalate;
use ministrace::supervisor::signal_exit_status;
use ministrace::supervisor::start_state;
use ministrace::supervisor::Directive;

fn quiet_config() -> SupervisorConfig {
    SupervisorConfig {
        ignore_new_processes: false,
        ignore_exited_processes: false,
        ignore_executed_commands: false,
        ignore_seccomp_events: false,
        ignore_syscalls: false,
        ignore_unknown_statuses: false,
        ignore_unknown_events: false,
        failure_timeout_ms: 20_000,
    }
}

#[test]
fn immediate_clean_exit_yields_status_zero_and_no_escalation() {
    let cfg = quiet_config();
    let st = start_state(42);
    assert_eq!(st.children, 1);
    assert_eq!(st.main_exit_code, 0);

    let (st, d) = classify(
        &cfg,
        st,
        WaitOutcome::Changed { event: WaitEvent::Exited { pid: 42, code: 0 } },
    );
    assert_eq!(st.children, 0);
    assert_eq!(st.main_exit_code, 0);
    assert_eq!(
        d,
        Directive::Log { record: LogRecord::ChildExited { pid: 42, exit_code: 0 } }
    );

    let (st, d) = classify(&cfg, st, WaitOutcome::NoChildren);
    assert_eq!(d, Directive::Finish);

    let (code, children) = final_outcome(Ok((st.main_exit_code, st.children)));
    assert_eq!(code, 0);
    assert!(!should_escalate(children));
}

#[test]
fn forked_child_and_clean_exits_return_count_to_zero() {
    let cfg = quiet_config();
    let st = start_state(100);

    let (st, d) = classify(
        &cfg,
        st,
        WaitOutcome::Changed {
            event: WaitEvent::Trace { pid: 100, signal: 5, kind: TraceKind::Fork },
        },
    );
    assert_eq!(st.children, 2);
    assert_eq!(d, Directive::QueryFork { pid: 100, kind: TraceKind::Fork });

    let (st, _) = classify(
        &cfg,
        st,
        WaitOutcome::Changed { event: WaitEvent::Exited { pid: 101, code: 0 } },
    );
    assert_eq!(st.children, 1);
    assert_eq!(st.main_exit_code, 0);

    let (st, _) = classify(
        &cfg,
        st,
        WaitOutcome::Changed { event: WaitEvent::Exited { pid: 100, code: 0 } },
    );
    assert_eq!(st.children, 0);

    let (_, d) = classify(&cfg, st, WaitOutcome::NoChildren);
    assert_eq!(d, Directive::Finish);
}

#[test]
fn main_exit_code_is_recorded_and_other_exits_leave_it_alone() {
    let cfg = quiet_config();
    let st = start_state(10);

    let (st, _) = classify(
        &cfg,
        st,
        WaitOutcome::Changed {
            event: WaitEvent::Trace { pid: 10, signal: 5, kind: TraceKind::Vfork },
        },
    );
    let (st, _) = classify(
        &cfg,
        st,
        WaitOutcome::Changed { event: WaitEvent::Exited { pid: 10, code: 7 } },
    );
    assert_eq!(st.main_exit_code, 7);

    let (st, _) = classify(
        &cfg,
        st,
        WaitOutcome::Changed { event: WaitEvent::Exited { pid: 11, code: 3 } },
    );
    assert_eq!(st.main_exit_code, 7);
    assert_eq!(st.children, 0);
}

#[test]
fn signal_kill_of_main_maps_to_high_status() {
    let cfg = quiet_config();
    let st = start_state(5);

    let (st, d) = classify(
        &cfg,
        st,
        WaitOutcome::Changed {
            event: WaitEvent::Signaled { pid: 5, signal: 9, coredumped: false },
        },
    );
    assert_eq!(st.children, 0);
    assert_eq!(st.main_exit_code, 137);
    assert_eq!(
        d,
        Directive::Log {
            record: LogRecord::ChildSignaled { pid: 5, signal: 9, coredumped: false }
        }
    );
}

#[test]
fn signal_exit_status_values() {
    assert_eq!(signal_exit_status(9), 137);
    assert_eq!(signal_exit_status(15), 143);
    assert_eq!(signal_exit_status(0), 128);
    // A signal number whose translation would wrap to 0 reads as 128,
    // never as success.
    assert_eq!(signal_exit_status(128), 128);
    assert_eq!(signal_exit_status(129), 1);
    assert_eq!(signal_exit_status(127), 255);
}

#[test]
fn stopped_process_is_resumed_without_logging() {
    let cfg = quiet_config();
    let st = start_state(8);
    let (st2, d) = classify(
        &cfg,
        st,
        WaitOutcome::Changed { event: WaitEvent::Stopped { pid: 8, signal: 19 } },
    );
    assert_eq!(st2, st);
    assert_eq!(d, Directive::Resume { pid: 8 });
}

#[test]
fn exec_and_seccomp_events_query_then_resume() {
    let cfg = quiet_config();
    let st = start_state(8);
    let (_, d) = classify(
        &cfg,
        st,
        WaitOutcome::Changed {
            event: WaitEvent::Trace { pid: 8, signal: 5, kind: TraceKind::Exec },
        },
    );
    assert_eq!(d, Directive::QueryExec { pid: 8 });

    let (_, d) = classify(
        &cfg,
        st,
        WaitOutcome::Changed {
            event: WaitEvent::Trace { pid: 8, signal: 5, kind: TraceKind::Seccomp },
        },
    );
    assert_eq!(d, Directive::QuerySeccomp { pid: 8 });
}

#[test]
fn suppression_flags_quiet_the_records_but_keep_bookkeeping() {
    let cfg = SupervisorConfig {
        ignore_new_processes: true,
        ignore_exited_processes: true,
        ignore_executed_commands: true,
        ignore_seccomp_events: true,
        ignore_syscalls: true,
        ignore_unknown_statuses: true,
        ignore_unknown_events: true,
        failure_timeout_ms: 0,
    };
    let st = start_state(4);

    let (st2, d) = classify(
        &cfg,
        st,
        WaitOutcome::Changed {
            event: WaitEvent::Trace { pid: 4, signal: 5, kind: TraceKind::Clone },
        },
    );
    assert_eq!(st2.children, 2);
    assert_eq!(d, Directive::Resume { pid: 4 });

    let (st3, d) = classify(
        &cfg,
        st2,
        WaitOutcome::Changed { event: WaitEvent::Exited { pid: 9, code: 1 } },
    );
    assert_eq!(st3.children, 1);
    assert_eq!(d, Directive::Quiet);

    let (_, d) = classify(
        &cfg,
        st3,
        WaitOutcome::Changed { event: WaitEvent::Unknown { raw: 0xbeef } },
    );
    assert_eq!(d, Directive::Quiet);

    let (_, d) = classify(
        &cfg,
        st3,
        WaitOutcome::Changed { event: WaitEvent::SyscallStop { pid: 4 } },
    );
    assert_eq!(d, Directive::Resume { pid: 4 });

    assert_eq!(launch_log(&cfg, 4), None);
}

#[test]
fn unknown_status_is_logged_but_not_resumed() {
    let cfg = quiet_config();
    let st = start_state(4);
    let (st2, d) = classify(
        &cfg,
        st,
        WaitOutcome::Changed { event: WaitEvent::Unknown { raw: 77 } },
    );
    assert_eq!(st2, st);
    assert_eq!(d, Directive::Log { record: LogRecord::UnknownStatus { raw: 77 } });
}

#[test]
fn wait_errors_retry_or_abort() {
    let cfg = quiet_config();
    let st = start_state(4);
    let (_, d) = classify(&cfg, st, WaitOutcome::Interrupted);
    assert_eq!(d, Directive::Retry);

    let (_, d) = classify(&cfg, st, WaitOutcome::Failed { errno: 13 });
    assert_eq!(
        d,
        Directive::Abort { error: LoopError::WaitFailed { errno: 13 } }
    );
}

#[test]
fn fork_log_reports_new_pid_or_degrades_to_warning() {
    let ok = fork_log(TraceKind::Fork, 20, Ok(21));
    assert_eq!(
        ok,
        LogRecord::ChildForked { kind: TraceKind::Fork, pid: 20, new_pid: 21 }
    );
    assert_eq!(ok.level(), Level::Info);

    let bad = fork_log(TraceKind::Clone, 20, Err(3));
    assert_eq!(
        bad,
        LogRecord::ChildForkedPidUnknown { kind: TraceKind::Clone, pid: 20, errno: 3 }
    );
    assert_eq!(bad.level(), Level::Warn);
}

#[test]
fn seccomp_log_reports_data_or_degrades_to_warning() {
    let ok = seccomp_log(6, Ok(55));
    assert_eq!(ok, LogRecord::ChildSeccomp { pid: 6, ret_data: 55 });
    assert_eq!(ok.level(), Level::Info);

    let bad = seccomp_log(6, Err(14));
    assert_eq!(bad, LogRecord::ChildSeccompDataUnknown { pid: 6, errno: 14 });
    assert_eq!(bad.level(), Level::Warn);
}

#[test]
fn exec_log_formats_cmdline_and_keeps_exe() {
    let buffer: Vec<u8> = b"ls\0-l\0".to_vec();
    let ok = exec_log(30, Ok(buffer), Ok(String::from("/bin/ls")));
    assert_eq!(
        ok,
        LogRecord::ChildExec {
            pid: 30,
            cmdline: String::from("ls -l"),
            exe: String::from("/bin/ls"),
        }
    );
    assert_eq!(ok.level(), Level::Info);
}

#[test]
fn exec_log_degrades_to_a_warning_when_either_read_fails() {
    let buffer: Vec<u8> = b"ls\0".to_vec();
    let no_exe = exec_log(30, Ok(buffer), Err(String::from("denied")));
    assert_eq!(
        no_exe,
        LogRecord::ChildExecExeUnknown {
            pid: 30,
            cmdline: String::from("ls"),
            error: String::from("denied"),
        }
    );
    assert_eq!(no_exe.level(), Level::Warn);

    let no_cmdline = exec_log(31, Err(String::from("gone")), Ok(String::from("/bin/ls")));
    assert_eq!(
        no_cmdline,
        LogRecord::ChildExecCmdlineUnknown {
            pid: 31,
            error: String::from("gone"),
            exe: String::from("/bin/ls"),
        }
    );
    assert_eq!(no_cmdline.level(), Level::Warn);

    let neither = exec_log(32, Err(String::from("gone")), Err(String::from("denied")));
    assert_eq!(
        neither,
        LogRecord::ChildExecReadsUnknown {
            pid: 32,
            cmdline_error: String::from("gone"),
            exe_error: String::from("denied"),
        }
    );
    assert_eq!(neither.level(), Level::Warn);
}

#[test]
fn fatal_loop_error_maps_to_status_128_with_cleanup_owed() {
    let (code, children) = final_outcome(Err(LoopError::ContinueFailed { pid: 12, errno: 3 }));
    assert_eq!(code, 128);
    assert_eq!(children, 1);
    assert!(should_escalate(children));

    let (code, children) = final_outcome(Ok((9, 4)));
    assert_eq!(code, 9);
    assert_eq!(children, 4);
}

#[test]
fn trace_options_cover_the_five_event_categories() {
    let opts = required_trace_options();
    assert_eq!(
        opts,
        vec![
            TraceKind::Exec,
            TraceKind::Clone,
            TraceKind::Fork,
            TraceKind::Vfork,
            TraceKind::Seccomp,
        ]
    );
}

#[test]
fn launch_log_announces_the_main_process() {
    let cfg = quiet_config();
    assert_eq!(launch_log(&cfg, 33), Some(LogRecord::ChildCreated { pid: 33 }));
}
