use ministrace::event::LogRecord;
use ministrace::event::Level;
use ministrace::event::SigKind;
use ministrace::shutdown::SendOutcome;
use ministrace::shutdown::ShutdownMachine;

#[test]
fn signals_go_out_in_fixed_order_with_halved_pauses() {
    let m = ShutdownMachine::new(20_000, 7);
    assert_eq!(m.pending_signal(), Some(SigKind::Interrupt));

    let (m, r) = m.advance(SendOutcome::Delivered);
    assert_eq!(r.log, None);
    assert!(!r.exit_now);
    assert_eq!(r.pause_ms, Some(10_000));
    assert_eq!(m.pending_signal(), Some(SigKind::Terminate));

    let (m, r) = m.advance(SendOutcome::Delivered);
    assert_eq!(r.log, None);
    assert!(!r.exit_now);
    assert_eq!(r.pause_ms, Some(10_000));
    assert_eq!(m.pending_signal(), Some(SigKind::Kill));

    let (m, r) = m.advance(SendOutcome::Delivered);
    assert_eq!(r.log, None);
    assert!(r.exit_now);
    assert_eq!(r.pause_ms, None);
    assert_eq!(m.pending_signal(), None);
    assert_eq!(m.exit_code, 7);
}

#[test]
fn zero_timeout_sends_all_three_signals_without_deliberate_delay() {
    let m = ShutdownMachine::new(0, 1);
    assert_eq!(m.pending_signal(), Some(SigKind::Interrupt));

    let (m, r) = m.advance(SendOutcome::Delivered);
    // No pause at all between the interrupt and the terminate.
    assert_eq!(r.pause_ms, None);
    assert_eq!(m.pending_signal(), Some(SigKind::Terminate));

    let (m, r) = m.advance(SendOutcome::Delivered);
    // The full zero-length timeout is slept before the kill.
    assert_eq!(r.pause_ms, Some(0));
    assert_eq!(m.pending_signal(), Some(SigKind::Kill));

    let (m, r) = m.advance(SendOutcome::Delivered);
    assert!(r.exit_now);
    assert_eq!(m.pending_signal(), None);
}

#[test]
fn odd_timeout_splits_into_two_equal_halves() {
    let m = ShutdownMachine::new(21, 0);
    let (m, r) = m.advance(SendOutcome::Delivered);
    assert_eq!(r.pause_ms, Some(10));
    let (_, r) = m.advance(SendOutcome::Delivered);
    assert_eq!(r.pause_ms, Some(10));
}

#[test]
fn timeout_of_one_millisecond_sleeps_it_all_before_the_kill() {
    let m = ShutdownMachine::new(1, 0);
    let (m, r) = m.advance(SendOutcome::Delivered);
    assert_eq!(r.pause_ms, None);
    let (_, r) = m.advance(SendOutcome::Delivered);
    assert_eq!(r.pause_ms, Some(1));
}

#[test]
fn empty_group_short_circuits_to_immediate_exit() {
    let m = ShutdownMachine::new(5_000, 3);
    let (m, r) = m.advance(SendOutcome::NoMembers);
    assert_eq!(r.log, None);
    assert!(r.exit_now);
    assert_eq!(r.pause_ms, None);
    assert_eq!(m.pending_signal(), None);
    assert_eq!(m.exit_code, 3);

    let m = ShutdownMachine::new(5_000, 3);
    let (m, _) = m.advance(SendOutcome::Delivered);
    let (m, r) = m.advance(SendOutcome::NoMembers);
    assert!(r.exit_now);
    assert_eq!(m.pending_signal(), None);
}

#[test]
fn failed_sends_are_logged_and_the_schedule_proceeds() {
    let m = ShutdownMachine::new(2_000, 0);
    let (m, r) = m.advance(SendOutcome::Failed { errno: 1 });
    let warn = r.log.expect("a failed interrupt send is logged");
    assert_eq!(
        warn,
        LogRecord::SignalSendFailed { sig: SigKind::Interrupt, errno: 1 }
    );
    assert_eq!(warn.level(), Level::Warn);
    assert!(!r.exit_now);
    assert_eq!(m.pending_signal(), Some(SigKind::Terminate));

    let (m, r) = m.advance(SendOutcome::Failed { errno: 1 });
    let warn = r.log.expect("a failed terminate send is logged");
    assert_eq!(warn.level(), Level::Warn);
    assert!(!r.exit_now);
    assert_eq!(m.pending_signal(), Some(SigKind::Kill));

    let (_, r) = m.advance(SendOutcome::Failed { errno: 1 });
    let err = r.log.expect("a failed kill send is logged");
    assert_eq!(err, LogRecord::SignalSendFailed { sig: SigKind::Kill, errno: 1 });
    assert_eq!(err.level(), Level::Error);
    assert!(r.exit_now);
}
