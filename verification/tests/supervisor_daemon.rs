use fastfreeze::consts::APP_ROOT_PID;
use fastfreeze::consts::EXIT_CODE_FAILURE;
use fastfreeze::consts::EXIT_CODE_RESTORE_FAILURE;
use fastfreeze::consts::MIN_PID;
use fastfreeze::daemon::daemon_init;
use fastfreeze::daemon::default_control_request;
use fastfreeze::daemon::on_connection_read;
use fastfreeze::daemon::on_ready;
use fastfreeze::daemon::register_connection;
use fastfreeze::daemon::ConnVerdict;
use fastfreeze::daemon::CpuBudget;
use fastfreeze::daemon::PollKind;
use fastfreeze::daemon::ReadyAction;
use fastfreeze::error::Error;
use fastfreeze::error::ErrorKind;
use fastfreeze::supervisor::ensure_non_conflicting_pid;
use fastfreeze::supervisor::monitor_step;
use fastfreeze::supervisor::should_forward_signal;
use fastfreeze::supervisor::PidCheck;
use fastfreeze::supervisor::ReapAction;
use fastfreeze::supervisor::WaitOutcome;
use fastfreeze::supervisor::SIGBUS;
use fastfreeze::supervisor::SIGCHLD;
use fastfreeze::supervisor::SIGFPE;
use fastfreeze::supervisor::SIGILL;
use fastfreeze::supervisor::SIGKILL;
use fastfreeze::supervisor::SIGSEGV;
use fastfreeze::supervisor::SIGSTOP;
use fastfreeze::supervisor::SIGTERM;

#[test]
fn protected_signals_are_never_forwarded() {
    for sig in [SIGCHLD, SIGKILL, SIGSTOP, SIGFPE, SIGILL, SIGSEGV, SIGBUS] {
        assert!(!should_forward_signal(sig));
    }
}

#[test]
fn ordinary_signals_are_forwarded() {
    assert!(should_forward_signal(SIGTERM));
    assert!(should_forward_signal(1));
    assert!(should_forward_signal(2));
    assert!(should_forward_signal(31));
}

#[test]
fn out_of_range_signals_are_not_forwarded() {
    assert!(!should_forward_signal(0));
    assert!(!should_forward_signal(32));
    assert!(!should_forward_signal(-1));
}

#[test]
fn app_exit_code_is_reported_as_is() {
    let r = monitor_step(&WaitOutcome::Exited { pid: APP_ROOT_PID, code: 42 });
    assert_eq!(r, ReapAction::AppDied { kill_group_pid: APP_ROOT_PID, exit_code: 42 });
}

#[test]
fn app_exit_zero_still_ends_monitoring() {
    let r = monitor_step(&WaitOutcome::Exited { pid: APP_ROOT_PID, code: 0 });
    assert_eq!(r, ReapAction::AppDied { kill_group_pid: APP_ROOT_PID, exit_code: 0 });
}

#[test]
fn app_signal_death_maps_to_128_plus_signal() {
    let r = monitor_step(&WaitOutcome::Signaled { pid: APP_ROOT_PID, sig: SIGTERM });
    assert_eq!(r, ReapAction::AppDied { kill_group_pid: APP_ROOT_PID, exit_code: 143 });
}

#[test]
fn orphans_are_reaped_silently() {
    let r = monitor_step(&WaitOutcome::Exited { pid: APP_ROOT_PID + 1, code: 1 });
    assert_eq!(r, ReapAction::KeepWaiting);
    let r = monitor_step(&WaitOutcome::Signaled { pid: 9999, sig: SIGKILL });
    assert_eq!(r, ReapAction::KeepWaiting);
    let r = monitor_step(&WaitOutcome::Other);
    assert_eq!(r, ReapAction::KeepWaiting);
}

#[test]
fn low_supervisor_pid_proceeds() {
    assert_eq!(ensure_non_conflicting_pid(APP_ROOT_PID as u32 - 1), PidCheck::Proceed);
    assert_eq!(ensure_non_conflicting_pid(1), PidCheck::Proceed);
}

#[test]
fn conflicting_supervisor_pid_heals_and_fails() {
    let r = ensure_non_conflicting_pid(APP_ROOT_PID as u32);
    assert_eq!(r, PidCheck::Conflict { reset_ns_last_pid: MIN_PID });
    let r = ensure_non_conflicting_pid(APP_ROOT_PID as u32 + 12345);
    assert_eq!(r, PidCheck::Conflict { reset_ns_last_pid: MIN_PID });
    let e = Error::pre_ready(ErrorKind::PidAllocationError);
    assert_eq!(e.exit_code, EXIT_CODE_FAILURE);
}

#[test]
fn error_exit_codes() {
    assert_eq!(Error::pre_ready(ErrorKind::LockError).exit_code, 170);
    assert_eq!(Error::pre_ready(ErrorKind::ControlProtocolError).exit_code, 170);
    assert_eq!(Error::restore_failure(ErrorKind::StoreError).exit_code, 171);
    assert_eq!(Error::restore_failure(ErrorKind::PipelineError).exit_code, EXIT_CODE_RESTORE_FAILURE);
}

#[test]
fn control_checkpoint_defaults() {
    let cp = default_control_request();
    assert!(cp.image_url.is_none());
    assert!(cp.preserved_paths.is_empty());
    assert!(cp.leave_running);
    assert_eq!(cp.num_shards, 1);
    assert_eq!(cp.cpu_budget, CpuBudget::Medium);
    assert!(cp.passphrase_file.is_none());
    assert_eq!(cp.verbose, 0);
    assert!(cp.app_name.is_none());
}

#[test]
fn daemon_dispatch_by_slot() {
    let mut s = daemon_init();
    assert_eq!(on_ready(&s, 0), ReadyAction::Shutdown);
    assert_eq!(on_ready(&s, 1), ReadyAction::Accept);
    assert_eq!(on_ready(&s, 2), ReadyAction::Ignore);
    let key = register_connection(&mut s);
    assert_eq!(key, 2);
    assert_eq!(on_ready(&s, 2), ReadyAction::ReadConnection { key: 2 });
}

#[test]
fn non_empty_request_triggers_a_default_checkpoint_and_echo() {
    let mut s = daemon_init();
    let key = register_connection(&mut s);
    match on_connection_read(&mut s, key, Some(3)) {
        ConnVerdict::TriggerCheckpoint { request, echo_len } => {
            assert_eq!(echo_len, 3);
            assert!(request.leave_running);
            assert_eq!(request.num_shards, 1);
            assert_eq!(request.cpu_budget, CpuBudget::Medium);
            assert!(request.image_url.is_none());
        },
        ConnVerdict::DropConnection => panic!("expected a checkpoint trigger"),
    }
    assert_eq!(on_ready(&s, key), ReadyAction::ReadConnection { key });
}

#[test]
fn empty_request_triggers_nothing_and_spares_other_connections() {
    let mut s = daemon_init();
    let first = register_connection(&mut s);
    let second = register_connection(&mut s);
    match on_connection_read(&mut s, first, Some(0)) {
        ConnVerdict::DropConnection => {},
        ConnVerdict::TriggerCheckpoint { .. } => panic!("an empty request must not checkpoint"),
    }
    assert_eq!(on_ready(&s, first), ReadyAction::Ignore);
    assert_eq!(on_ready(&s, second), ReadyAction::ReadConnection { key: second });
    assert_eq!(on_ready(&s, 0), ReadyAction::Shutdown);
    assert_eq!(on_ready(&s, 1), ReadyAction::Accept);
}

#[test]
fn failed_read_drops_the_connection() {
    let mut s = daemon_init();
    let key = register_connection(&mut s);
    match on_connection_read(&mut s, key, None) {
        ConnVerdict::DropConnection => {},
        ConnVerdict::TriggerCheckpoint { .. } => panic!("a failed read must not checkpoint"),
    }
    assert_eq!(on_ready(&s, key), ReadyAction::Ignore);
}

#[test]
fn slot_kinds_are_distinct() {
    assert_ne!(PollKind::Stop, PollKind::Listener);
    assert_ne!(PollKind::Listener, PollKind::Connection);
}
