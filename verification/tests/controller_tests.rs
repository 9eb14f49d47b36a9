use fdb::FdbError;
use fdb::ProcessState;
use fdb::StopReason;
use fdb::interp::Interpreter;
use fdb::process::ProcessHandle;
use fdb::process::SIGTRAP_SIGNO;
use fdb::process::WaitOutcome;
use fdb::process::launch_state;
use fdb::process::next_state;
use fdb::version;

#[test]
fn version_string() {
    assert_eq!(version(), "0.1.0");
}

#[test]
fn attach_rejects_negative_pid() {
    assert!(matches!(
        ProcessHandle::attach(-5),
        Err(FdbError::InvalidPid)
    ));
}

#[test]
fn attach_rejects_zero_pid() {
    assert!(matches!(ProcessHandle::attach(0), Err(FdbError::InvalidPid)));
}

#[test]
fn attach_to_nonexistent_pid_is_syscall_error() {
    // No Linux pid can reach i32::MAX, so PTRACE_ATTACH must fail with an
    // OS error and no handle may come back.
    assert!(matches!(
        ProcessHandle::attach(i32::MAX),
        Err(FdbError::SysCall(_))
    ));
}

#[test]
fn wait_outcome_stop_resolves_to_stopped() {
    let st = next_state(ProcessState::Running, &WaitOutcome::SignalStop(2));
    assert_eq!(st, ProcessState::Stopped(StopReason { signal: 2 }));
}

#[test]
fn wait_outcome_trace_stops_resolve_to_stopped() {
    let st = next_state(ProcessState::Running, &WaitOutcome::TraceEvent(SIGTRAP_SIGNO));
    assert_eq!(st, ProcessState::Stopped(StopReason { signal: SIGTRAP_SIGNO }));
    let st = next_state(ProcessState::Running, &WaitOutcome::SyscallStop);
    assert_eq!(st, ProcessState::Stopped(StopReason { signal: SIGTRAP_SIGNO }));
}

#[test]
fn wait_outcome_exit_resolves_to_exited() {
    let st = next_state(ProcessState::Running, &WaitOutcome::NormalExit(0));
    assert_eq!(st, ProcessState::Exited(0));
}

#[test]
fn wait_outcome_kill_resolves_to_terminated() {
    let st = next_state(ProcessState::Running, &WaitOutcome::SignalKill(9));
    assert_eq!(st, ProcessState::Terminated(9));
}

#[test]
fn wait_outcome_without_transition_keeps_state() {
    let cur = ProcessState::Stopped(StopReason { signal: 5 });
    assert_eq!(next_state(cur, &WaitOutcome::Resumed), cur);
    assert_eq!(next_state(cur, &WaitOutcome::NoChange), cur);
}

#[test]
fn empty_line_repeats_last_command() {
    let mut interp = Interpreter::new();
    assert_eq!(interp.resolve_line("info"), Some("info".to_string()));
    assert_eq!(interp.resolve_line(""), Some("info".to_string()));
}

#[test]
fn empty_line_without_history_is_noop() {
    let mut interp = Interpreter::new();
    assert_eq!(interp.resolve_line(""), None);
    assert_eq!(interp.resolve_line("   "), None);
}

#[test]
fn new_command_replaces_last() {
    let mut interp = Interpreter::new();
    assert_eq!(interp.resolve_line("info"), Some("info".to_string()));
    assert_eq!(interp.resolve_line("c"), Some("c".to_string()));
    assert_eq!(interp.resolve_line(""), Some("c".to_string()));
}

#[test]
fn whitespace_only_line_repeats_too() {
    let mut interp = Interpreter::new();
    assert_eq!(interp.resolve_line("  help  "), Some("help".to_string()));
    assert_eq!(interp.resolve_line(" \t"), Some("help".to_string()));
}

#[test]
fn retained_command_is_trimmed() {
    let mut interp = Interpreter::new();
    assert_eq!(interp.resolve_line("\t info \n"), Some("info".to_string()));
    assert_eq!(interp.resolve_line(""), Some("info".to_string()));
}

#[test]
fn form_feed_only_line_is_whitespace() {
    let mut interp = Interpreter::new();
    assert_eq!(interp.resolve_line("\u{0C}"), None);
    assert_eq!(interp.resolve_line("c"), Some("c".to_string()));
    assert_eq!(interp.resolve_line("\u{0C}"), Some("c".to_string()));
}

#[test]
fn launch_wait_stop_gives_initialized() {
    let st = launch_state(&WaitOutcome::SignalStop(19));
    assert_eq!(st, ProcessState::Initialized);
    let st = launch_state(&WaitOutcome::TraceEvent(SIGTRAP_SIGNO));
    assert_eq!(st, ProcessState::Initialized);
}

#[test]
fn launch_wait_early_exit_is_recorded() {
    let st = launch_state(&WaitOutcome::NormalExit(3));
    assert_eq!(st, ProcessState::Exited(3));
}

#[test]
fn launch_wait_early_kill_is_recorded() {
    let st = launch_state(&WaitOutcome::SignalKill(11));
    assert_eq!(st, ProcessState::Terminated(11));
}
