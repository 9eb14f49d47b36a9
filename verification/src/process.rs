//! Process control wrapping `ptrace` interactions: attach, resume, and the
//! blocking wait that drives the lifecycle state machine.

use vstd::prelude::*;

use nix::sys::wait::WaitStatus;
use nix::sys::wait::waitpid;
use nix::unistd::Pid;

use crate::ProcessState;
use crate::StopReason;
use crate::errors::FdbError;
use crate::errors::FdbResult;

verus! {

/// The raw signal number of SIGTRAP on Linux, the signal behind every
/// trace-induced stop.
pub const SIGTRAP_SIGNO: i32 = 5;

/// What one blocking wait on the tracee reported, with signals and exit
/// codes as raw numbers.
#[derive(Debug, Clone, Copy, PartialEq, Eq, Structural)]
pub enum WaitOutcome {
    /// The process is alive but was stopped by the given signal.
    SignalStop(i32),
    /// The tracee was stopped by a trace event; all such events carry the
    /// trap signal.
    TraceEvent(i32),
    /// The tracee was stopped at a system-call boundary.
    SyscallStop,
    /// The process exited normally with the given exit code.
    NormalExit(i32),
    /// The process was killed by the given signal.
    SignalKill(i32),
    /// The process resumed after a continue signal; reported only when a
    /// wait is asked to watch for it.
    Resumed,
    /// Nothing to report; only possible for a non-blocking wait.
    NoChange,
}

/// How one wait outcome advances the lifecycle state: a stop of any shape
/// becomes `Stopped` with its signal, a normal exit becomes `Exited`, a kill
/// becomes `Terminated`, and an outcome that encodes no stop leaves the
/// state unchanged rather than inventing a transition.
pub open spec fn spec_next_state(cur: ProcessState, o: WaitOutcome) -> ProcessState {
    match o {
        WaitOutcome::SignalStop(sig) => ProcessState::Stopped(StopReason { signal: sig }),
        WaitOutcome::TraceEvent(sig) => ProcessState::Stopped(StopReason { signal: sig }),
        WaitOutcome::SyscallStop => ProcessState::Stopped(StopReason { signal: SIGTRAP_SIGNO }),
        WaitOutcome::NormalExit(code) => ProcessState::Exited(code),
        WaitOutcome::SignalKill(sig) => ProcessState::Terminated(sig),
        WaitOutcome::Resumed => cur,
        WaitOutcome::NoChange => cur,
    }
}

/// Executable mirror of `spec_next_state`.
pub fn next_state(cur: ProcessState, o: &WaitOutcome) -> (r: ProcessState)
    ensures
        r == spec_next_state(cur, *o),
{
    match o {
        WaitOutcome::SignalStop(sig) => ProcessState::Stopped(StopReason { signal: *sig }),
        WaitOutcome::TraceEvent(sig) => ProcessState::Stopped(StopReason { signal: *sig }),
        WaitOutcome::SyscallStop => ProcessState::Stopped(StopReason { signal: SIGTRAP_SIGNO }),
        WaitOutcome::NormalExit(code) => ProcessState::Exited(*code),
        WaitOutcome::SignalKill(sig) => ProcessState::Terminated(*sig),
        WaitOutcome::Resumed => cur,
        WaitOutcome::NoChange => cur,
    }
}

/// How the first wait after a launch seeds the handle's state: a child
/// that already died is recorded as that early `Exited`/`Terminated`
/// observation; every other outcome is the expected initial trace stop,
/// and the handle starts in `Initialized`.
pub open spec fn spec_launch_state(o: WaitOutcome) -> ProcessState {
    match o {
        WaitOutcome::NormalExit(code) => ProcessState::Exited(code),
        WaitOutcome::SignalKill(sig) => ProcessState::Terminated(sig),
        _ => ProcessState::Initialized,
    }
}

/// Executable mirror of `spec_launch_state`.
pub fn launch_state(o: &WaitOutcome) -> (r: ProcessState)
    ensures
        r == spec_launch_state(*o),
{
    match o {
        WaitOutcome::NormalExit(code) => ProcessState::Exited(*code),
        WaitOutcome::SignalKill(sig) => ProcessState::Terminated(*sig),
        _ => ProcessState::Initialized,
    }
}

/// Law: classifying a wait outcome never reports `Running`. The state can
/// be `Running` after a wait only when the outcome encoded no transition at
/// all and the state already was `Running`; every real transition resolves
/// to `Stopped`, `Exited` or `Terminated`.
pub proof fn lemma_wait_never_reports_running(cur: ProcessState, o: WaitOutcome)
    ensures
        spec_next_state(cur, o) is Running ==> (o is Resumed || o is NoChange)
            && cur is Running,
{
}

/// Relies on nix::sys::ptrace::attach: issues PTRACE_ATTACH against `pid`,
/// making it a tracee of this process; the raw errno is handed back on
/// failure.
#[verifier::external_body]
fn pt_attach(pid: i32) -> (r: Result<(), i32>) {
    match nix::sys::ptrace::attach(nix::unistd::Pid::from_raw(pid)) {
        Ok(()) => Ok(()),
        Err(e) => Err(e as i32),
    }
}

/// Relies on nix::sys::ptrace::cont: issues PTRACE_CONT against `pid` with
/// no signal to deliver; the raw errno is handed back on failure.
#[verifier::external_body]
fn pt_cont(pid: i32) -> (r: Result<(), i32>) {
    match nix::sys::ptrace::cont(nix::unistd::Pid::from_raw(pid), None) {
        Ok(()) => Ok(()),
        Err(e) => Err(e as i32),
    }
}

/// Relies on nix::sys::wait::waitpid, called with no flags: blocks until
/// `pid` changes state and reports how. Its documentation states that
/// `Continued` is reported only under WCONTINUED and `StillAlive` only under
/// WNOHANG, and neither flag is passed here, so neither outcome occurs.
#[verifier::external_body]
fn wait_for(pid: i32) -> (r: Result<WaitOutcome, i32>)
    ensures
        r matches Ok(o) ==> !(o is Resumed) && !(o is NoChange),
{
    match waitpid(Pid::from_raw(pid), None) {
        Ok(WaitStatus::Stopped(_, s)) => Ok(WaitOutcome::SignalStop(s as i32)),
        Ok(WaitStatus::Exited(_, c)) => Ok(WaitOutcome::NormalExit(c)),
        Ok(WaitStatus::Signaled(_, s, _)) => Ok(WaitOutcome::SignalKill(s as i32)),
        Ok(WaitStatus::PtraceEvent(_, s, _)) => Ok(WaitOutcome::TraceEvent(s as i32)),
        Ok(WaitStatus::PtraceSyscall(_)) => Ok(WaitOutcome::SyscallStop),
        Ok(WaitStatus::Continued(_)) => Ok(WaitOutcome::Resumed),
        Ok(WaitStatus::StillAlive) => Ok(WaitOutcome::NoChange),
        Err(e) => Err(e as i32),
    }
}

/// The live, uniquely-owned representation of a traced process: its pid,
/// assigned once and immutable, and its lifecycle state, mutated only as
/// the direct result of an OS wait or a rejected control operation.
#[derive(Debug)]
pub struct ProcessHandle {
    pid: i32,
    state: ProcessState,
}

impl ProcessHandle {
    /// The OS process identifier the handle was built with.
    pub closed spec fn spec_pid(self) -> i32 {
        self.pid
    }

    /// The lifecycle state as last observed.
    pub closed spec fn spec_state(self) -> ProcessState {
        self.state
    }

    /// A handle always names a real (positive) pid.
    pub open spec fn wf(self) -> bool {
        self.spec_pid() > 0
    }

    /// Attach to an existing PID using `ptrace`.
    ///
    /// A non-positive pid is rejected as `InvalidPid` before any OS
    /// primitive is invoked. On success the handle starts in
    /// `Initialized`, never in any other state.
    pub fn attach(pid: i32) -> (r: FdbResult<ProcessHandle>)
        ensures
            pid <= 0 <==> r == Err::<ProcessHandle, FdbError>(FdbError::InvalidPid),
            r matches Ok(h) ==> h.wf() && h.spec_pid() == pid && h.spec_state()
                == ProcessState::Initialized,
            pid > 0 ==> (r matches Err(e) ==> e matches FdbError::SysCall(_)),
    {
        if pid <= 0 {
            return Err(FdbError::InvalidPid);
        }
        match pt_attach(pid) {
            Err(e) => Err(FdbError::SysCall(e)),
            Ok(()) => match wait_for(pid) {
                Err(e) => Err(FdbError::SysCall(e)),
                Ok(_) => Ok(ProcessHandle { pid, state: ProcessState::Initialized }),
            },
        }
    }

    /// Parent-side completion of a launch: consume the child's initial
    /// trace stop and construct the handle in `Initialized` state. If the
    /// child already died (image replacement failed), the early exit or
    /// termination is recorded in the handle instead of being lost. The
    /// observed outcome maps to the state exactly as `spec_launch_state`
    /// says: `Initialized` on the normal initial stop, never anything else.
    pub fn from_launched(pid: i32) -> (r: FdbResult<ProcessHandle>)
        requires
            pid > 0,
        ensures
            r matches Ok(h) ==> h.wf() && h.spec_pid() == pid && (h.spec_state()
                == ProcessState::Initialized || h.spec_state() is Exited || h.spec_state()
                is Terminated),
            r matches Err(e) ==> e matches FdbError::SysCall(_),
    {
        match wait_for(pid) {
            Err(e) => Err(FdbError::SysCall(e)),
            Ok(o) => Ok(ProcessHandle { pid, state: launch_state(&o) }),
        }
    }

    /// Issue a continue directive to the tracee and record `Running`.
    ///
    /// Against a terminal state this fails fast with `NoSuchProcess` and no
    /// syscall is issued. If the continue directive itself fails, the state
    /// is left unchanged, since the resume did not take effect.
    ///
    /// Protocol: every successful resume must be followed by exactly one
    /// `wait_on_signal` before the next control operation; resuming an
    /// already-running tracee fails at the syscall level.
    pub fn resume(&mut self) -> (r: FdbResult<()>)
        ensures
            final(self).spec_pid() == old(self).spec_pid(),
            old(self).spec_state().is_terminal() ==> r == Err::<(), FdbError>(
                FdbError::NoSuchProcess,
            ) && *final(self) == *old(self),
            !old(self).spec_state().is_terminal() ==> {
                &&& r is Ok ==> final(self).spec_state() == ProcessState::Running
                &&& r matches Err(e) ==> *final(self) == *old(self) && e matches FdbError::SysCall(
                    _,
                )
            },
    {
        if matches!(self.state, ProcessState::Exited(_) | ProcessState::Terminated(_)) {
            return Err(FdbError::NoSuchProcess);
        }
        match pt_cont(self.pid) {
            Err(e) => Err(FdbError::SysCall(e)),
            Ok(()) => {
                self.state = ProcessState::Running;
                Ok(())
            },
        }
    }

    /// Perform one blocking OS wait on the tracee and classify the result:
    /// a stop becomes `Stopped` with its signal, a normal exit `Exited`, a
    /// kill `Terminated`; the new state is both recorded and returned.
    ///
    /// Against a terminal state this fails fast with `NoSuchProcess` and no
    /// syscall is issued. After a resume, a successful wait never leaves
    /// the state at `Running`: it resolves to `Stopped`, `Exited` or
    /// `Terminated`.
    pub fn wait_on_signal(&mut self) -> (r: FdbResult<ProcessState>)
        ensures
            final(self).spec_pid() == old(self).spec_pid(),
            old(self).spec_state().is_terminal() ==> r == Err::<ProcessState, FdbError>(
                FdbError::NoSuchProcess,
            ) && *final(self) == *old(self),
            !old(self).spec_state().is_terminal() ==> {
                &&& r matches Ok(st) ==> st == final(self).spec_state() && (st is Stopped
                    || st is Exited || st is Terminated)
                &&& r matches Err(e) ==> *final(self) == *old(self) && e matches FdbError::SysCall(
                    _,
                )
            },
            (old(self).spec_state() is Running && r is Ok) ==> !(final(self).spec_state()
                is Running),
    {
        if matches!(self.state, ProcessState::Exited(_) | ProcessState::Terminated(_)) {
            return Err(FdbError::NoSuchProcess);
        }
        match wait_for(self.pid) {
            Err(e) => Err(FdbError::SysCall(e)),
            Ok(o) => {
                self.state = next_state(self.state, &o);
                Ok(self.state)
            },
        }
    }

    /// Current lifecycle state; no side effects, no blocking.
    pub fn state(&self) -> (r: ProcessState)
        ensures
            r == self.spec_state(),
    {
        self.state
    }

    /// The underlying PID, for reporting or future control calls.
    pub fn pid(&self) -> (r: i32)
        ensures
            r == self.spec_pid(),
    {
        self.pid
    }
}

} // verus!
