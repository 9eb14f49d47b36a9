//! Core library for the fdb debugger: the tracee lifecycle state machine,
//! the trace-control protocol, and the interactive command interpreter.

use vstd::prelude::*;

pub mod errors;
pub mod command;
pub mod interp;
pub mod process;

pub use errors::FdbError;
pub use errors::FdbResult;

verus! {

/// Exposes the crate version for CLI reporting.
pub fn version() -> (r: &'static str)
    ensures
        r@ == "0.1.0"@,
{
    "0.1.0"
}

/// Lifecycle states of a traced process, from creation to a terminal state.
///
/// `Exited` and `Terminated` are absorbing: once reached, no further control
/// operation is valid against the handle.
#[derive(Debug, Clone, Copy, PartialEq, Eq, Structural)]
pub enum ProcessState {
    /// Created/attached but not yet continued by us.
    Initialized,
    /// Currently running after a continue; the true status is unknown
    /// until the next wait.
    Running,
    /// The process stopped, and why.
    Stopped(StopReason),
    /// The process exited normally with the given exit code.
    Exited(i32),
    /// The process was killed by the given signal (raw signal number).
    Terminated(i32),
}

/// Why a tracee stopped: the raw number of the signal that caused the stop
/// (SIGTRAP, SIGINT, ...).
#[derive(Debug, Clone, Copy, PartialEq, Eq, Structural)]
pub struct StopReason {
    /// Which signal caused the stop.
    pub signal: i32,
}

impl ProcessState {
    /// A terminal state admits no further control operations.
    pub open spec fn is_terminal(self) -> bool {
        self is Exited || self is Terminated
    }
}

} // verus!
