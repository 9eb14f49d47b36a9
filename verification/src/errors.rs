//! Error taxonomy for the debugger core.

use vstd::prelude::*;

verus! {

/// Unified result type across the debugger core.
pub type FdbResult<T> = Result<T, FdbError>;

/// Error cases surfaced by the debugger core.
#[derive(Debug, Clone, Copy, PartialEq, Eq, Structural)]
pub enum FdbError {
    /// Marker for yet-to-be implemented features; never produced on a
    /// control path reachable from the documented command surface.
    Unimplemented,
    /// The attach target was not a positive process id.
    InvalidPid,
    /// An OS primitive failed; carries the raw errno value.
    SysCall(i32),
    /// A null byte made an argument unusable as a C string.
    CStringError,
    /// A control operation was issued against a tracee that already
    /// exited or was terminated; rejected without touching the OS.
    NoSuchProcess,
}

} // verus!
