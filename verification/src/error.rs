//! The error taxonomy of the adapter.
//!
//! `NotSupported` marks an operation with no analogue on this platform
//! (custom cursors, cursor grab and position, window drag, hit-testing);
//! `Unavailable` marks a native handle that is not currently valid, for
//! instance outside the window between a resume and the matching suspend.
//! Native-state read failures degrade to zero-valued fallbacks instead and
//! never surface here.

use vstd::prelude::*;

verus! {

/// Error returned by a request the platform cannot honour.
#[derive(Clone, Copy, Debug, PartialEq, Eq, Structural)]
pub enum RequestError {
    /// The operation has no analogue on this platform.
    NotSupported,
    /// The native handle behind the operation is not currently valid.
    Unavailable,
}

impl RequestError {
    /// A human-readable description of the error.
    pub fn message(&self) -> (r: &'static str)
        ensures
            *self == RequestError::NotSupported ==> r@ == "not supported on this platform"@,
            *self == RequestError::Unavailable ==> r@ == "native handle unavailable"@,
    {
        match self {
            RequestError::NotSupported => "not supported on this platform",
            RequestError::Unavailable => "native handle unavailable",
        }
    }
}

/// An error reported by the host operating system.  The platform attaches
/// no detail to it.
#[derive(Clone, Debug, PartialEq, Eq, Structural)]
pub struct OsError {}

impl OsError {
    /// A human-readable description of the error.
    pub fn message(&self) -> (r: &'static str)
        ensures
            r@ == "OpenHarmony OS Error"@,
    {
        "OpenHarmony OS Error"
    }
}

impl Default for OsError {
    fn default() -> (r: Self)
        ensures
            r == (OsError {}),
    {
        OsError {}
    }
}

} // verus!
