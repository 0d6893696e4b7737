//! The closed set of failure kinds that the capture engine surfaces.

use vstd::prelude::*;

verus! {

/// Why a lifecycle operation failed.
///
/// - `Configuration`: a bad device, destination or format; the session stays
///   in its prior state.
/// - `InvalidState`: an operation invoked out of sequence, such as starting a
///   recording before a session exists; no state change.
/// - `Io`: a file create, write or finalize failure.
/// - `Lock`: the control-path mutex around the backend was poisoned; only the
///   surrounding process layer produces this kind.
#[derive(Clone, Copy, Debug, PartialEq, Eq, Structural)]
pub enum RecorderError {
    Configuration,
    InvalidState,
    Io,
    Lock,
}

impl RecorderError {
    /// A human-readable description of the failure kind.
    pub fn message(&self) -> (r: String)
        ensures
            self is Configuration ==> r@ == "bad device, destination or format"@,
            self is InvalidState ==> r@ == "operation invoked out of sequence"@,
            self is Io ==> r@ == "file create, write or finalize failure"@,
            self is Lock ==> r@ == "recorder lock poisoned"@,
    {
        match self {
            RecorderError::Configuration => "bad device, destination or format".to_owned(),
            RecorderError::InvalidState => "operation invoked out of sequence".to_owned(),
            RecorderError::Io => "file create, write or finalize failure".to_owned(),
            RecorderError::Lock => "recorder lock poisoned".to_owned(),
        }
    }
}

} // verus!
