//! The ways in which an operation on a timer ends without a wake.

use vstd::prelude::*;

verus! {

/// Why an operation stopped.
#[derive(Clone, Copy, Debug, PartialEq, Eq, Structural)]
pub enum TimerError {
    /// The remote store could not be reached, or refused the request.
    StoreUnavailable,
    /// The store answered with something that is no timer record.
    MalformedPayload,
    /// A timer that has not yet run out exists under the caller's own
    /// identifier.
    AlreadyRunning,
    /// No record exists under the identifier that was to be joined.
    UnknownId,
    /// The timer that was to be joined has run out.
    Expired,
    /// The end of the timer cannot be represented as a timestamp.
    EndTimeOutOfRange,
}

} // verus!
