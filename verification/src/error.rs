//! The error taxonomy shared by both platform backends.

use vstd::prelude::*;

verus! {

/// An error returned by a Bluetooth socket operation.
///
/// Failures of the platform primitives carry the native error code verbatim
/// in `Os`; the remaining variants classify the conditions the core itself
/// detects and must signal identically on every platform.
#[derive(Clone, Copy, Debug, PartialEq, Eq, Structural)]
pub enum BtError {
    /// No device or address was found; in particular, the multi-address
    /// resolver was handed an empty address sequence.
    NotFound,
    /// An argument was rejected, such as a zero-duration timeout.
    InvalidInput,
    /// An operation in nonblocking mode could not complete immediately.
    WouldBlock,
    /// The connect deadline was exceeded.
    TimedOut,
    /// The socket is not connected.
    NotConnected,
    /// A readiness wait reported a hangup but the pending-error slot was
    /// empty: a genuine, narrow race, surfaced as a generic failure.
    Other,
    /// An unclassified native error, carrying the OS error code verbatim.
    Os(i32),
}

} // verus!
