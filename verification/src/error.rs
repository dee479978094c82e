//! The error taxonomy of the protocol engine.

use vstd::prelude::*;

verus! {

/// Why an operation failed. Every failure is surfaced to the immediate
/// caller as one of these; nothing is retried, suppressed or replaced by a
/// default value inside the engine.
#[derive(PartialEq, Eq, Clone, Copy, Debug, Structural)]
pub enum ErrorKind {
    /// Opening the serial connection failed.
    SerialInit,
    /// A read or write on an open transport failed or timed out, or the
    /// byte stream ended before a whole frame arrived.
    IO,
    /// An inbound frame named an unknown command, register or status code.
    DecodeError,
    /// The checksum carried by an inbound frame did not match the one
    /// recomputed over its contents.
    CheckSumFail,
    /// A structurally valid, checksum-valid response did not correlate with
    /// the outstanding request: wrong device, wrong register or wrong shape.
    ResponseError,
    /// A reserved operation (write-location or change-device-address) was
    /// invoked; the engine never silently ignores these.
    UnsupportedOperation,
}

/// An error returned by the protocol engine.
#[derive(PartialEq, Eq, Clone, Copy, Debug, Structural)]
pub struct Error {
    pub kind: ErrorKind,
}

impl Error {
    /// The kind of failure this error reports.
    pub fn kind(&self) -> (r: ErrorKind)
        ensures
            r == self.kind,
    {
        self.kind
    }
}

} // verus!
