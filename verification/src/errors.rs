//! The failures that the record-store operations can report.

use vstd::prelude::*;

verus! {

/// Why an operation was refused.  Every failure aborts the whole operation:
/// no partial write is ever observable.
#[derive(Clone, Copy, Debug, PartialEq, Eq, Structural)]
pub enum FavoritesError {
    /// The derived favorites address already holds a record.
    RecordAlreadyExists,
    /// A declared record reference does not hold the record the operation
    /// needs: the address fails the re-derivation check, or nothing of the
    /// required kind is stored there.
    InvalidRecordAddress,
    /// A color string exceeds the 50-byte cap.
    StringTooLong,
    /// The accepting signer is not the user the request targets.
    UnauthorizedAcceptance,
    /// The designated refund destination is not the request's stored
    /// requester.
    RequesterMismatch,
    /// The caller-supplied address for a new record is already occupied.
    AllocationFailed,
}

} // verus!
