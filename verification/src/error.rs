//! Failures that an operation can report.

use vstd::prelude::*;

verus! {

/// Why an operation failed.
#[derive(Debug, Clone, Copy, PartialEq, Eq)]
pub enum Error {
    /// The system call itself failed; the payload is the error number that
    /// the operating system reported for it.
    Os(i32),
    /// The call did not fail, but the byte count that it returned cannot be
    /// taken for the size of a complete result: a link fills the receive
    /// buffer to its last byte and may go on beyond it, or the count is none
    /// that the buffer could hold.
    BufferTooSmall,
}

/// Whether the standard library classifies the error number `code` as a
/// denied permission.
pub uninterp spec fn denies_permission(code: i32) -> bool;

/// `std::io::Error::kind`, on the error that `std::io::Error::from_raw_os_error`
/// makes of `code`: tells whether that kind is `ErrorKind::PermissionDenied`.
/// The classification depends on `code` alone.
#[verifier::external_body]
pub(crate) fn permission_denied(code: i32) -> (denied: bool)
    ensures
        denied == denies_permission(code),
{
    match std::io::Error::from_raw_os_error(code).kind() {
        std::io::ErrorKind::PermissionDenied => true,
        _ => false,
    }
}

} // verus!
