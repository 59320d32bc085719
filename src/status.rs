//! Failure taxonomy and the integer status reported at the boundary.
use vstd::prelude::*;

verus! {

/// Status reported for a call that succeeded.
pub const STATUS_OK: i32 = 0;

/// Status reported for every failed call, whatever went wrong.
pub const STATUS_FAILED: i32 = -1;

/// What can go wrong on the way from a path to decoded pixels.
#[derive(Clone, Copy, Debug, PartialEq, Eq, Structural)]
pub enum BridgeError {
    /// The path is not well-formed text.
    BadPath,
    /// The file could not be read.
    Unreadable,
    /// The codec does not recognise the bytes as an image.
    NotAnImage,
    /// The codec produced no pixels, or pixels inconsistent with its dimensions.
    DecodeFailed,
    /// The destination cannot hold the decoded frame.
    BufferTooSmall,
    /// An unexpected fault was contained at the boundary.
    Fault,
}

/// The status that a result maps to: zero on success, negative otherwise.
pub open spec fn status_spec<T>(r: Result<T, BridgeError>) -> i32 {
    match r {
        Ok(_) => STATUS_OK,
        Err(_) => STATUS_FAILED,
    }
}

/// Collapses a result to the single status code seen by the host.
pub fn status_of<T>(r: &Result<T, BridgeError>) -> (s: i32)
    ensures
        s == status_spec(*r),
        s == 0 <==> r is Ok,
        s < 0 <==> r is Err,
{
    match r {
        Ok(_) => STATUS_OK,
        Err(_) => STATUS_FAILED,
    }
}

} // verus!
