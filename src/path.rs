//! The first check at the boundary: the path handed in must be text.
use vstd::prelude::*;
use crate::status::BridgeError;

verus! {

/// The text that a byte sequence encodes as UTF-8, or `None` where the bytes
/// are not well-formed UTF-8.
pub uninterp spec fn utf8_text(b: Seq<u8>) -> Option<Seq<char>>;

/// Relies on `std::str::from_utf8`: it succeeds exactly when the bytes are
/// well-formed UTF-8, and then yields the text they encode.
#[verifier::external_body]
fn decode_utf8(b: &[u8]) -> (r: Option<String>)
    ensures
        match r {
            Some(s) => utf8_text(b@) == Some(s@),
            None => utf8_text(b@) is None,
        },
{
    match std::str::from_utf8(b) {
        Ok(s) => Some(s.to_string()),
        Err(_) => None,
    }
}

/// The path named by `bytes` (without its terminating NUL), or `BadPath`
/// where they are not well-formed text.
pub fn path_text(bytes: &[u8]) -> (r: Result<String, BridgeError>)
    ensures
        match utf8_text(bytes@) {
            Some(t) => r matches Ok(s) && s@ == t,
            None => r matches Err(e) && e == BridgeError::BadPath,
        },
{
    match decode_utf8(bytes) {
        Some(s) => Ok(s),
        None => Err(BridgeError::BadPath),
    }
}

} // verus!
