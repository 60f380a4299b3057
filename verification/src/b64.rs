//! Trusted interface to the base64 codec that inline read payloads use.

use base64::Engine;
use vstd::prelude::*;

verus! {

/// The codec's error type, reported when a payload is not well-formed
/// base64; opaque to the bridge, which only maps it to its own error.
#[verifier::external_type_specification]
#[verifier::external_body]
pub struct ExDecodeError(base64::DecodeError);

/// What the standard-alphabet base64 decoder returns for `s`: the decoded
/// bytes, or nothing when `s` is not a well-formed encoding.
pub uninterp spec fn base64_decoded(s: Seq<char>) -> Option<Seq<u8>>;

/// Relies on base64's `Engine::decode` with the standard alphabet and
/// padding: the result is a pure function of the input characters alone,
/// and decoding fails exactly on ill-formed input.
#[verifier::external_body]
pub(crate) fn base64_decode(s: &str) -> (r: Result<Vec<u8>, base64::DecodeError>)
    ensures
        match r {
            Ok(v) => base64_decoded(s@) == Some(v@),
            Err(_) => base64_decoded(s@) is None,
        },
{
    base64::prelude::BASE64_STANDARD.decode(s)
}

} // verus!
