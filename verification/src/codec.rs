//! Decoding of the base64-encoded audio payloads that cross the boundary
//! into the playback core.

use vstd::prelude::*;

verus! {

/// What decoding a character sequence as standard base64 yields: `Some` of
/// the decoded bytes when the input is well-formed base64, `None` when it is
/// rejected. The decoding is a function of the input characters alone.
pub uninterp spec fn base64_decoding(s: Seq<char>) -> Option<Seq<u8>>;

#[verifier::external_type_specification]
#[verifier::external_body]
pub struct ExDecodeError(base64::DecodeError);

/// Relies on `base64::Engine::decode` with the standard-alphabet engine
/// `base64::engine::general_purpose::STANDARD`: it returns `Ok` of the
/// decoded bytes exactly on well-formed base64 input, `Err` otherwise, and
/// the outcome depends on the input alone; named here `base64_decoding`.
#[verifier::external_body]
pub(crate) fn decode_base64(s: &String) -> (r: Result<Vec<u8>, base64::DecodeError>)
    ensures
        match r {
            Ok(v) => base64_decoding(s@) == Some(v@),
            Err(_) => base64_decoding(s@) is None,
        },
{
    base64::Engine::decode(&base64::engine::general_purpose::STANDARD, s.as_bytes())
}

} // verus!
