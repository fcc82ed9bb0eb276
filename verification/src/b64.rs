//! Trusted wrappers around the `base64` crate's standard engine (the
//! padded alphabet).  The encoding of a byte sequence and the result of
//! decoding are named rather than spelled out; the one fact stated beside
//! the names is that decoding inverts encoding, which is the crate's
//! central promise.

use vstd::prelude::*;

verus! {

/// The standard, padded base64 encoding of a byte sequence.
pub uninterp spec fn b64_of(b: Seq<u8>) -> Seq<char>;

/// What standard base64 decoding yields: `None` exactly where the input
/// is not a valid encoding.
pub uninterp spec fn b64_dec_of(s: Seq<char>) -> Option<Seq<u8>>;

#[verifier::external_type_specification]
#[verifier::external_body]
pub struct ExDecodeError(base64::DecodeError);

/// Relies on base64's `Engine::encode` with the STANDARD engine: a
/// deterministic function of the input bytes, which `decode` inverts;
/// the output is ASCII, four characters for every three input bytes,
/// padded.  The length bound keeps the engine's output-size computation,
/// which panics on overflow, away from its panic.
#[verifier::external_body]
pub fn b64_encode(data: &[u8]) -> (r: String)
    requires
        data@.len() <= 0x1000_0000_0000_0000,
    ensures
        r@ == b64_of(data@),
        b64_dec_of(r@) == Some(data@),
        r@.len() == 4 * ((data@.len() + 2) / 3),
        vstd::utf8::is_ascii_chars(r@),
{
    base64::Engine::encode(&base64::engine::general_purpose::STANDARD, data)
}

/// Relies on base64's `Engine::decode` with the STANDARD engine:
/// deterministic, succeeding exactly on valid encodings.
#[verifier::external_body]
pub fn b64_decode(s: &str) -> (r: Result<Vec<u8>, base64::DecodeError>)
    ensures
        r matches Ok(d) ==> b64_dec_of(s@) == Some(d@),
        r is Err <==> b64_dec_of(s@) is None,
{
    base64::Engine::decode(&base64::engine::general_purpose::STANDARD, s)
}

} // verus!
