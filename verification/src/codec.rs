//! Text transcoding of binary payloads. Code and transaction data cross the
//! library boundary as base64 text; these wrappers carry the calls into the
//! `base64` crate, and the names `b64_enc` and `b64_decode_of` stand for
//! their results in every contract of this crate.

use vstd::prelude::*;

verus! {

/// The text that `base64::encode` produces for the given bytes
/// (standard alphabet, padded).
pub uninterp spec fn b64_enc(bytes: Seq<u8>) -> Seq<char>;

/// The outcome of `base64::decode` on the given text: `Some` with the decoded
/// bytes when the text is well-formed base64, `None` when it is malformed.
pub uninterp spec fn b64_decode_of(text: Seq<char>) -> Option<Seq<u8>>;

/// Relies on base64::encode (standard alphabet, padded): the result is a
/// function of the bytes alone, and base64::decode accepts it and returns
/// the original bytes.
#[verifier::external_body]
pub(crate) fn encode_bytes(bytes: &Vec<u8>) -> (r: String)
    ensures
        r@ == b64_enc(bytes@),
        b64_decode_of(r@) == Some(bytes@),
{
    base64::encode(bytes)
}

/// Relies on base64::decode (standard alphabet): it fails exactly on
/// malformed text, never on text that base64::encode produced, and on the
/// encoding of some bytes it returns those bytes.
#[verifier::external_body]
pub(crate) fn decode_text(text: &str) -> (r: Result<Vec<u8>, base64::DecodeError>)
    ensures
        match r {
            Ok(bytes) => {
                &&& b64_decode_of(text@) == Some(bytes@)
                &&& forall|b: Seq<u8>| text@ == b64_enc(b) ==> bytes@ == b
            },
            Err(_) => {
                &&& b64_decode_of(text@) is None
                &&& forall|b: Seq<u8>| text@ != b64_enc(b)
            },
        },
{
    base64::decode(text)
}

#[verifier::external_type_specification]
#[verifier::external_body]
pub struct ExDecodeError(base64::DecodeError);

} // verus!
