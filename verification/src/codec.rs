//! The two body encodings of an envelope, and base64 itself.

use base64::Engine;
use vstd::prelude::*;

verus! {

/// How the body string of an envelope is to be read.
#[derive(Debug, Clone, Copy, PartialEq, Eq, Structural)]
pub enum Encoding {
    /// The body string is the body.
    Text,
    /// The body string is the base64 form of the body's bytes.
    Base64,
}

/// The standard padded base64 text of `bytes`.
pub uninterp spec fn base64_encoding(bytes: Seq<u8>) -> Seq<char>;

/// The bytes that `text` stands for in standard padded base64, or `None`
/// where `text` is not valid base64.
pub uninterp spec fn base64_decoding(text: Seq<char>) -> Option<Seq<u8>>;

/// The base64 crate's decode error, carried through opaquely.
#[verifier::external_type_specification]
#[verifier::external_body]
pub struct ExDecodeError(base64::DecodeError);

/// `Engine::encode` of the base64 crate with its `STANDARD` engine. Trusted:
/// the returned string is the encoding of exactly these bytes. The call
/// panics only when the encoded length overflows `usize`, which no vector's
/// length can cause.
#[verifier::external_body]
pub(crate) fn encode_base64(bytes: &Vec<u8>) -> (text: String)
    ensures
        text@ == base64_encoding(bytes@),
{
    base64::engine::general_purpose::STANDARD.encode(bytes)
}

/// `Engine::decode` of the base64 crate with its `STANDARD` engine. Trusted:
/// the call succeeds exactly on valid base64 and then returns the decoded
/// bytes.
#[verifier::external_body]
pub(crate) fn decode_base64(text: &str) -> (decoded: Result<Vec<u8>, base64::DecodeError>)
    ensures
        match decoded {
            Ok(bytes) => base64_decoding(text@) == Some(bytes@),
            Err(_) => base64_decoding(text@) is None,
        },
{
    base64::engine::general_purpose::STANDARD.decode(text)
}

} // verus!
