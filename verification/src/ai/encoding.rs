//! Base64 text for image bytes, as the providers exchange it.

use crate::error::Error;
use crate::error::ErrorModel;
use crate::text::concat;
use base64::Engine;
use vstd::prelude::*;
use vstd::string::StringExecFns;

verus! {

/// The standard base64 text of the bytes, with padding.
pub uninterp spec fn base64_of(bytes: Seq<u8>) -> Seq<char>;

/// The bytes that a standard base64 text with padding stands for, if it is
/// one.
pub uninterp spec fn base64_decoded(text: Seq<char>) -> Option<Seq<u8>>;

/// The bytes are few enough for the length of their base64 text to be
/// representable.
pub open spec fn encodable(bytes: Seq<u8>) -> bool {
    bytes.len() / 3 * 4 + 4 <= usize::MAX
}

/// `Engine::encode` of the `STANDARD` engine writes the bytes as base64
/// text in the standard alphabet with padding. It panics when the length
/// of that text cannot be represented, which `requires` excludes.
#[verifier::external_body]
fn standard_encode(bytes: &[u8]) -> (r: String)
    requires
        encodable(bytes@),
    ensures
        r@ == base64_of(bytes@),
{
    base64::engine::general_purpose::STANDARD.encode(bytes)
}

/// `Engine::decode` of the `STANDARD` engine reads base64 text in the
/// standard alphabet with padding and fails on anything else; the failure
/// is handed on as its `Display` text.
#[verifier::external_body]
fn standard_decode(text: &str) -> (r: Result<Vec<u8>, String>)
    ensures
        match r {
            Ok(bytes) => base64_decoded(text@) == Some(bytes@),
            Err(_) => base64_decoded(text@) is None,
        },
{
    base64::engine::general_purpose::STANDARD.decode(text).map_err(|e| e.to_string())
}

/// The base64 text of image bytes. Fails only for more bytes than can be
/// encoded.
pub fn encode_image(bytes: &[u8]) -> (r: Result<String, Error>)
    ensures
        match r {
            Ok(text) => encodable(bytes@) && text@ == base64_of(bytes@),
            Err(e) => !encodable(bytes@) && e@ == ErrorModel::InvalidInput(
                "image too large to encode"@,
            ),
        },
{
    if bytes.len() / 3 > (usize::MAX - 4) / 4 {
        Err(Error::InvalidInput(String::from_str("image too large to encode")))
    } else {
        Ok(standard_encode(bytes))
    }
}

/// The image bytes that a base64 text stands for. A text that is no base64
/// fails with a provider error whose message starts with `context`.
pub fn decode_image(text: &str, context: &str) -> (r: Result<Vec<u8>, Error>)
    ensures
        match r {
            Ok(bytes) => base64_decoded(text@) == Some(bytes@),
            Err(e) => base64_decoded(text@) is None && (e@ matches ErrorModel::AiProvider(m)
                && context@.is_prefix_of(m)),
        },
{
    match standard_decode(text) {
        Ok(bytes) => Ok(bytes),
        Err(reason) => {
            let message = concat(context, reason.as_str());
            Err(Error::AiProvider(message))
        },
    }
}

} // verus!
