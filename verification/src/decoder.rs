//! Decoding of the `url` request parameter: base64url text to a UTF-8 string.

use crate::error::{Failure, RenderError};
use base64::Engine;
use vstd::prelude::*;
use vstd::string::*;
use vstd::utf8::*;

verus! {

/// `base64::DecodeError`, the engine's reason for rejecting a text. It is
/// carried as an opaque value; nothing is read from it.
#[verifier::external_type_specification]
#[verifier::external_body]
pub struct ExDecodeError(base64::DecodeError);

/// `std::string::FromUtf8Error`, carried as an opaque value.
#[verifier::external_type_specification]
#[verifier::external_body]
pub struct ExFromUtf8Error(std::string::FromUtf8Error);

/// True for the 64 symbols of the URL-safe base64 alphabet and the padding
/// sign `=`.
pub open spec fn is_url_safe_symbol(c: char) -> bool {
    ||| 'A' <= c <= 'Z'
    ||| 'a' <= c <= 'z'
    ||| '0' <= c <= '9'
    ||| c == '-'
    ||| c == '_'
    ||| c == '='
}

/// True when some character of `text` is neither a symbol of the URL-safe
/// alphabet nor the padding sign.
pub open spec fn has_foreign_symbol(text: Seq<char>) -> bool {
    exists|i: int| 0 <= i < text.len() && !is_url_safe_symbol(#[trigger] text[i])
}

/// The number of symbols, padding included, that encode `n` bytes: four for
/// every three bytes or part thereof.
pub open spec fn encoded_length(n: nat) -> nat {
    (n + 2) / 3 * 4
}

/// The bytes that the padded URL-safe base64 engine decodes `text` to, or
/// `None` where it rejects `text`.
pub uninterp spec fn url_safe_decoding(text: Seq<char>) -> Option<Seq<u8>>;

/// The text that the padded URL-safe base64 engine encodes `bytes` to.
pub uninterp spec fn url_safe_encoding(bytes: Seq<u8>) -> Seq<char>;

/// Calls `base64::Engine::decode` on `base64::engine::general_purpose::URL_SAFE`.
///
/// Trusted: the result is the engine's decoding of `encoded`, a function of
/// the text alone, and the engine rejects any text that holds a character
/// outside its alphabet and padding sign (it reports such a byte as invalid
/// wherever it stands).
#[verifier::external_body]
fn url_safe_decode(encoded: &str) -> (r: Result<Vec<u8>, base64::DecodeError>)
    ensures
        match r {
            Ok(bytes) => url_safe_decoding(encoded@) == Some(bytes@),
            Err(_) => url_safe_decoding(encoded@) is None,
        },
        has_foreign_symbol(encoded@) ==> r is Err,
{
    base64::engine::general_purpose::URL_SAFE.decode(encoded)
}

/// Calls `base64::Engine::encode` on `base64::engine::general_purpose::URL_SAFE`.
///
/// Trusted: the result is the engine's encoding of `bytes`, a function of the
/// bytes alone, and the engine decodes what it encoded to the same bytes. The
/// engine panics where the encoded length does not fit in `usize`; the
/// precondition leaves those inputs out.
#[verifier::external_body]
fn url_safe_encode(bytes: &[u8]) -> (r: String)
    requires
        encoded_length(bytes@.len()) <= usize::MAX,
    ensures
        r@ == url_safe_encoding(bytes@),
        url_safe_decoding(r@) == Some(bytes@),
{
    base64::engine::general_purpose::URL_SAFE.encode(bytes)
}

/// `String::from_utf8`: succeeds exactly on valid UTF-8, and the string then
/// holds the characters that the bytes encode.
pub assume_specification[ String::from_utf8 ](vec: Vec<u8>) -> (r: Result<
    String,
    std::string::FromUtf8Error,
>)
    ensures
        match r {
            Ok(s) => valid_utf8(vec@) && s@ == decode_utf8(vec@),
            Err(_) => !valid_utf8(vec@),
        },
;

/// What decoding `text` gives: the URL text, or the kind of failure.
pub open spec fn decode_outcome(text: Seq<char>) -> Result<Seq<char>, Failure> {
    match url_safe_decoding(text) {
        None => Err(Failure::InvalidBase64),
        Some(bytes) => if valid_utf8(bytes) {
            Ok(decode_utf8(bytes))
        } else {
            Err(Failure::InvalidUtf8)
        },
    }
}

/// Whether `r` is the executable form of `outcome`.
pub open spec fn text_result_is(
    r: Result<String, RenderError>,
    outcome: Result<Seq<char>, Failure>,
) -> bool {
    match outcome {
        Ok(text) => r is Ok && r->Ok_0@ == text,
        Err(failure) => r is Err && r->Err_0@ == failure,
    }
}

/// Given what the base64 engine made of the parameter, produces the URL text:
/// rejected input is `InvalidBase64`, bytes that are not UTF-8 are
/// `InvalidUtf8`, and valid UTF-8 is returned as a string.
pub fn decoded_text(decoded: Result<Vec<u8>, base64::DecodeError>) -> (r: Result<
    String,
    RenderError,
>)
    ensures
        match decoded {
            Err(_) => r == Err::<String, RenderError>(RenderError::InvalidBase64),
            Ok(bytes) => if valid_utf8(bytes@) {
                r is Ok && r->Ok_0@ == decode_utf8(bytes@)
            } else {
                r == Err::<String, RenderError>(RenderError::InvalidUtf8)
            },
        },
{
    match decoded {
        Err(_) => Err(RenderError::InvalidBase64),
        Ok(bytes) => match String::from_utf8(bytes) {
            Ok(text) => Ok(text),
            Err(_) => Err(RenderError::InvalidUtf8),
        },
    }
}

/// Decodes a base64url-encoded request parameter to the URL text it holds.
///
/// Fails with `InvalidBase64` where the input is not valid padded base64url,
/// in particular wherever it holds a character outside the alphabet, and with
/// `InvalidUtf8` where the decoded bytes are not UTF-8.
pub fn decode_base64_url(encoded: &str) -> (r: Result<String, RenderError>)
    ensures
        text_result_is(r, decode_outcome(encoded@)),
        has_foreign_symbol(encoded@) ==> r == Err::<String, RenderError>(
            RenderError::InvalidBase64,
        ),
{
    decoded_text(url_safe_decode(encoded))
}

/// Encodes `text` as padded base64url.
///
/// Decoding the result gives `text` back: encoding and decoding round-trip
/// for every string. The encoded length must fit in `usize`.
pub fn encode_base64_url(text: &str) -> (r: String)
    requires
        encoded_length(encode_utf8(text@).len()) <= usize::MAX,
    ensures
        r@ == url_safe_encoding(encode_utf8(text@)),
        decode_outcome(r@) == Ok::<Seq<char>, Failure>(text@),
{
    let encoded = url_safe_encode(text.as_bytes());
    proof {
        lemma_decoding_inverts_encoding(encoded@, text@);
    }
    encoded
}

/// Round trip: text that the engine decodes to the UTF-8 bytes of a string
/// decodes to that string.
pub proof fn lemma_decoding_inverts_encoding(encoded: Seq<char>, text: Seq<char>)
    requires
        url_safe_decoding(encoded) == Some(encode_utf8(text)),
    ensures
        decode_outcome(encoded) == Ok::<Seq<char>, Failure>(text),
{
    encode_utf8_valid_utf8(text);
    encode_utf8_decode_utf8(text);
}

/// Text that decodes to bytes that are not UTF-8 is rejected as `InvalidUtf8`.
pub proof fn lemma_non_utf8_payload_rejected(text: Seq<char>, bytes: Seq<u8>)
    requires
        url_safe_decoding(text) == Some(bytes),
        !valid_utf8(bytes),
    ensures
        decode_outcome(text) == Err::<Seq<char>, Failure>(Failure::InvalidUtf8),
{
}

} // verus!
