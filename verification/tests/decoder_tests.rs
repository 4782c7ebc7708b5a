use base64::Engine;
use titanium::decoder::{decode_base64_url, decoded_text, encode_base64_url};
use titanium::error::RenderError;

#[test]
fn test_decode_base64_url_valid() {
    let encoded = "aHR0cHM6Ly9nb29nbGUuY29t";
    let result = decode_base64_url(encoded);
    assert!(result.is_ok());
    assert_eq!(result.unwrap(), "https://google.com");
}

#[test]
fn test_decode_base64_url_invalid() {
    let encoded = "invalid@@base64";
    let result = decode_base64_url(encoded);
    assert!(result.is_err());
}

#[test]
fn decode_reports_foreign_symbol_as_invalid_base64() {
    assert_eq!(decode_base64_url("invalid@@base64"), Err(RenderError::InvalidBase64));
    assert_eq!(decode_base64_url("aGk gaGk="), Err(RenderError::InvalidBase64));
    assert_eq!(decode_base64_url("aGk\u{e9}"), Err(RenderError::InvalidBase64));
}

#[test]
fn decode_rejects_standard_alphabet_symbols() {
    // '+' and '/' belong to the standard alphabet, not to the URL-safe one.
    assert_eq!(decode_base64_url("+/+/"), Err(RenderError::InvalidBase64));
    assert_eq!(decode_base64_url("-_-_").map(|_| ()), Err(RenderError::InvalidUtf8));
}

#[test]
fn decode_rejects_bad_length_and_padding() {
    assert_eq!(decode_base64_url("aGk"), Err(RenderError::InvalidBase64));
    assert_eq!(decode_base64_url("a"), Err(RenderError::InvalidBase64));
    assert_eq!(decode_base64_url("aGk=="), Err(RenderError::InvalidBase64));
    assert_eq!(decode_base64_url("=aGk"), Err(RenderError::InvalidBase64));
}

#[test]
fn decode_accepts_padded_input() {
    assert_eq!(decode_base64_url("aGk="), Ok("hi".to_string()));
    assert_eq!(decode_base64_url("aA=="), Ok("h".to_string()));
}

#[test]
fn decode_of_empty_text_is_empty() {
    assert_eq!(decode_base64_url(""), Ok(String::new()));
}

#[test]
fn decode_reports_non_utf8_bytes_as_invalid_utf8() {
    let encoded = base64::engine::general_purpose::URL_SAFE.encode([0xffu8, 0xfe, 0xfd]);
    assert_eq!(decode_base64_url(&encoded), Err(RenderError::InvalidUtf8));
    // A lone continuation byte.
    let encoded = base64::engine::general_purpose::URL_SAFE.encode([0x68u8, 0x80]);
    assert_eq!(decode_base64_url(&encoded), Err(RenderError::InvalidUtf8));
}

#[test]
fn decode_of_well_formed_text_with_binary_payload_is_invalid_utf8() {
    // Sixteen symbols of the alphabet: well-formed base64url, but no text.
    assert_eq!(decode_base64_url("not_valid_base64"), Err(RenderError::InvalidUtf8));
}

#[test]
fn encode_gives_the_padded_url_safe_text() {
    assert_eq!(encode_base64_url("https://google.com"), "aHR0cHM6Ly9nb29nbGUuY29t");
    assert_eq!(encode_base64_url("hi"), "aGk=");
    assert_eq!(encode_base64_url("h"), "aA==");
    assert_eq!(encode_base64_url(""), "");
    // 0xfb 0xff in the last group: URL-safe symbols, not '+' and '/'.
    assert_eq!(encode_base64_url("\u{7ff}\u{7ff}"), "37_fvw==");
}

#[test]
fn decode_inverts_encode() {
    let samples = [
        "",
        "a",
        "ab",
        "abc",
        "https://example.com",
        "https://example.com/path?query=1&other=two#fragment",
        "gr\u{fc}\u{df}e \u{4e16}\u{754c} \u{1f600}",
        "line\nbreak\tand\0nul",
    ];
    for s in samples {
        assert_eq!(decode_base64_url(&encode_base64_url(s)), Ok(s.to_string()));
    }
}

#[test]
fn decoded_text_maps_each_engine_result() {
    assert_eq!(decoded_text(Ok(vec![0x68, 0x69])), Ok("hi".to_string()));
    assert_eq!(decoded_text(Ok(vec![0xc3, 0xa9])), Ok("\u{e9}".to_string()));
    assert_eq!(decoded_text(Ok(Vec::new())), Ok(String::new()));
    assert_eq!(decoded_text(Ok(vec![0xc3])), Err(RenderError::InvalidUtf8));
    assert_eq!(decoded_text(Ok(vec![0xed, 0xa0, 0x80])), Err(RenderError::InvalidUtf8));
    let refused = base64::engine::general_purpose::URL_SAFE.decode("@");
    assert!(refused.is_err());
    assert_eq!(decoded_text(refused), Err(RenderError::InvalidBase64));
}
