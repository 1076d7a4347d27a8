use imgpipe::util::decode_base64_non_strict;
use imgpipe::util::DecodeUrlError;

#[test]
fn url_safe_without_padding_decodes() {
    assert_eq!(decode_base64_non_strict("aGVsbG8").unwrap(), "hello");
}

#[test]
fn standard_alphabet_with_padding_decodes() {
    // standard-alphabet encoding of ">>>???", with padding styles
    assert_eq!(decode_base64_non_strict("Pj4+Pz8/").unwrap(), ">>>???");
    assert_eq!(decode_base64_non_strict("aGVsbG8=").unwrap(), "hello");
    assert_eq!(decode_base64_non_strict("aA==").unwrap(), "h");
}

#[test]
fn url_of_source_image_round_trips() {
    // "https://example.com/a.png" in the URL-safe alphabet
    assert_eq!(
        decode_base64_non_strict("aHR0cHM6Ly9leGFtcGxlLmNvbS9hLnBuZw").unwrap(),
        "https://example.com/a.png"
    );
}

#[test]
fn non_ascii_input_rejected() {
    assert_eq!(
        decode_base64_non_strict("aGVsbG…").unwrap_err(),
        DecodeUrlError::NotAscii
    );
}

#[test]
fn malformed_base64_rejected() {
    assert_eq!(
        decode_base64_non_strict("a").unwrap_err(),
        DecodeUrlError::BadEncoding
    );
    assert_eq!(
        decode_base64_non_strict("!!!!").unwrap_err(),
        DecodeUrlError::BadEncoding
    );
}

#[test]
fn non_utf8_payload_rejected() {
    // decodes to the single byte 0xff
    assert_eq!(
        decode_base64_non_strict("_w").unwrap_err(),
        DecodeUrlError::NotUtf8
    );
}

#[test]
fn empty_input_decodes_to_empty_string() {
    assert_eq!(decode_base64_non_strict("").unwrap(), "");
}
