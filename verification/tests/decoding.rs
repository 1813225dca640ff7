use http_forwarder::error::ErrorKind;
use http_forwarder::text::{decode_body, decode_header_value, is_visible_text, same_text};

#[test]
fn visible_header_value_is_decoded() {
    assert_eq!(
        decode_header_value(b"text/html; charset=utf-8"),
        Ok("text/html; charset=utf-8".to_string())
    );
    assert_eq!(decode_header_value(b"1"), Ok("1".to_string()));
    assert_eq!(decode_header_value(b""), Ok(String::new()));
}

#[test]
fn tab_and_space_are_visible() {
    assert_eq!(decode_header_value(b"a\tb c"), Ok("a\tb c".to_string()));
    assert!(is_visible_text(b"\t"));
    assert!(is_visible_text(b" "));
    assert!(is_visible_text(b"~"));
}

#[test]
fn bytes_above_ascii_fail_to_decode_in_a_header() {
    assert_eq!(decode_header_value(&[b'a', 200]), Err(ErrorKind::DecodeFailed));
    assert_eq!(decode_header_value(&[0xc3, 0xa9]), Err(ErrorKind::DecodeFailed));
    assert_eq!(decode_header_value(&[128]), Err(ErrorKind::DecodeFailed));
    assert_eq!(decode_header_value(&[255]), Err(ErrorKind::DecodeFailed));
}

#[test]
fn control_bytes_fail_to_decode_in_a_header() {
    assert_eq!(decode_header_value(&[0]), Err(ErrorKind::DecodeFailed));
    assert_eq!(decode_header_value(&[b'a', b'\n']), Err(ErrorKind::DecodeFailed));
    assert_eq!(decode_header_value(&[8]), Err(ErrorKind::DecodeFailed));
    assert_eq!(decode_header_value(&[10]), Err(ErrorKind::DecodeFailed));
    assert_eq!(decode_header_value(&[31]), Err(ErrorKind::DecodeFailed));
    assert_eq!(decode_header_value(&[127]), Err(ErrorKind::DecodeFailed));
}

#[test]
fn the_edges_of_the_visible_range() {
    assert!(is_visible_text(&[32]));
    assert!(is_visible_text(&[126]));
    assert!(is_visible_text(&[9]));
    assert!(!is_visible_text(&[31]));
    assert!(!is_visible_text(&[127]));
    assert!(!is_visible_text(&[8]));
    assert!(!is_visible_text(&[10]));
    assert!(is_visible_text(&[]));
    assert!(!is_visible_text(&[65, 66, 0, 67]));
}

#[test]
fn utf8_body_is_decoded() {
    assert_eq!(decode_body(b"hello"), Ok("hello".to_string()));
    assert_eq!(
        decode_body("h\u{e9}llo \u{2603} \u{1f600}".as_bytes()),
        Ok("h\u{e9}llo \u{2603} \u{1f600}".to_string())
    );
    assert_eq!(decode_body(&[0xc3, 0xa9]), Ok("\u{e9}".to_string()));
    assert_eq!(decode_body(b""), Ok(String::new()));
    assert_eq!(decode_body(b"line\nbreak\0"), Ok("line\nbreak\0".to_string()));
}

#[test]
fn body_that_is_not_utf8_fails_to_decode() {
    assert_eq!(decode_body(&[0xff]), Err(ErrorKind::DecodeFailed));
    assert_eq!(decode_body(&[b'a', 0xc3]), Err(ErrorKind::DecodeFailed));
    assert_eq!(decode_body(&[0xc0, 0x80]), Err(ErrorKind::DecodeFailed));
    assert_eq!(decode_body(&[0xed, 0xa0, 0x80]), Err(ErrorKind::DecodeFailed));
    assert_eq!(decode_body(&[0xe9, b'a']), Err(ErrorKind::DecodeFailed));
}

#[test]
fn same_text_compares_whole_strings() {
    assert!(same_text("", ""));
    assert!(same_text("abc", "abc"));
    assert!(same_text("h\u{e9}", "h\u{e9}"));
    assert!(!same_text("abc", "abd"));
    assert!(!same_text("abc", "ab"));
    assert!(!same_text("", "a"));
    assert!(!same_text("Abc", "abc"));
    assert!(!same_text("h\u{e9}", "h\u{e8}"));
}

#[test]
fn error_messages_are_fixed() {
    assert_eq!(ErrorKind::ClientInitFailed.message(), "Failed to create HTTP client.");
    assert_eq!(ErrorKind::InvalidMethod.message(), "Invalid HTTP method.");
    assert_eq!(ErrorKind::TransportFailed.message(), "Failed to send HTTP request.");
    assert_eq!(ErrorKind::DecodeFailed.message(), "Failed to decode HTTP response.");
}
