use wrap_guest::codec::decode_string_array;
use wrap_guest::context::DiagnosticContext;

fn fixstr(s: &str) -> Vec<u8> {
    let bytes = s.as_bytes();
    assert!(bytes.len() < 32);
    let mut out = vec![0xa0 + bytes.len() as u8];
    out.extend_from_slice(bytes);
    out
}

fn context() -> DiagnosticContext {
    let mut ctx = DiagnosticContext::new();
    ctx.push("result", "sequence of string", "testing");
    ctx
}

#[test]
fn decodes_two_implementation_identifiers_in_order() {
    let mut buf = vec![0x92];
    buf.extend(fixstr("wrap://ens/impl1.eth"));
    buf.extend(fixstr("wrap://ens/impl2.eth"));
    let decoded = decode_string_array(&buf, &context()).unwrap();
    assert_eq!(decoded, vec!["wrap://ens/impl1.eth", "wrap://ens/impl2.eth"]);
}

#[test]
fn decodes_empty_array() {
    let decoded = decode_string_array(&[0x90], &context()).unwrap();
    assert!(decoded.is_empty());
}

#[test]
fn ignores_bytes_after_the_array() {
    let buf = vec![0x91, 0xa1, b'x', 0xff, 0x00];
    let decoded = decode_string_array(&buf, &context()).unwrap();
    assert_eq!(decoded, vec!["x"]);
}

#[test]
fn decodes_str8_element() {
    let buf = vec![0x91, 0xd9, 0x03, b'a', b'b', b'c'];
    assert_eq!(decode_string_array(&buf, &context()).unwrap(), vec!["abc"]);
}

#[test]
fn decodes_str16_element() {
    let buf = vec![0x91, 0xda, 0x00, 0x03, b'a', b'b', b'c'];
    assert_eq!(decode_string_array(&buf, &context()).unwrap(), vec!["abc"]);
}

#[test]
fn decodes_str32_element() {
    let buf = vec![0x91, 0xdb, 0x00, 0x00, 0x00, 0x03, b'a', b'b', b'c'];
    assert_eq!(decode_string_array(&buf, &context()).unwrap(), vec!["abc"]);
}

#[test]
fn decodes_array16_header() {
    let mut buf = vec![0xdc, 0x00, 0x02];
    buf.extend(fixstr("a"));
    buf.extend(fixstr("b"));
    assert_eq!(decode_string_array(&buf, &context()).unwrap(), vec!["a", "b"]);
}

#[test]
fn decodes_array32_header() {
    let mut buf = vec![0xdd, 0x00, 0x00, 0x00, 0x01];
    buf.extend(fixstr("x"));
    assert_eq!(decode_string_array(&buf, &context()).unwrap(), vec!["x"]);
}

#[test]
fn decodes_non_ascii_text() {
    let mut buf = vec![0x91];
    buf.extend(fixstr("wrap://ens/café.eth"));
    let decoded = decode_string_array(&buf, &context()).unwrap();
    assert_eq!(decoded, vec!["wrap://ens/café.eth"]);
}

#[test]
fn empty_buffer_fails() {
    let err = decode_string_array(&[], &context()).unwrap_err();
    assert_eq!(err.message, "expected an array header");
}

#[test]
fn non_array_leading_tag_fails() {
    let err = decode_string_array(&[0xc0], &context()).unwrap_err();
    assert_eq!(err.message, "expected an array header");
}

#[test]
fn truncated_array16_header_fails() {
    assert!(decode_string_array(&[0xdc, 0x00], &context()).is_err());
}

#[test]
fn truncated_string_header_fails() {
    assert!(decode_string_array(&[0x91, 0xd9], &context()).is_err());
}

#[test]
fn string_running_past_the_end_fails() {
    let mut buf = vec![0x92];
    buf.extend(fixstr("wrap://ens/impl1.eth"));
    buf.push(0xb4);
    buf.extend_from_slice(b"wrap:");
    let err = decode_string_array(&buf, &context()).unwrap_err();
    assert_eq!(err.message, "truncated or malformed string element");
}

#[test]
fn missing_elements_fail() {
    let buf = vec![0x92, 0xa1, b'x'];
    assert!(decode_string_array(&buf, &context()).is_err());
}

#[test]
fn non_string_element_fails() {
    let buf = vec![0x91, 0x01];
    assert!(decode_string_array(&buf, &context()).is_err());
}

#[test]
fn invalid_utf8_element_fails() {
    let buf = vec![0x91, 0xa1, 0xff];
    let err = decode_string_array(&buf, &context()).unwrap_err();
    assert_eq!(err.message, "string element is not valid UTF-8");
}

#[test]
fn failure_carries_all_frames_oldest_first() {
    let mut ctx = DiagnosticContext::new();
    ctx.push("outer", "sequence of string", "first pushed");
    ctx.push("inner", "string", "second pushed");
    let err = decode_string_array(&[0xc0], &ctx).unwrap_err();
    assert_eq!(err.trace.len(), 2);
    assert_eq!(err.trace[0].name, "outer");
    assert_eq!(err.trace[0].expected, "sequence of string");
    assert_eq!(err.trace[0].note, "first pushed");
    assert_eq!(err.trace[1].name, "inner");
    assert_eq!(err.trace[1].expected, "string");
    assert_eq!(err.trace[1].note, "second pushed");
}
