use wrap_guest::bridge::get_implementations_result;

fn fixstr(s: &str) -> Vec<u8> {
    let bytes = s.as_bytes();
    assert!(bytes.len() < 32);
    let mut out = vec![0xa0 + bytes.len() as u8];
    out.extend_from_slice(bytes);
    out
}

#[test]
fn no_host_result_yields_empty_sequence() {
    let implementations = get_implementations_result(false, &[]).unwrap();
    assert!(implementations.is_empty());
}

#[test]
fn no_host_result_ignores_the_buffer() {
    let garbage = vec![0xff, 0x00, 0xc0];
    let implementations = get_implementations_result(false, &garbage).unwrap();
    assert!(implementations.is_empty());
}

#[test]
fn decodes_reported_result() {
    let mut buf = vec![0x92];
    buf.extend(fixstr("wrap://ens/impl1.eth"));
    buf.extend(fixstr("wrap://ens/impl2.eth"));
    let implementations = get_implementations_result(true, &buf).unwrap();
    assert_eq!(implementations, vec!["wrap://ens/impl1.eth", "wrap://ens/impl2.eth"]);
}

#[test]
fn reported_empty_array_yields_empty_sequence() {
    let implementations = get_implementations_result(true, &[0x90]).unwrap();
    assert!(implementations.is_empty());
}

#[test]
fn truncated_buffer_fails_with_traced_frame() {
    let mut buf = vec![0x92];
    buf.extend(fixstr("wrap://ens/impl1.eth"));
    buf.push(0xb4);
    buf.extend_from_slice(b"wrap:");
    let err = get_implementations_result(true, &buf).unwrap_err();
    assert_eq!(err.trace.len(), 1);
    assert_eq!(err.trace[0].name, "__w3_getImplementations_result");
    assert_eq!(err.trace[0].expected, "sequence of string");
    assert_eq!(err.trace[0].note, "__w3_getImplementations successful");
}

#[test]
fn malformed_buffer_fails_rather_than_degrading() {
    let err = get_implementations_result(true, &[]).unwrap_err();
    assert_eq!(err.trace.len(), 1);
    assert_eq!(err.trace[0].expected, "sequence of string");
}
