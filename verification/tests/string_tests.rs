use lean_bridge::strings::mk_lean_string;
use lean_bridge::strings::str_from_lean;
use lean_bridge::strings::LeanString;
use lean_bridge::layout::TAG_STRING;

#[test]
fn round_trip_plain_ascii() {
    let s = mk_lean_string("abc");
    assert_eq!(str_from_lean(&s).as_deref(), Some("abc"));
}

#[test]
fn round_trip_empty_string() {
    let s = mk_lean_string("");
    assert_eq!(s.m_size, 1);
    assert_eq!(s.m_length, 0);
    assert_eq!(s.m_data, vec![0u8]);
    assert_eq!(str_from_lean(&s).as_deref(), Some(""));
}

#[test]
fn round_trip_multibyte_code_points() {
    let text = "héllo 🦀 wörld";
    let s = mk_lean_string(text);
    assert_eq!(str_from_lean(&s).as_deref(), Some(text));
    assert_eq!(s.m_size, text.len() + 1);
    assert_eq!(s.m_length, text.chars().count());
}

#[test]
fn round_trip_interior_nul() {
    // The layout records byte length explicitly, so text may contain NUL;
    // only the final sentinel terminates the payload.
    let text = "a\u{0}b";
    let s = mk_lean_string(text);
    assert_eq!(s.m_size, 4);
    assert_eq!(s.m_data, vec![b'a', 0, b'b', 0]);
    assert_eq!(str_from_lean(&s).as_deref(), Some(text));
}

#[test]
fn byte_length_counts_the_sentinel() {
    let s = mk_lean_string("abc");
    assert_eq!(s.m_size, 4);
    assert_eq!(s.m_capacity, 4);
    assert_eq!(s.m_length, 3);
    assert_eq!(s.m_data, b"abc\0".to_vec());
}

#[test]
fn header_matches_the_string_template() {
    let s = mk_lean_string("x");
    assert_eq!(s.m_header.m_tag, TAG_STRING);
    assert_eq!(s.m_header.m_rc, 1);
    assert_eq!(s.m_header.m_other, 0);
    assert_eq!(s.m_header.m_cs_sz, 0);
}

fn raw(size: usize, data: Vec<u8>) -> LeanString {
    let mut s = mk_lean_string("");
    s.m_size = size;
    s.m_capacity = size;
    s.m_length = 0;
    s.m_data = data;
    s
}

#[test]
fn declared_length_mismatch_is_rejected() {
    let s = raw(5, b"ab\0".to_vec());
    assert_eq!(str_from_lean(&s), None);
}

#[test]
fn missing_sentinel_is_rejected() {
    let s = raw(3, b"abc".to_vec());
    assert_eq!(str_from_lean(&s), None);
}

#[test]
fn empty_payload_is_rejected() {
    let s = raw(0, Vec::new());
    assert_eq!(str_from_lean(&s), None);
}

#[test]
fn invalid_utf8_payload_is_rejected() {
    let s = raw(3, vec![0xff, 0xfe, 0]);
    assert_eq!(str_from_lean(&s), None);
}
