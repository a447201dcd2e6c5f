use lean_bridge::results::lean_io_result_mk_ok;
use lean_bridge::results::lean_io_result_mk_string_ok;
use lean_bridge::results::lean_io_result_mk_u64_ok;
use lean_bridge::results::result_is_ok;
use lean_bridge::layout::LeanObject;
use lean_bridge::scalar::LEAN_UNIT;

#[test]
fn ok_constructor_carries_inline_payload() {
    let m = lean_io_result_mk_ok(90);
    assert_eq!(m.m_objs_0, 181);
    assert_eq!(m.m_objs_1, LEAN_UNIT);
    assert_eq!(m.m_header.m_tag, 0);
    assert_eq!(m.m_header.m_other, 2);
    assert_eq!(m.m_header.m_rc, 1);
    assert_eq!(m.m_header.m_cs_sz, 0);
}

#[test]
fn ok_constructor_of_zero_carries_unit_like_payload() {
    let m = lean_io_result_mk_ok(0);
    assert_eq!(m.m_objs_0, 1);
}

#[test]
fn string_ok_wraps_a_fresh_string_object() {
    let m = lean_io_result_mk_string_ok("hi");
    assert_eq!(m.m_objs_0.m_data, b"hi\0".to_vec());
    assert_eq!(m.m_objs_0.m_size, 3);
    assert_eq!(m.m_objs_1, LEAN_UNIT);
    assert_eq!(m.m_header.m_tag, 0);
}

#[test]
fn u64_ok_nests_a_boxed_scalar_with_two_references() {
    let m = lean_io_result_mk_u64_ok(7);
    assert_eq!(m.m_objs_0.m_obj, 7);
    assert_eq!(m.m_objs_0.m_header.m_rc, 2);
    assert_eq!(m.m_objs_0.m_header.m_other, 1);
    assert_eq!(m.m_objs_0.m_header.m_tag, 0);
    assert_eq!(m.m_header.m_rc, 1);
    assert_eq!(m.m_objs_1, LEAN_UNIT);
}

#[test]
fn zero_tag_means_success() {
    let ok = LeanObject { m_rc: 1, m_cs_sz: 0, m_other: 2, m_tag: 0 };
    let failed = LeanObject { m_rc: 1, m_cs_sz: 0, m_other: 2, m_tag: 3 };
    assert!(result_is_ok(&ok));
    assert!(!result_is_ok(&failed));
}
