use lean_bridge::scalar::box_as_inline;
use lean_bridge::scalar::box_as_heap;
use lean_bridge::scalar::box_scalar;
use lean_bridge::scalar::unbox_inline;
use lean_bridge::scalar::unbox_scalar;
use lean_bridge::scalar::ScalarRepr;
use lean_bridge::scalar::INLINE_SCALAR_MAX;
use lean_bridge::scalar::LEAN_UNIT;
use lean_bridge::layout::TAG_CTOR_ZERO;

#[test]
fn unit_is_inline_zero() {
    assert_eq!(box_as_inline(0), LEAN_UNIT);
    assert_eq!(LEAN_UNIT, 1);
}

#[test]
fn inline_encoding_is_odd_shift() {
    assert_eq!(box_as_inline(45), 91);
    assert_eq!(box_as_inline(1), 3);
    assert_eq!(box_as_inline(INLINE_SCALAR_MAX), u64::MAX);
}

#[test]
fn inline_round_trip_small_values() {
    for v in [0u64, 1, 2, 7, 90, 255, 1 << 20, INLINE_SCALAR_MAX - 1, INLINE_SCALAR_MAX] {
        assert_eq!(unbox_inline(box_as_inline(v)), v);
    }
}

#[test]
fn small_values_stay_inline() {
    let s = box_scalar(12345);
    assert!(matches!(s, ScalarRepr::Inline(_)));
    assert_eq!(unbox_scalar(&s), 12345);
}

#[test]
fn large_values_are_boxed_with_scalar_tag() {
    let v = INLINE_SCALAR_MAX + 1;
    let s = box_scalar(v);
    match &s {
        ScalarRepr::Boxed(b) => {
            assert_eq!(b.m_header.m_tag, TAG_CTOR_ZERO);
            assert_eq!(b.m_header.m_other, 1);
            assert_eq!(b.m_header.m_rc, 1);
            assert_eq!(b.m_obj, v);
        },
        ScalarRepr::Inline(_) => panic!("value beyond the inline range must be boxed"),
    }
    assert_eq!(unbox_scalar(&s), v);
}

#[test]
fn heap_round_trip_any_value() {
    for v in [0u64, 90, INLINE_SCALAR_MAX, u64::MAX] {
        let b = box_as_heap(v);
        assert_eq!(unbox_scalar(&ScalarRepr::Boxed(b)), v);
    }
}

#[test]
fn unbox_branches_on_encoding() {
    assert_eq!(unbox_scalar(&ScalarRepr::Inline(91)), 45);
    assert_eq!(unbox_scalar(&ScalarRepr::Boxed(box_as_heap(91))), 91);
}
