use lean_bridge::layout::LeanObject;
use lean_bridge::refcount::lean_inc_ref;
use lean_bridge::refcount::lean_dec_ref;
use lean_bridge::refcount::RcOutcome;

fn obj(rc: i32) -> LeanObject {
    LeanObject { m_rc: rc, m_cs_sz: 0, m_other: 2, m_tag: 0 }
}

#[test]
fn retain_then_release_is_neutral() {
    for rc in [1, 2, 57, i32::MAX - 1] {
        let mut o = obj(rc);
        assert!(matches!(lean_inc_ref(&mut o), RcOutcome::Fast));
        assert_eq!(o.m_rc, rc + 1);
        assert!(matches!(lean_dec_ref(&mut o), RcOutcome::Fast));
        assert_eq!(o.m_rc, rc);
    }
}

#[test]
fn immortal_sentinel_is_never_touched() {
    let mut o = obj(0);
    assert!(matches!(lean_inc_ref(&mut o), RcOutcome::Immortal));
    assert_eq!(o.m_rc, 0);
    assert!(matches!(lean_dec_ref(&mut o), RcOutcome::Immortal));
    assert_eq!(o.m_rc, 0);
    // Releasing an immortal object again still does nothing: no double free.
    assert!(matches!(lean_dec_ref(&mut o), RcOutcome::Immortal));
    assert_eq!(o.m_rc, 0);
}

#[test]
fn last_reference_release_delegates_to_slow_path() {
    let mut o = obj(1);
    assert!(matches!(lean_dec_ref(&mut o), RcOutcome::Cold));
    assert_eq!(o.m_rc, 1);
}

#[test]
fn negative_counts_delegate_both_ways() {
    let mut o = obj(-1);
    assert!(matches!(lean_inc_ref(&mut o), RcOutcome::Cold));
    assert_eq!(o.m_rc, -1);
    assert!(matches!(lean_dec_ref(&mut o), RcOutcome::Cold));
    assert_eq!(o.m_rc, -1);
}

#[test]
fn retain_at_top_of_range_delegates() {
    let mut o = obj(i32::MAX);
    assert!(matches!(lean_inc_ref(&mut o), RcOutcome::Cold));
    assert_eq!(o.m_rc, i32::MAX);
}

#[test]
fn other_header_fields_are_preserved() {
    let mut o = LeanObject { m_rc: 3, m_cs_sz: 0, m_other: 7, m_tag: 249 };
    lean_inc_ref(&mut o);
    lean_dec_ref(&mut o);
    assert_eq!(o.m_cs_sz, 0);
    assert_eq!(o.m_other, 7);
    assert_eq!(o.m_tag, 249);
}
