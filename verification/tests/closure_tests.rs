use lean_bridge::closures::mk_closure;
use lean_bridge::closures::mk_io_closure;
use lean_bridge::closures::mk_io_string_closure;
use lean_bridge::closures::mk_on_event;
use lean_bridge::closures::mk_set_app_state;
use lean_bridge::closures::mk_fresh_column;
use lean_bridge::closures::mk_push_line;
use lean_bridge::closures::mk_reset_text;
use lean_bridge::closures::mk_set_clip;
use lean_bridge::closures::mk_remove_clip;
use lean_bridge::closures::CallbackId;
use lean_bridge::external::mk_external_object;
use lean_bridge::external::ClassRegistry;
use lean_bridge::layout::TAG_CLOSURE;
use lean_bridge::layout::TAG_EXTERNAL;

#[test]
fn unbound_closures_record_their_exact_arity() {
    let c = mk_closure();
    assert!(matches!(c.m_fun, CallbackId::RustCallback));
    assert_eq!(c.m_arity, 1);
    assert_eq!(c.m_num_fixed, 0);
    assert_eq!(c.m_header.m_tag, TAG_CLOSURE);
    assert_eq!(c.m_header.m_rc, 1);

    assert_eq!(mk_io_closure().m_arity, 2);
    assert_eq!(mk_io_string_closure().m_arity, 2);
}

#[test]
fn bound_closures_count_the_bound_argument() {
    let cls = 0xc1a5;
    let data = 0xda7a;
    let pairs: [(u16, lean_bridge::closures::Closure); 7] = [
        (3, mk_on_event(cls, data)),
        (3, mk_set_app_state(cls, data)),
        (4, mk_fresh_column(cls, data)),
        (4, mk_push_line(cls, data)),
        (3, mk_reset_text(cls, data)),
        (7, mk_set_clip(cls, data)),
        (3, mk_remove_clip(cls, data)),
    ];
    for (arity, c) in pairs.iter() {
        assert_eq!(c.m_arity, *arity);
        assert_eq!(c.m_num_fixed, 1);
        assert_eq!(c.m_header.m_tag, TAG_CLOSURE);
        assert_eq!(c.m_arg.m_class, cls);
        assert_eq!(c.m_arg.m_data, data);
        assert_eq!(c.m_arg.m_header.m_tag, TAG_EXTERNAL);
    }
}

#[test]
fn external_objects_wrap_the_given_handles() {
    let o = mk_external_object(11, 22);
    assert_eq!(o.m_class, 11);
    assert_eq!(o.m_data, 22);
    assert_eq!(o.m_header.m_tag, TAG_EXTERNAL);
    assert_eq!(o.m_header.m_rc, 1);
}

#[test]
fn registry_caches_the_first_descriptor() {
    let mut reg = ClassRegistry::new();
    assert!(reg.needs_registration());
    assert_eq!(reg.install(5), 5);
    assert!(!reg.needs_registration());
    assert_eq!(reg.install(9), 5);
    assert_eq!(reg.descriptor(), 5);
}
