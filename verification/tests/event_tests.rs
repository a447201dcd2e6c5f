use lean_bridge::events::Event;
use lean_bridge::events::event_code;
use lean_bridge::events::event_from_code;
use lean_bridge::events::on_event;
use lean_bridge::events::prepare_event_closures;
use lean_bridge::events::Dispatch;
use lean_bridge::events::Phase;
use lean_bridge::effects::Effects;
use lean_bridge::effects::Interpreter;
use lean_bridge::closures::CallbackId;
use lean_bridge::scalar::box_as_inline;
use lean_bridge::events::key_down_plan;
use lean_bridge::events::Key;
use lean_bridge::events::KeyAction;

#[test]
fn event_codes_round_trip_exactly() {
    for e in [Event::Init, Event::Char, Event::Up, Event::Down] {
        assert_eq!(event_from_code(event_code(e)), Some(e));
    }
    assert_eq!(event_code(Event::Init), 0);
    assert_eq!(event_code(Event::Char), 1);
    assert_eq!(event_code(Event::Up), 2);
    assert_eq!(event_code(Event::Down), 3);
}

#[test]
fn codes_outside_the_closed_set_are_rejected() {
    assert_eq!(event_from_code(4), None);
    assert_eq!(event_from_code(7), None);
    assert_eq!(event_from_code(255), None);
}

#[test]
fn on_event_decodes_and_toggles_the_commit_marker() {
    let mut interp = Interpreter { effects: Effects::new(0, 0), committed: true };
    let (e, r) = on_event(&mut interp, box_as_inline(1));
    assert_eq!(e, Event::Char);
    assert!(!interp.committed);
    assert_eq!(r.m_objs_0, 1);
    let (e2, _) = on_event(&mut interp, box_as_inline(3));
    assert_eq!(e2, Event::Down);
    assert!(interp.committed);
}

#[test]
fn a_dispatch_builds_the_complete_closure_set() {
    let s = prepare_event_closures(10, 20);
    assert!(matches!(s.set_app_state.m_fun, CallbackId::SetAppState));
    assert!(matches!(s.fresh_column.m_fun, CallbackId::FreshColumn));
    assert!(matches!(s.push_line.m_fun, CallbackId::PushLine));
    assert!(matches!(s.reset_text.m_fun, CallbackId::ResetText));
    assert_eq!(s.set_app_state.m_arg.m_data, 20);
    assert_eq!(s.fresh_column.m_arity, 4);
    assert_eq!(s.reset_text.m_arity, 3);
}

#[test]
fn successful_dispatch_walks_the_three_phases() {
    let mut d = Dispatch::new();
    assert_eq!(d.phase, Phase::Idle);
    d.begin();
    assert_eq!(d.phase, Phase::Dispatching);
    assert_eq!(d.on_return(0), Ok(()));
    assert_eq!(d.phase, Phase::Applying);
    d.finish();
    assert_eq!(d.phase, Phase::Idle);
}

#[test]
fn key_presses_map_to_their_fixed_actions() {
    assert_eq!(key_down_plan(Key::Up), KeyAction::Animate { dy: -50, duration_ms: 100 });
    assert_eq!(key_down_plan(Key::Down), KeyAction::Animate { dy: 50, duration_ms: 1000 });
    assert_eq!(key_down_plan(Key::Q), KeyAction::Quit);
    assert_eq!(key_down_plan(Key::Other), KeyAction::Ignore);
}

#[test]
fn foreign_failure_surfaces_the_diagnostic_tag() {
    let mut d = Dispatch::new();
    d.begin();
    assert_eq!(d.on_return(5), Err(5));
    assert_eq!(d.phase, Phase::Idle);
}
