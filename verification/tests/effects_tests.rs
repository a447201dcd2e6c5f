use lean_bridge::effects::Effects;
use lean_bridge::effects::Vec2;
use lean_bridge::effects::Clip;
use lean_bridge::effects::AppendMode;
use lean_bridge::effects::set_app_state;
use lean_bridge::effects::fresh_column;
use lean_bridge::effects::push_line;
use lean_bridge::effects::reset_text;
use lean_bridge::effects::set_clip;
use lean_bridge::effects::remove_clip;
use lean_bridge::effects::record_animation;

fn pos(x: f32, y: f32) -> Vec2 {
    Vec2 { x: x.to_bits(), y: y.to_bits() }
}

#[test]
fn fresh_columns_get_consecutive_identifiers() {
    let mut e = Effects::new(0, 0);
    assert_eq!(fresh_column(&mut e, pos(1.0, 2.0)), 0);
    assert_eq!(fresh_column(&mut e, pos(3.0, 4.0)), 1);
    assert_eq!(fresh_column(&mut e, pos(5.0, 6.0)), 2);
    assert_eq!(e.next_id, 3);
    assert_eq!(e.new_columns.len(), 3);
    assert_eq!(e.new_columns[1].0, 1);
    assert_eq!(e.new_columns[1].1, pos(3.0, 4.0));
}

#[test]
fn identifier_counter_survives_across_batches() {
    let mut e = Effects::new(7, 0);
    assert_eq!(fresh_column(&mut e, pos(0.0, 0.0)), 7);
    assert_eq!(e.next_id, 8);
}

#[test]
fn set_app_state_replaces_the_handle() {
    let mut e = Effects::new(0, 111);
    set_app_state(&mut e, 222);
    assert_eq!(e.app_state, 222);
}

#[test]
fn push_line_starts_in_append_mode() {
    let mut e = Effects::new(0, 0);
    push_line(&mut e, 4, String::from("x"));
    assert_eq!(e.text.len(), 1);
    assert_eq!(e.text[0].0, 4);
    assert!(matches!(e.text[0].1.mode, AppendMode::Append));
    assert_eq!(e.text[0].1.lines, vec![String::from("x")]);

    push_line(&mut e, 4, String::from("y"));
    assert_eq!(e.text.len(), 1);
    assert_eq!(e.text[0].1.lines, vec![String::from("x"), String::from("y")]);
}

#[test]
fn reset_text_switches_to_an_empty_replacement() {
    let mut e = Effects::new(0, 0);
    push_line(&mut e, 4, String::from("x"));
    reset_text(&mut e, 4);
    assert_eq!(e.text.len(), 1);
    assert!(matches!(e.text[0].1.mode, AppendMode::Replace));
    assert!(e.text[0].1.lines.is_empty());

    push_line(&mut e, 4, String::from("z"));
    assert!(matches!(e.text[0].1.mode, AppendMode::Replace));
    assert_eq!(e.text[0].1.lines, vec![String::from("z")]);
}

#[test]
fn clip_changes_overwrite_per_identifier() {
    let mut e = Effects::new(0, 0);
    let c = Clip { pos: pos(1.0, 1.0), size: pos(10.0, 10.0) };
    set_clip(&mut e, 3, c);
    assert_eq!(e.clip.len(), 1);
    assert_eq!(e.clip[0], (3, Some(c)));
    remove_clip(&mut e, 3);
    assert_eq!(e.clip.len(), 1);
    assert_eq!(e.clip[0], (3, None));
}

#[test]
fn animation_requests_record_target_and_duration() {
    let mut e = Effects::new(0, 0);
    record_animation(&mut e, 2, pos(50.0, 60.0), 0.25f32.to_bits());
    assert_eq!(e.animate.len(), 1);
    assert_eq!(e.animate[0], (2, (pos(50.0, 60.0), 0.25f32.to_bits())));
}
