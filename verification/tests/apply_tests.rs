use lean_bridge::apply::TextData;
use lean_bridge::apply::EffectError;
use lean_bridge::apply::insert_text;
use lean_bridge::apply::replace_text;
use lean_bridge::apply::perform_effects;
use lean_bridge::effects::Effects;
use lean_bridge::effects::Interpreter;
use lean_bridge::effects::Vec2;
use lean_bridge::effects::Clip;
use lean_bridge::effects::fresh_column;
use lean_bridge::effects::push_line;
use lean_bridge::effects::reset_text;
use lean_bridge::effects::set_clip;
use lean_bridge::effects::record_animation;

fn pos(x: f32, y: f32) -> Vec2 {
    Vec2 { x: x.to_bits(), y: y.to_bits() }
}

fn lines(texts: &[&str]) -> Vec<String> {
    texts.iter().map(|t| String::from(*t)).collect()
}

fn interp(next_id: u64) -> Interpreter {
    Interpreter { effects: Effects::new(next_id, 0), committed: false }
}

#[test]
fn insert_text_appends_a_column_and_its_lines() {
    let mut td = TextData::new();
    let id = insert_text(&mut td, pos(1.0, 2.0), None, &lines(&["a", "b"]));
    assert_eq!(id, 0);
    assert_eq!(td.columns.len(), 1);
    assert_eq!(td.columns[0].offset, 0);
    assert_eq!(td.columns[0].length, 2);
    assert_eq!(td.laid_out_lines, lines(&["a", "b"]));
    assert_eq!(td.unbound_offset, 0);
    assert_eq!(td.unbound_length, 2);

    let id2 = insert_text(&mut td, pos(3.0, 4.0), None, &lines(&["c"]));
    assert_eq!(id2, 1);
    assert_eq!(td.columns[1].offset, 2);
    assert_eq!(td.columns[1].length, 1);
    assert_eq!(td.laid_out_lines, lines(&["a", "b", "c"]));
}

#[test]
fn replace_text_swaps_lines_in_place() {
    let mut td = TextData::new();
    insert_text(&mut td, pos(0.0, 0.0), None, &lines(&["a", "b"]));
    insert_text(&mut td, pos(0.0, 0.0), None, &lines(&["c"]));
    replace_text(&mut td, 0, &lines(&["x", "y"]));
    assert_eq!(td.laid_out_lines, lines(&["x", "y", "c"]));
    assert_eq!(td.columns.len(), 2);
}

#[test]
fn one_create_per_column_and_last_replace_wins() {
    // One batch: create a column, then set its lines twice in replace mode.
    let mut it = interp(0);
    let mut td = TextData::new();
    let id = fresh_column(&mut it.effects, pos(10.0, 10.0));
    assert_eq!(id, 0);
    reset_text(&mut it.effects, 0);
    push_line(&mut it.effects, 0, String::from("a"));
    push_line(&mut it.effects, 0, String::from("b"));
    reset_text(&mut it.effects, 0);
    push_line(&mut it.effects, 0, String::from("c"));
    push_line(&mut it.effects, 0, String::from("d"));

    assert_eq!(perform_effects(&mut it, &mut td), Ok(false));

    // The renderer observed exactly one column creation for identifier 0,
    // and the applied lines are the last replacement.
    assert_eq!(td.columns.len(), 1);
    assert_eq!(td.columns[0].pos, pos(10.0, 10.0));
    assert_eq!(td.laid_out_lines, lines(&["c", "d"]));
}

#[test]
fn append_to_a_pre_existing_column_faults() {
    let mut it = interp(0);
    let mut td = TextData::new();
    push_line(&mut it.effects, 5, String::from("x"));
    assert_eq!(
        perform_effects(&mut it, &mut td),
        Err(EffectError::AppendToExisting { id: 5 })
    );
    // Nothing was applied and the batch is kept for inspection.
    assert_eq!(td.columns.len(), 0);
    assert_eq!(it.effects.text.len(), 1);
}

#[test]
fn replacing_an_unknown_column_faults() {
    let mut it = interp(0);
    let mut td = TextData::new();
    reset_text(&mut it.effects, 3);
    push_line(&mut it.effects, 3, String::from("x"));
    assert_eq!(
        perform_effects(&mut it, &mut td),
        Err(EffectError::UnknownColumn { id: 3 })
    );
}

#[test]
fn changing_the_line_count_faults() {
    let mut td = TextData::new();
    insert_text(&mut td, pos(0.0, 0.0), None, &lines(&["only"]));
    let mut it = interp(1);
    reset_text(&mut it.effects, 0);
    push_line(&mut it.effects, 0, String::from("a"));
    push_line(&mut it.effects, 0, String::from("b"));
    assert_eq!(
        perform_effects(&mut it, &mut td),
        Err(EffectError::LineCountChanged { id: 0 })
    );
    assert_eq!(td.laid_out_lines, lines(&["only"]));
}

#[test]
fn replacing_a_pre_existing_column_applies_in_place() {
    let mut td = TextData::new();
    insert_text(&mut td, pos(0.0, 0.0), None, &lines(&["old1", "old2"]));
    let mut it = interp(1);
    reset_text(&mut it.effects, 0);
    push_line(&mut it.effects, 0, String::from("new1"));
    push_line(&mut it.effects, 0, String::from("new2"));
    assert_eq!(perform_effects(&mut it, &mut td), Ok(false));
    assert_eq!(td.laid_out_lines, lines(&["new1", "new2"]));
    assert_eq!(td.columns.len(), 1);
}

#[test]
fn batch_is_reset_after_applying() {
    // Non-empty batch.
    let mut it = interp(0);
    let mut td = TextData::new();
    fresh_column(&mut it.effects, pos(1.0, 1.0));
    push_line(&mut it.effects, 0, String::from("x"));
    set_clip(&mut it.effects, 0, Clip { pos: pos(0.0, 0.0), size: pos(5.0, 5.0) });
    record_animation(&mut it.effects, 0, pos(9.0, 9.0), 1.0f32.to_bits());
    it.effects.should_quit = true;
    assert_eq!(perform_effects(&mut it, &mut td), Ok(true));
    assert!(it.effects.new_columns.is_empty());
    assert!(it.effects.text.is_empty());
    assert!(it.effects.clip.is_empty());
    assert!(it.effects.animate.is_empty());
    assert!(!it.effects.should_quit);
    assert_eq!(it.effects.next_id, 1);

    // Empty batch: still empty and still not quitting afterwards.
    let mut it2 = interp(1);
    assert_eq!(perform_effects(&mut it2, &mut td), Ok(false));
    assert!(it2.effects.new_columns.is_empty());
    assert!(it2.effects.text.is_empty());
    assert!(it2.effects.clip.is_empty());
    assert!(it2.effects.animate.is_empty());
    assert!(!it2.effects.should_quit);
}

#[test]
fn clips_and_animations_reach_their_columns() {
    let mut td = TextData::new();
    insert_text(&mut td, pos(0.0, 0.0), None, &lines(&["a"]));
    let mut it = interp(1);
    let clip = Clip { pos: pos(1.0, 2.0), size: pos(3.0, 4.0) };
    set_clip(&mut it.effects, 0, clip);
    record_animation(&mut it.effects, 0, pos(7.0, 8.0), 0.5f32.to_bits());
    assert_eq!(perform_effects(&mut it, &mut td), Ok(false));
    assert_eq!(td.columns[0].clip, Some(clip));
    assert_eq!(td.columns[0].animation, Some((pos(7.0, 8.0), 0.5f32.to_bits())));

    // A later batch can remove the clip again.
    let mut it2 = interp(1);
    lean_bridge::effects::remove_clip(&mut it2.effects, 0);
    assert_eq!(perform_effects(&mut it2, &mut td), Ok(false));
    assert_eq!(td.columns[0].clip, None);
}

#[test]
fn new_columns_start_where_the_renderer_ends() {
    let mut td = TextData::new();
    insert_text(&mut td, pos(0.0, 0.0), None, &lines(&["pre"]));
    let mut it = interp(1);
    let id = fresh_column(&mut it.effects, pos(2.0, 2.0));
    assert_eq!(id, 1);
    push_line(&mut it.effects, 1, String::from("fresh"));
    assert_eq!(perform_effects(&mut it, &mut td), Ok(false));
    assert_eq!(td.columns.len(), 2);
    assert_eq!(td.columns[1].offset, 1);
    assert_eq!(td.columns[1].length, 1);
    assert_eq!(td.laid_out_lines, lines(&["pre", "fresh"]));
}
