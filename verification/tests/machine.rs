use slider::geometry::{generate, indices};
use slider::slider::{Slider, SliderState, INITIAL_ANCHOR_X, INITIAL_ANCHOR_Y};

/// Press and then move inside the head so the slider is mid-drag.
fn dragging_slider() -> Slider {
    let mut s = Slider::new();
    s.on_button_down();
    let redraw = s.on_pointer_move(-550_000, -500_000);
    assert_eq!(s.state, SliderState::Dragging);
    assert!(redraw);
    s
}

#[test]
fn starts_idle_at_the_default_anchor() {
    let s = Slider::new();
    assert_eq!(s.state, SliderState::Idle);
    assert_eq!((s.anchor_x, s.anchor_y), (INITIAL_ANCHOR_X, INITIAL_ANCHOR_Y));
    assert_eq!(s.head_x, INITIAL_ANCHOR_X);
}

#[test]
fn click_without_move_leaves_anchor_and_returns_to_idle() {
    let mut s = Slider::new();
    s.on_button_down();
    assert_eq!(s.state, SliderState::Pressed);
    s.on_button_up();
    assert_eq!(s.state, SliderState::Idle);
    assert_eq!((s.anchor_x, s.anchor_y), (INITIAL_ANCHOR_X, INITIAL_ANCHOR_Y));
    assert_eq!(s.head_x, INITIAL_ANCHOR_X);
}

#[test]
fn move_while_idle_is_a_no_op() {
    let mut s = Slider::new();
    let redraw = s.on_pointer_move(-550_000, -500_000);
    assert!(!redraw);
    assert_eq!(s.state, SliderState::Idle);
    assert_eq!(s.head_x, INITIAL_ANCHOR_X);
}

#[test]
fn move_inside_head_starts_dragging() {
    let mut s = Slider::new();
    s.on_button_down();
    // Head spans x in (-0.60, -0.50) and NDC y in (0.40, 0.55); the pointer y
    // arrives sign-flipped.
    let redraw = s.on_pointer_move(-550_000, -500_000);
    assert_eq!(s.state, SliderState::Dragging);
    assert_eq!(s.head_x, -550_000);
    assert!(redraw);
}

#[test]
fn move_outside_head_keeps_pressed() {
    let mut s = Slider::new();
    s.on_button_down();
    let redraw = s.on_pointer_move(200_000, -500_000);
    assert_eq!(s.state, SliderState::Pressed);
    assert_eq!(s.head_x, INITIAL_ANCHOR_X);
    assert!(!redraw);
}

#[test]
fn pressed_keeps_retesting_the_hit_until_release() {
    let mut s = Slider::new();
    s.on_button_down();
    // Misses leave the slider armed; a later hit still starts the drag.
    s.on_pointer_move(200_000, -500_000);
    s.on_pointer_move(-900_000, -500_000);
    assert_eq!(s.state, SliderState::Pressed);
    let redraw = s.on_pointer_move(-550_000, -500_000);
    assert_eq!(s.state, SliderState::Dragging);
    assert!(redraw);
}

#[test]
fn second_press_while_armed_is_ignored() {
    let mut s = Slider::new();
    s.on_button_down();
    s.on_button_down();
    assert_eq!(s.state, SliderState::Pressed);
    let mut d = dragging_slider();
    d.on_button_down();
    assert_eq!(d.state, SliderState::Dragging);
}

#[test]
fn release_while_idle_is_ignored() {
    let mut s = Slider::new();
    s.on_button_up();
    assert_eq!(s.state, SliderState::Idle);
    assert_eq!(s.anchor_x, INITIAL_ANCHOR_X);
}

#[test]
fn release_mid_drag_commits_last_moved_x() {
    let mut s = dragging_slider();
    s.on_pointer_move(123_000, -500_000);
    s.on_button_up();
    assert_eq!(s.state, SliderState::Idle);
    assert_eq!((s.anchor_x, s.anchor_y), (123_000, INITIAL_ANCHOR_Y));
}

#[test]
fn redraw_gate_suppresses_out_of_range_and_recovers() {
    let mut s = dragging_slider();
    // -0.70 is left of the range: geometry updates, no redraw request.
    let redraw = s.on_pointer_move(-700_000, -500_000);
    assert!(!redraw);
    assert_eq!(s.head_x, -700_000);
    // Back to 0.0, inside the range: the redraw fires again.
    let redraw = s.on_pointer_move(0, -500_000);
    assert!(redraw);
    assert_eq!(s.head_x, 0);
}

#[test]
fn redraw_gate_is_inclusive_at_both_bounds() {
    let mut s = dragging_slider();
    assert!(s.on_pointer_move(-650_000, -500_000));
    assert!(!s.on_pointer_move(-650_001, -500_000));
    assert!(s.on_pointer_move(600_000, -500_000));
    assert!(!s.on_pointer_move(600_001, -500_000));
}

#[test]
fn out_of_range_commit_is_unclamped() {
    let mut s = dragging_slider();
    s.on_pointer_move(-700_000, -500_000);
    s.on_button_up();
    assert_eq!(s.anchor_x, -700_000);
}

#[test]
fn drag_scenario_commits_moved_anchor() {
    // Construct; press; move to (-0.58, -0.48), inside the head after the
    // sign flip; the drag starts and the head follows; release commits.
    let mut s = Slider::new();
    s.on_button_down();
    let redraw = s.on_pointer_move(-580_000, -480_000);
    assert_eq!(s.state, SliderState::Dragging);
    assert!(redraw);
    let g = s.geometry();
    assert_eq!((g[0].position.0, g[0].position.1), (-580_000, 550_000));
    s.on_button_up();
    assert_eq!(s.state, SliderState::Idle);
    assert_eq!((s.anchor_x, s.anchor_y), (-580_000, 550_000));
}

#[test]
fn take_dirty_geometry_hands_out_each_change_once() {
    let mut s = Slider::new();
    // The construction-time geometry is dirty so the first frame uploads it.
    let first = s.take_dirty_geometry().expect("initial geometry");
    assert_eq!(first.0, generate(INITIAL_ANCHOR_X, INITIAL_ANCHOR_Y));
    assert_eq!(first.1, indices());
    assert!(s.take_dirty_geometry().is_none());

    s.on_button_down();
    s.on_pointer_move(-550_000, -500_000);
    let moved = s.take_dirty_geometry().expect("dragged geometry");
    assert_eq!(moved.0, generate(-550_000, INITIAL_ANCHOR_Y));
    assert!(s.take_dirty_geometry().is_none());
}

#[test]
fn gate_and_dirty_bit_interaction() {
    let mut s = Slider::new();
    s.take_dirty_geometry();
    s.on_button_down();
    s.on_pointer_move(-550_000, -500_000);
    // Move to 0.59, in range: the redraw fires and the dirty bit is set.
    assert!(s.on_pointer_move(590_000, -500_000));
    // Move to 0.70, out of range: no redraw, but the bit is still set from
    // the in-range move, so the next frame picks up the 0.70 geometry.
    assert!(!s.on_pointer_move(700_000, -500_000));
    let g = s.take_dirty_geometry().expect("geometry flagged by the in-range move");
    assert_eq!(g.0[0].position.0, 700_000);
    // An out-of-range move alone never sets the bit.
    assert!(!s.on_pointer_move(710_000, -500_000));
    assert!(s.take_dirty_geometry().is_none());
}
