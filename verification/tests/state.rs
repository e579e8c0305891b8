//! Tests of the small state types: display state, toolbar and button
//! state.

use foxfire::button_data::ThemedButtonState;
use foxfire::commands::Delegate;
use foxfire::toolbar_data::ToolbarState;
use foxfire::types::{Direction, DisplayState};

#[test]
fn display_state_set_and_clear() {
    let mut s = DisplayState::Centered(false);
    s.set();
    assert!(matches!(s, DisplayState::Centered(true)));
    s.clear();
    assert!(matches!(s, DisplayState::Centered(false)));

    let mut z = DisplayState::Zoomed(false);
    z.set();
    assert!(matches!(z, DisplayState::Zoomed(true)));

    let mut r = DisplayState::RealSize(true);
    r.clear();
    assert!(matches!(r, DisplayState::RealSize(false)));
}

#[test]
fn direction_variants() {
    let l = Direction::Left;
    let r = Direction::Right;
    assert!(matches!(l, Direction::Left));
    assert!(matches!(r, Direction::Right));
    assert_ne!(l, r);
}

#[test]
fn themed_button_state_flags() {
    let mut b = ThemedButtonState::new();
    assert!(!b.is_pressed());
    assert!(!b.has_event());
    b.set_pressed(true);
    assert!(b.is_pressed());
    b.fire_event();
    assert!(b.has_event());
    assert!(b.is_pressed());
    b.clear_event();
    assert!(!b.has_event());
    b.set_pressed(false);
    assert!(!b.is_pressed());
}

#[test]
fn toolbar_state_flags() {
    let mut t = ToolbarState::new(true);
    assert!(t.dark_theme_enabled);
    assert!(!t.get_left());
    assert!(!t.get_right());
    assert!(!t.get_recenter());
    assert!(!t.get_rotate_left());
    assert!(!t.get_rotate_right());

    t.set_left(true);
    assert!(t.get_left());
    assert!(!t.get_right());
    t.set_left(false);
    t.set_right(true);
    assert!(t.get_right());
    t.set_recenter(true);
    assert!(t.get_recenter());
    t.set_rotate_left(true);
    assert!(t.get_rotate_left());
    t.set_rotate_right(true);
    assert!(t.get_rotate_right());
    t.set_rotate_right(false);
    assert!(!t.get_rotate_right());

    let light = ToolbarState::new(false);
    assert!(!light.dark_theme_enabled);
    assert!(!light.zoom_button.has_event());
}

#[test]
fn delegate_is_constructible() {
    let _d = Delegate::new();
}
