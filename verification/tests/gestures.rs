//! Tests of the gesture state machine: the single slot, the drop
//! policy, previews and commits.

use foxfire::gesture::{GestureController, PendingGesture};
use foxfire::rat::Frac;
use foxfire::transform::ImageTransformation;
use foxfire::types::Vec2D;

fn int_vec(x: i64, y: i64) -> Vec2D {
    Vec2D::from(Frac::from_int(x), Frac::from_int(y))
}

/// A drag previews its offset on every tick without touching the
/// transform, and the final committed tick folds in exactly the net
/// displacement, not the sum of the previews.
#[test]
fn drag_commits_net_displacement_once() {
    let mut g = GestureController::new();
    let mut t = ImageTransformation::new();
    t.set_offset(int_vec(100, 100));

    assert!(g.pointer_down(int_vec(10, 10)));
    assert!(g.pointer_move(int_vec(30, 25)));
    let r1 = g.redraw_tick(&mut t);
    assert!(!r1.completed);
    // preview: 100 + (30 - 10), 100 + (25 - 10)
    assert!(r1.offset.x.eq_rat(&Frac::from_int(120)));
    assert!(r1.offset.y.eq_rat(&Frac::from_int(115)));
    // the transform itself is untouched
    assert!(t.get_offset().x.eq_rat(&Frac::from_int(100)));
    assert!(t.get_offset().y.eq_rat(&Frac::from_int(100)));

    assert!(g.pointer_move(int_vec(5, 0)));
    let r2 = g.redraw_tick(&mut t);
    assert!(!r2.completed);
    assert!(r2.offset.x.eq_rat(&Frac::from_int(95)));
    assert!(r2.offset.y.eq_rat(&Frac::from_int(90)));
    assert!(t.get_offset().x.eq_rat(&Frac::from_int(100)));

    assert!(g.pointer_up());
    let r3 = g.redraw_tick(&mut t);
    assert!(r3.completed);
    // committed: original 100 + net (5 - 10, 0 - 10), applied once
    assert!(t.get_offset().x.eq_rat(&Frac::from_int(95)));
    assert!(t.get_offset().y.eq_rat(&Frac::from_int(90)));
    assert!(r3.offset.x.eq_rat(&Frac::from_int(95)));
    assert!(matches!(g.pending, PendingGesture::Idle));
}

/// While a drag is live, a wheel event is dropped: the slot keeps the
/// drag and the transform is unchanged by the following tick.
#[test]
fn wheel_during_drag_is_dropped() {
    let mut g = GestureController::new();
    let mut t = ImageTransformation::new();
    assert!(g.pointer_down(int_vec(0, 0)));
    assert!(!g.wheel(Frac::from_int(-500), int_vec(50, 50)));
    assert!(matches!(g.pending, PendingGesture::Dragging { .. }));
    let r = g.redraw_tick(&mut t);
    assert!(!r.completed);
    assert!(t.get_scale().eq_rat(&Frac::from_int(1)));
    assert!(t.get_offset().x.eq_rat(&Frac::from_int(0)));
}

/// While a zoom pulse is pending, a pointer press is dropped and the
/// pulse is still consumed by the next tick.
#[test]
fn pointer_down_during_pulse_is_dropped() {
    let mut g = GestureController::new();
    let mut t = ImageTransformation::new();
    assert!(g.wheel(Frac::from_int(-500), int_vec(50, 50)));
    assert!(!g.pointer_down(int_vec(1, 2)));
    assert!(matches!(g.pending, PendingGesture::ZoomPulse { .. }));
    let r = g.redraw_tick(&mut t);
    assert!(r.completed);
    assert!(t.get_scale().eq_rat(&Frac::from_int(2)));
    assert!(matches!(g.pending, PendingGesture::Idle));
}

/// A second wheel event while a pulse is pending is dropped too: the
/// pulse is single-shot.
#[test]
fn second_wheel_during_pulse_is_dropped() {
    let mut g = GestureController::new();
    let mut t = ImageTransformation::new();
    assert!(g.wheel(Frac::from_int(-500), int_vec(0, 0)));
    assert!(!g.wheel(Frac::from_int(-500), int_vec(0, 0)));
    let r = g.redraw_tick(&mut t);
    assert!(r.completed);
    // only one doubling happened
    assert!(t.get_scale().eq_rat(&Frac::from_int(2)));
}

/// Loss of focus acts as an implicit pointer release: the drag commits
/// on the next tick instead of sticking forever.
#[test]
fn focus_loss_commits_drag() {
    let mut g = GestureController::new();
    let mut t = ImageTransformation::new();
    assert!(g.pointer_down(int_vec(0, 0)));
    assert!(g.pointer_move(int_vec(12, -7)));
    assert!(g.focus_lost());
    let r = g.redraw_tick(&mut t);
    assert!(r.completed);
    assert!(t.get_offset().x.eq_rat(&Frac::from_int(12)));
    assert!(t.get_offset().y.eq_rat(&Frac::from_int(-7)));
    assert!(matches!(g.pending, PendingGesture::Idle));
}

/// Once a drag is committed, further pointer moves no longer change it.
#[test]
fn moves_after_release_are_ignored() {
    let mut g = GestureController::new();
    let mut t = ImageTransformation::new();
    assert!(g.pointer_down(int_vec(0, 0)));
    assert!(g.pointer_move(int_vec(10, 10)));
    assert!(g.pointer_up());
    assert!(!g.pointer_move(int_vec(999, 999)));
    let _ = g.redraw_tick(&mut t);
    assert!(t.get_offset().x.eq_rat(&Frac::from_int(10)));
    assert!(t.get_offset().y.eq_rat(&Frac::from_int(10)));
}

/// An idle tick changes nothing and completes nothing.
#[test]
fn idle_tick_is_inert() {
    let mut g = GestureController::new();
    let mut t = ImageTransformation::new();
    t.set_offset(int_vec(4, 5));
    let r = g.redraw_tick(&mut t);
    assert!(!r.completed);
    assert!(r.offset.x.eq_rat(&Frac::from_int(4)));
    assert!(r.offset.y.eq_rat(&Frac::from_int(5)));
    assert!(t.get_offset().x.eq_rat(&Frac::from_int(4)));
}
