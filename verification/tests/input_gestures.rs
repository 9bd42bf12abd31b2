use fighter_platformer::input::{
    get_clamped_control_stick, Action, ActionSet, BufferedInput, Control, DirectionalAction,
    RotationDirection,
};
use fighter_platformer::math::Vec2;
use fighter_platformer::utils::CardinalDirection;

#[test]
fn deadzone_collapses_small_sticks_to_zero() {
    let v = get_clamped_control_stick(100, 100);
    assert_eq!(v, Vec2 { x: 0, y: 0 });
    let v = get_clamped_control_stick(0, 0);
    assert_eq!(v, Vec2 { x: 0, y: 0 });
}

#[test]
fn livezone_rescales_linearly() {
    // Length 500: (500 - 250) * 1000 / 750 = 333 steps along x.
    let v = get_clamped_control_stick(500, 0);
    assert_eq!(v, Vec2 { x: 333, y: 0 });
    // A full deflection stays a full deflection.
    let v = get_clamped_control_stick(1000, 0);
    assert_eq!(v, Vec2 { x: 1000, y: 0 });
    let v = get_clamped_control_stick(0, -1000);
    assert_eq!(v, Vec2 { x: 0, y: -1000 });
}

#[test]
fn smash_fires_on_zero_to_rim_in_one_tick() {
    let mut c = Control::new();
    c.update_stick(1000, 0);
    c.detect_smash_input();
    match c.directional_action {
        BufferedInput::Buffered { value: DirectionalAction::Smash(d), age, .. } => {
            assert_eq!(d, CardinalDirection::Right);
            assert_eq!(age, 0);
        }
        _ => panic!("expected a buffered smash"),
    }
}

#[test]
fn no_smash_without_recent_displacement() {
    let mut c = Control::new();
    // Hold the stick at the rim for many ticks; the recent window only
    // sees rim samples, so no smash fires.
    for _ in 0..8 {
        c.update_stick(1000, 0);
    }
    c.detect_smash_input();
    assert!(matches!(c.directional_action, BufferedInput::Empty));
}

#[test]
fn half_circle_clockwise_over_three_ticks() {
    let mut c = Control::new();
    c.update_stick(1000, 0);
    c.update_stick(0, -1000);
    c.update_stick(-1000, 0);
    c.detect_half_circle_input();
    match c.directional_action {
        BufferedInput::Buffered {
            value: DirectionalAction::HalfCircle(d, rot), ..
        } => {
            assert_eq!(d, CardinalDirection::Left);
            assert_eq!(rot, RotationDirection::Clockwise);
        }
        _ => panic!("expected a buffered half-circle"),
    }
    // Detection consumes the history.
    assert!(c.previous_stick_positions.is_empty());
}

#[test]
fn half_circle_counterclockwise_over_three_ticks() {
    let mut c = Control::new();
    c.update_stick(-1000, 0);
    c.update_stick(0, -1000);
    c.update_stick(1000, 0);
    c.detect_half_circle_input();
    match c.directional_action {
        BufferedInput::Buffered {
            value: DirectionalAction::HalfCircle(d, rot), ..
        } => {
            assert_eq!(d, CardinalDirection::Right);
            assert_eq!(rot, RotationDirection::CounterClockwise);
        }
        _ => panic!("expected a buffered half-circle"),
    }
}

#[test]
fn single_tick_crossing_is_smash_not_half_circle() {
    let mut c = Control::new();
    c.update_stick(1000, 0);
    c.update_stick(-1000, 0);
    c.detect_half_circle_input();
    assert!(matches!(c.directional_action, BufferedInput::Empty));
    c.detect_smash_input();
    match c.directional_action {
        BufferedInput::Buffered { value: DirectionalAction::Smash(d), .. } => {
            assert_eq!(d, CardinalDirection::Left);
        }
        _ => panic!("expected the crossing to register as a smash"),
    }
}

#[test]
fn half_circle_top_to_bottom_through_diagonals() {
    let mut c = Control::new();
    c.update_stick(0, 1000);
    c.update_stick(707, 707);
    c.update_stick(1000, 0);
    c.update_stick(707, -707);
    c.update_stick(0, -1000);
    c.detect_half_circle_input();
    match c.directional_action {
        BufferedInput::Buffered {
            value: DirectionalAction::HalfCircle(d, rot), ..
        } => {
            assert_eq!(d, CardinalDirection::Down);
            assert_eq!(rot, RotationDirection::Clockwise);
        }
        _ => panic!("expected a buffered half-circle"),
    }
}

#[test]
fn interrupted_rotation_is_no_half_circle() {
    let mut c = Control::new();
    // Clockwise, then the turn reverses before reaching the far side.
    c.update_stick(1000, 0);
    c.update_stick(707, -707);
    c.update_stick(1000, 0);
    c.update_stick(707, -707);
    c.detect_half_circle_input();
    assert!(matches!(c.directional_action, BufferedInput::Empty));
}

#[test]
fn buffered_entries_age_out_after_eight_ticks() {
    let mut c = Control::new();
    c.buffer_action(Action::Jump);
    assert!(c.has_action(&Action::Jump));
    for _ in 0..7 {
        c.age_buffers();
        assert!(c.has_action(&Action::Jump));
    }
    c.age_buffers();
    assert!(!c.has_action(&Action::Jump));
    assert!(matches!(c.action, BufferedInput::Empty));
}

#[test]
fn press_is_edge_triggered() {
    let mut c = Control::new();
    c.hold_action(Action::Attack);
    c.snapshot_held();
    // Held since last tick: a new press event must not re-buffer it.
    c.buffer_action(Action::Attack);
    assert!(!c.has_action(&Action::Attack));
    c.release_action(Action::Attack);
    c.snapshot_held();
    c.buffer_action(Action::Attack);
    assert!(c.has_action(&Action::Attack));
}

#[test]
fn held_action_set_inserts_and_removes() {
    let mut s = ActionSet::empty();
    assert!(!s.contains(Action::Shield));
    s.insert(Action::Shield);
    s.insert(Action::Jump);
    assert!(s.contains(Action::Shield));
    assert!(s.contains(Action::Jump));
    assert!(!s.contains(Action::Grab));
    s.remove(Action::Shield);
    assert!(!s.contains(Action::Shield));
    assert!(s.contains(Action::Jump));
}

#[test]
fn stick_history_is_bounded() {
    let mut c = Control::new();
    for _ in 0..40 {
        c.update_stick(1000, 0);
    }
    assert_eq!(c.previous_stick_positions.len(), 30);
}
