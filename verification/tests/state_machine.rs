use fighter_platformer::fighter::{
    apply_turnaround, go_airborne, land, update_gravity, FighterProperties,
};
use fighter_platformer::fighter_state::{
    apply_state_transition, try_turnaround, try_walk, FighterState, FighterStateTransition,
    InterruptPlayerData, AIRDODGE_DURATION_FRAMES, TURNAROUND_DURATION_FRAMES,
};
use fighter_platformer::input::{Action, BufferedInput, Control, DirectionalAction};
use fighter_platformer::math::Vec2;
use fighter_platformer::megaman::{get_attack_transition, update_state_transition_rules};
use fighter_platformer::utils::{CardinalDirection, Facing, FrameCount, LeftRight};

fn control_with_stick(x: i64, y: i64) -> Control {
    let mut c = Control::new();
    c.update_stick(x, y);
    c
}

#[test]
fn walk_needs_stick_with_facing() {
    let c = control_with_stick(1000, 0);
    let data = InterruptPlayerData { state: FighterState::Idle, facing: LeftRight::Right };
    assert_eq!(try_walk(&c, &data), Some(FighterState::Walk));
    assert_eq!(try_turnaround(&c, &data), None);
}

#[test]
fn turnaround_needs_stick_against_facing() {
    let c = control_with_stick(-1000, 0);
    let data = InterruptPlayerData { state: FighterState::Idle, facing: LeftRight::Right };
    assert_eq!(try_turnaround(&c, &data), Some(FighterState::Turnaround));
    assert_eq!(try_walk(&c, &data), None);
}

#[test]
fn walk_and_turnaround_never_fire_together() {
    for (x, y) in [(1000, 0), (-1000, 0), (0, 1000), (0, -1000), (0, 0), (600, 600)] {
        let c = control_with_stick(x, y);
        for facing in [LeftRight::Left, LeftRight::Right] {
            let data = InterruptPlayerData { state: FighterState::Idle, facing };
            let both = try_walk(&c, &data).is_some() && try_turnaround(&c, &data).is_some();
            assert!(!both);
        }
    }
}

#[test]
fn smash_interrupt_starts_dash_and_clears_gesture() {
    let mut c = Control::new();
    c.buffer_action(Action::Grab);
    c.directional_action = BufferedInput::Buffered {
        value: DirectionalAction::Smash(CardinalDirection::Right),
        stick: Vec2 { x: 1000, y: 0 },
        age: 0,
    };
    let mut state = FighterState::Idle;
    let mut frame = FrameCount(7);
    let props = FighterStateTransition::default_for_state(&FighterState::Idle);
    let transitioned =
        apply_state_transition(&props, &mut frame, &mut state, &mut c, LeftRight::Right);
    assert!(transitioned);
    // Round trip: the new state reads back with a zeroed frame counter and
    // no residual directional gesture; the action buffer is untouched.
    assert_eq!(state, FighterState::Dash);
    assert_eq!(frame.0, 0);
    assert!(matches!(c.directional_action, BufferedInput::Empty));
    assert!(c.has_action(&Action::Grab));
}

#[test]
fn buffered_jump_interrupt_clears_action() {
    let mut c = Control::new();
    c.buffer_action(Action::Jump);
    let mut state = FighterState::Idle;
    let mut frame = FrameCount(3);
    let props = FighterStateTransition::default_for_state(&FighterState::Idle);
    let transitioned =
        apply_state_transition(&props, &mut frame, &mut state, &mut c, LeftRight::Right);
    assert!(transitioned);
    assert_eq!(state, FighterState::JumpSquat);
    assert_eq!(frame.0, 0);
    assert!(matches!(c.action, BufferedInput::Empty));
}

#[test]
fn shield_interrupt_starts_airdodge_along_stick() {
    let mut c = control_with_stick(0, -1000);
    c.buffer_action(Action::Shield);
    let mut state = FighterState::IdleAirborne;
    let mut frame = FrameCount(12);
    let props = FighterStateTransition::default_for_state(&FighterState::IdleAirborne);
    let transitioned =
        apply_state_transition(&props, &mut frame, &mut state, &mut c, LeftRight::Right);
    assert!(transitioned);
    assert_eq!(state, FighterState::Airdodge(Vec2 { x: 0, y: -1000 }));
    assert_eq!(frame.0, 0);
    // The airdodge policy clears both buffers.
    assert!(matches!(c.action, BufferedInput::Empty));
    assert!(matches!(c.directional_action, BufferedInput::Empty));
}

#[test]
fn natural_end_fires_on_its_frame() {
    let mut c = Control::new();
    let mut state = FighterState::Turnaround;
    let mut frame = FrameCount(TURNAROUND_DURATION_FRAMES);
    let props = FighterStateTransition::default_for_state(&FighterState::Turnaround);
    let transitioned =
        apply_state_transition(&props, &mut frame, &mut state, &mut c, LeftRight::Right);
    assert!(transitioned);
    assert_eq!(state, FighterState::Idle);
    assert_eq!(frame.0, 0);
}

#[test]
fn natural_end_clears_the_action_buffer() {
    // A jump buffered late in a moonwalk must not survive its natural end
    // into idle and fire a tick later: the end applies idle's policy.
    let mut c = Control::new();
    c.buffer_action(Action::Jump);
    let mut state = FighterState::Moonwalk;
    let mut frame = FrameCount(15);
    // A moonwalk's own interrupt would consume the jump; end it with a
    // closed window to isolate the natural-end path.
    let props = FighterStateTransition {
        end: fighter_platformer::fighter_state::StateEnd::OnFrame {
            frame: 15,
            next_state: FighterState::Idle,
        },
        iasa: None,
    };
    let transitioned =
        apply_state_transition(&props, &mut frame, &mut state, &mut c, LeftRight::Right);
    assert!(transitioned);
    assert_eq!(state, FighterState::Idle);
    assert_eq!(frame.0, 0);
    assert!(matches!(c.action, BufferedInput::Empty));
    // A second pass with the same (now cleared) buffers cannot re-fire.
    let props = FighterStateTransition::default_for_state(&FighterState::Idle);
    let again = apply_state_transition(&props, &mut frame, &mut state, &mut c, LeftRight::Right);
    assert!(!again);
    assert_eq!(state, FighterState::Idle);
}

#[test]
fn natural_end_into_turnaround_keeps_the_gesture_policy() {
    // A turnaround running out keeps the directional gesture (idle's
    // policy clears only the discrete action).
    let mut c = Control::new();
    c.directional_action = BufferedInput::Buffered {
        value: DirectionalAction::Smash(CardinalDirection::Right),
        stick: Vec2 { x: 1000, y: 0 },
        age: 0,
    };
    let mut state = FighterState::EnterCrouch;
    let mut frame = FrameCount(6);
    let props = FighterStateTransition::default_for_state(&FighterState::EnterCrouch);
    assert!(apply_state_transition(&props, &mut frame, &mut state, &mut c, LeftRight::Right));
    assert_eq!(state, FighterState::Crouch);
    assert!(matches!(c.directional_action, BufferedInput::Buffered { .. }));
    assert!(matches!(c.action, BufferedInput::Empty));
}

#[test]
fn no_transition_leaves_everything_alone() {
    let mut c = Control::new();
    let mut state = FighterState::Turnaround;
    let mut frame = FrameCount(2);
    let props = FighterStateTransition::default_for_state(&FighterState::Turnaround);
    let transitioned =
        apply_state_transition(&props, &mut frame, &mut state, &mut c, LeftRight::Right);
    assert!(!transitioned);
    assert_eq!(state, FighterState::Turnaround);
    assert_eq!(frame.0, 2);
}

#[test]
fn turnaround_flips_facing_exactly_at_midpoint() {
    for f in 0..TURNAROUND_DURATION_FRAMES {
        let mut facing = Facing(LeftRight::Right);
        apply_turnaround(&mut facing, &FighterState::Turnaround, &FrameCount(f), false);
        if f == TURNAROUND_DURATION_FRAMES / 2 {
            assert_eq!(facing.0, LeftRight::Left, "must flip at the midpoint");
        } else {
            assert_eq!(facing.0, LeftRight::Right, "must not flip off the midpoint");
        }
    }
    // Other states never flip, whatever the frame.
    let mut facing = Facing(LeftRight::Right);
    apply_turnaround(&mut facing, &FighterState::Walk, &FrameCount(4), false);
    assert_eq!(facing.0, LeftRight::Right);
}

#[test]
fn intangibility_is_interior_to_the_airdodge() {
    let dodge = FighterState::Airdodge(Vec2 { x: 0, y: 0 });
    assert!(!dodge.is_intangible(&0));
    assert!(!dodge.is_intangible(&3));
    assert!(dodge.is_intangible(&4));
    assert!(dodge.is_intangible(&14));
    assert!(!dodge.is_intangible(&AIRDODGE_DURATION_FRAMES));
    for f in 0..=AIRDODGE_DURATION_FRAMES + 5 {
        if dodge.is_intangible(&f) {
            assert!(0 < f && f < AIRDODGE_DURATION_FRAMES);
        }
    }
    assert!(!FighterState::Idle.is_intangible(&5));
}

#[test]
fn grounded_state_with_no_support_goes_airborne() {
    assert_eq!(
        go_airborne(&FighterState::Idle, true),
        Some(FighterState::IdleAirborne)
    );
    assert_eq!(go_airborne(&FighterState::Run, true), Some(FighterState::IdleAirborne));
    assert_eq!(go_airborne(&FighterState::Idle, false), None);
    assert_eq!(go_airborne(&FighterState::IdleAirborne, true), None);
}

#[test]
fn floor_normal_lands_airborne_fighters() {
    let up = Vec2 { x: 0, y: 1000 };
    assert_eq!(
        land(&FighterState::IdleAirborne, up),
        Some(FighterState::LandCrouch)
    );
    assert_eq!(
        land(&FighterState::Airdodge(Vec2 { x: 0, y: 0 }), up),
        Some(FighterState::LandCrouch)
    );
    assert_eq!(land(&FighterState::Idle, up), None);
    // A wall-like normal does not land anyone.
    assert_eq!(land(&FighterState::IdleAirborne, Vec2 { x: 1000, y: 0 }), None);
    // A gentle slope still counts as a floor; a steep one does not.
    assert_eq!(
        land(&FighterState::IdleAirborne, Vec2 { x: 100, y: 1000 }),
        Some(FighterState::LandCrouch)
    );
    assert_eq!(land(&FighterState::IdleAirborne, Vec2 { x: 300, y: 1000 }), None);
}

#[test]
fn airdodge_is_exempt_from_gravity() {
    let props = FighterProperties::default();
    assert_eq!(
        update_gravity(&FighterState::Airdodge(Vec2 { x: 0, y: 0 }), &props),
        None
    );
    assert!(update_gravity(&FighterState::Idle, &props).is_some());
}

#[test]
fn attack_combo_chains_below_the_cap() {
    let mut c = Control::new();
    c.buffer_action(Action::Attack);
    let mut state = FighterState::Attack(0);
    let mut frame = FrameCount(10);
    let props = get_attack_transition(0);
    let transitioned =
        apply_state_transition(&props, &mut frame, &mut state, &mut c, LeftRight::Right);
    assert!(transitioned);
    assert_eq!(state, FighterState::Attack(1));
    assert_eq!(frame.0, 0);
}

#[test]
fn attack_combo_caps_at_final_stage() {
    // The final stage accepts no follow-up; it only runs out to idle.
    let props = get_attack_transition(2);
    assert!(props.iasa.is_none());
    let mut c = Control::new();
    c.buffer_action(Action::Attack);
    let mut state = FighterState::Attack(2);
    let mut frame = FrameCount(10);
    let transitioned =
        apply_state_transition(&props, &mut frame, &mut state, &mut c, LeftRight::Right);
    assert!(!transitioned);
    assert_eq!(state, FighterState::Attack(2));
}

#[test]
fn attack_before_iasa_frame_cannot_chain() {
    let mut c = Control::new();
    c.buffer_action(Action::Attack);
    let mut state = FighterState::Attack(0);
    let mut frame = FrameCount(9);
    let props = get_attack_transition(0);
    let transitioned =
        apply_state_transition(&props, &mut frame, &mut state, &mut c, LeftRight::Right);
    assert!(!transitioned);
    assert_eq!(state, FighterState::Attack(0));
}

#[test]
fn half_circle_against_the_run_starts_a_moonwalk() {
    let mut c = Control::new();
    c.directional_action = BufferedInput::Buffered {
        value: DirectionalAction::HalfCircle(
            CardinalDirection::Left,
            fighter_platformer::input::RotationDirection::Clockwise,
        ),
        stick: Vec2 { x: -1000, y: 0 },
        age: 0,
    };
    let mut state = FighterState::Dash;
    let mut frame = FrameCount(3);
    let props = FighterStateTransition::default_for_state(&FighterState::Dash);
    let transitioned =
        apply_state_transition(&props, &mut frame, &mut state, &mut c, LeftRight::Right);
    assert!(transitioned);
    assert_eq!(state, FighterState::Moonwalk);
    // Entering a moonwalk consumes the gesture buffer.
    assert!(matches!(c.directional_action, BufferedInput::Empty));
}

#[test]
fn neutral_stick_winds_a_run_down_in_two_steps() {
    let mut c = Control::new();
    let mut state = FighterState::Run;
    let mut frame = FrameCount(9);
    let props = FighterStateTransition::default_for_state(&FighterState::Run);
    assert!(apply_state_transition(&props, &mut frame, &mut state, &mut c, LeftRight::Right));
    assert_eq!(state, FighterState::RunEnd);
    let props = FighterStateTransition::default_for_state(&FighterState::RunEnd);
    assert!(apply_state_transition(&props, &mut frame, &mut state, &mut c, LeftRight::Right));
    assert_eq!(state, FighterState::Idle);
}

#[test]
fn crouch_enters_holds_and_exits() {
    // Deep down-stick: idle interrupts into the crouch entry.
    let mut c = control_with_stick(0, -1000);
    let mut state = FighterState::Idle;
    let mut frame = FrameCount(1);
    let props = FighterStateTransition::default_for_state(&FighterState::Idle);
    assert!(apply_state_transition(&props, &mut frame, &mut state, &mut c, LeftRight::Right));
    assert_eq!(state, FighterState::EnterCrouch);
    // The entry runs out into the crouch proper.
    frame = FrameCount(6);
    let props = FighterStateTransition::default_for_state(&FighterState::EnterCrouch);
    assert!(apply_state_transition(&props, &mut frame, &mut state, &mut c, LeftRight::Right));
    assert_eq!(state, FighterState::Crouch);
    // Releasing the stick leaves the crouch.
    let mut c = control_with_stick(0, 0);
    let props = FighterStateTransition::default_for_state(&FighterState::Crouch);
    assert!(apply_state_transition(&props, &mut frame, &mut state, &mut c, LeftRight::Right));
    assert_eq!(state, FighterState::ExitCrouch);
}

#[test]
fn shallow_down_stick_does_not_crouch() {
    // Down, but above the crouch threshold depth.
    let mut c = control_with_stick(0, -390);
    let mut state = FighterState::Idle;
    let mut frame = FrameCount(1);
    let props = FighterStateTransition::default_for_state(&FighterState::Idle);
    let transitioned =
        apply_state_transition(&props, &mut frame, &mut state, &mut c, LeftRight::Right);
    assert!(!transitioned);
    assert_eq!(state, FighterState::Idle);
}

#[test]
fn rules_follow_the_state() {
    let r = update_state_transition_rules(&FighterState::Attack(1));
    assert_eq!(r, get_attack_transition(1));
    let r = update_state_transition_rules(&FighterState::Idle);
    assert_eq!(r, FighterStateTransition::default_for_state(&FighterState::Idle));
}
