use fighter_platformer::fighter::PlayerId;
use fighter_platformer::fighter_state::FighterState;
use fighter_platformer::input::Action;
use fighter_platformer::math::Vec2;
use fighter_platformer::megaman::{shoot_lemon, ATTACK_SHOOT_FRAME};
use fighter_platformer::physics::{Collider, PlacedCollider, Velocity};
use fighter_platformer::pipeline::{tick, Fighter, InputSample};
use fighter_platformer::utils::{Facing, FrameCount, LeftRight, Lifetime};
use fighter_platformer::view::{align_sprite_with_facing, intangibility_flash_bright};

fn neutral() -> InputSample {
    InputSample { stick_x: 0, stick_y: 0, pressed: vec![], released: vec![] }
}

fn stick(x: i64, y: i64) -> InputSample {
    InputSample { stick_x: x, stick_y: y, pressed: vec![], released: vec![] }
}

fn floor() -> Vec<PlacedCollider> {
    vec![PlacedCollider {
        collider: Collider { normal: Vec2 { x: 0, y: 1000 }, breadth: 800_000 },
        centre: Vec2 { x: 0, y: 0 },
    }]
}

#[test]
fn frame_counter_increases_without_transitions() {
    let mut f = Fighter::new(PlayerId(0), Vec2 { x: 0, y: 0 }, LeftRight::Right);
    let colliders = floor();
    let out = tick(&mut f, &neutral(), &colliders, &vec![]);
    assert!(!out.transitioned);
    assert_eq!(out.observed_frame, 1);
    assert_eq!(f.frame.0, 2);
    let out = tick(&mut f, &neutral(), &colliders, &vec![]);
    assert!(!out.transitioned);
    assert_eq!(out.observed_frame, 2);
    assert_eq!(f.frame.0, 3);
}

#[test]
fn frame_counter_reads_zero_exactly_on_transition_ticks() {
    let mut f = Fighter::new(PlayerId(0), Vec2 { x: 0, y: 0 }, LeftRight::Right);
    let colliders = floor();
    // A gentle tilt with the facing (too slow for a smash gesture)
    // interrupts idle into a walk.
    let out = tick(&mut f, &stick(600, 0), &colliders, &vec![]);
    assert!(out.transitioned);
    assert_eq!(out.observed_frame, 0);
    assert_eq!(out.new_state, FighterState::Walk);
    assert_eq!(f.frame.0, 1);
    // Keeping it held: the walk persists and the counter grows again.
    let out = tick(&mut f, &stick(600, 0), &colliders, &vec![]);
    assert!(!out.transitioned);
    assert_eq!(out.observed_frame, 1);
}

#[test]
fn walking_off_the_ledge_goes_airborne_unconditionally() {
    let mut f = Fighter::new(PlayerId(0), Vec2 { x: 600_000, y: 0 }, LeftRight::Right);
    f.state = FighterState::Run;
    f.state_transition_properties =
        fighter_platformer::megaman::update_state_transition_rules(&FighterState::Run);
    // Past the end of the floor segment: no support this tick.
    let colliders = floor();
    let out = tick(&mut f, &stick(1000, 0), &colliders, &vec![]);
    assert_eq!(out.collision_normal, None);
    assert_eq!(f.state, FighterState::IdleAirborne);
    assert!(out.transitioned);
    assert_eq!(out.observed_frame, 0);
}

#[test]
fn falling_fighter_lands_into_land_crouch() {
    let mut f = Fighter::new(PlayerId(0), Vec2 { x: 0, y: 500 }, LeftRight::Right);
    f.state = FighterState::IdleAirborne;
    f.state_transition_properties =
        fighter_platformer::megaman::update_state_transition_rules(&FighterState::IdleAirborne);
    f.velocity = Velocity(Vec2 { x: 0, y: -1000 });
    let colliders = floor();
    let out = tick(&mut f, &neutral(), &colliders, &vec![]);
    assert_eq!(out.collision_normal, Some(Vec2 { x: 0, y: 1000 }));
    assert_eq!(f.state, FighterState::LandCrouch);
    assert!(out.transitioned);
}

#[test]
fn jump_press_reaches_jump_squat_through_the_pipeline() {
    let mut f = Fighter::new(PlayerId(0), Vec2 { x: 0, y: 0 }, LeftRight::Right);
    let colliders = floor();
    let press = InputSample {
        stick_x: 0,
        stick_y: 0,
        pressed: vec![Action::Jump],
        released: vec![],
    };
    let out = tick(&mut f, &press, &colliders, &vec![]);
    assert!(out.transitioned);
    assert_eq!(f.state, FighterState::JumpSquat);
}

#[test]
fn gravity_accumulates_while_airborne() {
    let mut f = Fighter::new(PlayerId(0), Vec2 { x: 0, y: 200_000 }, LeftRight::Right);
    f.state = FighterState::IdleAirborne;
    f.state_transition_properties =
        fighter_platformer::megaman::update_state_transition_rules(&FighterState::IdleAirborne);
    let colliders = floor();
    tick(&mut f, &neutral(), &colliders, &vec![]);
    assert_eq!(f.velocity.0.y, -300);
    tick(&mut f, &neutral(), &colliders, &vec![]);
    assert_eq!(f.velocity.0.y, -600);
    assert!(f.position.y < 200_000);
}

#[test]
fn attack_shoots_its_lemon_on_the_shoot_frame() {
    let spawn = shoot_lemon(
        &FighterState::Attack(0),
        &FrameCount(ATTACK_SHOOT_FRAME),
        &Facing(LeftRight::Right),
    )
    .expect("the shoot frame spawns a lemon");
    assert_eq!(spawn.velocity, Velocity(Vec2 { x: 10_000, y: 0 }));
    assert_eq!(spawn.lifetime, Lifetime(45));
    let spawn_left = shoot_lemon(
        &FighterState::Attack(1),
        &FrameCount(ATTACK_SHOOT_FRAME),
        &Facing(LeftRight::Left),
    )
    .unwrap();
    assert_eq!(spawn_left.velocity, Velocity(Vec2 { x: -10_000, y: 0 }));
    assert!(shoot_lemon(&FighterState::Attack(0), &FrameCount(6), &Facing(LeftRight::Right))
        .is_none());
    assert!(shoot_lemon(&FighterState::Idle, &FrameCount(ATTACK_SHOOT_FRAME), &Facing(LeftRight::Right))
        .is_none());
}

#[test]
fn held_actions_follow_presses_and_releases_through_the_pipeline() {
    let mut f = Fighter::new(PlayerId(0), Vec2 { x: 0, y: 0 }, LeftRight::Right);
    let colliders = floor();
    let press = InputSample {
        stick_x: 0,
        stick_y: 0,
        pressed: vec![Action::Jump],
        released: vec![],
    };
    tick(&mut f, &press, &colliders, &vec![]);
    assert!(f.control.held_actions.contains(Action::Jump));
    let release = InputSample {
        stick_x: 0,
        stick_y: 0,
        pressed: vec![],
        released: vec![Action::Jump],
    };
    tick(&mut f, &release, &colliders, &vec![]);
    assert!(!f.control.held_actions.contains(Action::Jump));
}

#[test]
fn lifetime_counts_down_to_despawn() {
    let mut l = Lifetime(3);
    assert!(!l.decrement());
    assert!(!l.decrement());
    assert!(l.decrement());
    assert_eq!(l.0, 0);
}

#[test]
fn sprite_scale_follows_facing() {
    assert_eq!(align_sprite_with_facing(&Facing(LeftRight::Right), 2000), 2000);
    assert_eq!(align_sprite_with_facing(&Facing(LeftRight::Left), 2000), -2000);
    assert_eq!(align_sprite_with_facing(&Facing(LeftRight::Left), -2000), -2000);
    assert_eq!(align_sprite_with_facing(&Facing(LeftRight::Right), -2000), 2000);
}

#[test]
fn intangibility_flash_blinks_with_a_six_tick_period() {
    assert!(intangibility_flash_bright(&0, true));
    assert!(intangibility_flash_bright(&2, true));
    assert!(!intangibility_flash_bright(&3, true));
    assert!(!intangibility_flash_bright(&5, true));
    assert!(intangibility_flash_bright(&6, true));
    assert!(!intangibility_flash_bright(&0, false));
}

#[test]
fn dash_interrupt_runs_inside_the_pipeline() {
    // A flick from neutral to the rim registers a smash gesture, which
    // outranks the walk and starts a dash on the same tick: the fighter
    // faces the flick and jolts to dash speed.
    let mut f = Fighter::new(PlayerId(0), Vec2 { x: 0, y: 0 }, LeftRight::Left);
    let colliders = floor();
    let out = tick(&mut f, &stick(1000, 0), &colliders, &vec![]);
    assert_eq!(out.new_state, FighterState::Dash);
    assert!(out.transitioned);
    assert_eq!(f.facing.0, LeftRight::Right);
    assert_eq!(f.velocity.0.x, 5000);
}
