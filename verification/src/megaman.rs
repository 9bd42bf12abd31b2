//! The one playable character: tuning constants, the staged attack combo,
//! its projectile, and its animation table.

use vstd::prelude::*;

use crate::fighter::FighterProperties;
use crate::fighter_state::{FighterState, FighterStateTransition, InterruptKind, StateEnd, IASA};
use crate::hitbox::{Hitbox, HitboxPurpose, KnockbackAngle, PlacedHitbox, Shape, Transform2};
use crate::math::Vec2;
use crate::physics::Velocity;
use crate::utils::{Facing, FrameCount, FrameNumber, LeftRight, Lifetime};
use crate::view::{AnimationIndices, AnimationUpdate};

verus! {

pub const ATTACK_DURATION: FrameNumber = 20;

/// The frame of an attack on which the projectile leaves the buster.
pub const ATTACK_SHOOT_FRAME: FrameNumber = 5;

/// The frame past which an attack accepts a buffered follow-up.
pub const ATTACK_IASA: FrameNumber = 10;

/// The combo caps at this stage; the final stage accepts no follow-up.
pub const MAX_ATTACK_STAGE: u8 = 2;

pub const MEGAMAN_TRACTION: i64 = 500;

pub const MEGAMAN_JUMP_SPEED: i64 = 10_000;

pub const MEGAMAN_DASH_SPEED: i64 = 5_000;

pub const MEGAMAN_WALK_SPEED: i64 = 3_000;

/// The character marker.
#[derive(Clone, Copy, Debug, PartialEq, Eq, Structural)]
pub struct MegaMan;

impl MegaMan {
    pub fn get_properties() -> (r: FighterProperties)
        ensures
            r == (FighterProperties {
                walk_speed: 3000,
                ground_friction: 300,
                gravity: -300i64,
                dash_duration: 10,
                land_crouch_duration: 6,
                jumpsquat_duration: 4,
            }),
    {
        FighterProperties {
            walk_speed: 3000,
            ground_friction: 300,
            gravity: -300,
            dash_duration: 10,
            land_crouch_duration: 6,
            jumpsquat_duration: 4,
        }
    }

    /// The character's passive body hitbox, in its local frame.
    pub fn spawn_body_hitboxes() -> (r: PlacedHitbox)
        ensures
            r == (PlacedHitbox {
                hitbox: Hitbox {
                    shape: Shape::Pill { major_radius: 6000, minor_radius: 15500 },
                    purpose: HitboxPurpose::Body,
                },
                transform: Transform2 {
                    translation: Vec2 { x: -1000i64, y: 20750 },
                    scale: Vec2 { x: 1000, y: 1000 },
                },
            }),
    {
        PlacedHitbox {
            hitbox: Hitbox {
                shape: Shape::Pill { major_radius: 6000, minor_radius: 15500 },
                purpose: HitboxPurpose::Body,
            },
            transform: Transform2 {
                translation: Vec2 { x: -1000, y: 20750 },
                scale: Vec2 { x: 1000, y: 1000 },
            },
        }
    }
}

/// The transition rule of an attack at the given stage: it runs out to
/// idle on a fixed frame, and below the last stage a buffered attack past
/// the IASA frame chains into the next stage.
pub open spec fn attack_transition_spec(stage: u8) -> FighterStateTransition {
    FighterStateTransition {
        end: StateEnd::OnFrame { frame: ATTACK_DURATION, next_state: FighterState::Idle },
        iasa: if stage < MAX_ATTACK_STAGE {
            Some(
                IASA {
                    frame: ATTACK_IASA,
                    kind: InterruptKind::Attack { next_stage: (stage + 1) as u8 },
                },
            )
        } else {
            None
        },
    }
}

pub fn get_attack_transition(stage: u8) -> (r: FighterStateTransition)
    ensures
        r == attack_transition_spec(stage),
{
    FighterStateTransition {
        end: StateEnd::OnFrame { frame: ATTACK_DURATION, next_state: FighterState::Idle },
        iasa: if stage < MAX_ATTACK_STAGE {
            Some(IASA { frame: ATTACK_IASA, kind: InterruptKind::Attack { next_stage: stage + 1 } })
        } else {
            None
        },
    }
}

/// The rule a fighter of this character carries in each state: attacks get
/// the staged combo rule (stages past the cap behave like the cap), every
/// other state keeps its default.
pub open spec fn rule_for_state_spec(state: FighterState) -> FighterStateTransition {
    match state {
        FighterState::Attack(stage) => attack_transition_spec(
            if stage > MAX_ATTACK_STAGE {
                MAX_ATTACK_STAGE
            } else {
                stage
            },
        ),
        _ => crate::fighter_state::default_for_state_spec(state),
    }
}

/// Recomputes the transition rule after a state change.
pub fn update_state_transition_rules(state: &FighterState) -> (r: FighterStateTransition)
    ensures
        r == rule_for_state_spec(*state),
{
    match state {
        FighterState::Attack(stage) => {
            let s = if *stage > MAX_ATTACK_STAGE {
                MAX_ATTACK_STAGE
            } else {
                *stage
            };
            get_attack_transition(s)
        },
        _ => FighterStateTransition::default_for_state(state),
    }
}

/// Projectile speed, in fixed-point steps per tick.
pub const LEMON_VELOCITY: i64 = 10_000;

/// How far a projectile travels before despawning.
pub const LEMON_DISTANCE: i64 = 450_000;

/// Where the projectile leaves the buster, in the character's local frame.
pub const LEMON_OFFSET_X: i64 = 20_000;

pub const LEMON_OFFSET_Y: i64 = 23_000;

/// Everything needed to spawn one projectile: its velocity, lifetime,
/// damage hitbox and the muzzle offset from the shooter's transform.
#[derive(Clone, Copy, Debug, PartialEq, Eq, Structural)]
pub struct LemonSpawn {
    pub velocity: Velocity,
    pub lifetime: Lifetime,
    pub hitbox: Hitbox,
    pub offset: Vec2,
}

/// The spec-level mirror of `shoot_lemon`: a lemon leaves on one fixed
/// frame of any attack stage, flying the way the shooter faces, and lives
/// for the ticks its range allows.
pub open spec fn lemon_spawn_spec(state: FighterState, frame: FrameNumber, facing: LeftRight)
    -> Option<LemonSpawn> {
    if state matches FighterState::Attack(_) && frame == ATTACK_SHOOT_FRAME {
        Some(
            LemonSpawn {
                velocity: Velocity(
                    Vec2 {
                        x: (facing.sign_spec() * LEMON_VELOCITY) as i64,
                        y: 0,
                    },
                ),
                lifetime: Lifetime((LEMON_DISTANCE / LEMON_VELOCITY) as FrameNumber),
                hitbox: Hitbox {
                    shape: Shape::Circle(5000),
                    purpose: HitboxPurpose::Damage {
                        percent: 3000,
                        base_knockback: 100,
                        scale_knockback: 5000,
                        angle: KnockbackAngle::Fixed(45_000),
                    },
                },
                offset: Vec2 { x: LEMON_OFFSET_X, y: LEMON_OFFSET_Y },
            },
        )
    } else {
        None
    }
}

/// Decides whether this tick spawns the attack's projectile.
pub fn shoot_lemon(state: &FighterState, frame: &FrameCount, facing: &Facing) -> (r: Option<
    LemonSpawn,
>)
    ensures
        r == lemon_spawn_spec(*state, frame.0, facing.0),
{
    match state {
        FighterState::Attack(..) => {},
        _ => {
            return None;
        },
    }
    if frame.0 != ATTACK_SHOOT_FRAME {
        return None;
    }
    let vx = match facing.0 {
        LeftRight::Left => -LEMON_VELOCITY,
        LeftRight::Right => LEMON_VELOCITY,
    };
    proof {
        assert(vx == facing.0.sign_spec() * LEMON_VELOCITY) by (nonlinear_arith)
            requires
                (facing.0.sign_spec() == -1 && vx == -LEMON_VELOCITY) || (facing.0.sign_spec() == 1
                    && vx == LEMON_VELOCITY),
        ;
    }
    Some(
        LemonSpawn {
            velocity: Velocity(Vec2 { x: vx, y: 0 }),
            lifetime: Lifetime((LEMON_DISTANCE / LEMON_VELOCITY) as FrameNumber),
            hitbox: Hitbox {
                shape: Shape::Circle(5000),
                purpose: HitboxPurpose::Damage {
                    percent: 3000,
                    base_knockback: 100,
                    scale_knockback: 5000,
                    angle: KnockbackAngle::Fixed(45_000),
                },
            },
            offset: Vec2 { x: LEMON_OFFSET_X, y: LEMON_OFFSET_Y },
        },
    )
}

/// The fixed animation each state plays, where one exists.
pub open spec fn animation_for_state_spec(state: FighterState) -> Option<AnimationUpdate> {
    match state {
        FighterState::Idle => Some(AnimationUpdate::SingleFrame(0)),
        FighterState::JumpSquat | FighterState::LandCrouch | FighterState::EnterCrouch
            | FighterState::ExitCrouch => Some(AnimationUpdate::SingleFrame(133)),
        FighterState::Crouch => Some(AnimationUpdate::SingleFrame(134)),
        FighterState::Walk => Some(
            AnimationUpdate::MultiFrame {
                indices: AnimationIndices { first: 5, last: 14 },
                millis_per_frame: 100,
            },
        ),
        FighterState::Airdodge(_) => Some(AnimationUpdate::SingleFrame(33)),
        FighterState::Dash => Some(AnimationUpdate::SingleFrame(24)),
        FighterState::Turnaround => Some(AnimationUpdate::SingleFrame(74)),
        FighterState::RunTurnaround => Some(AnimationUpdate::SingleFrame(30)),
        FighterState::Run => Some(
            AnimationUpdate::MultiFrame {
                indices: AnimationIndices { first: 5, last: 14 },
                millis_per_frame: 100,
            },
        ),
        FighterState::Attack(_) => Some(AnimationUpdate::SingleFrame(43)),
        _ => None,
    }
}

pub fn animation_for_state(state: &FighterState) -> (r: Option<AnimationUpdate>)
    ensures
        r == animation_for_state_spec(*state),
{
    match state {
        FighterState::Idle => Some(AnimationUpdate::SingleFrame(0)),
        FighterState::JumpSquat | FighterState::LandCrouch | FighterState::EnterCrouch
            | FighterState::ExitCrouch => Some(AnimationUpdate::SingleFrame(133)),
        FighterState::Crouch => Some(AnimationUpdate::SingleFrame(134)),
        FighterState::Walk => Some(
            AnimationUpdate::MultiFrame {
                indices: AnimationIndices { first: 5, last: 14 },
                millis_per_frame: 100,
            },
        ),
        FighterState::Airdodge(..) => Some(AnimationUpdate::SingleFrame(33)),
        FighterState::Dash => Some(AnimationUpdate::SingleFrame(24)),
        FighterState::Turnaround => Some(AnimationUpdate::SingleFrame(74)),
        FighterState::RunTurnaround => Some(AnimationUpdate::SingleFrame(30)),
        FighterState::Run => Some(
            AnimationUpdate::MultiFrame {
                indices: AnimationIndices { first: 5, last: 14 },
                millis_per_frame: 100,
            },
        ),
        FighterState::Attack(..) => Some(AnimationUpdate::SingleFrame(43)),
        _ => None,
    }
}

/// The spec-level mirror of `emit_animation_update`: states with a fixed
/// animation use it; idling long enough blinks and then requests a state
/// reset; airborne frames follow the vertical speed.
pub open spec fn animation_update_spec(state: FighterState, frame: FrameNumber, velocity: Vec2)
    -> (Option<AnimationUpdate>, Option<FighterState>) {
    match animation_for_state_spec(state) {
        Some(update) => (Some(update), None),
        None => match state {
            FighterState::Idle => if frame == 200 {
                (
                    Some(
                        AnimationUpdate::MultiFrame {
                            indices: AnimationIndices { first: 0, last: 2 },
                            millis_per_frame: 100,
                        },
                    ),
                    None,
                )
            } else if frame == 240 {
                (None, Some(FighterState::Idle))
            } else {
                (None, None)
            },
            FighterState::IdleAirborne => if velocity.y > 1500 {
                (Some(AnimationUpdate::SingleFrame(18)), None)
            } else if velocity.y > -1500 {
                (Some(AnimationUpdate::SingleFrame(19)), None)
            } else {
                (
                    Some(
                        AnimationUpdate::MultiFrame {
                            indices: AnimationIndices { first: 20, last: 21 },
                            millis_per_frame: 150,
                        },
                    ),
                    None,
                )
            },
            _ => (None, None),
        },
    }
}

/// Picks this tick's animation update, and possibly a state reset that
/// restarts the idle blink cycle; the caller applies the reset as a forced
/// state update.
pub fn emit_animation_update(state: &FighterState, frame: &FrameCount, velocity: &Velocity) -> (r: (
    Option<AnimationUpdate>,
    Option<FighterState>,
))
    ensures
        r == animation_update_spec(*state, frame.0, velocity.0),
{
    if let Some(update) = animation_for_state(state) {
        return (Some(update), None);
    }
    match state {
        FighterState::Idle => {
            if frame.0 == 200 {
                (
                    Some(
                        AnimationUpdate::MultiFrame {
                            indices: AnimationIndices { first: 0, last: 2 },
                            millis_per_frame: 100,
                        },
                    ),
                    None,
                )
            } else if frame.0 == 240 {
                (None, Some(FighterState::Idle))
            } else {
                (None, None)
            }
        },
        FighterState::IdleAirborne => {
            if velocity.0.y > 1500 {
                (Some(AnimationUpdate::SingleFrame(18)), None)
            } else if velocity.0.y > -1500 {
                (Some(AnimationUpdate::SingleFrame(19)), None)
            } else {
                (
                    Some(
                        AnimationUpdate::MultiFrame {
                            indices: AnimationIndices { first: 20, last: 21 },
                            millis_per_frame: 150,
                        },
                    ),
                    None,
                )
            }
        },
        _ => (None, None),
    }
}

} // verus!
