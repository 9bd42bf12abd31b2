//! Per-fighter systems: state-conditioned velocity updates, turnaround
//! facing flips, landing and airborne reactions, intangibility, and the
//! damage/knockback resolver.

use vstd::prelude::*;

use crate::fighter_state::{
    FighterState, AIRDODGE_DURATION_FRAMES, AIRDODGE_INITIAL_SPEED, DEFAULT_JUMP_SQUAT_DURATION,
    RUN_TURNAROUND_DURATION_FRAMES, TURNAROUND_DURATION_FRAMES,
};
use crate::hitbox::{HitboxCollision, HitboxPurpose, KnockbackAngle, Transform2, SCALE_LIMIT};
use crate::input::{Action, Control};
use crate::math::{
    absi, cos_mdeg, cos_mdeg_spec, mul_div_signed, muldiv_trunc, sin_mdeg, sin_mdeg_spec, Vec2,
    FULL_TURN_MDEG, QUARTER_TURN_MDEG, UNIT,
};
use crate::physics::{Gravity, Velocity, SPEED_LIMIT};
use crate::utils::{cardinal_of, Directed, Facing, FrameCount, FrameNumber, LeftRight};

verus! {

/// A fighter's slot in the match.
#[derive(Clone, Copy, Debug, PartialEq, Eq, Structural)]
pub struct PlayerId(pub usize);

/// Stick depth below which holding down enters a crouch, re-exported where
/// the tuning tables live.
pub const CROUCH_THRESHOLD: i64 = crate::fighter_state::CROUCH_THRESHOLD;

/// sqrt(1/2) in fixed-point steps: the short-hop fraction of full jump
/// speed.
pub const SHORT_HOP_FACTOR: i64 = 707;

/// Per-character tuning constants.
#[derive(Clone, Copy, Debug, PartialEq, Eq, Structural)]
pub struct FighterProperties {
    pub walk_speed: i64,
    pub ground_friction: i64,
    pub gravity: i64,
    pub dash_duration: FrameNumber,
    pub land_crouch_duration: FrameNumber,
    pub jumpsquat_duration: FrameNumber,
}

impl Default for FighterProperties {
    fn default() -> (r: Self)
        ensures
            r == (FighterProperties {
                walk_speed: 3000,
                ground_friction: 300,
                gravity: -300i64,
                dash_duration: 10,
                land_crouch_duration: 6,
                jumpsquat_duration: 5,
            }),
    {
        FighterProperties {
            walk_speed: 3000,
            ground_friction: 300,
            gravity: -300,
            dash_duration: 10,
            land_crouch_duration: 6,
            jumpsquat_duration: 5,
        }
    }
}

/// Full-hop launch speed, in fixed-point steps per tick.
#[derive(Clone, Copy, Debug, PartialEq, Eq, Structural)]
pub struct JumpSpeed(pub i64);

/// Ground speed a dash starts at.
#[derive(Clone, Copy, Debug, PartialEq, Eq, Structural)]
pub struct DashSpeed(pub i64);

/// Top running speed.
#[derive(Clone, Copy, Debug, PartialEq, Eq, Structural)]
pub struct RunSpeed(pub i64);

/// Top walking speed.
#[derive(Clone, Copy, Debug, PartialEq, Eq, Structural)]
pub struct WalkSpeed(pub i64);

/// Ground acceleration, and deceleration toward rest.
#[derive(Clone, Copy, Debug, PartialEq, Eq, Structural)]
pub struct Traction(pub i64);

/// Whether the fighter currently cannot be hit; derived each tick from
/// state and frame, never stored authoritatively.
#[derive(Clone, Copy, Debug, PartialEq, Eq, Structural)]
pub struct Intangible(pub bool);

/// Accumulated damage, in milli-percent.
#[derive(Clone, Copy, Debug, PartialEq, Eq, Structural)]
pub struct Percent(pub i64);

impl Default for Percent {
    fn default() -> (r: Self)
        ensures
            r == Percent(0),
    {
        Percent(0)
    }
}

/// The digits a damage display shows: whole percent and one tenth,
/// rounded to the nearest tenth (halves round up), ready for a HUD to
/// render as "whole.tenth%".
pub fn update_damage_display(percent: &Percent) -> (r: (u64, u64))
    requires
        0 <= percent.0,
    ensures
        r.0 == (percent.0 + 50) as int / 100 / 10,
        r.1 == ((percent.0 + 50) as int / 100) % 10,
        r.1 < 10,
{
    let tenths = ((percent.0 as u64) + 50) / 100;
    let whole = tenths / 10;
    let tenth = tenths % 10;
    (whole, tenth)
}

/// Knockback divisor, in thousandths (1000 is unit weight).
#[derive(Clone, Copy, Debug, PartialEq, Eq, Structural)]
pub struct Weight(pub i64);

impl Default for Weight {
    fn default() -> (r: Self)
        ensures
            r == Weight(1000),
    {
        Weight(1000)
    }
}

/// Ceiling on accumulated damage, in milli-percent (10,000%).
pub const PERCENT_LIMIT: i64 = 10_000_000;

/// Floor and ceiling on a fighter's weight.
pub const WEIGHT_MIN: i64 = 100;

pub const WEIGHT_MAX: i64 = 10_000_000;

/// Ceiling on a hitbox's damage and knockback figures.
pub const KNOCKBACK_LIMIT: i64 = 10_000_000;

/// Forces a state change, past any interrupt window: the new state is
/// adopted, the frame-in-state counter restarts at zero, and — as with
/// every transition — the target state's buffer clearing policy applies.
pub fn update_fighter_state(
    state: &mut FighterState,
    frame: &mut FrameCount,
    control: &mut Control,
    new_state: FighterState,
)
    requires
        old(control).wf(),
    ensures
        *final(state) == new_state,
        final(frame).0 == 0,
        final(control).wf(),
        *final(control) == crate::fighter_state::cleared_buffers(*old(control), new_state),
{
    *state = new_state;
    frame.0 = 0;
    crate::fighter_state::clear_buffers_for(control, &new_state);
}

/// The spec-level mirror of `apply_jump_speed`: on the last jump-squat
/// frame the fighter leaves the ground, at full speed while the jump is
/// still held, at sqrt(1/2) of it for a short hop.
pub open spec fn jump_speed_delta(
    state: FighterState,
    frame: FrameNumber,
    jump_speed: int,
    control: Control,
) -> int {
    if state == FighterState::JumpSquat && frame == DEFAULT_JUMP_SQUAT_DURATION {
        if control.held_actions.contains_spec(Action::Jump) {
            jump_speed
        } else {
            muldiv_trunc(jump_speed, SHORT_HOP_FACTOR as int, UNIT as int)
        }
    } else {
        0
    }
}

/// Launches the jump at the end of the jump squat.
pub fn apply_jump_speed(
    v: &mut Velocity,
    state: &FighterState,
    frame: &FrameCount,
    jump_speed: &JumpSpeed,
    control: &Control,
)
    requires
        0 <= jump_speed.0 <= SPEED_LIMIT,
        old(v).0.bounded(8 * SPEED_LIMIT as int),
    ensures
        final(v).0.y == old(v).0.y + jump_speed_delta(*state, frame.0, jump_speed.0 as int, *control),
        final(v).0.x == old(v).0.x,
        0 <= jump_speed_delta(*state, frame.0, jump_speed.0 as int, *control) <= jump_speed.0,
{
    if !(*state == FighterState::JumpSquat && frame.0 == DEFAULT_JUMP_SQUAT_DURATION) {
        return ;
    }
    let dv = if control.held_actions.contains(Action::Jump) {
        jump_speed.0
    } else {
        proof {
            assert(absi(jump_speed.0 as int) * (SHORT_HOP_FACTOR as u64) <= i64::MAX)
                by (nonlinear_arith)
                requires
                    0 <= jump_speed.0 <= SPEED_LIMIT,
                    SPEED_LIMIT == 1_000_000 && SHORT_HOP_FACTOR == 707,
            ;
            crate::math::lemma_muldiv_le(
                SHORT_HOP_FACTOR as int,
                jump_speed.0 as int,
                UNIT as int,
            );
            assert(absi(jump_speed.0 as int) * (SHORT_HOP_FACTOR as int) == (
            SHORT_HOP_FACTOR as int) * jump_speed.0) by (nonlinear_arith)
                requires
                    jump_speed.0 >= 0,
            ;
        }
        mul_div_signed(jump_speed.0, SHORT_HOP_FACTOR as u64, UNIT as u64)
    };
    v.0.y = v.0.y + dv;
}

/// The spec-level mirror of `set_airdodge_speed`: a dodge glides along its
/// fixed direction and stops dead one frame before it ends.
pub open spec fn airdodge_velocity(state: FighterState, frame: FrameNumber) -> Option<Vec2> {
    match state {
        FighterState::Airdodge(direction) => if frame == AIRDODGE_DURATION_FRAMES - 1 {
            Some(Vec2 { x: 0, y: 0 })
        } else {
            Some(
                Vec2 {
                    x: (direction.x * (AIRDODGE_INITIAL_SPEED / UNIT) as int) as i64,
                    y: (direction.y * (AIRDODGE_INITIAL_SPEED / UNIT) as int) as i64,
                },
            )
        },
        _ => None,
    }
}

/// Sets the airdodge glide velocity, or none when not dodging.
pub fn set_airdodge_speed(state: &FighterState, frame: &FrameCount, v: &mut Velocity)
    requires
        state matches FighterState::Airdodge(d) ==> d.bounded(UNIT as int),
    ensures
        match airdodge_velocity(*state, frame.0) {
            Some(nv) => final(v).0 == nv,
            None => *final(v) == *old(v),
        },
{
    if let FighterState::Airdodge(direction) = state {
        if frame.0 == AIRDODGE_DURATION_FRAMES - 1 {
            v.0 = Vec2 { x: 0, y: 0 };
        } else {
            let scale = AIRDODGE_INITIAL_SPEED / (UNIT as i64);
            v.0 = Vec2 { x: direction.x * scale, y: direction.y * scale };
        }
    }
}

/// The spec-level mirror of `set_dash_speed`: on a dash's first frame the
/// fighter faces the stick's sideways direction and jolts to dash speed.
pub open spec fn dash_start(
    state: FighterState,
    frame: FrameNumber,
    control: Control,
    dash_speed: int,
) -> Option<(LeftRight, int)> {
    if state == FighterState::Dash && frame == 0 {
        match cardinal_of(control.stick) {
            Some(direction) => match direction.horizontal_spec() {
                Some(side) => Some(
                    (
                        side,
                        if side == LeftRight::Left {
                            -dash_speed
                        } else {
                            dash_speed
                        },
                    ),
                ),
                None => None,
            },
            None => None,
        }
    } else {
        None
    }
}

/// Turns and jolts the fighter on the first frame of a dash.
pub fn set_dash_speed(
    state: &FighterState,
    frame: &FrameCount,
    facing: &mut Facing,
    v: &mut Velocity,
    dash_speed: &DashSpeed,
    control: &Control,
)
    requires
        0 <= dash_speed.0 <= SPEED_LIMIT,
    ensures
        match dash_start(*state, frame.0, *control, dash_speed.0 as int) {
            Some(sv) => final(facing).0 == sv.0 && final(v).0.x == sv.1 && final(v).0.y == old(
                v,
            ).0.y,
            None => *final(facing) == *old(facing) && *final(v) == *old(v),
        },
{
    if !(*state == FighterState::Dash && frame.0 == 0) {
        return ;
    }
    let cardinal_direction = control.stick.get_cardinal_direction();
    let Some(direction) = cardinal_direction else {
        return ;
    };
    let horizontal = direction.horizontal();
    let Some(side) = horizontal else {
        return ;
    };
    facing.0 = side;
    v.0.x = signed_speed(side, dash_speed.0);
}

/// A speed with the sign of a side.
fn signed_speed(side: LeftRight, speed: i64) -> (r: i64)
    requires
        0 <= speed,
    ensures
        r == side.sign_spec() * speed,
{
    match side {
        LeftRight::Left => {
            proof {
                assert(side.sign_spec() * speed == -speed) by (nonlinear_arith)
                    requires
                        side.sign_spec() == -1,
                ;
            }
            -speed
        },
        LeftRight::Right => {
            proof {
                assert(side.sign_spec() * speed == speed) by (nonlinear_arith)
                    requires
                        side.sign_spec() == 1,
                ;
            }
            speed
        },
    }
}

/// One tick of acceleration of `vx` toward `target`, clamped by
/// `traction` so it never overshoots.
pub open spec fn toward_spec(vx: int, target: int, traction: int) -> int {
    if absi(vx - target) <= traction {
        target
    } else if vx < target {
        vx + traction
    } else {
        vx - traction
    }
}

/// The spec-level mirror of `accelerate_to_run_speed` and its walking
/// sibling: the stick's sideways direction picks the sign of the target
/// speed.
pub open spec fn ground_target_speed(control: Control, top_speed: int) -> Option<int> {
    match cardinal_of(control.stick) {
        Some(direction) => match direction.horizontal_spec() {
            Some(side) => Some(
                if side == LeftRight::Left {
                    -top_speed
                } else {
                    top_speed
                },
            ),
            None => None,
        },
        None => None,
    }
}

/// Accelerates a running fighter toward its top speed; a stick with no
/// sideways component winds the run down instead.
pub fn accelerate_to_run_speed(
    state: &mut FighterState,
    v: &mut Velocity,
    speed: &RunSpeed,
    traction: &Traction,
    control: &Control,
)
    requires
        0 <= speed.0 <= SPEED_LIMIT,
        0 <= traction.0 <= SPEED_LIMIT,
        old(v).0.bounded(8 * SPEED_LIMIT as int),
    ensures
        if *old(state) == FighterState::Run {
            match ground_target_speed(*control, speed.0 as int) {
                Some(target) => *final(state) == *old(state) && final(v).0.x == toward_spec(
                    old(v).0.x as int,
                    target,
                    traction.0 as int,
                ) && final(v).0.y == old(v).0.y,
                None => *final(state) == FighterState::RunEnd && *final(v) == *old(v),
            }
        } else {
            *final(state) == *old(state) && *final(v) == *old(v)
        },
{
    if *state != FighterState::Run {
        return ;
    }
    let cardinal_direction = control.stick.get_cardinal_direction();
    let Some(direction) = cardinal_direction else {
        *state = FighterState::RunEnd;
        return ;
    };
    let Some(side) = direction.horizontal() else {
        *state = FighterState::RunEnd;
        return ;
    };
    let target_vx = signed_speed(side, speed.0);
    accelerate_velocity_x(v, target_vx, traction.0);
}

/// Accelerates a walking fighter toward its walking speed; with no
/// sideways stick the velocity is left alone (the transition applier
/// leaves such a walk the same tick).
pub fn accelerate_to_walk_speed(
    state: &FighterState,
    v: &mut Velocity,
    speed: &WalkSpeed,
    traction: &Traction,
    control: &Control,
)
    requires
        0 <= speed.0 <= SPEED_LIMIT,
        0 <= traction.0 <= SPEED_LIMIT,
        old(v).0.bounded(8 * SPEED_LIMIT as int),
    ensures
        if *state == FighterState::Walk {
            match ground_target_speed(*control, speed.0 as int) {
                Some(target) => final(v).0.x == toward_spec(
                    old(v).0.x as int,
                    target,
                    traction.0 as int,
                ) && final(v).0.y == old(v).0.y,
                None => *final(v) == *old(v),
            }
        } else {
            *final(v) == *old(v)
        },
{
    if *state != FighterState::Walk {
        return ;
    }
    let cardinal_direction = control.stick.get_cardinal_direction();
    let Some(direction) = cardinal_direction else {
        return ;
    };
    let Some(side) = direction.horizontal() else {
        return ;
    };
    let target_vx = signed_speed(side, speed.0);
    accelerate_velocity_x(v, target_vx, traction.0);
}

/// Moves the horizontal velocity one traction step toward a target.
fn accelerate_velocity_x(v: &mut Velocity, target_vx: i64, traction: i64)
    requires
        old(v).0.bounded(8 * SPEED_LIMIT as int),
        -SPEED_LIMIT <= target_vx <= SPEED_LIMIT,
        0 <= traction <= SPEED_LIMIT,
    ensures
        final(v).0.x == toward_spec(old(v).0.x as int, target_vx as int, traction as int),
        final(v).0.y == old(v).0.y,
{
    let diff = v.0.x - target_vx;
    let adiff = crate::math::abs64(diff);
    if adiff <= traction as u64 {
        v.0.x = target_vx;
    } else if v.0.x < target_vx {
        v.0.x = v.0.x + traction;
    } else {
        v.0.x = v.0.x - traction;
    }
}

/// Drags a grounded fighter's horizontal velocity toward rest, unless its
/// state's own acceleration logic owns the horizontal axis.
pub fn apply_traction(v: &mut Velocity, traction: &Traction, state: &FighterState, airborne: bool)
    requires
        0 <= traction.0 <= SPEED_LIMIT,
        old(v).0.bounded(8 * SPEED_LIMIT as int),
    ensures
        if !airborne && !state.is_exempt_from_normal_traction_spec() {
            final(v).0.x == toward_spec(old(v).0.x as int, 0, traction.0 as int) && final(v).0.y
                == old(v).0.y
        } else {
            *final(v) == *old(v)
        },
{
    if airborne {
        return ;
    }
    if state.is_exempt_from_normal_traction() {
        return ;
    }
    accelerate_velocity_x(v, 0, traction.0);
}

/// Whether this state and frame flip the facing: exactly the midpoint
/// frame of either turnaround, and never anything else.
pub open spec fn turnaround_flips(state: FighterState, frame: FrameNumber) -> bool {
    match state {
        FighterState::Turnaround => frame == TURNAROUND_DURATION_FRAMES / 2,
        FighterState::RunTurnaround => frame == RUN_TURNAROUND_DURATION_FRAMES / 2,
        _ => false,
    }
}

/// Flips the facing at the midpoint of a grounded turnaround.
pub fn apply_turnaround(facing: &mut Facing, state: &FighterState, frame: &FrameCount, airborne: bool)
    ensures
        final(facing).0 == if !airborne && turnaround_flips(*state, frame.0) {
            old(facing).0.flip_spec()
        } else {
            old(facing).0
        },
{
    if airborne {
        return ;
    }
    let should_flip = match state {
        FighterState::Turnaround => frame.0 == TURNAROUND_DURATION_FRAMES / 2,
        FighterState::RunTurnaround => frame.0 == RUN_TURNAROUND_DURATION_FRAMES / 2,
        _ => false,
    };
    if should_flip {
        facing.0 = facing.0.flip();
    }
}

/// Law: a turnaround flips the facing at exactly its midpoint frame, never
/// earlier or later, and no other state ever flips it. The decision reads
/// nothing but the state and the frame counter, so no input can move it.
pub proof fn lemma_turnaround_flips_at_midpoint(state: FighterState, frame: FrameNumber)
    ensures
        state == FighterState::Turnaround ==> (turnaround_flips(state, frame) <==> frame
            == TURNAROUND_DURATION_FRAMES / 2),
        state == FighterState::RunTurnaround ==> (turnaround_flips(state, frame) <==> frame
            == RUN_TURNAROUND_DURATION_FRAMES / 2),
        state != FighterState::Turnaround && state != FighterState::RunTurnaround
            ==> !turnaround_flips(state, frame),
{
}

/// A landing normal may lean sideways by at most one part in this many:
/// anything steeper is a wall, not a floor.
pub const FLOOR_SLOPE_DIVISOR: i64 = 5;

/// Whether a collision normal is floor-like: it points upward and its
/// slope magnitude stays below the small tunable threshold.
pub open spec fn floor_like(normal: Vec2) -> bool {
    normal.y > 0 && absi(normal.x as int) * (FLOOR_SLOPE_DIVISOR as int) <= normal.y
}

/// The landing reaction: a floor-like collision (a near-vertical normal)
/// lands an airborne or dodging fighter into a landing crouch.
pub open spec fn landing_state(state: FighterState, normal: Vec2) -> Option<FighterState> {
    if !floor_like(normal) {
        None
    } else {
        match state {
            FighterState::Airdodge(_) | FighterState::IdleAirborne => Some(
                FighterState::LandCrouch,
            ),
            _ => None,
        }
    }
}

/// What a collision this tick does to the state.
pub fn land(state: &FighterState, normal: Vec2) -> (r: Option<FighterState>)
    requires
        normal.bounded(2 * crate::math::COORD_LIMIT as int),
    ensures
        r == landing_state(*state, normal),
{
    proof {
        assert(absi(normal.x as int) * (FLOOR_SLOPE_DIVISOR as int) <= i64::MAX)
            by (nonlinear_arith)
            requires
                -2 * crate::math::COORD_LIMIT <= normal.x <= 2 * crate::math::COORD_LIMIT,
                FLOOR_SLOPE_DIVISOR == 5,
                crate::math::COORD_LIMIT == 1_000_000_000,
        ;
    }
    let leaning = (crate::math::abs64(normal.x) as i64) * FLOOR_SLOPE_DIVISOR;
    if normal.y <= 0 || leaning > normal.y {
        return None;
    }
    match state {
        FighterState::Airdodge(..) | FighterState::IdleAirborne => Some(FighterState::LandCrouch),
        _ => None,
    }
}

/// The airborne reaction: a grounded state with no supporting collision
/// this tick falls, unconditionally and past any interrupt window.
pub open spec fn airborne_state(state: FighterState, airborne: bool) -> Option<FighterState> {
    if airborne && state.is_grounded_spec() {
        Some(FighterState::IdleAirborne)
    } else {
        None
    }
}

/// What losing ground support does to the state; the pipeline applies the
/// result directly, bypassing the state's own transition rule.
pub fn go_airborne(state: &FighterState, airborne: bool) -> (r: Option<FighterState>)
    ensures
        r == airborne_state(*state, airborne),
        airborne && state.is_grounded_spec() ==> r == Some(FighterState::IdleAirborne),
{
    if airborne && state.is_grounded() {
        Some(FighterState::IdleAirborne)
    } else {
        None
    }
}

/// Recomputes the derived intangibility flag from state and frame.
pub fn update_intangibility(state: &FighterState, frame: &FrameCount) -> (r: Intangible)
    ensures
        r.0 == state.is_intangible_spec(frame.0),
{
    Intangible(state.is_intangible(&frame.0))
}

/// State-conditioned gravity: every state falls at the character's
/// gravity except the airdodge, which is exempt.
pub fn update_gravity(state: &FighterState, properties: &FighterProperties) -> (r: Option<Gravity>)
    ensures
        r == if state.is_affected_by_gravity_spec() {
            Some(Gravity(properties.gravity))
        } else {
            None::<Gravity>
        },
{
    if state.is_affected_by_gravity() {
        Some(Gravity(properties.gravity))
    } else {
        None
    }
}

/// Launch speed of a knockback hit: `(1 / weight) * (base + scale *
/// percent / 100)`, in fixed-point steps (percent is in milli-percent, so
/// the divisor is 100,000; the weight divisor carries its own thousandths).
pub open spec fn launch_speed_spec(base: int, scale: int, weight: int, percent: int) -> int {
    (base + scale * percent / 100_000) * (UNIT as int) / weight
}

/// Law: for fixed base and scaling knockback and fixed weight, launch
/// speed grows monotonically with accumulated damage.
pub proof fn lemma_launch_speed_monotonic(
    base: int,
    scale: int,
    weight: int,
    p1: int,
    p2: int,
)
    requires
        0 <= base,
        0 <= scale,
        0 < weight,
        0 <= p1 <= p2,
    ensures
        launch_speed_spec(base, scale, weight, p1) <= launch_speed_spec(base, scale, weight, p2),
{
    assert(scale * p1 <= scale * p2) by (nonlinear_arith)
        requires
            0 <= scale,
            p1 <= p2,
    ;
    vstd::arithmetic::div_mod::lemma_div_is_ordered(scale * p1, scale * p2, 100_000);
    let i1 = base + scale * p1 / 100_000;
    let i2 = base + scale * p2 / 100_000;
    assert(i1 * (UNIT as int) <= i2 * (UNIT as int)) by (nonlinear_arith)
        requires
            i1 <= i2,
            UNIT == 1000,
    ;
    vstd::arithmetic::div_mod::lemma_div_is_ordered(
        i1 * (UNIT as int),
        i2 * (UNIT as int),
        weight,
    );
}

/// The knockback launch velocity: the hitbox's fixed clockwise-from-vertical
/// angle converted to standard form (a quarter turn minus it), taken to a
/// unit vector, scaled by launch speed and by the attacking transform's
/// scale.
pub open spec fn launch_velocity_spec(angle_mdeg: int, speed: int, scale: Vec2) -> Vec2 {
    let standard = if QUARTER_TURN_MDEG - angle_mdeg < 0 {
        QUARTER_TURN_MDEG - angle_mdeg + FULL_TURN_MDEG
    } else {
        QUARTER_TURN_MDEG - angle_mdeg
    };
    let ux = cos_mdeg_spec(standard);
    let uy = sin_mdeg_spec(standard);
    Vec2 {
        x: (crate::math::sgni(scale.x as int) * muldiv_trunc(
            ux * speed,
            absi(scale.x as int),
            (UNIT as int) * (UNIT as int),
        )) as i64,
        y: (crate::math::sgni(scale.y as int) * muldiv_trunc(
            uy * speed,
            absi(scale.y as int),
            (UNIT as int) * (UNIT as int),
        )) as i64,
    }
}

/// What a damage hit does: how much damage it adds (saturating at the
/// ceiling) and the velocity it launches the target at.
pub open spec fn damage_outcome(percent: int, weight: int, hit: HitboxCollision) -> Option<
    (int, Vec2),
> {
    match hit.other_hitbox.purpose {
        HitboxPurpose::Body => None,
        HitboxPurpose::Damage { percent: dmg, base_knockback, scale_knockback, angle } => {
            let new_percent = if percent + dmg > PERCENT_LIMIT {
                PERCENT_LIMIT as int
            } else {
                percent + dmg
            };
            let speed = launch_speed_spec(
                base_knockback as int,
                scale_knockback as int,
                weight,
                new_percent,
            );
            match angle {
                KnockbackAngle::Fixed(theta) => Some(
                    (new_percent, launch_velocity_spec(theta as int, speed, hit.other_transform.scale)),
                ),
            }
        },
    }
}

/// Whether a hitbox's damage figures are within the resolver's bounds.
pub open spec fn damage_figures_wf(h: HitboxPurpose) -> bool {
    match h {
        HitboxPurpose::Body => true,
        HitboxPurpose::Damage { percent, base_knockback, scale_knockback, angle } => {
            &&& 0 <= percent <= KNOCKBACK_LIMIT
            &&& 0 <= base_knockback <= KNOCKBACK_LIMIT
            &&& 0 <= scale_knockback <= KNOCKBACK_LIMIT
            &&& angle matches KnockbackAngle::Fixed(theta) && 0 <= theta <= FULL_TURN_MDEG
        },
    }
}

/// Resolves one damage event: adds the hit's percent to the target's
/// accumulated damage (saturating at the ceiling) and returns the launch
/// velocity to hand to the physics integrator; a body-purpose hitbox does
/// nothing.
pub fn take_damage_from_hitbox_collision(
    fighter_percent: &mut Percent,
    weight: &Weight,
    hit: &HitboxCollision,
) -> (launch: Option<Vec2>)
    requires
        0 <= old(fighter_percent).0 <= PERCENT_LIMIT,
        WEIGHT_MIN <= weight.0 <= WEIGHT_MAX,
        damage_figures_wf(hit.other_hitbox.purpose),
        -SCALE_LIMIT <= hit.other_transform.scale.x <= SCALE_LIMIT,
        -SCALE_LIMIT <= hit.other_transform.scale.y <= SCALE_LIMIT,
    ensures
        match damage_outcome(old(fighter_percent).0 as int, weight.0 as int, *hit) {
            None => *final(fighter_percent) == *old(fighter_percent) && launch is None,
            Some(out) => final(fighter_percent).0 == out.0 && launch == Some(out.1),
        },
        0 <= final(fighter_percent).0 <= PERCENT_LIMIT,
{
    let HitboxPurpose::Damage { percent, base_knockback, scale_knockback, angle } = hit
        .other_hitbox
        .purpose else {
        return None;
    };
    let new_percent = if fighter_percent.0 + percent > PERCENT_LIMIT {
        PERCENT_LIMIT
    } else {
        fighter_percent.0 + percent
    };
    fighter_percent.0 = new_percent;
    let speed = launch_speed(base_knockback, scale_knockback, weight.0, new_percent);
    let KnockbackAngle::Fixed(theta) = angle;
    let standard = if QUARTER_TURN_MDEG - theta < 0 {
        QUARTER_TURN_MDEG - theta + FULL_TURN_MDEG
    } else {
        QUARTER_TURN_MDEG - theta
    };
    let ux = cos_mdeg(standard);
    let uy = sin_mdeg(standard);
    proof {
        lemma_launch_component_fits(ux as int, speed as int, hit.other_transform.scale.x as int);
        lemma_launch_component_fits(uy as int, speed as int, hit.other_transform.scale.y as int);
    }
    let lx = mul_div_signed(
        ux * speed,
        crate::math::abs64(hit.other_transform.scale.x),
        (UNIT * UNIT) as u64,
    );
    let ly = mul_div_signed(
        uy * speed,
        crate::math::abs64(hit.other_transform.scale.y),
        (UNIT * UNIT) as u64,
    );
    proof {
        lemma_signed_component(hit.other_transform.scale.x as int, lx as int);
        lemma_signed_component(hit.other_transform.scale.y as int, ly as int);
        vstd::arithmetic::div_mod::lemma_div_of0((UNIT as int) * (UNIT as int));
        if hit.other_transform.scale.x == 0 {
            assert(absi((ux * speed) as int) * absi(0int) == 0) by (nonlinear_arith);
        }
        if hit.other_transform.scale.y == 0 {
            assert(absi((uy * speed) as int) * absi(0int) == 0) by (nonlinear_arith);
        }
    }
    let lx = if hit.other_transform.scale.x < 0 {
        -lx
    } else {
        lx
    };
    let ly = if hit.other_transform.scale.y < 0 {
        -ly
    } else {
        ly
    };
    proof {
        // Tie the computed components to the spec's launch vector, whose
        // sign-folded form the solver does not rewrite on its own.
        let lv = launch_velocity_spec(
            theta as int,
            speed as int,
            hit.other_transform.scale,
        );
        assert(lv.x == (crate::math::sgni(hit.other_transform.scale.x as int) * muldiv_trunc(
            (ux as int) * (speed as int),
            absi(hit.other_transform.scale.x as int),
            (UNIT as int) * (UNIT as int),
        )) as i64);
        assert(lv.y == (crate::math::sgni(hit.other_transform.scale.y as int) * muldiv_trunc(
            (uy as int) * (speed as int),
            absi(hit.other_transform.scale.y as int),
            (UNIT as int) * (UNIT as int),
        )) as i64);
        assert(lx == lv.x);
        assert(ly == lv.y);
    }
    Some(Vec2 { x: lx, y: ly })
}

/// What a run of damage events leaves behind: each hit in order adds its
/// damage and replaces the launch velocity; body hits do nothing.
pub open spec fn damage_fold(percent: int, weight: int, velocity: Vec2, hits: Seq<HitboxCollision>)
    -> (int, Vec2)
    decreases hits.len(),
{
    if hits.len() == 0 {
        (percent, velocity)
    } else {
        match damage_outcome(percent, weight, hits[0]) {
            Option::None => damage_fold(percent, weight, velocity, hits.drop_first()),
            Option::Some(out) => damage_fold(out.0, weight, out.1, hits.drop_first()),
        }
    }
}

/// Resolves every damage event of the tick, in order: accumulated damage
/// and the launch velocity come out exactly as `damage_fold` says.
pub fn resolve_hits(
    fighter_percent: &mut Percent,
    weight: &Weight,
    velocity: &mut crate::physics::Velocity,
    hits: &Vec<HitboxCollision>,
)
    requires
        0 <= old(fighter_percent).0 <= PERCENT_LIMIT,
        WEIGHT_MIN <= weight.0 <= WEIGHT_MAX,
        forall|i: int|
            0 <= i < hits@.len() ==> damage_figures_wf((#[trigger] hits@[i]).other_hitbox.purpose)
                && -SCALE_LIMIT <= hits@[i].other_transform.scale.x <= SCALE_LIMIT && -SCALE_LIMIT
                <= hits@[i].other_transform.scale.y <= SCALE_LIMIT,
    ensures
        0 <= final(fighter_percent).0 <= PERCENT_LIMIT,
        ({
            let folded = damage_fold(
                old(fighter_percent).0 as int,
                weight.0 as int,
                old(velocity).0,
                hits@,
            );
            final(fighter_percent).0 == folded.0 && final(velocity).0 == folded.1
        }),
{
    let n = hits.len();
    let mut i: usize = 0;
    proof {
        assert(hits@.skip(0) =~= hits@);
    }
    while i < n
        invariant
            n == hits@.len(),
            0 <= i <= n,
            0 <= fighter_percent.0 <= PERCENT_LIMIT,
            WEIGHT_MIN <= weight.0 <= WEIGHT_MAX,
            forall|j: int|
                0 <= j < hits@.len() ==> damage_figures_wf(
                    (#[trigger] hits@[j]).other_hitbox.purpose,
                ) && -SCALE_LIMIT <= hits@[j].other_transform.scale.x <= SCALE_LIMIT && -SCALE_LIMIT
                    <= hits@[j].other_transform.scale.y <= SCALE_LIMIT,
            damage_fold(old(fighter_percent).0 as int, weight.0 as int, old(velocity).0, hits@)
                == damage_fold(fighter_percent.0 as int, weight.0 as int, velocity.0, hits@.skip(i as int)),
        decreases n - i,
    {
        proof {
            assert(hits@.skip(i as int)[0] == hits@[i as int]);
            assert(hits@.skip(i as int).drop_first() =~= hits@.skip(i as int + 1));
        }
        let hit = &hits[i];
        match take_damage_from_hitbox_collision(fighter_percent, weight, hit) {
            Some(launch) => crate::physics::set_velocity(velocity, launch),
            None => {},
        }
        i = i + 1;
    }
    proof {
        assert(hits@.skip(n as int) =~= Seq::<HitboxCollision>::empty());
    }
}

/// Computes the launch speed formula in bounded integers.
fn launch_speed(base: i64, scale: i64, weight: i64, percent: i64) -> (r: i64)
    requires
        0 <= base <= KNOCKBACK_LIMIT,
        0 <= scale <= KNOCKBACK_LIMIT,
        WEIGHT_MIN <= weight <= WEIGHT_MAX,
        0 <= percent <= PERCENT_LIMIT,
    ensures
        r == launch_speed_spec(base as int, scale as int, weight as int, percent as int),
        0 <= r <= 20_000_000_000,
{
    proof {
        assert((scale as int) * percent <= 100_000_000_000_000i64) by (nonlinear_arith)
            requires
                0 <= scale <= KNOCKBACK_LIMIT,
                0 <= percent <= PERCENT_LIMIT,
                KNOCKBACK_LIMIT == 10_000_000 && PERCENT_LIMIT == 10_000_000,
        ;
        vstd::arithmetic::div_mod::lemma_div_pos_is_pos((scale as int) * percent, 100_000);
        vstd::arithmetic::div_mod::lemma_div_is_ordered(
            (scale as int) * percent,
            100_000_000_000_000i64 as int,
            100_000,
        );
    }
    let scaled = (scale as u64) * (percent as u64) / 100_000;
    let inner = (base as u64) + scaled;
    proof {
        assert(scaled <= 1_000_000_000);
        assert((inner as int) * (UNIT as int) <= 1_010_000_000_000i64) by (nonlinear_arith)
            requires
                0 <= inner <= 1_010_000_000i64,
                UNIT == 1000,
        ;
        vstd::arithmetic::div_mod::lemma_div_pos_is_pos(
            (inner as int) * (UNIT as int),
            weight as int,
        );
        vstd::arithmetic::div_mod::lemma_div_is_ordered_by_denominator(
            (inner as int) * (UNIT as int),
            WEIGHT_MIN as int,
            weight as int,
        );
        vstd::arithmetic::div_mod::lemma_div_is_ordered(
            (inner as int) * (UNIT as int),
            1_010_000_000_000i64 as int,
            WEIGHT_MIN as int,
        );
    }
    let r = inner * (UNIT as u64) / (weight as u64);
    r as i64
}

/// Folding a sign into an already-computed magnitude ratio.
proof fn lemma_signed_component(sx: int, m: int)
    by (nonlinear_arith)
    requires
        i64::MIN < m <= i64::MAX,
    ensures
        sx < 0 ==> crate::math::sgni(sx) * m == -m,
        sx > 0 ==> crate::math::sgni(sx) * m == m,
        sx == 0 ==> crate::math::sgni(sx) * m == 0,
{
}

/// A launch component `u * speed * |scale| / UNIT^2` fits in an `i64`.
proof fn lemma_launch_component_fits(u: int, speed: int, scale: int)
    requires
        -1000 <= u <= 1000,
        0 <= speed <= 20_000_000_000,
        -SCALE_LIMIT <= scale <= SCALE_LIMIT,
    ensures
        u * speed <= i64::MAX,
        u * speed >= i64::MIN + 1,
        absi(u * speed) * absi(scale) <= i64::MAX,
{
    assert(absi(u * speed) <= 1000 * 20_000_000_000 && absi(u * speed) * absi(scale) <= 1000
        * 20_000_000_000 * (SCALE_LIMIT as int)) by (nonlinear_arith)
        requires
            -1000 <= u <= 1000,
            0 <= speed <= 20_000_000_000,
            -SCALE_LIMIT <= scale <= SCALE_LIMIT,
            SCALE_LIMIT == 100_000,
    ;
}

} // verus!
