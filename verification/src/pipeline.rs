//! The per-tick simulation pipeline: one explicit function drives a
//! fighter through input buffering, state transitions, physics, the
//! landing/airborne reaction, damage resolution and the frame increment,
//! in that strict order.

use vstd::prelude::*;

use crate::fighter::{
    apply_jump_speed, apply_traction, apply_turnaround, go_airborne, land, set_airdodge_speed,
    set_dash_speed, update_fighter_state, update_gravity, update_intangibility, DashSpeed,
    FighterProperties, Intangible, JumpSpeed, Percent, PlayerId, RunSpeed, Traction, WalkSpeed,
    Weight, PERCENT_LIMIT, WEIGHT_MAX, WEIGHT_MIN,
};
use crate::fighter::{accelerate_to_run_speed, accelerate_to_walk_speed, damage_figures_wf};
use crate::fighter_state::{
    apply_state_transition, FighterState, FighterStateTransition, InterruptPlayerData, StateEnd,
};
use crate::hitbox::{HitboxCollision, SCALE_LIMIT};
use crate::input::{Action, Control};
use crate::math::{Vec2, UNIT};
use crate::megaman::{
    emit_animation_update, lemon_spawn_spec, shoot_lemon, update_state_transition_rules, LemonSpawn,
};
use crate::physics::{
    accelerate_from_gravity, apply_velocity, PlacedCollider, Velocity, POSITION_LIMIT, SPEED_LIMIT,
};
use crate::utils::{Facing, FrameCount, FrameNumber, LeftRight};
use crate::view::AnimationUpdate;

verus! {

/// Ceiling the pipeline keeps every velocity component under at the end
/// of a tick. Far beyond any gameplay speed; it exists so the next tick's
/// integer arithmetic provably stays in range.
pub const VELOCITY_CAP: i64 = 800_000;

/// Ceiling on tuning speeds, traction and gravity magnitude.
pub const TUNING_LIMIT: i64 = 100_000;

/// One simulated fighter: everything the per-tick pipeline threads
/// through its phases.
#[derive(Clone, Debug)]
pub struct Fighter {
    pub tag: PlayerId,
    pub frame: FrameCount,
    pub facing: Facing,
    pub position: Vec2,
    pub velocity: Velocity,
    pub state: FighterState,
    pub state_transition_properties: FighterStateTransition,
    pub properties: FighterProperties,
    pub control: Control,
    pub percent: Percent,
    pub weight: Weight,
    pub traction: Traction,
    pub jump_speed: JumpSpeed,
    pub dash_speed: DashSpeed,
    pub run_speed: RunSpeed,
    pub walk_speed: WalkSpeed,
    pub airborne: bool,
}

/// The raw input handed to one fighter for one tick: the stick sample and
/// the actions that went down or up since the previous tick.
#[derive(Clone, Debug)]
pub struct InputSample {
    pub stick_x: i64,
    pub stick_y: i64,
    pub pressed: Vec<Action>,
    pub released: Vec<Action>,
}

impl InputSample {
    pub open spec fn wf(self) -> bool {
        -UNIT <= self.stick_x <= UNIT && -UNIT <= self.stick_y <= UNIT
    }
}

/// What one tick reports to the layers around the core.
#[derive(Clone, Debug)]
pub struct TickOutput {
    /// The frame-in-state value the tick's phases observed: zero exactly
    /// when some transition occurred this tick.
    pub observed_frame: FrameNumber,
    /// Whether any transition (interrupt, natural end, landing or going
    /// airborne) occurred.
    pub transitioned: bool,
    pub old_state: FighterState,
    pub new_state: FighterState,
    /// The collision normal when the sweep hit a collider; `None` means
    /// the fighter is airborne this tick.
    pub collision_normal: Option<Vec2>,
    pub intangible: Intangible,
    pub animation: Option<AnimationUpdate>,
    /// A forced state update the animation layer requests (the idle blink
    /// reset); the caller applies it before the next tick.
    pub state_update: Option<FighterState>,
    /// A projectile to spawn this tick, if the attack reached its shoot
    /// frame.
    pub lemon: Option<LemonSpawn>,
}

impl Fighter {
    /// What every tick preserves. The stored transition rule always
    /// belongs to the current state, so the state machine and the
    /// per-state velocity phases agree on what the state accepts.
    pub open spec fn wf(self) -> bool {
        &&& self.control.wf()
        &&& self.velocity.0.bounded(VELOCITY_CAP as int)
        &&& self.state matches FighterState::Airdodge(d) ==> d.bounded(UNIT as int)
        &&& self.state_transition_properties == crate::megaman::rule_for_state_spec(self.state)
        &&& 0 <= self.jump_speed.0 <= TUNING_LIMIT
        &&& 0 <= self.dash_speed.0 <= TUNING_LIMIT
        &&& 0 <= self.run_speed.0 <= TUNING_LIMIT
        &&& 0 <= self.walk_speed.0 <= TUNING_LIMIT
        &&& 0 <= self.traction.0 <= TUNING_LIMIT
        &&& -TUNING_LIMIT <= self.properties.gravity <= TUNING_LIMIT
        &&& 0 <= self.percent.0 <= PERCENT_LIMIT
        &&& WEIGHT_MIN <= self.weight.0 <= WEIGHT_MAX
    }

    /// A fresh fighter at a starting position, with this game's one
    /// character's tuning.
    pub fn new(tag: PlayerId, position: Vec2, facing: LeftRight) -> (f: Fighter)
        ensures
            f.wf(),
            f.position == position,
            f.state == FighterState::Idle,
            f.frame.0 == 1,
            f.facing.0 == facing,
            f.percent.0 == 0,
    {
        Fighter {
            tag,
            frame: FrameCount(1),
            facing: Facing(facing),
            position,
            velocity: Velocity(Vec2 { x: 0, y: 0 }),
            state: FighterState::Idle,
            state_transition_properties: FighterStateTransition::default_for_state(
                &FighterState::Idle,
            ),
            properties: crate::megaman::MegaMan::get_properties(),
            control: Control::new(),
            percent: Percent(0),
            weight: Weight(1000),
            traction: Traction(crate::megaman::MEGAMAN_TRACTION),
            jump_speed: JumpSpeed(crate::megaman::MEGAMAN_JUMP_SPEED),
            dash_speed: DashSpeed(crate::megaman::MEGAMAN_DASH_SPEED),
            run_speed: RunSpeed(crate::megaman::MEGAMAN_DASH_SPEED),
            walk_speed: WalkSpeed(crate::megaman::MEGAMAN_WALK_SPEED),
            airborne: false,
        }
    }
}

/// No state's transition rule ever targets an airdodge directly: dodges
/// are entered only through the interrupt that normalizes the stick.
proof fn lemma_rule_never_ends_in_airdodge(s: FighterState)
    ensures
        crate::megaman::rule_for_state_spec(s).end matches StateEnd::OnFrame { next_state, .. }
            ==> !(next_state matches FighterState::Airdodge(_)),
{
}

/// A run that its own interrupt chain left standing still has sideways
/// stick input, so the acceleration phase never has to wind it down.
proof fn lemma_standing_run_has_direction(c: Control, data: InterruptPlayerData, speed: int)
    requires
        data.state == FighterState::Run,
        crate::fighter_state::eval_interrupt_spec(
            crate::fighter_state::InterruptKind::Run,
            c,
            data,
        ) is None,
    ensures
        crate::fighter::ground_target_speed(c, speed) is Some,
{
}

/// One velocity component clamped to the pipeline's cap.
pub open spec fn cap_spec(x: int) -> int {
    if x > VELOCITY_CAP {
        VELOCITY_CAP as int
    } else if x < -VELOCITY_CAP {
        -VELOCITY_CAP
    } else {
        x
    }
}

/// A velocity clamped componentwise to the pipeline's cap.
pub open spec fn capped(v: Vec2) -> Vec2 {
    Vec2 { x: cap_spec(v.x as int) as i64, y: cap_spec(v.y as int) as i64 }
}

/// Clamps one velocity component to the pipeline's cap.
fn cap_component(x: i64) -> (r: i64)
    ensures
        r == cap_spec(x as int),
        -VELOCITY_CAP <= r <= VELOCITY_CAP,
{
    if x > VELOCITY_CAP {
        VELOCITY_CAP
    } else if x < -VELOCITY_CAP {
        -VELOCITY_CAP
    } else {
        x
    }
}

/// The state after the velocity-command phase: a run whose stick has no
/// sideways component starts winding down; everything else stands.
pub open spec fn commands_state(s1: FighterState, c: Control, run_speed: int) -> FighterState {
    if s1 == FighterState::Run && crate::fighter::ground_target_speed(c, run_speed) is None {
        FighterState::RunEnd
    } else {
        s1
    }
}

/// The facing after the velocity-command phase: a grounded turnaround
/// midpoint flips it, and a dash's first frame turns it to the stick.
pub open spec fn commands_facing(
    facing: LeftRight,
    s1: FighterState,
    fr: FrameNumber,
    airborne: bool,
    c: Control,
    dash_speed: int,
) -> LeftRight {
    let f1 = if !airborne && crate::fighter::turnaround_flips(s1, fr) {
        facing.flip_spec()
    } else {
        facing
    };
    match crate::fighter::dash_start(s1, fr, c, dash_speed) {
        Some(sv) => sv.0,
        None => f1,
    }
}

/// The velocity after the state's commands, in phase order: the jump-squat
/// launch, the dash jolt, run and walk acceleration, the airdodge glide,
/// and state-conditioned gravity.
pub open spec fn commands_velocity(
    v: Vec2,
    s1: FighterState,
    fr: FrameNumber,
    c: Control,
    jump_speed: int,
    dash_speed: int,
    run_speed: int,
    walk_speed: int,
    traction: int,
    gravity: int,
) -> Vec2 {
    let v1 = Vec2 {
        x: v.x,
        y: (v.y + crate::fighter::jump_speed_delta(s1, fr, jump_speed, c)) as i64,
    };
    let v2 = match crate::fighter::dash_start(s1, fr, c, dash_speed) {
        Some(sv) => Vec2 { x: sv.1 as i64, y: v1.y },
        None => v1,
    };
    let v3 = if s1 == FighterState::Run {
        match crate::fighter::ground_target_speed(c, run_speed) {
            Some(t) => Vec2 {
                x: crate::fighter::toward_spec(v2.x as int, t, traction) as i64,
                y: v2.y,
            },
            None => v2,
        }
    } else {
        v2
    };
    let s2 = commands_state(s1, c, run_speed);
    let v4 = if s2 == FighterState::Walk {
        match crate::fighter::ground_target_speed(c, walk_speed) {
            Some(t) => Vec2 {
                x: crate::fighter::toward_spec(v3.x as int, t, traction) as i64,
                y: v3.y,
            },
            None => v3,
        }
    } else {
        v3
    };
    let v5 = match crate::fighter::airdodge_velocity(s2, fr) {
        Some(nv) => nv,
        None => v4,
    };
    if s2.is_affected_by_gravity_spec() {
        Vec2 { x: v5.x, y: (v5.y + gravity) as i64 }
    } else {
        v5
    }
}

/// Runs the velocity-command phase: turnaround, jump launch, dash jolt,
/// run and walk acceleration (a neutral-stick run winds down and its rule
/// follows), airdodge glide and gravity.
fn velocity_command_phase(f: &mut Fighter)
    requires
        old(f).wf(),
    ensures
        final(f).state == commands_state(old(f).state, old(f).control, old(f).run_speed.0 as int),
        final(f).facing.0 == commands_facing(
            old(f).facing.0,
            old(f).state,
            old(f).frame.0,
            old(f).airborne,
            old(f).control,
            old(f).dash_speed.0 as int,
        ),
        final(f).velocity.0 == commands_velocity(
            old(f).velocity.0,
            old(f).state,
            old(f).frame.0,
            old(f).control,
            old(f).jump_speed.0 as int,
            old(f).dash_speed.0 as int,
            old(f).run_speed.0 as int,
            old(f).walk_speed.0 as int,
            old(f).traction.0 as int,
            old(f).properties.gravity as int,
        ),
        final(f).velocity.0.bounded(SPEED_LIMIT as int),
        final(f).state_transition_properties == crate::megaman::rule_for_state_spec(final(f).state),
        final(f).state matches FighterState::Airdodge(d) ==> d.bounded(UNIT as int),
        *final(f) == (Fighter {
            state: final(f).state,
            facing: final(f).facing,
            velocity: final(f).velocity,
            state_transition_properties: final(f).state_transition_properties,
            ..*old(f)
        }),
{
    apply_turnaround(&mut f.facing, &f.state, &f.frame, f.airborne);
    apply_jump_speed(&mut f.velocity, &f.state, &f.frame, &f.jump_speed, &f.control);
    proof {
        assert(f.velocity.0.bounded(VELOCITY_CAP as int + TUNING_LIMIT as int));
    }
    set_dash_speed(&f.state, &f.frame, &mut f.facing, &mut f.velocity, &f.dash_speed, &f.control);
    proof {
        assert(f.velocity.0.bounded(VELOCITY_CAP as int + TUNING_LIMIT as int));
    }
    let s_before_accel = f.state;
    accelerate_to_run_speed(&mut f.state, &mut f.velocity, &f.run_speed, &f.traction, &f.control);
    proof {
        assert(f.velocity.0.bounded(VELOCITY_CAP as int + TUNING_LIMIT as int));
    }
    if f.state != s_before_accel {
        // A run whose stick has already gone neutral starts winding down
        // here; its rule follows the state as it does for any change.
        f.state_transition_properties = update_state_transition_rules(&f.state);
    }
    accelerate_to_walk_speed(&f.state, &mut f.velocity, &f.walk_speed, &f.traction, &f.control);
    set_airdodge_speed(&f.state, &f.frame, &mut f.velocity);
    match update_gravity(&f.state, &f.properties) {
        Some(g) => accelerate_from_gravity(&mut f.velocity, g),
        None => {},
    }
}

/// The forced reaction after integration: a floor-like collision lands an
/// airborne fighter; losing all support drops a grounded one.
pub open spec fn reaction_state(s2: FighterState, collision: Option<Vec2>) -> Option<FighterState> {
    match collision {
        Some(n) => crate::fighter::landing_state(s2, n),
        None => crate::fighter::airborne_state(s2, true),
    }
}

/// Applies this tick's state-machine transition, re-derives the rule on a
/// change, and decides the attack projectile: the returned pair says
/// whether a transition fired and what, if anything, leaves the buster.
fn transition_phase(f: &mut Fighter) -> (res: (bool, Option<LemonSpawn>))
    requires
        old(f).control.wf(),
        old(f).state_transition_properties == crate::megaman::rule_for_state_spec(old(f).state),
        old(f).state matches FighterState::Airdodge(d) ==> d.bounded(UNIT as int),
    ensures
        ({
            let data = InterruptPlayerData { state: old(f).state, facing: old(f).facing.0 };
            let t1 = crate::fighter_state::transition_outcome(
                old(f).state_transition_properties,
                old(f).frame.0,
                old(f).control,
                data,
            );
            &&& res.0 == (t1 is Some)
            &&& final(f).state == (match t1 {
                Some(ns) => ns,
                None => old(f).state,
            })
            &&& final(f).frame.0 == (match t1 {
                Some(_) => 0nat as u32,
                None => old(f).frame.0,
            })
            &&& final(f).control == (match t1 {
                Some(ns) => crate::fighter_state::cleared_buffers(old(f).control, ns),
                None => old(f).control,
            })
            &&& res.1 == lemon_spawn_spec(final(f).state, final(f).frame.0, old(f).facing.0)
            &&& final(f).control.wf()
            &&& final(f).state_transition_properties == crate::megaman::rule_for_state_spec(
                final(f).state,
            )
            &&& (final(f).state matches FighterState::Airdodge(d) ==> d.bounded(UNIT as int))
            &&& *final(f) == (Fighter {
                state: final(f).state,
                frame: final(f).frame,
                control: final(f).control,
                state_transition_properties: final(f).state_transition_properties,
                ..*old(f)
            })
        }),
{
    proof {
        crate::math::lemma_normalize_bounded(old(f).control.stick);
        lemma_rule_never_ends_in_airdodge(old(f).state);
    }
    let transitioned = apply_state_transition(
        &f.state_transition_properties,
        &mut f.frame,
        &mut f.state,
        &mut f.control,
        f.facing.0,
    );
    if transitioned {
        f.state_transition_properties = update_state_transition_rules(&f.state);
    }
    let lemon = shoot_lemon(&f.state, &f.frame, &f.facing);
    (transitioned, lemon)
}

/// Integrates one tick of motion at the current velocity and applies the
/// forced reactions: the position sweeps against the colliders, a contact
/// cancels the crossing part of the velocity and applies traction, a
/// floor-like contact lands an airborne fighter, and losing all support
/// drops a grounded one — both reactions reset the frame, re-derive the
/// rule and apply the buffer clearing policy, past any interrupt window.
fn integrate_and_react(f: &mut Fighter, colliders: &Vec<PlacedCollider>) -> (res: (
    Option<Vec2>,
    bool,
))
    requires
        old(f).control.wf(),
        old(f).velocity.0.bounded(SPEED_LIMIT as int),
        old(f).position.bounded(POSITION_LIMIT as int - 4 * SPEED_LIMIT as int),
        0 <= old(f).traction.0 <= TUNING_LIMIT,
        old(f).state_transition_properties == crate::megaman::rule_for_state_spec(old(f).state),
        forall|i: int| 0 <= i < colliders@.len() ==> (#[trigger] colliders@[i]).wf(),
    ensures
        ({
            let pb = crate::physics::first_pushback(colliders@, old(f).position, old(f).velocity.0);
            let collision = if pb.is_zero() {
                None
            } else {
                Some(pb.normalize_spec())
            };
            let v7 = if pb.is_zero() {
                old(f).velocity.0
            } else {
                crate::math::vadd(old(f).velocity.0, pb)
            };
            let v8 = if !pb.is_zero() && !old(f).state.is_exempt_from_normal_traction_spec() {
                Vec2 {
                    x: crate::fighter::toward_spec(v7.x as int, 0, old(f).traction.0 as int) as i64,
                    y: v7.y,
                }
            } else {
                v7
            };
            let r = reaction_state(old(f).state, collision);
            &&& res.0 == collision
            &&& res.1 == (r is Some)
            &&& final(f).position.x == old(f).position.x + old(f).velocity.0.x + pb.x
            &&& final(f).position.y == old(f).position.y + old(f).velocity.0.y + pb.y
            &&& final(f).position.bounded(POSITION_LIMIT as int)
            &&& final(f).velocity.0 == v8
            &&& final(f).velocity.0.bounded(4 * SPEED_LIMIT as int)
            &&& final(f).airborne == pb.is_zero()
            &&& final(f).state == (match r {
                Some(ns) => ns,
                None => old(f).state,
            })
            &&& final(f).frame == (match r {
                Some(_) => FrameCount(0),
                None => old(f).frame,
            })
            &&& final(f).control == (match r {
                Some(ns) => crate::fighter_state::cleared_buffers(old(f).control, ns),
                None => old(f).control,
            })
            &&& final(f).control.wf()
            &&& final(f).state_transition_properties == crate::megaman::rule_for_state_spec(
                final(f).state,
            )
            &&& (final(f).state matches FighterState::Airdodge(d) ==> (
            old(f).state matches FighterState::Airdodge(d2) && d == d2))
            &&& collision is None ==> !final(f).state.is_grounded_spec()
            &&& *final(f) == (Fighter {
                position: final(f).position,
                velocity: final(f).velocity,
                airborne: final(f).airborne,
                state: final(f).state,
                frame: final(f).frame,
                control: final(f).control,
                state_transition_properties: final(f).state_transition_properties,
                ..*old(f)
            })
        }),
{
    let collision_normal = apply_velocity(&mut f.position, &mut f.velocity, colliders);
    f.airborne = match collision_normal {
        Some(_) => false,
        None => true,
    };
    apply_traction(&mut f.velocity, &f.traction, &f.state, f.airborne);

    proof {
        crate::math::lemma_normalize_bounded(
            crate::physics::first_pushback(colliders@, old(f).position, old(f).velocity.0),
        );
    }
    let mut reacted = false;
    if let Some(normal) = collision_normal {
        if let Some(ns) = land(&f.state, normal) {
            update_fighter_state(&mut f.state, &mut f.frame, &mut f.control, ns);
            f.state_transition_properties = update_state_transition_rules(&f.state);
            reacted = true;
        }
    }
    if let Some(ns) = go_airborne(&f.state, f.airborne) {
        update_fighter_state(&mut f.state, &mut f.frame, &mut f.control, ns);
        f.state_transition_properties = update_state_transition_rules(&f.state);
        reacted = true;
    }
    (collision_normal, reacted)
}

/// Runs one fixed-timestep tick for one fighter: input buffering and
/// gesture detection, the state machine's transition, the state's
/// velocity commands, gravity and the swept collision resolve, the
/// landing/airborne reaction, intangibility, damage resolution with its
/// knockback launch, and finally the frame increment.
///
/// The contract is a full functional model of the tick, phase by phase,
/// plus the two laws it carries: the frame the phases observe is zero
/// exactly when a transition occurred (for any tick that did not start at
/// frame zero) and the counter otherwise grows by one; and with no
/// supporting collision the fighter never ends the tick grounded.
#[verifier::rlimit(100)]
pub fn tick(
    f: &mut Fighter,
    input: &InputSample,
    colliders: &Vec<PlacedCollider>,
    hits: &Vec<HitboxCollision>,
) -> (out: TickOutput)
    requires
        old(f).wf(),
        input.wf(),
        old(f).frame.0 < u32::MAX,
        old(f).position.bounded(POSITION_LIMIT as int - 4 * SPEED_LIMIT as int),
        forall|i: int| 0 <= i < colliders@.len() ==> (#[trigger] colliders@[i]).wf(),
        forall|i: int|
            0 <= i < hits@.len() ==> damage_figures_wf(
                (#[trigger] hits@[i]).other_hitbox.purpose,
            ) && -SCALE_LIMIT <= hits@[i].other_transform.scale.x <= SCALE_LIMIT && -SCALE_LIMIT
                <= hits@[i].other_transform.scale.y <= SCALE_LIMIT,
    ensures
        final(f).wf(),
        final(f).position.bounded(POSITION_LIMIT as int),
        final(f).frame.0 == out.observed_frame + 1,
        out.transitioned ==> out.observed_frame == 0,
        !out.transitioned ==> out.observed_frame == old(f).frame.0,
        old(f).frame.0 >= 1 ==> (out.transitioned <==> out.observed_frame == 0),
        out.old_state == old(f).state,
        out.new_state == final(f).state,
        !out.transitioned ==> final(f).state == old(f).state,
        out.collision_normal is None ==> !final(f).state.is_grounded_spec(),
        out.intangible.0 == final(f).state.is_intangible_spec(out.observed_frame),
        ({
            // The functional model of the tick: the input phase, the
            // state machine, the velocity commands, the integration, the
            // forced reactions, the damage fold, and the view decisions.
            let c0 = old(f).control;
            let m = crate::input::input_phase_ctrl(
                c0,
                input.stick_x as int,
                input.stick_y as int,
                input.pressed@,
                input.released@,
            );
            let data = InterruptPlayerData { state: old(f).state, facing: old(f).facing.0 };
            let t1 = crate::fighter_state::transition_outcome(
                old(f).state_transition_properties,
                old(f).frame.0,
                m,
                data,
            );
            let s1 = match t1 {
                Some(ns) => ns,
                None => old(f).state,
            };
            let fr1 = match t1 {
                Some(_) => 0,
                None => old(f).frame.0,
            };
            let c1 = match t1 {
                Some(ns) => crate::fighter_state::cleared_buffers(m, ns),
                None => m,
            };
            let s2 = commands_state(s1, c1, old(f).run_speed.0 as int);
            let v_int = capped(
                commands_velocity(
                    old(f).velocity.0,
                    s1,
                    fr1,
                    c1,
                    old(f).jump_speed.0 as int,
                    old(f).dash_speed.0 as int,
                    old(f).run_speed.0 as int,
                    old(f).walk_speed.0 as int,
                    old(f).traction.0 as int,
                    old(f).properties.gravity as int,
                ),
            );
            let pb = crate::physics::first_pushback(colliders@, old(f).position, v_int);
            let collision = if pb.is_zero() {
                None
            } else {
                Some(pb.normalize_spec())
            };
            let v7 = if pb.is_zero() {
                v_int
            } else {
                crate::math::vadd(v_int, pb)
            };
            let v8 = if !pb.is_zero() && !s2.is_exempt_from_normal_traction_spec() {
                Vec2 {
                    x: crate::fighter::toward_spec(
                        v7.x as int,
                        0,
                        old(f).traction.0 as int,
                    ) as i64,
                    y: v7.y,
                }
            } else {
                v7
            };
            let r = reaction_state(s2, collision);
            let s3 = match r {
                Some(ns) => ns,
                None => s2,
            };
            let fr3 = match r {
                Some(_) => 0,
                None => fr1,
            };
            let c3 = match r {
                Some(ns) => crate::fighter_state::cleared_buffers(c1, ns),
                None => c1,
            };
            let folded = crate::fighter::damage_fold(
                old(f).percent.0 as int,
                old(f).weight.0 as int,
                v8,
                hits@,
            );
            let v_final = capped(folded.1);
            &&& out.lemon == lemon_spawn_spec(s1, fr1, old(f).facing.0)
            &&& final(f).facing.0 == commands_facing(
                old(f).facing.0,
                s1,
                fr1,
                old(f).airborne,
                c1,
                old(f).dash_speed.0 as int,
            )
            &&& out.collision_normal == collision
            &&& final(f).airborne == pb.is_zero()
            &&& final(f).position.x == old(f).position.x + v_int.x + pb.x
            &&& final(f).position.y == old(f).position.y + v_int.y + pb.y
            &&& final(f).state == s3
            &&& out.transitioned == (t1 is Some || r is Some)
            &&& out.observed_frame == fr3
            &&& final(f).percent.0 == folded.0
            &&& final(f).velocity.0 == v_final
            &&& final(f).control.stick == c3.stick
            &&& final(f).control.action == c3.action
            &&& final(f).control.directional_action == c3.directional_action
            &&& final(f).control.held_actions == c3.held_actions
            &&& final(f).control.previous_held_actions == c3.previous_held_actions
            &&& final(f).control.previous_stick_positions@ == crate::input::input_phase_history(
                c0,
                input.stick_x as int,
                input.stick_y as int,
            )
            &&& (out.animation, out.state_update) == crate::megaman::animation_update_spec(
                s3,
                fr3,
                v_final,
            )
        }),
{
    let old_state = f.state;

    // Input phase: age buffers, record the sample, detect gestures.
    f.control.update_from_sample(input.stick_x, input.stick_y, &input.pressed, &input.released);

    // State machine: one transition at most, interrupts before natural
    // ends; a transition re-derives the state's rule.
    let ghost c_real = f.control;
    let ghost s_pre = f.state;
    let ghost m = crate::input::input_phase_ctrl(
        old(f).control,
        input.stick_x as int,
        input.stick_y as int,
        input.pressed@,
        input.released@,
    );
    proof {
        crate::fighter_state::lemma_transition_ignores_history(
            old(f).state_transition_properties,
            old(f).frame.0,
            c_real,
            m,
            InterruptPlayerData { state: s_pre, facing: old(f).facing.0 },
        );
    }
    let (mut transitioned, lemon) = transition_phase(f);

    // The state's velocity commands.
    let ghost c_post = f.control;
    let ghost s1 = f.state;
    proof {
        lemma_commands_ignore_history(
            c_post,
            ({
                let t1 = crate::fighter_state::transition_outcome(
                    old(f).state_transition_properties,
                    old(f).frame.0,
                    m,
                    InterruptPlayerData { state: s_pre, facing: old(f).facing.0 },
                );
                match t1 {
                    Some(ns) => crate::fighter_state::cleared_buffers(m, ns),
                    None => m,
                }
            }),
            s1,
            f.frame.0,
            old(f).airborne,
            old(f).facing.0,
            old(f).velocity.0,
            old(f).jump_speed.0 as int,
            old(f).dash_speed.0 as int,
            old(f).run_speed.0 as int,
            old(f).walk_speed.0 as int,
            old(f).traction.0 as int,
            old(f).properties.gravity as int,
        );
        if !transitioned && s_pre == FighterState::Run {
            lemma_standing_run_has_direction(
                c_post,
                InterruptPlayerData { state: s_pre, facing: old(f).facing.0 },
                f.run_speed.0 as int,
            );
        }
    }
    velocity_command_phase(f);

    // Physics at the capped velocity, then the forced reactions.
    f.velocity = Velocity(
        Vec2 { x: cap_component(f.velocity.0.x), y: cap_component(f.velocity.0.y) },
    );
    let (collision_normal, reacted) = integrate_and_react(f, colliders);
    if reacted {
        transitioned = true;
    }

    // Derived intangibility.
    let intangible = update_intangibility(&f.state, &f.frame);

    // Damage resolution: each hit adds damage and may relaunch the fighter.
    crate::fighter::resolve_hits(&mut f.percent, &f.weight, &mut f.velocity, hits);

    // The arithmetic-safety cap on the outgoing velocity.
    f.velocity = Velocity(
        Vec2 { x: cap_component(f.velocity.0.x), y: cap_component(f.velocity.0.y) },
    );

    // View decisions, and the frame increment that ends the tick.
    let anim = emit_animation_update(&f.state, &f.frame, &f.velocity);
    let observed_frame = f.frame.0;
    f.frame.0 = f.frame.0 + 1;

    TickOutput {
        observed_frame,
        transitioned,
        old_state,
        new_state: f.state,
        collision_normal,
        intangible,
        animation: anim.0,
        state_update: anim.1,
        lemon,
    }
}

/// Law: over any tick, the frame-in-state counter reads zero exactly when
/// a transition occurs — an interrupt, a natural end, a landing or going
/// airborne — and otherwise carries the previous count forward, which the
/// tick's closing increment then raises by one: strictly increasing until
/// the next transition. Stated over the tick's functional model for every
/// fighter, input sample, collider list and hit list; the one input left
/// out is a fighter created this very tick, whose counter still reads its
/// initial zero.
pub proof fn lemma_frame_counter_law(
    f: Fighter,
    input: InputSample,
    colliders: Seq<PlacedCollider>,
    hits: Seq<HitboxCollision>,
)
    requires
        f.frame.0 >= 1,
    ensures
        ({
            let m = crate::input::input_phase_ctrl(
                f.control,
                input.stick_x as int,
                input.stick_y as int,
                input.pressed@,
                input.released@,
            );
            let data = InterruptPlayerData { state: f.state, facing: f.facing.0 };
            let t1 = crate::fighter_state::transition_outcome(
                f.state_transition_properties,
                f.frame.0,
                m,
                data,
            );
            let s1 = match t1 {
                Some(ns) => ns,
                None => f.state,
            };
            let fr1 = match t1 {
                Some(_) => 0nat as u32,
                None => f.frame.0,
            };
            let c1 = match t1 {
                Some(ns) => crate::fighter_state::cleared_buffers(m, ns),
                None => m,
            };
            let s2 = commands_state(s1, c1, f.run_speed.0 as int);
            let v_int = capped(
                commands_velocity(
                    f.velocity.0,
                    s1,
                    fr1,
                    c1,
                    f.jump_speed.0 as int,
                    f.dash_speed.0 as int,
                    f.run_speed.0 as int,
                    f.walk_speed.0 as int,
                    f.traction.0 as int,
                    f.properties.gravity as int,
                ),
            );
            let pb = crate::physics::first_pushback(colliders, f.position, v_int);
            let collision = if pb.is_zero() {
                None
            } else {
                Some(pb.normalize_spec())
            };
            let r = reaction_state(s2, collision);
            let fr3 = match r {
                Some(_) => 0nat as u32,
                None => fr1,
            };
            &&& ((t1 is Some || r is Some) <==> fr3 == 0)
            &&& (t1 is None && r is None ==> fr3 == f.frame.0)
        }),
{
}

/// The velocity-command decisions read the stick, the buffers and the held
/// set, never the stick history: two control states agreeing on those
/// fields command alike.
proof fn lemma_commands_ignore_history(
    c1: Control,
    c2: Control,
    s1: FighterState,
    fr: FrameNumber,
    airborne: bool,
    facing: LeftRight,
    v: Vec2,
    jump_speed: int,
    dash_speed: int,
    run_speed: int,
    walk_speed: int,
    traction: int,
    gravity: int,
)
    requires
        c1.stick == c2.stick,
        c1.action == c2.action,
        c1.directional_action == c2.directional_action,
        c1.held_actions == c2.held_actions,
    ensures
        commands_state(s1, c1, run_speed) == commands_state(s1, c2, run_speed),
        commands_facing(facing, s1, fr, airborne, c1, dash_speed) == commands_facing(
            facing,
            s1,
            fr,
            airborne,
            c2,
            dash_speed,
        ),
        commands_velocity(v, s1, fr, c1, jump_speed, dash_speed, run_speed, walk_speed, traction, gravity)
            == commands_velocity(
            v,
            s1,
            fr,
            c2,
            jump_speed,
            dash_speed,
            run_speed,
            walk_speed,
            traction,
            gravity,
        ),
{
    assert(crate::fighter::ground_target_speed(c1, run_speed) == crate::fighter::ground_target_speed(
        c2,
        run_speed,
    ));
    assert(crate::fighter::ground_target_speed(c1, walk_speed)
        == crate::fighter::ground_target_speed(c2, walk_speed));
    assert(crate::fighter::dash_start(s1, fr, c1, dash_speed) == crate::fighter::dash_start(
        s1,
        fr,
        c2,
        dash_speed,
    ));
    assert(crate::fighter::jump_speed_delta(s1, fr, jump_speed, c1)
        == crate::fighter::jump_speed_delta(s1, fr, jump_speed, c2));
}

} // verus!
