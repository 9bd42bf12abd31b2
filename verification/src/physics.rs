//! The physics integrator and collider resolver: velocity commands,
//! gravity, target-speed acceleration, and swept pushback against static
//! line-segment colliders.

use vstd::prelude::*;

use crate::math::{absi, mul_div_signed, muldiv_trunc, Vec2, COORD_LIMIT, UNIT};

verus! {

/// Bound on any world position the resolver handles, in fixed-point steps.
pub const POSITION_LIMIT: i64 = 100_000_000;

/// Bound on any per-tick velocity the resolver handles.
pub const SPEED_LIMIT: i64 = 1_000_000;

/// Per-tick velocity of a simulated body, in fixed-point steps.
#[derive(Clone, Copy, Debug, PartialEq, Eq, Structural)]
pub struct Velocity(pub Vec2);

impl Default for Velocity {
    fn default() -> (r: Self)
        ensures
            r == Velocity(Vec2 { x: 0, y: 0 }),
    {
        Velocity(Vec2 { x: 0, y: 0 })
    }
}

/// Adds a requested velocity delta.
pub fn add_velocity(v: &mut Velocity, dv: Vec2)
    requires
        old(v).0.x + dv.x <= i64::MAX,
        old(v).0.x + dv.x >= i64::MIN,
        old(v).0.y + dv.y <= i64::MAX,
        old(v).0.y + dv.y >= i64::MIN,
    ensures
        final(v).0.x == old(v).0.x + dv.x,
        final(v).0.y == old(v).0.y + dv.y,
{
    v.0 = v.0.add(dv);
}

/// Replaces the velocity outright (knockback launches use this).
pub fn set_velocity(v: &mut Velocity, nv: Vec2)
    ensures
        final(v).0 == nv,
{
    v.0 = nv;
}

/// Per-tick downward acceleration, in fixed-point steps.
#[derive(Clone, Copy, Debug, PartialEq, Eq, Structural)]
pub struct Gravity(pub i64);

/// Applies one tick of gravity to the vertical velocity.
pub fn accelerate_from_gravity(v: &mut Velocity, g: Gravity)
    requires
        old(v).0.y + g.0 <= i64::MAX,
        old(v).0.y + g.0 >= i64::MIN,
    ensures
        final(v).0.y == old(v).0.y + g.0,
        final(v).0.x == old(v).0.x,
{
    v.0.y = v.0.y + g.0;
}

/// The spec-level mirror of `accelerate_towards`: close the gap to the
/// target velocity, but never adjust by more than `acceleration` in one
/// tick, and never overshoot.
pub open spec fn accelerate_towards_spec(v: Vec2, target: Vec2, acceleration: int) -> Vec2 {
    let diff = Vec2 { x: (target.x - v.x) as i64, y: (target.y - v.y) as i64 };
    if diff.len_spec() <= acceleration {
        target
    } else {
        Vec2 {
            x: (v.x + muldiv_trunc(diff.x as int, acceleration, diff.len_spec())) as i64,
            y: (v.y + muldiv_trunc(diff.y as int, acceleration, diff.len_spec())) as i64,
        }
    }
}

/// Accelerates the velocity toward a target, clamped so one tick's
/// adjustment never overshoots.
pub fn accelerate_towards(v: &mut Velocity, target: Vec2, acceleration: i64)
    requires
        old(v).0.bounded(SPEED_LIMIT as int),
        target.bounded(SPEED_LIMIT as int),
        0 <= acceleration <= SPEED_LIMIT,
    ensures
        final(v).0 == accelerate_towards_spec(old(v).0, target, acceleration as int),
        final(v).0.bounded(2 * SPEED_LIMIT as int),
{
    let diff = target.sub(v.0);
    let len = diff.length();
    if len <= acceleration {
        v.0 = target;
    } else {
        proof {
            crate::math::lemma_len_ge_components(diff);
            assert(absi(diff.x as int) * acceleration <= i64::MAX) by (nonlinear_arith)
                requires
                    0 <= absi(diff.x as int) <= 2 * SPEED_LIMIT,
                    0 <= acceleration <= SPEED_LIMIT,
                    SPEED_LIMIT == 1_000_000,
            ;
            assert(absi(diff.y as int) * acceleration <= i64::MAX) by (nonlinear_arith)
                requires
                    0 <= absi(diff.y as int) <= 2 * SPEED_LIMIT,
                    0 <= acceleration <= SPEED_LIMIT,
                    SPEED_LIMIT == 1_000_000,
            ;
            crate::math::lemma_muldiv_le(absi(diff.x as int), acceleration as int, len as int);
            crate::math::lemma_muldiv_le(absi(diff.y as int), acceleration as int, len as int);
        }
        let sx = mul_div_signed(diff.x, acceleration as u64, len as u64);
        let sy = mul_div_signed(diff.y, acceleration as u64, len as u64);
        v.0 = Vec2 { x: v.0.x + sx, y: v.0.y + sy };
    }
}

/// A static line-segment obstacle: an outward normal of roughly unit
/// length, and the segment's full breadth along the tangent.
#[derive(Clone, Copy, Debug, PartialEq, Eq, Structural)]
pub struct Collider {
    pub normal: Vec2,
    pub breadth: i64,
}

/// A collider placed in the world at the centre of its segment.
#[derive(Clone, Copy, Debug, PartialEq, Eq, Structural)]
pub struct PlacedCollider {
    pub collider: Collider,
    pub centre: Vec2,
}

impl PlacedCollider {
    /// What the resolver may handle: a bounded normal, breadth and centre.
    pub open spec fn wf(self) -> bool {
        &&& self.collider.normal.bounded(UNIT as int)
        &&& 0 <= self.collider.breadth <= COORD_LIMIT
        &&& self.centre.bounded(POSITION_LIMIT as int)
    }
}

/// The spec-level mirror of `Collider::get_pushback`. The sweep from `p` by
/// `d` crosses the collider's infinite plane at fraction `t = num / den`;
/// a pushback is produced only when the body moves into the plane
/// (`den < 0`), the crossing lies within this tick (`den <= num <= 0`, i.e.
/// `0 <= t <= 1`), and the crossing point lies within half the breadth of
/// the segment's centre. The pushback `(t - 1) * (d . n) * n` cancels the
/// part of the displacement that crossed the plane.
pub open spec fn get_pushback_spec(collider: Collider, p: Vec2, d: Vec2, c: Vec2) -> Option<Vec2> {
    let n = collider.normal;
    let den = n.dot_spec(d);
    let num = n.dot_spec(Vec2 { x: (c.x - p.x) as i64, y: (c.y - p.y) as i64 });
    if den >= 0 {
        None
    } else if !(den <= num <= 0) {
        None
    } else {
        let bx = p.x + muldiv_trunc(d.x as int, absi(num), absi(den));
        let by = p.y + muldiv_trunc(d.y as int, absi(num), absi(den));
        let off = Vec2 { x: (bx - c.x) as i64, y: (by - c.y) as i64 };
        if off.len_spec() > collider.breadth as int / 2 {
            None
        } else {
            Some(
                Vec2 {
                    x: muldiv_trunc(n.x as int, num - den, UNIT as int * UNIT as int) as i64,
                    y: muldiv_trunc(n.y as int, num - den, UNIT as int * UNIT as int) as i64,
                },
            )
        }
    }
}

impl Collider {
    /// The pushback this collider exerts on a body at `p` swept by `d`,
    /// when the collider's segment is centred at `c`.
    pub fn get_pushback(&self, position: &Vec2, displacement: &Vec2, centre: &Vec2) -> (r: Option<
        Vec2,
    >)
        requires
            (PlacedCollider { collider: *self, centre: *centre }).wf(),
            position.bounded(POSITION_LIMIT as int),
            displacement.bounded(SPEED_LIMIT as int),
        ensures
            r == get_pushback_spec(*self, *position, *displacement, *centre),
            r matches Some(pb) ==> pb.bounded(2 * SPEED_LIMIT as int),
    {
        let p = *position;
        let c = *centre;
        let d = *displacement;
        let n = self.normal;
        proof {
            crate::math::lemma_dot_cross_bound(n, d, UNIT as int, SPEED_LIMIT as int);
        }
        let den = n.dot(d);
        if den >= 0 {
            return None;
        }
        let cp = c.sub(p);
        proof {
            crate::math::lemma_dot_cross_bound(n, cp, UNIT as int, 2 * POSITION_LIMIT as int);
        }
        let num = n.dot(cp);
        if !(den <= num && num <= 0) {
            return None;
        }
        let anum = crate::math::abs64(num);
        let aden = crate::math::abs64(den);
        proof {
            assert(absi(d.x as int) * anum <= i64::MAX) by (nonlinear_arith)
                requires
                    0 <= absi(d.x as int) <= SPEED_LIMIT,
                    0 <= anum <= 4 * (UNIT as int) * (POSITION_LIMIT as int),
                    SPEED_LIMIT == 1_000_000 && UNIT == 1000 && POSITION_LIMIT == 100_000_000,
            ;
            assert(absi(d.y as int) * anum <= i64::MAX) by (nonlinear_arith)
                requires
                    0 <= absi(d.y as int) <= SPEED_LIMIT,
                    0 <= anum <= 4 * (UNIT as int) * (POSITION_LIMIT as int),
                    SPEED_LIMIT == 1_000_000 && UNIT == 1000 && POSITION_LIMIT == 100_000_000,
            ;
            crate::math::lemma_muldiv_le(anum as int, absi(d.x as int), aden as int);
            crate::math::lemma_muldiv_le(anum as int, absi(d.y as int), aden as int);
            assert(absi(d.x as int) * anum == anum * absi(d.x as int)) by (nonlinear_arith);
            assert(absi(d.y as int) * anum == anum * absi(d.y as int)) by (nonlinear_arith);
        }
        let tx = mul_div_signed(d.x, anum, aden);
        let ty = mul_div_signed(d.y, anum, aden);
        let b0 = Vec2 { x: p.x + tx, y: p.y + ty };
        let off = b0.sub(c);
        let dist = off.length();
        if (dist as u64) > (self.breadth as u64) / 2 {
            return None;
        }
        // den <= num <= 0, so 0 <= num - den <= |den|.
        let k = num - den;
        proof {
            assert(k <= absi(den as int));
            assert(absi(n.x as int) * (k as int) <= i64::MAX && absi(n.y as int) * (k as int)
                <= i64::MAX) by (nonlinear_arith)
                requires
                    0 <= absi(n.x as int) <= UNIT,
                    0 <= absi(n.y as int) <= UNIT,
                    0 <= k <= 2 * (UNIT as int) * (SPEED_LIMIT as int),
                    UNIT == 1000 && SPEED_LIMIT == 1_000_000,
            ;
        }
        let px = mul_div_signed(n.x, k as u64, (UNIT * UNIT) as u64);
        let py = mul_div_signed(n.y, k as u64, (UNIT * UNIT) as u64);
        proof {
            lemma_pushback_bound(n.x as int, k as int);
            lemma_pushback_bound(n.y as int, k as int);
        }
        Some(Vec2 { x: px, y: py })
    }
}

/// The pushback of the first collider, in iteration order, that the sweep
/// from `p` by `d` hits; zero when none applies. Resolving only the first
/// collider (no multi-collider averaging) is a documented simplification:
/// simultaneous floor and wall contact picks whichever comes first.
pub open spec fn first_pushback(colliders: Seq<PlacedCollider>, p: Vec2, d: Vec2) -> Vec2
    decreases colliders.len(),
{
    if colliders.len() == 0 {
        Vec2 { x: 0, y: 0 }
    } else {
        match get_pushback_spec(colliders[0].collider, p, d, colliders[0].centre) {
            Some(pb) => pb,
            None => first_pushback(colliders.drop_first(), p, d),
        }
    }
}

/// Sweeps the position by the displacement, resolving against the first
/// colliding obstacle, and reports the pushback applied (zero if none).
pub fn displace_and_return_pushback(
    position: &mut Vec2,
    displacement: &Vec2,
    colliders: &Vec<PlacedCollider>,
) -> (pushback: Vec2)
    requires
        old(position).bounded(POSITION_LIMIT as int),
        displacement.bounded(SPEED_LIMIT as int),
        forall|i: int| 0 <= i < colliders@.len() ==> (#[trigger] colliders@[i]).wf(),
    ensures
        pushback == first_pushback(colliders@, *old(position), *displacement),
        pushback.bounded(2 * SPEED_LIMIT as int),
        final(position).x == old(position).x + displacement.x + pushback.x,
        final(position).y == old(position).y + displacement.y + pushback.y,
{
    let ghost p0 = *position;
    let mut pushback = Vec2 { x: 0, y: 0 };
    let mut found = false;
    let mut i: usize = 0;
    let n = colliders.len();
    proof {
        assert(colliders@.skip(0) =~= colliders@);
    }
    while i < n && !found
        invariant
            *position == p0,
            p0.bounded(POSITION_LIMIT as int),
            displacement.bounded(SPEED_LIMIT as int),
            forall|j: int| 0 <= j < colliders@.len() ==> (#[trigger] colliders@[j]).wf(),
            n == colliders@.len(),
            0 <= i <= n,
            pushback.bounded(2 * SPEED_LIMIT as int),
            if found {
                first_pushback(colliders@, p0, *displacement) == pushback
            } else {
                pushback == (Vec2 { x: 0, y: 0 }) && first_pushback(colliders@, p0, *displacement)
                    == first_pushback(colliders@.skip(i as int), p0, *displacement)
            },
        decreases n - i,
    {
        let placed = &colliders[i];
        proof {
            assert(colliders@.skip(i as int)[0] == colliders@[i as int]);
            assert(colliders@.skip(i as int).drop_first() =~= colliders@.skip(i as int + 1));
        }
        match placed.collider.get_pushback(position, displacement, &placed.centre) {
            Some(pb) => {
                pushback = pb;
                found = true;
            },
            None => {},
        }
        i = i + 1;
    }
    position.x = position.x + displacement.x + pushback.x;
    position.y = position.y + displacement.y + pushback.y;
    pushback
}

/// One integration step: sweeps the position by the current velocity and
/// resolves the first collision. On contact, the pushback is added to the
/// velocity (cancelling the component that crossed the collider plane) and
/// the collision normal is reported; with no contact the body is airborne
/// and `None` is returned.
pub fn apply_velocity(
    position: &mut Vec2,
    velocity: &mut Velocity,
    colliders: &Vec<PlacedCollider>,
) -> (collision: Option<Vec2>)
    requires
        old(position).bounded(POSITION_LIMIT as int),
        old(velocity).0.bounded(SPEED_LIMIT as int),
        forall|i: int| 0 <= i < colliders@.len() ==> (#[trigger] colliders@[i]).wf(),
    ensures
        ({
            let pb = first_pushback(colliders@, *old(position), old(velocity).0);
            &&& pb.bounded(2 * SPEED_LIMIT as int)
            &&& final(position).x == old(position).x + old(velocity).0.x + pb.x
            &&& final(position).y == old(position).y + old(velocity).0.y + pb.y
            &&& if pb.is_zero() {
                collision is None && *final(velocity) == *old(velocity)
            } else {
                &&& collision == Some(pb.normalize_spec())
                &&& final(velocity).0.x == old(velocity).0.x + pb.x
                &&& final(velocity).0.y == old(velocity).0.y + pb.y
            }
        }),
{
    let displacement = velocity.0;
    let pushback = displace_and_return_pushback(position, &displacement, colliders);
    if pushback.x == 0 && pushback.y == 0 {
        None
    } else {
        let normal = pushback.normalize_or_zero();
        velocity.0 = Vec2 { x: velocity.0.x + pushback.x, y: velocity.0.y + pushback.y };
        Some(normal)
    }
}

/// Each pushback component `n * k / UNIT^2` stays within twice the speed
/// limit, because `k <= |den| <= 2 * UNIT * SPEED_LIMIT`.
proof fn lemma_pushback_bound(nc: int, k: int)
    requires
        -UNIT <= nc <= UNIT,
        0 <= k <= 2 * (UNIT as int) * (SPEED_LIMIT as int),
    ensures
        absi(muldiv_trunc(nc, k, UNIT as int * UNIT as int)) <= 2 * SPEED_LIMIT,
{
    let u2 = UNIT as int * UNIT as int;
    assert(0 <= absi(nc) * k <= 2 * (SPEED_LIMIT as int) * u2) by (nonlinear_arith)
        requires
            -UNIT <= nc <= UNIT,
            0 <= k <= 2 * (UNIT as int) * (SPEED_LIMIT as int),
            u2 == UNIT as int * UNIT as int,
            UNIT == 1000,
    ;
    vstd::arithmetic::div_mod::lemma_div_is_ordered(absi(nc) * k, 2 * (SPEED_LIMIT as int) * u2, u2);
    vstd::arithmetic::div_mod::lemma_div_by_multiple(2 * (SPEED_LIMIT as int), u2);
    vstd::arithmetic::div_mod::lemma_div_pos_is_pos(absi(nc) * k, u2);
}

} // verus!
