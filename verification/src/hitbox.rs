//! Hitbox shapes and the nearest-pass distance used for hit detection:
//! circle-circle, circle-pill, and pill-pill, with exact 2D segment
//! intersection for the pill cores.

use vstd::prelude::*;

use crate::math::{
    absi, abs64, mul_div_signed, mul_div_wide, muldiv_trunc, vadd, vsub, Vec2, COORD_LIMIT, UNIT,
};

verus! {

/// Bound on any point the geometry handles (a placed shape's endpoint),
/// in fixed-point steps.
pub const GEOM_LIMIT: i64 = 200_000_000;

/// Bound on a shape's radius, in fixed-point steps.
pub const RADIUS_LIMIT: i64 = 1_000_000;

/// Bound on a transform's scale, in fixed-point steps (100 times life size).
pub const SCALE_LIMIT: i64 = 100_000;

/// A shape's placement: where it sits and how it is stretched. The
/// fighters here never rotate their hitboxes, so no rotation is carried.
#[derive(Clone, Copy, Debug, PartialEq, Eq, Structural)]
pub struct Transform2 {
    pub translation: Vec2,
    pub scale: Vec2,
}

impl Transform2 {
    /// What the geometry may handle: a bounded placement with a
    /// nonnegative vertical stretch.
    pub open spec fn wf(self) -> bool {
        &&& self.translation.bounded(crate::physics::POSITION_LIMIT as int)
        &&& -SCALE_LIMIT <= self.scale.x <= SCALE_LIMIT
        &&& 0 <= self.scale.y <= SCALE_LIMIT
    }

    pub fn from_translation(translation: Vec2) -> (r: Self)
        ensures
            r == (Transform2 { translation, scale: Vec2 { x: UNIT, y: UNIT } }),
    {
        Transform2 { translation, scale: Vec2 { x: UNIT, y: UNIT } }
    }
}

/// A hit-detection shape: a circle, or a pill (capsule) with a vertical
/// major axis of half-length `major_radius` and girth `minor_radius`.
#[derive(Clone, Copy, Debug, PartialEq, Eq, Structural)]
pub enum Shape {
    Circle(i64),
    Pill { major_radius: i64, minor_radius: i64 },
}

impl Default for Shape {
    fn default() -> (r: Self)
        ensures
            r == Shape::Circle(UNIT),
    {
        Shape::Circle(UNIT)
    }
}

impl Shape {
    pub open spec fn wf(self) -> bool {
        match self {
            Shape::Circle(r) => 0 <= r <= RADIUS_LIMIT,
            Shape::Pill { major_radius, minor_radius } => 0 <= major_radius <= RADIUS_LIMIT && 0
                <= minor_radius <= RADIUS_LIMIT,
        }
    }
}

/// The signed nearest-pass between two shapes: a representative contact
/// point and the separation, negative when the shapes overlap.
#[derive(Clone, Copy, Debug, PartialEq, Eq, Structural)]
pub struct NearestPass {
    pub midpoint: Vec2,
    pub distance: i64,
}

impl NearestPass {
    /// Overlap means zero or negative separation.
    pub fn is_collision(&self) -> (r: bool)
        ensures
            r == (self.distance <= 0),
    {
        self.distance <= 0
    }

    /// The spec-level mirror of `nearer`: ties keep the left pass.
    pub open spec fn nearer_spec(self, other: Self) -> Self {
        if self.distance <= other.distance {
            self
        } else {
            other
        }
    }

    /// The pass with the smaller separation.
    pub fn nearer(self, other: Self) -> (r: Self)
        ensures
            r == self.nearer_spec(other),
    {
        if self.distance <= other.distance {
            self
        } else {
            other
        }
    }
}

/// A scaled pill length: the raw length stretched by the vertical scale.
pub open spec fn scaled_len(raw: int, sy: int) -> int {
    raw * sy / (UNIT as int)
}

/// The point halfway between two points, components truncated toward zero.
pub open spec fn halfway_spec(a: Vec2, b: Vec2) -> Vec2 {
    Vec2 {
        x: muldiv_trunc(a.x + b.x, 1, 2) as i64,
        y: muldiv_trunc(a.y + b.y, 1, 2) as i64,
    }
}

fn halfway(a: Vec2, b: Vec2) -> (r: Vec2)
    requires
        a.bounded(16 * GEOM_LIMIT as int),
        b.bounded(16 * GEOM_LIMIT as int),
    ensures
        r == halfway_spec(a, b),
        r.bounded(16 * GEOM_LIMIT as int),
{
    let x = mul_div_signed(a.x + b.x, 1, 2);
    let y = mul_div_signed(a.y + b.y, 1, 2);
    proof {
        vstd::arithmetic::div_mod::lemma_div_is_ordered(
            absi(a.x + b.x) * 1,
            32 * GEOM_LIMIT as int,
            2,
        );
        vstd::arithmetic::div_mod::lemma_div_is_ordered(
            absi(a.y + b.y) * 1,
            32 * GEOM_LIMIT as int,
            2,
        );
    }
    Vec2 { x, y }
}

/// The spec-level mirror of `get_pill_geometric_data`: the pill's girth
/// radius and the two endpoints of its core segment, all scaled by the
/// transform's vertical stretch.
pub open spec fn pill_data_spec(major_radius: int, minor_radius: int, t: Transform2) -> (
    int,
    Vec2,
    Vec2,
) {
    let off = scaled_len(major_radius, t.scale.y as int);
    (
        scaled_len(minor_radius, t.scale.y as int),
        Vec2 { x: t.translation.x, y: (t.translation.y + off) as i64 },
        Vec2 { x: t.translation.x, y: (t.translation.y - off) as i64 },
    )
}

/// The pill's scaled girth radius and core-segment endpoints.
pub fn get_pill_geometric_data(major_radius: i64, minor_radius: i64, transform: &Transform2) -> (r:
    (i64, Vec2, Vec2))
    requires
        0 <= major_radius <= RADIUS_LIMIT,
        0 <= minor_radius <= RADIUS_LIMIT,
        transform.wf(),
    ensures
        (r.0 as int, r.1, r.2) == pill_data_spec(major_radius as int, minor_radius as int, *transform),
        0 <= r.0 <= GEOM_LIMIT,
        r.1.bounded(GEOM_LIMIT as int),
        r.2.bounded(GEOM_LIMIT as int),
{
    let sy = transform.scale.y as u64;
    proof {
        assert((major_radius as int) * sy <= i64::MAX && (minor_radius as int) * sy <= i64::MAX)
            by (nonlinear_arith)
            requires
                0 <= major_radius <= RADIUS_LIMIT,
                0 <= minor_radius <= RADIUS_LIMIT,
                0 <= sy <= SCALE_LIMIT,
                RADIUS_LIMIT == 1_000_000 && SCALE_LIMIT == 100_000,
        ;
    }
    let off_u = (major_radius as u64) * sy / (UNIT as u64);
    let rad_u = (minor_radius as u64) * sy / (UNIT as u64);
    proof {
        lemma_scaled_len_bound(major_radius as int, transform.scale.y as int);
        lemma_scaled_len_bound(minor_radius as int, transform.scale.y as int);
    }
    let off = off_u as i64;
    let rad = rad_u as i64;
    (
        rad,
        Vec2 { x: transform.translation.x, y: transform.translation.y + off },
        Vec2 { x: transform.translation.x, y: transform.translation.y - off },
    )
}

/// A radius scaled by a bounded stretch stays within half `GEOM_LIMIT`.
proof fn lemma_scaled_len_bound(raw: int, sy: int)
    requires
        0 <= raw <= RADIUS_LIMIT,
        0 <= sy <= SCALE_LIMIT,
    ensures
        0 <= scaled_len(raw, sy) <= GEOM_LIMIT / 2,
{
    assert(0 <= raw * sy <= (GEOM_LIMIT as int / 2) * (UNIT as int)) by (nonlinear_arith)
        requires
            0 <= raw <= RADIUS_LIMIT,
            0 <= sy <= SCALE_LIMIT,
            RADIUS_LIMIT == 1_000_000 && SCALE_LIMIT == 100_000 && GEOM_LIMIT == 200_000_000
                && UNIT == 1000,
    ;
    vstd::arithmetic::div_mod::lemma_div_pos_is_pos(raw * sy, UNIT as int);
    vstd::arithmetic::div_mod::lemma_div_is_ordered(
        raw * sy,
        (GEOM_LIMIT as int / 2) * (UNIT as int),
        UNIT as int,
    );
    vstd::arithmetic::div_mod::lemma_div_by_multiple(GEOM_LIMIT as int / 2, UNIT as int);
}

/// 2D cross product of two vectors.
pub fn cross_product(v: &Vec2, w: &Vec2) -> (r: i64)
    requires
        v.bounded(COORD_LIMIT as int),
        w.bounded(COORD_LIMIT as int),
    ensures
        r == v.cross_spec(*w),
{
    v.cross(*w)
}

/// The spec-level mirror of `intersection_of_line_segments`: the classic
/// cross-product test, with the collinear-overlap case handled explicitly.
/// A degenerate first segment (both endpoints equal) that is collinear
/// with the second yields no intersection rather than a division by zero.
pub open spec fn seg_intersection_spec(p1: Vec2, p2: Vec2, q1: Vec2, q2: Vec2) -> Option<Vec2> {
    let r = vsub(p2, p1);
    let s = vsub(q2, q1);
    let rxs = r.cross_spec(s);
    let qmp = vsub(q1, p1);
    let qpxr = qmp.cross_spec(r);
    let rr = r.norm2();
    if rxs == 0 && qpxr == 0 {
        if rr == 0 {
            None
        } else {
            let t0 = qmp.dot_spec(r);
            let t1 = vsub(q2, p1).dot_spec(r);
            if 0 <= t0 <= rr {
                Some(
                    Vec2 {
                        x: (p1.x + muldiv_trunc(r.x as int, t0, rr)) as i64,
                        y: (p1.y + muldiv_trunc(r.y as int, t0, rr)) as i64,
                    },
                )
            } else if 0 <= t1 <= rr {
                Some(
                    Vec2 {
                        x: (p1.x + muldiv_trunc(r.x as int, t1, rr)) as i64,
                        y: (p1.y + muldiv_trunc(r.y as int, t1, rr)) as i64,
                    },
                )
            } else if (t0 < 0 && t1 > rr) || (t1 < 0 && t0 > rr) {
                Some(p1)
            } else {
                None
            }
        }
    } else if rxs == 0 {
        None
    } else {
        let tnum = qmp.cross_spec(s);
        let unum = qmp.cross_spec(r);
        let hit = if rxs > 0 {
            0 <= tnum <= rxs && 0 <= unum <= rxs
        } else {
            rxs <= tnum <= 0 && rxs <= unum <= 0
        };
        if hit {
            Some(
                Vec2 {
                    x: (p1.x + muldiv_trunc(r.x as int, absi(tnum), absi(rxs))) as i64,
                    y: (p1.y + muldiv_trunc(r.y as int, absi(tnum), absi(rxs))) as i64,
                },
            )
        } else {
            None
        }
    }
}

/// Where two closed segments intersect, if anywhere: `None` for parallel
/// non-collinear or diverging segments, the earliest overlap point for
/// collinear ones, and the crossing point otherwise.
pub fn intersection_of_line_segments(p1: &Vec2, p2: &Vec2, q1: &Vec2, q2: &Vec2) -> (res: Option<
    Vec2,
>)
    requires
        p1.bounded(GEOM_LIMIT as int),
        p2.bounded(GEOM_LIMIT as int),
        q1.bounded(GEOM_LIMIT as int),
        q2.bounded(GEOM_LIMIT as int),
    ensures
        res == seg_intersection_spec(*p1, *p2, *q1, *q2),
        res matches Some(ip) ==> ip.bounded(3 * GEOM_LIMIT as int),
{
    let p = *p1;
    let r = p2.sub(p);
    let q = *q1;
    let s = q2.sub(q);
    proof {
        crate::math::lemma_dot_cross_bound(r, s, 2 * GEOM_LIMIT as int, 2 * GEOM_LIMIT as int);
    }
    let rxs = r.cross(s);
    let qmp = q.sub(p);
    proof {
        crate::math::lemma_dot_cross_bound(qmp, r, 2 * GEOM_LIMIT as int, 2 * GEOM_LIMIT as int);
        crate::math::lemma_dot_cross_bound(qmp, s, 2 * GEOM_LIMIT as int, 2 * GEOM_LIMIT as int);
        crate::math::lemma_dot_cross_bound(r, r, 2 * GEOM_LIMIT as int, 2 * GEOM_LIMIT as int);
    }
    let qpxr = qmp.cross(r);
    let rr = r.dot(r);
    proof {
        assert(rr == r.norm2());
        assert(rr >= 0) by (nonlinear_arith)
            requires
                rr == r.x * r.x + r.y * r.y,
        ;
    }
    if rxs == 0 && qpxr == 0 {
        if rr == 0 {
            return None;
        }
        let t0 = qmp.dot(r);
        let qsp = q2.sub(p);
        proof {
            crate::math::lemma_dot_cross_bound(qsp, r, 2 * GEOM_LIMIT as int, 2 * GEOM_LIMIT as int);
        }
        let t1 = qsp.dot(r);
        if 0 <= t0 && t0 <= rr {
            let ox = mul_div_wide(r.x, t0 as u64, rr as u64);
            let oy = mul_div_wide(r.y, t0 as u64, rr as u64);
            Some(Vec2 { x: p.x + ox, y: p.y + oy })
        } else if 0 <= t1 && t1 <= rr {
            let ox = mul_div_wide(r.x, t1 as u64, rr as u64);
            let oy = mul_div_wide(r.y, t1 as u64, rr as u64);
            Some(Vec2 { x: p.x + ox, y: p.y + oy })
        } else if (t0 < 0 && t1 > rr) || (t1 < 0 && t0 > rr) {
            Some(p)
        } else {
            None
        }
    } else if rxs == 0 {
        None
    } else {
        let tnum = qmp.cross(s);
        let unum = qmp.cross(r);
        let hit = if rxs > 0 {
            0 <= tnum && tnum <= rxs && 0 <= unum && unum <= rxs
        } else {
            rxs <= tnum && tnum <= 0 && rxs <= unum && unum <= 0
        };
        if hit {
            let atn = abs64(tnum);
            let arx = abs64(rxs);
            let ox = mul_div_wide(r.x, atn, arx);
            let oy = mul_div_wide(r.y, atn, arx);
            Some(Vec2 { x: p.x + ox, y: p.y + oy })
        } else {
            None
        }
    }
}

/// Nearest pass of two circles: centre distance minus both radii. The
/// radii arrive already scaled.
pub open spec fn circle_circle_spec(c1: Vec2, rad1: int, c2: Vec2, rad2: int) -> NearestPass {
    NearestPass {
        midpoint: halfway_spec(c1, c2),
        distance: (vsub(c1, c2).len_spec() - rad1 - rad2) as i64,
    }
}

/// The smaller of two spec-level integers.
pub open spec fn imin(a: int, b: int) -> int {
    if a <= b {
        a
    } else {
        b
    }
}

/// Nearest pass of a circle against a pill: the least of the distances to
/// the pill's two endpoint circles and, when the perpendicular foot lands
/// inside the core segment, the perpendicular distance; minus the circle
/// radius (which enters unscaled here) and the pill's scaled girth.
pub open spec fn circle_pill_spec(
    c: Vec2,
    rad: int,
    major_radius: int,
    minor_radius: int,
    tp: Transform2,
) -> NearestPass {
    let pd = pill_data_spec(major_radius, minor_radius, tp);
    let r2 = pd.0;
    let a = pd.1;
    let b = pd.2;
    let d_a = vsub(c, a).len_spec();
    let d_b = vsub(c, b).len_spec();
    let ba = vsub(b, a);
    let tden = ba.norm2();
    let tnum = vsub(c, a).dot_spec(ba);
    let perp_ok = tden > 0 && 0 <= tnum <= tden;
    let foot = Vec2 {
        x: (a.x + muldiv_trunc(ba.x as int, tnum, tden)) as i64,
        y: (a.y + muldiv_trunc(ba.y as int, tnum, tden)) as i64,
    };
    let perp = vsub(c, foot);
    let d_p = perp.len_spec();
    let dmin = if perp_ok {
        imin(imin(d_a, d_b), d_p)
    } else {
        imin(d_a, d_b)
    };
    let midpoint = if dmin == d_a {
        halfway_spec(a, c)
    } else if dmin == d_b {
        halfway_spec(b, c)
    } else {
        Vec2 {
            x: (c.x - muldiv_trunc(perp.x as int, 1, 2)) as i64,
            y: (c.y - muldiv_trunc(perp.y as int, 1, 2)) as i64,
        }
    };
    NearestPass { midpoint, distance: (dmin - rad - r2) as i64 }
}

/// Scales a raw radius by a vertical stretch.
fn scale_radius(raw: i64, sy: i64) -> (r: i64)
    requires
        0 <= raw <= RADIUS_LIMIT,
        0 <= sy <= SCALE_LIMIT,
    ensures
        r == scaled_len(raw as int, sy as int),
        0 <= r <= GEOM_LIMIT / 2,
{
    proof {
        assert((raw as int) * sy <= i64::MAX) by (nonlinear_arith)
            requires
                0 <= raw <= RADIUS_LIMIT,
                0 <= sy <= SCALE_LIMIT,
                RADIUS_LIMIT == 1_000_000 && SCALE_LIMIT == 100_000,
        ;
        lemma_scaled_len_bound(raw as int, sy as int);
    }
    ((raw as u64) * (sy as u64) / (UNIT as u64)) as i64
}

fn circle_pill_pass(c: Vec2, rad: i64, major_radius: i64, minor_radius: i64, tp: &Transform2) -> (r:
    NearestPass)
    requires
        c.bounded(GEOM_LIMIT as int),
        0 <= rad <= GEOM_LIMIT,
        0 <= major_radius <= RADIUS_LIMIT,
        0 <= minor_radius <= RADIUS_LIMIT,
        tp.wf(),
    ensures
        r == circle_pill_spec(c, rad as int, major_radius as int, minor_radius as int, *tp),
{
    let (rad2, a, b) = get_pill_geometric_data(major_radius, minor_radius, tp);
    let ca = c.sub(a);
    let cb = c.sub(b);
    let d_a = ca.length();
    let d_b = cb.length();
    let ba = b.sub(a);
    proof {
        crate::math::lemma_dot_cross_bound(ba, ba, 2 * GEOM_LIMIT as int, 2 * GEOM_LIMIT as int);
        crate::math::lemma_dot_cross_bound(ca, ba, 2 * GEOM_LIMIT as int, 2 * GEOM_LIMIT as int);
        assert(ba.norm2() >= 0) by (nonlinear_arith);
    }
    let tden = ba.dot(ba);
    let tnum = ca.dot(ba);
    if tden > 0 && 0 <= tnum && tnum <= tden {
        let fx = mul_div_wide(ba.x, tnum as u64, tden as u64);
        let fy = mul_div_wide(ba.y, tnum as u64, tden as u64);
        let foot = Vec2 { x: a.x + fx, y: a.y + fy };
        let perp = c.sub(foot);
        let d_p = perp.length();
        let m1 = if d_a <= d_b {
            d_a
        } else {
            d_b
        };
        let dmin = if m1 <= d_p {
            m1
        } else {
            d_p
        };
        let midpoint = if dmin == d_a {
            halfway(a, c)
        } else if dmin == d_b {
            halfway(b, c)
        } else {
            Vec2 {
                x: c.x - mul_div_signed(perp.x, 1, 2),
                y: c.y - mul_div_signed(perp.y, 1, 2),
            }
        };
        NearestPass { midpoint, distance: dmin - rad - rad2 }
    } else {
        let dmin = if d_a <= d_b {
            d_a
        } else {
            d_b
        };
        let midpoint = if dmin == d_a {
            halfway(a, c)
        } else {
            halfway(b, c)
        };
        NearestPass { midpoint, distance: dmin - rad - rad2 }
    }
}

/// The nearest pass between two placed shapes.
pub open spec fn nearest_pass_spec(s1: Shape, t1: Transform2, s2: Shape, t2: Transform2)
    -> NearestPass {
    match (s1, s2) {
        (Shape::Circle(r1), Shape::Circle(r2)) => circle_circle_spec(
            t1.translation,
            scaled_len(r1 as int, t1.scale.y as int),
            t2.translation,
            scaled_len(r2 as int, t2.scale.y as int),
        ),
        (Shape::Circle(r1), Shape::Pill { major_radius, minor_radius }) => circle_pill_spec(
            t1.translation,
            r1 as int,
            major_radius as int,
            minor_radius as int,
            t2,
        ),
        (Shape::Pill { major_radius, minor_radius }, Shape::Circle(r2)) => circle_pill_spec(
            t2.translation,
            r2 as int,
            major_radius as int,
            minor_radius as int,
            t1,
        ),
        (
            Shape::Pill { major_radius: major_1, minor_radius: minor_1 },
            Shape::Pill { major_radius: major_2, minor_radius: minor_2 },
        ) => {
            let pd1 = pill_data_spec(major_1 as int, minor_1 as int, t1);
            let pd2 = pill_data_spec(major_2 as int, minor_2 as int, t2);
            match seg_intersection_spec(pd1.1, pd1.2, pd2.1, pd2.2) {
                Some(ip) => NearestPass {
                    midpoint: ip,
                    distance: (0 - pd1.0 - pd2.0) as i64,
                },
                None => circle_pill_spec(pd1.1, pd1.0, major_2 as int, minor_2 as int, t2)
                    .nearer_spec(
                    circle_pill_spec(pd1.2, pd1.0, major_2 as int, minor_2 as int, t2),
                ).nearer_spec(
                    circle_pill_spec(pd2.1, pd2.0, major_1 as int, minor_1 as int, t1),
                ).nearer_spec(
                    circle_pill_spec(pd2.2, pd2.0, major_1 as int, minor_1 as int, t1),
                ),
            }
        },
    }
}

impl Shape {
    /// Nearest-pass distance between two placed shapes: circles reduce to
    /// centre distance, pills to segment intersection or four endpoint
    /// sub-problems.
    pub fn nearest_pass(s1: &Self, t1: &Transform2, s2: &Self, t2: &Transform2) -> (r: NearestPass)
        requires
            s1.wf(),
            t1.wf(),
            s2.wf(),
            t2.wf(),
        ensures
            r == nearest_pass_spec(*s1, *t1, *s2, *t2),
    {
        match (s1, s2) {
            (Shape::Circle(r1), Shape::Circle(r2)) => {
                let sr1 = scale_radius(*r1, t1.scale.y);
                let sr2 = scale_radius(*r2, t2.scale.y);
                let p1 = t1.translation;
                let p2 = t2.translation;
                let d = p1.sub(p2);
                NearestPass {
                    midpoint: halfway(p1, p2),
                    distance: d.length() - sr1 - sr2,
                }
            },
            (Shape::Circle(r1), Shape::Pill { major_radius, minor_radius }) => circle_pill_pass(
                t1.translation,
                *r1,
                *major_radius,
                *minor_radius,
                t2,
            ),
            (Shape::Pill { major_radius, minor_radius }, Shape::Circle(r2)) => circle_pill_pass(
                t2.translation,
                *r2,
                *major_radius,
                *minor_radius,
                t1,
            ),
            (
                Shape::Pill { major_radius: major_1, minor_radius: minor_1 },
                Shape::Pill { major_radius: major_2, minor_radius: minor_2 },
            ) => {
                let (r1, a1, b1) = get_pill_geometric_data(*major_1, *minor_1, t1);
                let (r2, a2, b2) = get_pill_geometric_data(*major_2, *minor_2, t2);
                match intersection_of_line_segments(&a1, &b1, &a2, &b2) {
                    Some(intersection) => NearestPass {
                        midpoint: intersection,
                        distance: 0 - r1 - r2,
                    },
                    None => {
                        let x1 = circle_pill_pass(a1, r1, *major_2, *minor_2, t2);
                        let x2 = circle_pill_pass(b1, r1, *major_2, *minor_2, t2);
                        let x3 = circle_pill_pass(a2, r2, *major_1, *minor_1, t1);
                        let x4 = circle_pill_pass(b2, r2, *major_1, *minor_1, t1);
                        x1.nearer(x2).nearer(x3).nearer(x4)
                    },
                }
            },
        }
    }
}

/// What may carry a hitbox through the resolver: a bounded shape placed by
/// a bounded transform.
#[derive(Clone, Copy, Debug, PartialEq, Eq, Structural)]
pub struct PlacedHitbox {
    pub hitbox: Hitbox,
    pub transform: Transform2,
}

impl PlacedHitbox {
    pub open spec fn wf(self) -> bool {
        self.hitbox.shape.wf() && self.transform.wf()
    }
}

/// A hitbox's launch angle, in clockwise millidegrees from 12 o'clock.
#[derive(Clone, Copy, Debug, PartialEq, Eq, Structural)]
pub enum KnockbackAngle {
    Fixed(i64),
}

/// What a hitbox is for: a passive body, or an attack carrying damage in
/// milli-percent and knockback figures in fixed-point steps.
#[derive(Clone, Copy, Debug, PartialEq, Eq, Structural)]
pub enum HitboxPurpose {
    Body,
    Damage { percent: i64, base_knockback: i64, scale_knockback: i64, angle: KnockbackAngle },
}

impl Default for HitboxPurpose {
    fn default() -> (r: Self)
        ensures
            r == HitboxPurpose::Body,
    {
        HitboxPurpose::Body
    }
}

/// A shape with its purpose, attached to an actor's local transform.
#[derive(Clone, Copy, Debug, PartialEq, Eq, Structural)]
pub struct Hitbox {
    pub shape: Shape,
    pub purpose: HitboxPurpose,
}

impl Default for Hitbox {
    fn default() -> (r: Self)
        ensures
            r == (Hitbox { shape: Shape::Circle(UNIT), purpose: HitboxPurpose::Body }),
    {
        Hitbox { shape: Shape::Circle(UNIT), purpose: HitboxPurpose::Body }
    }
}

/// One hitbox collision seen from the struck actor: the other party's
/// hitbox and where it stood.
#[derive(Clone, Copy, Debug, PartialEq, Eq, Structural)]
pub struct HitboxCollision {
    pub other_hitbox: Hitbox,
    pub other_transform: Transform2,
}

/// Bound on a hitbox's offset within its actor's local frame.
pub const LOCAL_OFFSET_LIMIT: i64 = 1_000_000;

/// Bound on an actor's own scale when placing hitboxes.
pub const ACTOR_SCALE_LIMIT: i64 = 10_000;

/// An actor transform composed with a local one: the local translation is
/// stretched by the actor's scale and moved to the actor's position, and
/// the scales multiply.
pub open spec fn compose_transform_spec(origin: Vec2, scale: Vec2, local: Transform2)
    -> Transform2 {
    Transform2 {
        translation: Vec2 {
            x: (origin.x + muldiv_trunc(local.translation.x as int, absi(scale.x as int), UNIT as int)
                * crate::math::sgni(scale.x as int)) as i64,
            y: (origin.y + muldiv_trunc(local.translation.y as int, absi(scale.y as int), UNIT as int)
                * crate::math::sgni(scale.y as int)) as i64,
        },
        scale: Vec2 {
            x: (muldiv_trunc(local.scale.x as int, absi(scale.x as int), UNIT as int)
                * crate::math::sgni(scale.x as int)) as i64,
            y: (muldiv_trunc(local.scale.y as int, absi(scale.y as int), UNIT as int)
                * crate::math::sgni(scale.y as int)) as i64,
        },
    }
}

/// Composes one component pair: `v * s / UNIT` with both signs kept.
fn compose_component(v: i64, s: i64, vbound: i64) -> (r: i64)
    requires
        0 <= vbound,
        -vbound <= v <= vbound,
        -ACTOR_SCALE_LIMIT <= s <= ACTOR_SCALE_LIMIT,
        vbound * ACTOR_SCALE_LIMIT <= i64::MAX,
    ensures
        r == muldiv_trunc(v as int, absi(s as int), UNIT as int) * crate::math::sgni(s as int),
        -(vbound as int) * ACTOR_SCALE_LIMIT / (UNIT as int) <= r <= (vbound as int)
            * ACTOR_SCALE_LIMIT / (UNIT as int),
        0 <= v && 0 <= s ==> 0 <= r,
{
    proof {
        assert(0 <= absi(v as int) * absi(s as int) <= (vbound as int) * (ACTOR_SCALE_LIMIT as int))
            by (nonlinear_arith)
            requires
                -vbound <= v <= vbound,
                -ACTOR_SCALE_LIMIT <= s <= ACTOR_SCALE_LIMIT,
                0 <= vbound,
        ;
        vstd::arithmetic::div_mod::lemma_div_is_ordered(
            absi(v as int) * absi(s as int),
            (vbound as int) * (ACTOR_SCALE_LIMIT as int),
            UNIT as int,
        );
        vstd::arithmetic::div_mod::lemma_div_pos_is_pos(
            absi(v as int) * absi(s as int),
            UNIT as int,
        );
        vstd::arithmetic::div_mod::lemma_div_is_ordered(
            0,
            (vbound as int) * (ACTOR_SCALE_LIMIT as int),
            UNIT as int,
        );
    }
    let m = mul_div_signed(v, abs64(s), UNIT as u64);
    proof {
        lemma_flip_by_sign(s as int, m as int);
        if s == 0 {
            vstd::arithmetic::div_mod::lemma_div_of0(UNIT as int);
            assert(absi(v as int) * absi(0int) == 0) by (nonlinear_arith);
        }
    }
    if s < 0 {
        -m
    } else {
        m
    }
}

/// Folding a sign into an already-computed magnitude ratio.
proof fn lemma_flip_by_sign(sx: int, m: int)
    by (nonlinear_arith)
    requires
        i64::MIN < m <= i64::MAX,
    ensures
        sx < 0 ==> crate::math::sgni(sx) * m == -m,
        sx > 0 ==> crate::math::sgni(sx) * m == m,
        sx == 0 ==> crate::math::sgni(sx) * m == 0,
{
}

/// Places an actor's local hitboxes in the world: each local transform is
/// composed with the actor's position and scale, shapes and purposes kept.
pub fn place_hitboxes(origin: Vec2, scale: Vec2, boxes: &Vec<PlacedHitbox>) -> (r: Vec<
    PlacedHitbox,
>)
    requires
        origin.bounded(crate::physics::POSITION_LIMIT as int / 2),
        -ACTOR_SCALE_LIMIT <= scale.x <= ACTOR_SCALE_LIMIT,
        0 <= scale.y <= ACTOR_SCALE_LIMIT,
        forall|i: int|
            0 <= i < boxes@.len() ==> (#[trigger] boxes@[i]).hitbox.shape.wf() && boxes@[i].transform.translation.bounded(
                LOCAL_OFFSET_LIMIT as int,
            ) && -UNIT * 10 <= boxes@[i].transform.scale.x <= UNIT * 10 && 0
                <= boxes@[i].transform.scale.y <= UNIT * 10,
    ensures
        r@.len() == boxes@.len(),
        forall|i: int|
            0 <= i < boxes@.len() ==> (#[trigger] r@[i]) == (PlacedHitbox {
                hitbox: boxes@[i].hitbox,
                transform: compose_transform_spec(origin, scale, boxes@[i].transform),
            }),
        forall|i: int| 0 <= i < r@.len() ==> (#[trigger] r@[i]).wf(),
{
    let mut out: Vec<PlacedHitbox> = Vec::new();
    let n = boxes.len();
    let mut i: usize = 0;
    while i < n
        invariant
            n == boxes@.len(),
            0 <= i <= n,
            origin.bounded(crate::physics::POSITION_LIMIT as int / 2),
            -ACTOR_SCALE_LIMIT <= scale.x <= ACTOR_SCALE_LIMIT,
            0 <= scale.y <= ACTOR_SCALE_LIMIT,
            forall|j: int|
                0 <= j < boxes@.len() ==> (#[trigger] boxes@[j]).hitbox.shape.wf()
                    && boxes@[j].transform.translation.bounded(LOCAL_OFFSET_LIMIT as int) && -UNIT
                    * 10 <= boxes@[j].transform.scale.x <= UNIT * 10 && 0
                    <= boxes@[j].transform.scale.y <= UNIT * 10,
            out@.len() == i,
            forall|j: int|
                0 <= j < i ==> (#[trigger] out@[j]) == (PlacedHitbox {
                    hitbox: boxes@[j].hitbox,
                    transform: compose_transform_spec(origin, scale, boxes@[j].transform),
                }),
            forall|j: int| 0 <= j < i ==> (#[trigger] out@[j]).wf(),
        decreases n - i,
    {
        let b = &boxes[i];
        let tx = compose_component(b.transform.translation.x, scale.x, LOCAL_OFFSET_LIMIT);
        let ty = compose_component(b.transform.translation.y, scale.y, LOCAL_OFFSET_LIMIT);
        let sx = compose_component(b.transform.scale.x, scale.x, UNIT * 10);
        let sy = compose_component(b.transform.scale.y, scale.y, UNIT * 10);
        let placed = PlacedHitbox {
            hitbox: b.hitbox,
            transform: Transform2 {
                translation: Vec2 { x: origin.x + tx, y: origin.y + ty },
                scale: Vec2 { x: sx, y: sy },
            },
        };
        out.push(placed);
        i = i + 1;
    }
    out
}

/// The pass between member `i` of one group and member `j` of the other.
pub open spec fn pair_pass(g1: Seq<PlacedHitbox>, g2: Seq<PlacedHitbox>, i: int, j: int)
    -> NearestPass {
    nearest_pass_spec(g1[i].hitbox.shape, g1[i].transform, g2[j].hitbox.shape, g2[j].transform)
}

/// Tests two actors' hitbox groups against each other, pairwise, and
/// returns a deepest overlapping pass, or `None` when no pair overlaps.
/// Groups of the same actor are never handed to this.
pub fn detect_hitbox_overlaps(g1: &Vec<PlacedHitbox>, g2: &Vec<PlacedHitbox>) -> (r: Option<
    NearestPass,
>)
    requires
        forall|i: int| 0 <= i < g1@.len() ==> (#[trigger] g1@[i]).wf(),
        forall|j: int| 0 <= j < g2@.len() ==> (#[trigger] g2@[j]).wf(),
    ensures
        match r {
            None => forall|i: int, j: int|
                0 <= i < g1@.len() && 0 <= j < g2@.len() ==> (#[trigger] pair_pass(
                    g1@,
                    g2@,
                    i,
                    j,
                )).distance > 0,
            Some(best) => {
                &&& best.distance <= 0
                &&& exists|i: int, j: int|
                    0 <= i < g1@.len() && 0 <= j < g2@.len() && #[trigger] pair_pass(g1@, g2@, i, j)
                        == best
                &&& forall|i: int, j: int|
                    0 <= i < g1@.len() && 0 <= j < g2@.len() ==> best.distance <= (
                    #[trigger] pair_pass(g1@, g2@, i, j)).distance
            },
        },
{
    let mut best: Option<NearestPass> = None;
    let n1 = g1.len();
    let n2 = g2.len();
    let mut i: usize = 0;
    while i < n1
        invariant
            n1 == g1@.len(),
            n2 == g2@.len(),
            0 <= i <= n1,
            forall|k: int| 0 <= k < g1@.len() ==> (#[trigger] g1@[k]).wf(),
            forall|k: int| 0 <= k < g2@.len() ==> (#[trigger] g2@[k]).wf(),
            match best {
                None => forall|a: int, b: int|
                    0 <= a < i && 0 <= b < n2 ==> (#[trigger] pair_pass(g1@, g2@, a, b)).distance
                        > 0,
                Some(p) => {
                    &&& p.distance <= 0
                    &&& exists|a: int, b: int|
                        0 <= a < i && 0 <= b < n2 && #[trigger] pair_pass(g1@, g2@, a, b) == p
                    &&& forall|a: int, b: int|
                        0 <= a < i && 0 <= b < n2 ==> p.distance <= (#[trigger] pair_pass(
                            g1@,
                            g2@,
                            a,
                            b,
                        )).distance
                },
            },
        decreases n1 - i,
    {
        let mut j: usize = 0;
        while j < n2
            invariant
                n1 == g1@.len(),
                n2 == g2@.len(),
                0 <= i < n1,
                0 <= j <= n2,
                forall|k: int| 0 <= k < g1@.len() ==> (#[trigger] g1@[k]).wf(),
                forall|k: int| 0 <= k < g2@.len() ==> (#[trigger] g2@[k]).wf(),
                match best {
                    None => forall|a: int, b: int|
                        (0 <= a < i && 0 <= b < n2) || (a == i && 0 <= b < j) ==> (
                        #[trigger] pair_pass(g1@, g2@, a, b)).distance > 0,
                    Some(p) => {
                        &&& p.distance <= 0
                        &&& exists|a: int, b: int|
                            ((0 <= a < i && 0 <= b < n2) || (a == i && 0 <= b < j))
                                && #[trigger] pair_pass(g1@, g2@, a, b) == p
                        &&& forall|a: int, b: int|
                            (0 <= a < i && 0 <= b < n2) || (a == i && 0 <= b < j) ==> p.distance
                                <= (#[trigger] pair_pass(g1@, g2@, a, b)).distance
                    },
                },
            decreases n2 - j,
        {
            let h1 = &g1[i];
            let h2 = &g2[j];
            let pass = Shape::nearest_pass(&h1.hitbox.shape, &h1.transform, &h2.hitbox.shape, &h2.transform);
            let collides = pass.is_collision();
            if collides {
                match best {
                    None => {
                        best = Some(pass);
                    },
                    Some(p) => {
                        if pass.distance < p.distance {
                            best = Some(pass);
                        }
                    },
                }
            }
            proof {
                assert(pair_pass(g1@, g2@, i as int, j as int) == pass);
            }
            j = j + 1;
        }
        i = i + 1;
    }
    best
}

/// Whether any pair across two groups overlaps.
pub open spec fn groups_collide(g1: Seq<PlacedHitbox>, g2: Seq<PlacedHitbox>) -> bool {
    exists|a: int, b: int|
        0 <= a < g1.len() && 0 <= b < g2.len() && (#[trigger] pair_pass(g1, g2, a, b)).distance <= 0
}

/// Whether the report holds an entry for the actor pair `(a, b)`.
pub open spec fn reports_pair(r: Seq<(usize, usize, NearestPass)>, a: int, b: int) -> bool {
    exists|k: int| 0 <= k < r.len() && (#[trigger] r[k]).0 == a && r[k].1 == b
}

/// Appending an entry keeps every reported pair reported, and reports the
/// appended one.
proof fn lemma_reports_pair_push(
    r: Seq<(usize, usize, NearestPass)>,
    e: (usize, usize, NearestPass),
    a: int,
    b: int,
)
    ensures
        reports_pair(r, a, b) ==> reports_pair(r.push(e), a, b),
        e.0 == a && e.1 == b ==> reports_pair(r.push(e), a, b),
{
    if reports_pair(r, a, b) {
        let k = choose|k: int| 0 <= k < r.len() && (#[trigger] r[k]).0 == a && r[k].1 == b;
        assert(r.push(e)[k] == r[k]);
        assert(reports_pair(r.push(e), a, b));
    }
    if e.0 == a && e.1 == b {
        assert(r.push(e)[r.len() as int] == e);
        assert(reports_pair(r.push(e), a, b));
    }
}

/// Tests every pair of distinct actors' hitbox groups against each other —
/// never a group against its own actor's — and reports, for each colliding
/// pair of actors, a deepest overlapping pass. The result holds exactly
/// the actor pairs `i < j` whose groups overlap.
pub fn detect_overlaps_between_actors(groups: &Vec<Vec<PlacedHitbox>>) -> (r: Vec<
    (usize, usize, NearestPass),
>)
    requires
        forall|i: int, k: int|
            0 <= i < groups@.len() && 0 <= k < groups@[i]@.len() ==> (#[trigger] groups@[i]@[k]).wf(),
    ensures
        forall|k: int|
            0 <= k < r@.len() ==> {
                let (i, j, p) = #[trigger] r@[k];
                &&& 0 <= i < j < groups@.len()
                &&& p.distance <= 0
                &&& exists|a: int, b: int|
                    0 <= a < groups@[i as int]@.len() && 0 <= b < groups@[j as int]@.len()
                        && #[trigger] pair_pass(groups@[i as int]@, groups@[j as int]@, a, b) == p
                &&& forall|a: int, b: int|
                    0 <= a < groups@[i as int]@.len() && 0 <= b < groups@[j as int]@.len()
                        ==> p.distance <= (#[trigger] pair_pass(
                        groups@[i as int]@,
                        groups@[j as int]@,
                        a,
                        b,
                    )).distance
            },
        forall|i: int, j: int|
            0 <= i < j < groups@.len() && #[trigger] groups_collide(groups@[i]@, groups@[j]@)
                ==> reports_pair(r@, i, j),
{
    let mut r: Vec<(usize, usize, NearestPass)> = Vec::new();
    let n = groups.len();
    let mut i: usize = 0;
    while i < n
        invariant
            n == groups@.len(),
            0 <= i <= n,
            forall|a: int, k: int|
                0 <= a < groups@.len() && 0 <= k < groups@[a]@.len() ==> (#[trigger] groups@[a]@[k]).wf(),
            forall|k: int|
                0 <= k < r@.len() ==> {
                    let (a, b, p) = #[trigger] r@[k];
                    &&& 0 <= a < b < groups@.len()
                    &&& p.distance <= 0
                    &&& exists|x: int, y: int|
                        0 <= x < groups@[a as int]@.len() && 0 <= y < groups@[b as int]@.len()
                            && #[trigger] pair_pass(groups@[a as int]@, groups@[b as int]@, x, y)
                            == p
                    &&& forall|x: int, y: int|
                        0 <= x < groups@[a as int]@.len() && 0 <= y < groups@[b as int]@.len()
                            ==> p.distance <= (#[trigger] pair_pass(
                            groups@[a as int]@,
                            groups@[b as int]@,
                            x,
                            y,
                        )).distance
                },
            forall|a: int, b: int|
                0 <= a < b < groups@.len() && a < i && #[trigger] groups_collide(
                    groups@[a]@,
                    groups@[b]@,
                ) ==> reports_pair(r@, a, b),
        decreases n - i,
    {
        let mut j: usize = i + 1;
        while j < n
            invariant
                n == groups@.len(),
                0 <= i < n,
                i < j <= n,
                forall|a: int, k: int|
                    0 <= a < groups@.len() && 0 <= k < groups@[a]@.len() ==> (
                    #[trigger] groups@[a]@[k]).wf(),
                forall|k: int|
                    0 <= k < r@.len() ==> {
                        let (a, b, p) = #[trigger] r@[k];
                        &&& 0 <= a < b < groups@.len()
                        &&& p.distance <= 0
                        &&& exists|x: int, y: int|
                            0 <= x < groups@[a as int]@.len() && 0 <= y < groups@[b as int]@.len()
                                && #[trigger] pair_pass(
                                groups@[a as int]@,
                                groups@[b as int]@,
                                x,
                                y,
                            ) == p
                        &&& forall|x: int, y: int|
                            0 <= x < groups@[a as int]@.len() && 0 <= y < groups@[b as int]@.len()
                                ==> p.distance <= (#[trigger] pair_pass(
                                groups@[a as int]@,
                                groups@[b as int]@,
                                x,
                                y,
                            )).distance
                    },
                forall|a: int, b: int|
                    0 <= a < b < groups@.len() && (a < i || (a == i && b < j))
                        && #[trigger] groups_collide(groups@[a]@, groups@[b]@) ==> reports_pair(
                        r@,
                        a,
                        b,
                    ),
            decreases n - j,
        {
            match detect_hitbox_overlaps(&groups[i], &groups[j]) {
                Some(pass) => {
                    let ghost old_r = r@;
                    r.push((i, j, pass));
                    proof {
                        assert(r@ == old_r.push((i, j, pass)));
                        assert(forall|k: int| 0 <= k < old_r.len() ==> #[trigger] r@[k] == old_r[k]);
                        assert forall|a: int, b: int| reports_pair(old_r, a, b) || (a == i && b
                            == j) implies #[trigger] reports_pair(r@, a, b) by {
                            lemma_reports_pair_push(old_r, (i, j, pass), a, b);
                        }
                    }
                },
                None => {
                    proof {
                        assert(!groups_collide(groups@[i as int]@, groups@[j as int]@));
                    }
                },
            }
            j = j + 1;
        }
        i = i + 1;
    }
    r
}

} // verus!
