//! Fixed-point scalar and 2D vector arithmetic.
//!
//! One world unit is `UNIT` (1000) fixed-point steps; a stick axis ranges
//! over [-UNIT, UNIT]. Euclidean lengths are computed with an exact integer
//! square root (rounded down), so all geometry below is deterministic.

use vstd::prelude::*;

verus! {

/// Fixed-point steps per world unit.
pub const UNIT: i64 = 1000;

/// Bound on any coordinate handled by the geometry routines, in fixed-point
/// steps. Wide enough for a whole stage; narrow enough that squared sums of
/// differences of coordinates stay well inside `i64`.
pub const COORD_LIMIT: i64 = 1_000_000_000;

/// Absolute value of a mathematical integer.
pub open spec fn absi(a: int) -> int {
    if a < 0 {
        -a
    } else {
        a
    }
}

/// Sign (-1, 0 or 1) of a mathematical integer.
pub open spec fn sgni(a: int) -> int {
    if a < 0 {
        -1
    } else if a == 0 {
        0
    } else {
        1
    }
}

/// The largest integer no greater than `k` whose square is at most `n`.
pub open spec fn sqrt_upto(n: nat, k: nat) -> nat
    decreases k,
{
    if k == 0 {
        0
    } else if k * k <= n {
        k
    } else {
        sqrt_upto(n, (k - 1) as nat)
    }
}

/// The integer square root of `n`, rounded down.
pub open spec fn sqrt_floor(n: nat) -> nat {
    sqrt_upto(n, n)
}

proof fn lemma_sqrt_upto_bounds(n: nat, k: nat)
    ensures
        sqrt_upto(n, k) * sqrt_upto(n, k) <= n,
        forall|j: nat| j <= k && #[trigger] (j * j) <= n ==> j <= sqrt_upto(n, k),
    decreases k,
{
    if k == 0 {
    } else if k * k <= n {
    } else {
        lemma_sqrt_upto_bounds(n, (k - 1) as nat);
        assert forall|j: nat| j <= k && #[trigger] (j * j) <= n implies j <= sqrt_upto(n, k) by {
            if j == k {
                assert(false);
            }
        }
    }
}

/// `sqrt_floor(n)` is the unique `r` with `r * r <= n < (r + 1) * (r + 1)`.
pub proof fn lemma_sqrt_floor_is(n: nat, r: nat)
    requires
        r * r <= n,
        n < (r + 1) * (r + 1),
    ensures
        sqrt_floor(n) == r,
{
    lemma_sqrt_upto_bounds(n, n);
    assert(r <= n) by (nonlinear_arith)
        requires
            r * r <= n,
    ;
    assert(sqrt_floor(n) < r + 1) by (nonlinear_arith)
        requires
            sqrt_floor(n) * sqrt_floor(n) <= n,
            n < (r + 1) * (r + 1),
    ;
}

/// Basic growth facts about `sqrt_floor`, stated where callers need them.
pub proof fn lemma_sqrt_floor_bounds(n: nat)
    ensures
        sqrt_floor(n) * sqrt_floor(n) <= n,
        n < (sqrt_floor(n) + 1) * (sqrt_floor(n) + 1),
        sqrt_floor(n) <= n,
{
    lemma_sqrt_upto_bounds(n, n);
    let r = sqrt_floor(n);
    assert(r <= n) by (nonlinear_arith)
        requires
            r * r <= n,
    ;
    if n < (r + 1) * (r + 1) {
    } else {
        assert((r + 1) * (r + 1) <= n);
        assert(r + 1 <= n) by (nonlinear_arith)
            requires
                (r + 1) * (r + 1) <= n,
        ;
        assert(false);
    }
}

/// Magnitude of an `i64`, as a `u64`.
pub fn abs64(a: i64) -> (r: u64)
    ensures
        r == absi(a as int),
{
    if a < 0 {
        if a == i64::MIN {
            0x8000_0000_0000_0000u64
        } else {
            (-a) as u64
        }
    } else {
        a as u64
    }
}

/// Integer square root, rounded down.
pub fn isqrt(n: u64) -> (r: u64)
    requires
        n < 0x4000_0000_0000_0000,
    ensures
        r == sqrt_floor(n as nat),
        r * r <= n,
        n < (r + 1) * (r + 1),
{
    let mut lo: u64 = 0;
    let mut hi: u64 = 0x8000_0000;
    assert(hi * hi > n) by (nonlinear_arith)
        requires
            hi == 0x8000_0000u64,
            n < 0x4000_0000_0000_0000,
    ;
    while lo + 1 < hi
        invariant
            lo < hi <= 0x8000_0000,
            lo * lo <= n,
            n < hi * hi,
        decreases hi - lo,
    {
        let mid = lo + (hi - lo) / 2;
        assert(lo < mid < hi);
        assert(mid * mid <= 0x4000_0000_0000_0000) by (nonlinear_arith)
            requires
                0 <= mid <= 0x8000_0000u64,
        ;
        if mid * mid <= n {
            lo = mid;
        } else {
            hi = mid;
        }
    }
    proof {
        lemma_sqrt_floor_is(n as nat, lo as nat);
    }
    lo
}

/// `v * num / den` with the quotient truncated toward zero, so the result
/// keeps the sign of `v` and never grows past the exact quotient.
pub open spec fn muldiv_trunc(v: int, num: int, den: int) -> int {
    sgni(v) * ((absi(v) * num) / den)
}

/// Scales `v` by the ratio `num / den`, truncating toward zero.
pub fn mul_div_signed(v: i64, num: u64, den: u64) -> (r: i64)
    requires
        0 < den,
        absi(v as int) * num <= i64::MAX,
    ensures
        r as int == muldiv_trunc(v as int, num as int, den as int),
        absi(r as int) <= absi(v as int) * num / (den as int),
        v == 0 ==> r == 0,
{
    let a = abs64(v);
    let m = a * num;
    let q = m / den;
    proof {
        vstd::arithmetic::div_mod::lemma_div_is_ordered(0, m as int, den as int);
        vstd::arithmetic::div_mod::lemma_div_nonincreasing(m as int, den as int);
    }
    if v < 0 {
        -(q as i64)
    } else {
        q as i64
    }
}

/// Scales `v` by the proper fraction `num / den`, truncating toward zero.
/// The product is taken at 128 bits, so only the fraction must be proper.
pub fn mul_div_wide(v: i64, num: u64, den: u64) -> (r: i64)
    requires
        0 < den,
        num <= den,
        v > i64::MIN,
    ensures
        r as int == muldiv_trunc(v as int, num as int, den as int),
        absi(r as int) <= absi(v as int),
        v == 0 ==> r == 0,
{
    let a = abs64(v);
    proof {
        assert((a as int) * (num as int) <= u128::MAX) by (nonlinear_arith)
            requires
                0 <= a <= u64::MAX,
                0 <= num <= u64::MAX,
        ;
    }
    let m = (a as u128) * (num as u128);
    let q128 = m / (den as u128);
    proof {
        assert((a as int) * (num as int) <= (a as int) * (den as int)) by (nonlinear_arith)
            requires
                num <= den,
                0 <= a,
        ;
        vstd::arithmetic::div_mod::lemma_div_is_ordered(
            (a as int) * (num as int),
            (a as int) * (den as int),
            den as int,
        );
        vstd::arithmetic::div_mod::lemma_div_by_multiple(a as int, den as int);
        vstd::arithmetic::div_mod::lemma_div_pos_is_pos((a as int) * (num as int), den as int);
    }
    let q = q128 as u64;
    if v < 0 {
        -(q as i64)
    } else {
        q as i64
    }
}

/// A full turn, half turn and quarter turn, in millidegrees.
pub const FULL_TURN_MDEG: i64 = 360_000;

pub const HALF_TURN_MDEG: i64 = 180_000;

pub const QUARTER_TURN_MDEG: i64 = 90_000;

/// The sine of an angle in `[0, 180_000]` millidegrees, in fixed-point
/// steps, by the classic rational approximation
/// `4 x (180 - x) / (40500 - x (180 - x))` (exact at 0, 90 and 180
/// degrees, within 2 steps elsewhere). This closed form keeps the whole
/// computation in integers.
pub open spec fn sin_half_spec(x: int) -> int {
    let m = x * (HALF_TURN_MDEG - x);
    4000 * m / (40_500_000_000 - m)
}

/// The sine of an angle in `[0, 360_000)` millidegrees, in fixed-point
/// steps.
pub open spec fn sin_mdeg_spec(x: int) -> int {
    if x <= HALF_TURN_MDEG {
        sin_half_spec(x)
    } else {
        -sin_half_spec(x - HALF_TURN_MDEG)
    }
}

/// The cosine of the same, a quarter turn ahead of the sine.
pub open spec fn cos_mdeg_spec(x: int) -> int {
    sin_mdeg_spec((x + QUARTER_TURN_MDEG) % (FULL_TURN_MDEG as int))
}

/// Sine over one positive half turn.
fn sin_half(x: i64) -> (r: i64)
    requires
        0 <= x <= HALF_TURN_MDEG,
    ensures
        r == sin_half_spec(x as int),
        0 <= r <= 1000,
{
    proof {
        assert((x as int) * (HALF_TURN_MDEG - x) <= 8_100_000_000 && 0 <= (x as int) * (
        HALF_TURN_MDEG - x)) by (nonlinear_arith)
            requires
                0 <= x <= HALF_TURN_MDEG,
                HALF_TURN_MDEG == 180_000,
        ;
    }
    let m = (x as u64) * ((HALF_TURN_MDEG - x) as u64);
    let num = 4000 * m;
    let den = 40_500_000_000 - m;
    let q = num / den;
    proof {
        assert(4000 * (m as int) <= 4 * (m as int) * (40_500_000_000 - (m as int)) || m == 0)
            by (nonlinear_arith)
            requires
                0 <= m <= 8_100_000_000,
        ;
        if m == 0 {
            assert(q == 0) by {
                vstd::arithmetic::div_mod::lemma_div_pos_is_pos(num as int, den as int);
                vstd::arithmetic::div_mod::lemma_div_is_ordered(0, 0, den as int);
            }
        } else {
            assert((4 * (m as int) * (den as int)) / (den as int) == 4 * m) by {
                vstd::arithmetic::div_mod::lemma_div_by_multiple(4 * (m as int), den as int);
                assert(4 * (m as int) * (den as int) == (4 * (m as int)) * (den as int))
                    by (nonlinear_arith);
            }
            vstd::arithmetic::div_mod::lemma_div_is_ordered(
                num as int,
                4 * (m as int) * (den as int),
                den as int,
            );
            assert(q <= 4 * m);
        }
        vstd::arithmetic::div_mod::lemma_div_pos_is_pos(num as int, den as int);
        lemma_sin_half_range(m as int);
    }
    q as i64
}

/// The rational sine stays within one fixed-point unit.
proof fn lemma_sin_half_range(m: int)
    requires
        0 <= m <= 8_100_000_000,
    ensures
        0 <= 4000 * m / (40_500_000_000 - m) <= 1000,
{
    let den = 40_500_000_000 - m;
    assert(4000 * m <= 1000 * den) by (nonlinear_arith)
        requires
            0 <= m <= 8_100_000_000,
            den == 40_500_000_000 - m,
    ;
    vstd::arithmetic::div_mod::lemma_div_is_ordered(4000 * m, 1000 * den, den);
    vstd::arithmetic::div_mod::lemma_div_by_multiple(1000, den);
    vstd::arithmetic::div_mod::lemma_div_pos_is_pos(4000 * m, den);
}

/// Sine of an angle in millidegrees, in fixed-point steps.
pub fn sin_mdeg(x: i64) -> (r: i64)
    requires
        0 <= x < FULL_TURN_MDEG,
    ensures
        r == sin_mdeg_spec(x as int),
        -1000 <= r <= 1000,
{
    if x <= HALF_TURN_MDEG {
        sin_half(x)
    } else {
        -sin_half(x - HALF_TURN_MDEG)
    }
}

/// Cosine of an angle in millidegrees, in fixed-point steps.
pub fn cos_mdeg(x: i64) -> (r: i64)
    requires
        0 <= x < FULL_TURN_MDEG,
    ensures
        r == cos_mdeg_spec(x as int),
        -1000 <= r <= 1000,
{
    let y = x + QUARTER_TURN_MDEG;
    let y = if y >= FULL_TURN_MDEG {
        proof {
            assert((y as int) % (FULL_TURN_MDEG as int) == y - FULL_TURN_MDEG) by {
                vstd::arithmetic::div_mod::lemma_mod_multiples_vanish(
                    1,
                    y - FULL_TURN_MDEG,
                    FULL_TURN_MDEG as int,
                );
                vstd::arithmetic::div_mod::lemma_small_mod(
                    (y - FULL_TURN_MDEG) as nat,
                    FULL_TURN_MDEG as nat,
                );
            }
        }
        y - FULL_TURN_MDEG
    } else {
        proof {
            vstd::arithmetic::div_mod::lemma_small_mod(y as nat, FULL_TURN_MDEG as nat);
        }
        y
    };
    sin_mdeg(y)
}

/// A 2D vector in fixed-point steps.
#[derive(Clone, Copy, Debug, PartialEq, Eq, Structural)]
pub struct Vec2 {
    pub x: i64,
    pub y: i64,
}

impl Vec2 {
    /// Squared Euclidean norm, as a mathematical integer.
    pub open spec fn norm2(self) -> int {
        self.x * self.x + self.y * self.y
    }

    /// Both components within [-b, b].
    pub open spec fn bounded(self, b: int) -> bool {
        -b <= self.x <= b && -b <= self.y <= b
    }

    /// Euclidean length rounded down, as a mathematical integer.
    pub open spec fn len_spec(self) -> int {
        sqrt_floor(self.norm2() as nat) as int
    }

    pub fn new(x: i64, y: i64) -> (v: Self)
        ensures
            v == (Vec2 { x, y }),
    {
        Vec2 { x, y }
    }

    pub fn zero() -> (v: Self)
        ensures
            v == (Vec2 { x: 0, y: 0 }),
    {
        Vec2 { x: 0, y: 0 }
    }

    pub open spec fn is_zero(self) -> bool {
        self.x == 0 && self.y == 0
    }

    /// Euclidean length, rounded down to a whole fixed-point step.
    pub fn length(self) -> (r: i64)
        requires
            self.bounded(COORD_LIMIT as int),
        ensures
            r == self.len_spec(),
            0 <= r <= 2 * COORD_LIMIT,
    {
        proof {
            lemma_norm2_bound(self, COORD_LIMIT as int);
        }
        let ax = abs64(self.x);
        let ay = abs64(self.y);
        let xx = ax * ax;
        let yy = ay * ay;
        let r = isqrt(xx + yy);
        proof {
            assert(xx + yy == self.norm2());
            assert(r <= 2 * COORD_LIMIT) by (nonlinear_arith)
                requires
                    r * r <= 2 * (COORD_LIMIT as int) * (COORD_LIMIT as int),
                    r >= 0,
            ;
        }
        r as i64
    }

    pub fn add(self, other: Self) -> (r: Self)
        requires
            self.x + other.x <= i64::MAX,
            self.x + other.x >= i64::MIN,
            self.y + other.y <= i64::MAX,
            self.y + other.y >= i64::MIN,
        ensures
            r.x == self.x + other.x,
            r.y == self.y + other.y,
    {
        Vec2 { x: self.x + other.x, y: self.y + other.y }
    }

    pub fn sub(self, other: Self) -> (r: Self)
        requires
            self.x - other.x <= i64::MAX,
            self.x - other.x >= i64::MIN,
            self.y - other.y <= i64::MAX,
            self.y - other.y >= i64::MIN,
        ensures
            r.x == self.x - other.x,
            r.y == self.y - other.y,
    {
        Vec2 { x: self.x - other.x, y: self.y - other.y }
    }

    /// Dot product, as a mathematical integer.
    pub open spec fn dot_spec(self, other: Self) -> int {
        self.x * other.x + self.y * other.y
    }

    pub fn dot(self, other: Self) -> (r: i64)
        requires
            self.bounded(COORD_LIMIT as int),
            other.bounded(COORD_LIMIT as int),
        ensures
            r == self.dot_spec(other),
    {
        proof {
            lemma_prod_bound(self.x as int, other.x as int, COORD_LIMIT as int);
            lemma_prod_bound(self.y as int, other.y as int, COORD_LIMIT as int);
        }
        self.x * other.x + self.y * other.y
    }

    /// The spec-level mirror of `normalize_or_zero`: the zero vector stays
    /// zero, anything else is scaled to length UNIT, rounded toward zero.
    pub open spec fn normalize_spec(self) -> Vec2 {
        if self.is_zero() {
            Vec2 { x: 0, y: 0 }
        } else {
            Vec2 {
                x: muldiv_trunc(self.x as int, UNIT as int, self.len_spec()) as i64,
                y: muldiv_trunc(self.y as int, UNIT as int, self.len_spec()) as i64,
            }
        }
    }

    /// Scales the vector to (roughly) unit length; the zero vector is left
    /// alone rather than producing a division by zero.
    pub fn normalize_or_zero(self) -> (r: Vec2)
        requires
            self.bounded(COORD_LIMIT as int),
        ensures
            r == self.normalize_spec(),
            r.bounded(UNIT as int),
    {
        if self.x == 0 && self.y == 0 {
            return Vec2 { x: 0, y: 0 };
        }
        let len = self.length();
        proof {
            lemma_len_ge_components(self);
            if len == 0 {
                assert(absi(self.x as int) == 0 && absi(self.y as int) == 0);
                assert(false);
            }
            assert(absi(self.x as int) * (UNIT as int) <= i64::MAX) by (nonlinear_arith)
                requires
                    0 <= absi(self.x as int) <= COORD_LIMIT,
                    UNIT == 1000 && COORD_LIMIT == 1_000_000_000,
            ;
            assert(absi(self.y as int) * (UNIT as int) <= i64::MAX) by (nonlinear_arith)
                requires
                    0 <= absi(self.y as int) <= COORD_LIMIT,
                    UNIT == 1000 && COORD_LIMIT == 1_000_000_000,
            ;
            lemma_muldiv_le(absi(self.x as int), UNIT as int, len as int);
            lemma_muldiv_le(absi(self.y as int), UNIT as int, len as int);
        }
        let rx = mul_div_signed(self.x, UNIT as u64, len as u64);
        let ry = mul_div_signed(self.y, UNIT as u64, len as u64);
        Vec2 { x: rx, y: ry }
    }

    /// 2D cross product (z component of the 3D cross product).
    pub open spec fn cross_spec(self, other: Self) -> int {
        self.x * other.y - self.y * other.x
    }

    pub fn cross(self, other: Self) -> (r: i64)
        requires
            self.bounded(COORD_LIMIT as int),
            other.bounded(COORD_LIMIT as int),
        ensures
            r == self.cross_spec(other),
    {
        proof {
            lemma_prod_bound(self.x as int, other.y as int, COORD_LIMIT as int);
            lemma_prod_bound(self.y as int, other.x as int, COORD_LIMIT as int);
        }
        self.x * other.y - self.y * other.x
    }
}

/// A vector's length bounds the magnitude of each of its components.
pub proof fn lemma_len_ge_components(v: Vec2)
    ensures
        absi(v.x as int) <= v.len_spec(),
        absi(v.y as int) <= v.len_spec(),
        0 <= v.len_spec(),
{
    assert(v.norm2() >= 0) by (nonlinear_arith);
    let n = v.norm2() as nat;
    let jx = absi(v.x as int) as nat;
    let jy = absi(v.y as int) as nat;
    assert(jx * jx <= n && jy * jy <= n && jx <= n && jy <= n) by (nonlinear_arith)
        requires
            jx == absi(v.x as int),
            jy == absi(v.y as int),
            n == v.x * v.x + v.y * v.y,
    ;
    lemma_sqrt_upto_bounds(n, n);
}

/// A normalized vector stays within the unit box.
pub proof fn lemma_normalize_bounded(v: Vec2)
    requires
        v.bounded(COORD_LIMIT as int),
    ensures
        v.normalize_spec().bounded(UNIT as int),
{
    if v.is_zero() {
    } else {
        lemma_len_ge_components(v);
        let len = v.len_spec();
        if len == 0 {
            assert(absi(v.x as int) == 0 && absi(v.y as int) == 0);
            assert(false);
        }
        lemma_muldiv_le(absi(v.x as int), UNIT as int, len);
        lemma_muldiv_le(absi(v.y as int), UNIT as int, len);
    }
}

/// The zero vector has length zero.
pub proof fn lemma_zero_vec_len(v: Vec2)
    requires
        v.is_zero(),
    ensures
        v.len_spec() == 0,
{
    assert(v.norm2() == 0) by (nonlinear_arith)
        requires
            v.x == 0 && v.y == 0,
    ;
    assert(0nat * 0nat <= 0nat && 0nat < (0nat + 1) * (0nat + 1)) by (nonlinear_arith);
    lemma_sqrt_floor_is(0, 0);
}

/// Componentwise vector sum, with the wrapping a spec cast implies; used
/// only under bounds that rule wrapping out.
pub open spec fn vadd(a: Vec2, b: Vec2) -> Vec2 {
    Vec2 { x: (a.x + b.x) as i64, y: (a.y + b.y) as i64 }
}

/// Componentwise vector difference.
pub open spec fn vsub(a: Vec2, b: Vec2) -> Vec2 {
    Vec2 { x: (a.x - b.x) as i64, y: (a.y - b.y) as i64 }
}

/// Componentwise bounds carry to dot and cross products.
pub proof fn lemma_dot_cross_bound(a: Vec2, b: Vec2, ma: int, mb: int)
    by (nonlinear_arith)
    requires
        a.bounded(ma),
        b.bounded(mb),
        0 <= ma,
        0 <= mb,
    ensures
        absi(a.dot_spec(b)) <= 2 * ma * mb,
        absi(a.cross_spec(b)) <= 2 * ma * mb,
{
}

/// Scaling `a <= den` by `num / den` never exceeds `num`.
pub proof fn lemma_muldiv_le(a: int, num: int, den: int)
    requires
        0 <= a <= den,
        0 <= num,
        0 < den,
    ensures
        0 <= (a * num) / den <= num,
{
    assert(0 <= a * num <= num * den) by (nonlinear_arith)
        requires
            0 <= a <= den,
            0 <= num,
    ;
    vstd::arithmetic::div_mod::lemma_div_is_ordered(a * num, num * den, den);
    vstd::arithmetic::div_mod::lemma_div_by_multiple(num, den);
    vstd::arithmetic::div_mod::lemma_div_pos_is_pos(a * num, den);
}

proof fn lemma_prod_bound(a: int, b: int, m: int)
    requires
        -m <= a <= m,
        -m <= b <= m,
        0 <= m,
    ensures
        -(m * m) <= a * b <= m * m,
{
    assert(-(m * m) <= a * b <= m * m) by (nonlinear_arith)
        requires
            -m <= a <= m,
            -m <= b <= m,
            0 <= m,
    ;
}

proof fn lemma_norm2_bound(v: Vec2, m: int)
    by (nonlinear_arith)
    requires
        v.bounded(m),
        0 <= m,
    ensures
        0 <= v.norm2() <= 2 * m * m,
        v.x * v.x == absi(v.x as int) * absi(v.x as int),
        v.y * v.y == absi(v.y as int) * absi(v.y as int),
{
}

} // verus!
