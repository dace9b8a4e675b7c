//! Fixed-point plane geometry: world vectors, squared distances and an
//! integer square root, the pieces every entity update is built from.

use vstd::prelude::*;

verus! {

/// Fixed-point subunits per world unit: positions, radii and speeds are
/// all measured in thousandths of a world unit.
pub const SCALE: i64 = 1000;

/// World coordinates saturate at this magnitude, so squared distances
/// always fit in an `i64`.
pub const POS_LIMIT: i64 = 1_000_000_000;

/// A point or direction in the simulation plane, in milli-units.
#[derive(Clone, Copy, Debug, PartialEq, Eq, Structural)]
pub struct Vec2Fx {
    pub x: i64,
    pub y: i64,
}

impl Vec2Fx {
    /// Both coordinates within the saturation bound.
    pub open spec fn in_world(self) -> bool {
        -POS_LIMIT <= self.x <= POS_LIMIT && -POS_LIMIT <= self.y <= POS_LIMIT
    }

    pub fn new(x: i64, y: i64) -> (r: Vec2Fx)
        ensures
            r.x == x,
            r.y == y,
    {
        Vec2Fx { x, y }
    }
}

/// Squared distance between two points, in squared milli-units.
pub open spec fn dist2(a: Vec2Fx, b: Vec2Fx) -> int {
    (a.x - b.x) * (a.x - b.x) + (a.y - b.y) * (a.y - b.y)
}

/// The squared distance of two in-world points fits in an `i64`.
pub proof fn lemma_dist2_bounded(a: Vec2Fx, b: Vec2Fx)
    requires
        a.in_world(),
        b.in_world(),
    ensures
        0 <= dist2(a, b) <= 8_000_000_000_000_000_000,
{
    let dx = a.x - b.x;
    let dy = a.y - b.y;
    assert(0 <= dx * dx <= 4_000_000_000_000_000_000) by (nonlinear_arith)
        requires -2_000_000_000 <= dx <= 2_000_000_000;
    assert(0 <= dy * dy <= 4_000_000_000_000_000_000) by (nonlinear_arith)
        requires -2_000_000_000 <= dy <= 2_000_000_000;
}

/// Squared distance between two in-world points.
pub fn dist_squared(a: Vec2Fx, b: Vec2Fx) -> (r: i64)
    requires
        a.in_world(),
        b.in_world(),
    ensures
        r == dist2(a, b),
        0 <= r <= 8_000_000_000_000_000_000,
{
    proof {
        lemma_dist2_bounded(a, b);
    }
    let dx: i64 = a.x - b.x;
    let dy: i64 = a.y - b.y;
    assert(0 <= dx * dx <= 4_000_000_000_000_000_000) by (nonlinear_arith)
        requires -2_000_000_000 <= dx <= 2_000_000_000;
    assert(0 <= dy * dy <= 4_000_000_000_000_000_000) by (nonlinear_arith)
        requires -2_000_000_000 <= dy <= 2_000_000_000;
    dx * dx + dy * dy
}

/// The integer square root, rounded down.
pub open spec fn sqrt_floor(n: int) -> int
    recommends n >= 0,
    decreases n,
{
    if n <= 0 {
        0
    } else {
        let p = sqrt_floor(n - 1);
        if (p + 1) * (p + 1) <= n {
            p + 1
        } else {
            p
        }
    }
}

/// `sqrt_floor(n)` is the greatest integer whose square is at most `n`.
pub proof fn lemma_sqrt_floor(n: int)
    requires
        n >= 0,
    ensures
        sqrt_floor(n) >= 0,
        sqrt_floor(n) * sqrt_floor(n) <= n,
        n < (sqrt_floor(n) + 1) * (sqrt_floor(n) + 1),
    decreases n,
{
    if n > 0 {
        lemma_sqrt_floor(n - 1);
        let p = sqrt_floor(n - 1);
        if (p + 1) * (p + 1) <= n {
            assert(n < (p + 2) * (p + 2)) by (nonlinear_arith)
                requires p >= 0, n - 1 < (p + 1) * (p + 1);
        }
    }
}

/// No two different non-negative integers both satisfy the square-root
/// bracketing, so any such witness is `sqrt_floor`.
pub proof fn lemma_sqrt_floor_unique(n: int, r: int)
    requires
        n >= 0,
        r >= 0,
        r * r <= n,
        n < (r + 1) * (r + 1),
    ensures
        r == sqrt_floor(n),
{
    lemma_sqrt_floor(n);
    let s = sqrt_floor(n);
    assert(r == s) by (nonlinear_arith)
        requires
            r >= 0,
            s >= 0,
            r * r <= n,
            n < (r + 1) * (r + 1),
            s * s <= n,
            n < (s + 1) * (s + 1);
}

/// Integer square root: the greatest `r` with `r * r <= n`.
pub fn isqrt(n: u64) -> (r: u64)
    requires
        n <= 8_000_000_000_000_000_000,
    ensures
        r * r <= n,
        n < (r + 1) * (r + 1),
        r <= 3_000_000_000,
        r == sqrt_floor(n as int),
{
    let mut lo: u64 = 0;
    let mut hi: u64 = 3_000_000_000;
    assert(3_000_000_000u64 * 3_000_000_000u64 > 8_000_000_000_000_000_000) by (nonlinear_arith);
    while lo < hi
        invariant
            lo <= hi <= 3_000_000_000,
            lo * lo <= n,
            n < (hi + 1) * (hi + 1),
        decreases hi - lo,
    {
        let mid: u64 = lo + (hi - lo + 1) / 2;
        assert(mid * mid <= 9_000_000_000_000_000_000) by (nonlinear_arith)
            requires mid <= 3_000_000_000;
        if mid * mid <= n {
            lo = mid;
        } else {
            hi = mid - 1;
        }
    }
    proof {
        lemma_sqrt_floor_unique(n as int, lo as int);
    }
    lo
}

/// The larger of two mathematical integers.
pub open spec fn imax(a: int, b: int) -> int {
    if a >= b {
        a
    } else {
        b
    }
}

/// The smaller of two mathematical integers.
pub open spec fn imin(a: int, b: int) -> int {
    if a <= b {
        a
    } else {
        b
    }
}

/// Division rounding toward zero, as the executable code performs it
/// on possibly negative operands.
pub open spec fn div_trunc(a: int, b: int) -> int
    recommends b != 0,
{
    if a >= 0 {
        a / b
    } else {
        -((-a) / b)
    }
}

/// `a / b` rounded toward zero, for `|a|` within `i64` division range.
pub fn div_toward_zero(a: i64, b: i64) -> (r: i64)
    requires
        b > 0,
        a > i64::MIN,
    ensures
        r == div_trunc(a as int, b as int),
{
    if a >= 0 {
        let q: i64 = a / b;
        assert(q == a as int / b as int);
        q
    } else {
        let m: i64 = -a;
        let q: i64 = m / b;
        assert(q == m as int / b as int);
        assert(0 <= q <= m) by (nonlinear_arith)
            requires q == m as int / b as int, m >= 0, b > 0;
        -q
    }
}

/// Clamp `v` into `[lo, hi]`.
pub open spec fn spec_clamp(v: int, lo: int, hi: int) -> int
    recommends lo <= hi,
{
    if v < lo {
        lo
    } else if v > hi {
        hi
    } else {
        v
    }
}

pub fn clamp_i64(v: i64, lo: i64, hi: i64) -> (r: i64)
    requires
        lo <= hi,
    ensures
        r == spec_clamp(v as int, lo as int, hi as int),
{
    if v < lo {
        lo
    } else if v > hi {
        hi
    } else {
        v
    }
}

/// One coordinate after a motion step: the displacement is applied and
/// the result saturates at the world bound.
pub open spec fn spec_step_coord(c: int, step: int) -> int {
    spec_clamp(c + step, -POS_LIMIT as int, POS_LIMIT as int)
}

/// Apply a bounded displacement to a world coordinate, saturating.
pub fn step_coord(c: i64, step: i64) -> (r: i64)
    requires
        -POS_LIMIT <= c <= POS_LIMIT,
        -1_000_000_000_000 <= step <= 1_000_000_000_000,
    ensures
        r == spec_step_coord(c as int, step as int),
        -POS_LIMIT <= r <= POS_LIMIT,
{
    clamp_i64(c + step, -POS_LIMIT, POS_LIMIT)
}

} // verus!
