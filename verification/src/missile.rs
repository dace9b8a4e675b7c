//! Missiles: moving points bound either to a target bunker (enemy
//! shots) or to a free target point (player shots).

use vstd::prelude::*;
use crate::geom::{
    Vec2Fx, dist2, dist_squared, div_toward_zero, div_trunc, isqrt, sqrt_floor,
    spec_step_coord, step_coord,
};

verus! {

/// Upper bound on any missile speed, in milli-units per second.
pub const SPEED_MAX: i64 = 1_000_000_000;

/// An enemy missile explodes when it comes within 2 world units of its
/// bunker (squared milli-unit threshold).
pub const BUNKER_HIT_DIST2: i64 = 4_000_000;

/// A player missile explodes when it comes within 5 world units of its
/// target point (squared milli-unit threshold).
pub const TARGET_HIT_DIST2: i64 = 25_000_000;

/// One component of the fixed-point unit vector from `start` toward a
/// point at distance `len`: scaled by 1000 and rounded toward zero.
pub open spec fn dir_component(delta: int, len: int) -> int
    recommends len >= 1,
{
    div_trunc(delta * 1000, len)
}

/// The x component of the unit direction from `start` to `target`.
pub open spec fn spec_dir_x(start: Vec2Fx, target: Vec2Fx) -> int {
    dir_component(target.x - start.x, sqrt_floor(dist2(start, target)))
}

/// The y component of the unit direction from `start` to `target`.
pub open spec fn spec_dir_y(start: Vec2Fx, target: Vec2Fx) -> int {
    dir_component(target.y - start.y, sqrt_floor(dist2(start, target)))
}

/// Displacement of one coordinate over `dt` ms at `speed`, along a
/// fixed-point direction component.
pub open spec fn spec_disp(dir: int, speed: int, dt: int) -> int {
    div_trunc(dir * speed * dt, 1_000_000)
}

/// The exact value `Missile::new` produces.
pub open spec fn spec_new_missile(
    start: Vec2Fx,
    target: Vec2Fx,
    target_bunker_idx: Option<usize>,
    speed: i64,
) -> Missile {
    Missile {
        start_pos: start,
        target_pos: target,
        current_pos: start,
        direction: Vec2Fx {
            x: spec_dir_x(start, target) as i64,
            y: spec_dir_y(start, target) as i64,
        },
        target_bunker_idx,
        exploded: false,
        speed,
    }
}

/// A missile in flight.
#[derive(Clone, Copy, Debug)]
pub struct Missile {
    pub start_pos: Vec2Fx,
    pub target_pos: Vec2Fx,
    pub current_pos: Vec2Fx,
    /// Unit direction from start to target, in thousandths.
    pub direction: Vec2Fx,
    /// The bunker an enemy missile is aimed at; `None` for the player's
    /// own missiles.
    pub target_bunker_idx: Option<usize>,
    pub exploded: bool,
    pub speed: i64,
}

/// `|delta * 1000 / len| <= 1000` whenever `|delta| <= len`.
proof fn lemma_dir_component_bounded(delta: int, len: int)
    requires
        len >= 1,
        -len <= delta <= len,
    ensures
        -1000 <= dir_component(delta, len) <= 1000,
{
    if delta >= 0 {
        vstd::arithmetic::div_mod::lemma_div_pos_is_pos(delta * 1000, len);
        assert(delta * 1000 <= len * 1000) by (nonlinear_arith)
            requires delta <= len;
        vstd::arithmetic::div_mod::lemma_div_is_ordered(delta * 1000, len * 1000, len);
        vstd::arithmetic::div_mod::lemma_div_multiples_vanish(1000, len);
    } else {
        vstd::arithmetic::div_mod::lemma_div_pos_is_pos((-delta) * 1000, len);
        assert((-delta) * 1000 <= len * 1000) by (nonlinear_arith)
            requires -delta <= len;
        vstd::arithmetic::div_mod::lemma_div_is_ordered((-delta) * 1000, len * 1000, len);
        vstd::arithmetic::div_mod::lemma_div_multiples_vanish(1000, len);
    }
}

impl Missile {
    /// Positions stay in the world, the direction components are scaled
    /// unit-vector components, and the speed is bounded.
    pub open spec fn wf(self) -> bool {
        &&& self.start_pos.in_world()
        &&& self.target_pos.in_world()
        &&& self.current_pos.in_world()
        &&& -1000 <= self.direction.x <= 1000
        &&& -1000 <= self.direction.y <= 1000
        &&& 0 <= self.speed <= SPEED_MAX
    }

    /// Launch a missile from `start` toward `target`.  The two points
    /// must differ, so the direction is well defined; callers aiming a
    /// shot at its own launch point must drop the shot instead.
    pub fn new(
        start: Vec2Fx,
        target: Vec2Fx,
        target_bunker_idx: Option<usize>,
        speed: i64,
    ) -> (r: Missile)
        requires
            start.in_world(),
            target.in_world(),
            start != target,
            0 <= speed <= SPEED_MAX,
        ensures
            r.wf(),
            r == spec_new_missile(start, target, target_bunker_idx, speed),
    {
        let dx: i64 = target.x - start.x;
        let dy: i64 = target.y - start.y;
        let n2: i64 = dist_squared(start, target);
        proof {
            assert(n2 == dx * dx + dy * dy) by (nonlinear_arith)
                requires
                    n2 == (start.x - target.x) * (start.x - target.x)
                        + (start.y - target.y) * (start.y - target.y),
                    dx == target.x - start.x,
                    dy == target.y - start.y;
            assert(n2 >= 1) by (nonlinear_arith)
                requires
                    n2 == dx * dx + dy * dy,
                    dx != 0 || dy != 0;
        }
        let len_u: u64 = isqrt(n2 as u64);
        let len: i64 = len_u as i64;
        proof {
            assert(len >= 1) by (nonlinear_arith)
                requires n2 >= 1, n2 < (len + 1) * (len + 1), len >= 0;
            assert(dx * dx <= n2 && dy * dy <= n2) by (nonlinear_arith)
                requires n2 == dx * dx + dy * dy;
            assert(-len <= dx <= len && -len <= dy <= len) by (nonlinear_arith)
                requires
                    dx * dx <= n2,
                    dy * dy <= n2,
                    n2 < (len + 1) * (len + 1),
                    len >= 1;
            assert(-2_000_000_000_000 <= dx * 1000 <= 2_000_000_000_000) by (nonlinear_arith)
                requires -2_000_000_000 <= dx <= 2_000_000_000;
            assert(-2_000_000_000_000 <= dy * 1000 <= 2_000_000_000_000) by (nonlinear_arith)
                requires -2_000_000_000 <= dy <= 2_000_000_000;
            lemma_dir_component_bounded(dx as int, len as int);
            lemma_dir_component_bounded(dy as int, len as int);
        }
        let ux: i64 = div_toward_zero(dx * 1000, len);
        let uy: i64 = div_toward_zero(dy * 1000, len);
        Missile {
            start_pos: start,
            target_pos: target,
            current_pos: start,
            direction: Vec2Fx { x: ux, y: uy },
            target_bunker_idx,
            exploded: false,
            speed,
        }
    }

    /// A missile without a bound bunker is the player's.
    pub fn is_player_missile(&self) -> (r: bool)
        ensures
            r == self.target_bunker_idx is None,
    {
        self.target_bunker_idx.is_none()
    }

    /// The position after one motion step of `dt` ms.
    pub open spec fn spec_advanced(self, dt: int) -> Vec2Fx {
        Vec2Fx {
            x: spec_step_coord(
                self.current_pos.x as int,
                spec_disp(self.direction.x as int, self.speed as int, dt),
            ) as i64,
            y: spec_step_coord(
                self.current_pos.y as int,
                spec_disp(self.direction.y as int, self.speed as int, dt),
            ) as i64,
        }
    }

    /// Move the missile along its direction for `dt` ms.
    pub fn advance(&mut self, dt: i64)
        requires
            old(self).wf(),
            0 <= dt <= 100_000,
        ensures
            final(self).wf(),
            final(self).current_pos == old(self).spec_advanced(dt as int),
            *final(self) == (Missile { current_pos: final(self).current_pos, ..*old(self) }),
    {
        assert(-1_000_000_000_000 <= self.direction.x * self.speed
            <= 1_000_000_000_000) by (nonlinear_arith)
            requires -1000 <= self.direction.x <= 1000, 0 <= self.speed <= SPEED_MAX;
        assert(-1_000_000_000_000 <= self.direction.y * self.speed
            <= 1_000_000_000_000) by (nonlinear_arith)
            requires -1000 <= self.direction.y <= 1000, 0 <= self.speed <= SPEED_MAX;
        let px: i64 = self.direction.x * self.speed;
        let py: i64 = self.direction.y * self.speed;
        assert(-100_000_000_000_000_000 <= px * dt <= 100_000_000_000_000_000)
            by (nonlinear_arith)
            requires
                -1_000_000_000_000 <= px <= 1_000_000_000_000,
                0 <= dt <= 100_000;
        assert(-100_000_000_000_000_000 <= py * dt <= 100_000_000_000_000_000)
            by (nonlinear_arith)
            requires
                -1_000_000_000_000 <= py <= 1_000_000_000_000,
                0 <= dt <= 100_000;
        let sx: i64 = div_toward_zero(px * dt, 1_000_000);
        let sy: i64 = div_toward_zero(py * dt, 1_000_000);
        proof {
            lemma_disp_bounded(px * dt as int);
            lemma_disp_bounded(py * dt as int);
        }
        self.current_pos = Vec2Fx {
            x: step_coord(self.current_pos.x, sx),
            y: step_coord(self.current_pos.y, sy),
        };
    }
}

/// The truncated division of a bounded displacement stays bounded.
proof fn lemma_disp_bounded(a: int)
    requires
        -100_000_000_000_000_000 <= a <= 100_000_000_000_000_000,
    ensures
        -1_000_000_000_000 <= div_trunc(a, 1_000_000) <= 1_000_000_000_000,
{
    if a >= 0 {
        vstd::arithmetic::div_mod::lemma_div_pos_is_pos(a, 1_000_000);
        vstd::arithmetic::div_mod::lemma_div_is_ordered(
            a, 100_000_000_000_000_000, 1_000_000);
    } else {
        vstd::arithmetic::div_mod::lemma_div_pos_is_pos(-a, 1_000_000);
        vstd::arithmetic::div_mod::lemma_div_is_ordered(
            -a, 100_000_000_000_000_000, 1_000_000);
    }
}

} // verus!
