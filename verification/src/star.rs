//! Collectible stars: spawned on a level-up, destroyed by a blast,
//! each granting one skill choice.

use vstd::prelude::*;
use crate::geom::{Vec2Fx, dist2, dist_squared};

verus! {

/// Radius of every star (3 world units, in milli-units).
pub const STAR_RADIUS: i64 = 3_000;

/// A star overlaps an explosion when the distance of their centers is
/// at most the sum of their radii.
pub open spec fn spec_star_hit(
    star: Star,
    explosion_pos: Vec2Fx,
    explosion_radius: int,
) -> bool {
    star.active && dist2(star.pos, explosion_pos)
        <= (explosion_radius + star.radius) * (explosion_radius + star.radius)
}

/// A collectible star.
#[derive(Clone, Copy, Debug, PartialEq, Eq, Structural)]
pub struct Star {
    pub pos: Vec2Fx,
    pub active: bool,
    pub radius: i64,
}

impl Star {
    /// Stars sit in the world and keep the fixed radius.
    pub open spec fn wf(self) -> bool {
        self.pos.in_world() && self.radius == STAR_RADIUS
    }

    /// A new active star at `pos`.
    pub fn new(pos: Vec2Fx) -> (r: Star)
        ensures
            r.pos == pos,
            r.active,
            r.radius == STAR_RADIUS,
    {
        Star { pos, active: true, radius: STAR_RADIUS }
    }

    /// Whether an explosion of the given center and radius overlaps
    /// this star.
    pub fn is_hit_by_explosion(
        &self,
        explosion_pos: Vec2Fx,
        explosion_radius: i64,
    ) -> (r: bool)
        requires
            self.wf(),
            explosion_pos.in_world(),
            0 <= explosion_radius <= 1_000_000_000,
        ensures
            r == spec_star_hit(*self, explosion_pos, explosion_radius as int),
    {
        if !self.active {
            return false;
        }
        let d2: i64 = dist_squared(self.pos, explosion_pos);
        let reach: i64 = explosion_radius + self.radius;
        assert(0 <= reach * reach <= 2_000_000_000_000_000_000) by (nonlinear_arith)
            requires 0 <= reach <= 1_000_003_000;
        d2 <= reach * reach
    }
}

} // verus!
