//! The progression model: experience, level and the four named skills
//! that parametrize explosions and missiles.
//!
//! Experience is measured in thousandths of an experience point.
//! Crossing the threshold for the next level spawns a star (a pending
//! skill choice); the player's level itself rises when a skill is
//! chosen.

use vstd::prelude::*;
use crate::constants::MISSILE_SPEED;
use crate::explosion::{
    ExplosionParams, DEFAULT_GROWTH_RATE, DEFAULT_MAX_RADIUS, DEFAULT_STATIC_DURATION,
    DURATION_MAX, RADIUS_MAX, RATE_MAX,
};
use crate::geom::imin;
use crate::missile::SPEED_MAX;
use crate::rng::random_index;

verus! {

/// Largest single experience award `add_experience` accepts.
pub const EXP_AWARD_MAX: i64 = 1_000_000_000;

/// The four skills a player can level up.
#[derive(Clone, Copy, Debug, PartialEq, Eq, Structural)]
pub enum Skill {
    ExplosionSpeed,
    ExplosionAfterGlow,
    ExplosionRadius,
    MissileSpeed,
}

/// The fixed skill set, in its canonical order.
pub open spec fn skill_list() -> Seq<Skill> {
    seq![
        Skill::ExplosionSpeed,
        Skill::ExplosionAfterGlow,
        Skill::ExplosionRadius,
        Skill::MissileSpeed,
    ]
}

impl Skill {
    /// All skills, in canonical order.
    pub fn all() -> (r: Vec<Skill>)
        ensures
            r@ == skill_list(),
    {
        let mut v: Vec<Skill> = Vec::new();
        v.push(Skill::ExplosionSpeed);
        v.push(Skill::ExplosionAfterGlow);
        v.push(Skill::ExplosionRadius);
        v.push(Skill::MissileSpeed);
        proof {
            assert(v@ =~= skill_list());
        }
        v
    }

    /// Draw `count` distinct skills (at most the whole set) by
    /// sampling without replacement from the fixed skill set.
    pub fn random_subset(count: usize) -> (r: Vec<Skill>)
        ensures
            r@.len() == imin(count as int, 4),
            forall|i: int, j: int| 0 <= i < j < r@.len() ==> r@[i] != r@[j],
            forall|i: int| 0 <= i < r@.len() ==> skill_list().contains(#[trigger] r@[i]),
    {
        let mut pool: Vec<Skill> = Skill::all();
        let mut out: Vec<Skill> = Vec::new();
        while out.len() < count && pool.len() > 0
            invariant
                out@.len() + pool@.len() == 4,
                out@.len() <= count,
                forall|i: int, j: int| 0 <= i < j < pool@.len() ==> pool@[i] != pool@[j],
                forall|i: int, j: int| 0 <= i < j < out@.len() ==> out@[i] != out@[j],
                forall|i: int, j: int|
                    0 <= i < out@.len() && 0 <= j < pool@.len() ==> out@[i] != pool@[j],
                forall|i: int| 0 <= i < out@.len() ==> skill_list().contains(#[trigger] out@[i]),
                forall|i: int| 0 <= i < pool@.len() ==> skill_list().contains(#[trigger] pool@[i]),
            decreases pool@.len(),
        {
            let idx = random_index(pool.len());
            let ghost old_pool = pool@;
            let ghost old_out = out@;
            let s = pool.remove(idx);
            out.push(s);
            proof {
                assert(forall|k: int| 0 <= k < pool@.len() ==> pool@[k]
                    == if k < idx { old_pool[k] } else { old_pool[k + 1] });
                assert(forall|i: int| 0 <= i < out@.len()
                    ==> skill_list().contains(#[trigger] out@[i]));
            }
        }
        out
    }

    /// The display name of the skill.
    pub fn name(&self) -> (r: &'static str)
        ensures
            self == Skill::ExplosionSpeed ==> r@ == "Explosion Speed"@,
            self == Skill::ExplosionAfterGlow ==> r@ == "Explosion After Glow"@,
            self == Skill::ExplosionRadius ==> r@ == "Explosion Radius"@,
            self == Skill::MissileSpeed ==> r@ == "Missile Speed"@,
    {
        match self {
            Skill::ExplosionSpeed => "Explosion Speed",
            Skill::ExplosionAfterGlow => "Explosion After Glow",
            Skill::ExplosionRadius => "Explosion Radius",
            Skill::MissileSpeed => "Missile Speed",
        }
    }

    /// A one-line description of what leveling the skill does.
    pub fn description(&self) -> (r: &'static str)
        ensures
            self == Skill::ExplosionSpeed ==> r@ == "Explosions grow 20% faster per level"@,
            self == Skill::ExplosionAfterGlow ==> r@ == "Explosions last 20% longer per level"@,
            self == Skill::ExplosionRadius ==> r@ == "Explosions are 20% larger per level"@,
            self == Skill::MissileSpeed ==> r@ == "Missiles are 20% faster per level"@,
    {
        match self {
            Skill::ExplosionSpeed => "Explosions grow 20% faster per level",
            Skill::ExplosionAfterGlow => "Explosions last 20% longer per level",
            Skill::ExplosionRadius => "Explosions are 20% larger per level",
            Skill::MissileSpeed => "Missiles are 20% faster per level",
        }
    }
}

/// Experience (in milli-points) needed to pass from `level` to the
/// next: 50 points plus 10% more for each level already gained.
pub open spec fn spec_required(level: int) -> int {
    50_000 + 5_000 * level
}

/// A base quantity raised by 20% for each level of a skill, capped so
/// every derived parameter stays in its working range.
pub open spec fn spec_scaled(base: int, level: int, cap: int) -> int {
    imin(base * (5 + level) / 5, cap)
}

/// The player's progression state.
#[derive(Clone, Copy, Debug, PartialEq, Eq, Structural)]
pub struct Player {
    pub player_level: u32,
    pub experience: i64,
    pub explosion_speed_level: u32,
    pub explosion_after_glow_level: u32,
    pub explosion_radius_level: u32,
    pub missile_speed_level: u32,
}

impl Player {
    /// Experience is normalized: non-negative and below the next
    /// threshold.
    pub open spec fn wf(self) -> bool {
        0 <= self.experience < spec_required(self.player_level as int)
    }

    pub open spec fn spec_level(self) -> u32 {
        self.player_level
    }

    pub open spec fn spec_experience(self) -> i64 {
        self.experience
    }

    /// The level of one skill.
    pub open spec fn spec_skill_level(self, skill: Skill) -> u32 {
        match skill {
            Skill::ExplosionSpeed => self.explosion_speed_level,
            Skill::ExplosionAfterGlow => self.explosion_after_glow_level,
            Skill::ExplosionRadius => self.explosion_radius_level,
            Skill::MissileSpeed => self.missile_speed_level,
        }
    }

    /// A fresh player: level 0, no experience, all skills at 0.
    pub fn new() -> (r: Player)
        ensures
            r.wf(),
            r.spec_level() == 0,
            r.spec_experience() == 0,
            forall|s: Skill| r.spec_skill_level(s) == 0,
    {
        Player {
            player_level: 0,
            experience: 0,
            explosion_speed_level: 0,
            explosion_after_glow_level: 0,
            explosion_radius_level: 0,
            missile_speed_level: 0,
        }
    }

    /// Explosion growth rate from the explosion-speed skill: 20%
    /// faster per level.
    pub fn get_explosion_growth_rate(&self) -> (r: i64)
        ensures
            r == spec_scaled(
                DEFAULT_GROWTH_RATE as int,
                self.spec_skill_level(Skill::ExplosionSpeed) as int,
                RATE_MAX as int,
            ),
            1 <= r <= RATE_MAX,
    {
        scaled_capped(DEFAULT_GROWTH_RATE, self.explosion_speed_level, RATE_MAX)
    }

    /// Explosion static duration from the afterglow skill: 20% longer
    /// per level.
    pub fn get_explosion_static_duration(&self) -> (r: i64)
        ensures
            r == spec_scaled(
                DEFAULT_STATIC_DURATION as int,
                self.spec_skill_level(Skill::ExplosionAfterGlow) as int,
                DURATION_MAX as int,
            ),
            1 <= r <= DURATION_MAX,
    {
        scaled_capped(DEFAULT_STATIC_DURATION, self.explosion_after_glow_level, DURATION_MAX)
    }

    /// Explosion maximum radius from the explosion-radius skill: 20%
    /// larger per level.
    pub fn get_explosion_max_radius(&self) -> (r: i64)
        ensures
            r == spec_scaled(
                DEFAULT_MAX_RADIUS as int,
                self.spec_skill_level(Skill::ExplosionRadius) as int,
                RADIUS_MAX as int,
            ),
            1 <= r <= RADIUS_MAX,
    {
        scaled_capped(DEFAULT_MAX_RADIUS, self.explosion_radius_level, RADIUS_MAX)
    }

    /// Player missile speed from the missile-speed skill: 20% faster
    /// per level.
    pub fn get_missile_speed(&self) -> (r: i64)
        ensures
            r == spec_scaled(
                MISSILE_SPEED as int,
                self.spec_skill_level(Skill::MissileSpeed) as int,
                SPEED_MAX as int,
            ),
            1 <= r <= SPEED_MAX,
    {
        scaled_capped(MISSILE_SPEED, self.missile_speed_level, SPEED_MAX)
    }

    pub fn player_level(&self) -> (r: u32)
        ensures
            r == self.spec_level(),
    {
        self.player_level
    }

    /// Experience needed for the next level at the current level.
    pub fn experience_required_for_next_level(&self) -> (r: i64)
        ensures
            r == spec_required(self.spec_level() as int),
            50_000 <= r <= 21_525_000_000_000,
    {
        50_000 + 5_000 * (self.player_level as i64)
    }

    /// Add an experience award and normalize: while the total reaches
    /// the current threshold, subtract the threshold and count one
    /// level-up.  The result is the number of level-ups, i.e. the
    /// quotient of the total by the threshold; the remaining
    /// experience is the remainder, so it is always below the
    /// threshold afterwards.
    pub fn add_experience(&mut self, amount: i64) -> (level_ups: usize)
        requires
            old(self).wf(),
            0 <= amount <= EXP_AWARD_MAX,
        ensures
            final(self).wf(),
            final(self).spec_experience() == (old(self).spec_experience() + amount)
                % spec_required(old(self).spec_level() as int),
            level_ups == (old(self).spec_experience() + amount)
                / spec_required(old(self).spec_level() as int),
            *final(self) == (Player {
                experience: final(self).spec_experience(),
                ..*old(self)
            }),
    {
        let req: i64 = self.experience_required_for_next_level();
        let ghost total = self.experience + amount;
        self.experience = self.experience + amount;
        let mut level_ups: usize = 0;
        while self.experience >= req
            invariant
                req == spec_required(self.player_level as int),
                self.experience >= 0,
                total == self.experience + level_ups * req,
                level_ups <= 500_000_000,
                total <= 22_525_000_000_000,
                *self == (Player { experience: self.experience, ..*old(self) }),
            decreases self.experience,
        {
            self.experience = self.experience - req;
            level_ups = level_ups + 1;
            proof {
                assert(level_ups * req == (level_ups - 1) * req + req) by (nonlinear_arith);
                assert(level_ups <= 500_000_000) by (nonlinear_arith)
                    requires
                        level_ups * req <= total,
                        total <= 22_525_000_000_000,
                        req >= 50_000,
                        level_ups >= 0;
            }
        }
        proof {
            vstd::arithmetic::div_mod::lemma_fundamental_div_mod_converse(
                total, req as int, level_ups as int, self.experience as int);
        }
        level_ups
    }

    /// Raise the player's level by one (saturating at the type bound).
    pub fn level_up(&mut self)
        ensures
            final(self).player_level == if old(self).player_level < u32::MAX {
                old(self).player_level + 1
            } else {
                old(self).player_level as int
            },
            *final(self) == (Player {
                player_level: final(self).player_level,
                ..*old(self)
            }),
    {
        if self.player_level < u32::MAX {
            self.player_level = self.player_level + 1;
        }
    }

    /// Raise one skill's level by one (saturating at the type bound).
    pub fn level_up_skill(&mut self, skill: Skill)
        ensures
            final(self).spec_skill_level(skill) == if old(self).spec_skill_level(skill)
                < u32::MAX {
                old(self).spec_skill_level(skill) + 1
            } else {
                old(self).spec_skill_level(skill) as int
            },
            forall|s: Skill| s != skill
                ==> final(self).spec_skill_level(s) == old(self).spec_skill_level(s),
            final(self).player_level == old(self).player_level,
            final(self).experience == old(self).experience,
    {
        match skill {
            Skill::ExplosionSpeed => {
                if self.explosion_speed_level < u32::MAX {
                    self.explosion_speed_level = self.explosion_speed_level + 1;
                }
            },
            Skill::ExplosionAfterGlow => {
                if self.explosion_after_glow_level < u32::MAX {
                    self.explosion_after_glow_level = self.explosion_after_glow_level + 1;
                }
            },
            Skill::ExplosionRadius => {
                if self.explosion_radius_level < u32::MAX {
                    self.explosion_radius_level = self.explosion_radius_level + 1;
                }
            },
            Skill::MissileSpeed => {
                if self.missile_speed_level < u32::MAX {
                    self.missile_speed_level = self.missile_speed_level + 1;
                }
            },
        }
    }

    /// The current level of one skill.
    pub fn get_skill_level(&self, skill: Skill) -> (r: u32)
        ensures
            r == self.spec_skill_level(skill),
    {
        match skill {
            Skill::ExplosionSpeed => self.explosion_speed_level,
            Skill::ExplosionAfterGlow => self.explosion_after_glow_level,
            Skill::ExplosionRadius => self.explosion_radius_level,
            Skill::MissileSpeed => self.missile_speed_level,
        }
    }

    /// The current (normalized) experience, in milli-points.
    pub fn experience(&self) -> (r: i64)
        ensures
            r == self.spec_experience(),
    {
        self.experience
    }

    /// How full the experience bar is, in thousandths.
    pub fn experience_progress(&self) -> (r: i64)
        requires
            self.wf(),
        ensures
            r == self.spec_experience() * 1000 / spec_required(self.spec_level() as int),
            0 <= r < 1000,
    {
        let req: i64 = self.experience_required_for_next_level();
        assert(0 <= self.experience * 1000 < req * 1000) by (nonlinear_arith)
            requires 0 <= self.experience < req;
        let r: i64 = (self.experience * 1000) / req;
        proof {
            vstd::arithmetic::div_mod::lemma_div_pos_is_pos(
                self.experience * 1000, req as int);
            assert(r < 1000) by {
                vstd::arithmetic::div_mod::lemma_div_multiples_vanish(1000, req as int);
                vstd::arithmetic::div_mod::lemma_div_is_ordered(
                    self.experience * 1000, req * 1000 - 1, req as int);
                assert((req * 1000 - 1) / (req as int) <= 999) by (nonlinear_arith)
                    requires req >= 1;
            };
        }
        r
    }
}

impl Default for Player {
    /// Same as [`Player::new`].
    fn default() -> (r: Player)
        ensures
            r.wf(),
            r.spec_level() == 0,
            r.spec_experience() == 0,
            forall|s: Skill| r.spec_skill_level(s) == 0,
    {
        Player::new()
    }
}

/// A capped skill scaling stays between the base and the cap.
pub proof fn lemma_spec_scaled_range(base: int, level: int, cap: int)
    requires
        1 <= base <= cap,
        0 <= level,
    ensures
        1 <= spec_scaled(base, level, cap) <= cap,
{
    assert(base * (5 + level) >= 5 * base) by (nonlinear_arith)
        requires base >= 1, level >= 0;
    vstd::arithmetic::div_mod::lemma_div_is_ordered(5 * base, base * (5 + level), 5);
    vstd::arithmetic::div_mod::lemma_div_multiples_vanish(base, 5);
}

/// `base * (1 + level/5)`, capped at `cap`.
fn scaled_capped(base: i64, level: u32, cap: i64) -> (r: i64)
    requires
        1 <= base <= 1_000_000_000,
        base <= cap <= 1_000_000_000,
    ensures
        r == spec_scaled(base as int, level as int, cap as int),
        1 <= r <= cap,
{
    let lv: i64 = level as i64;
    assert(5 <= base * (5 + lv) <= 4_300_000_000_000_000_000) by (nonlinear_arith)
        requires 1 <= base <= 1_000_000_000, 0 <= lv <= 4_294_967_295;
    let raw: i64 = (base * (5 + lv)) / 5;
    proof {
        assert(base * (5 + lv) >= 5 * base) by (nonlinear_arith)
            requires base >= 1, lv >= 0;
        vstd::arithmetic::div_mod::lemma_div_is_ordered(
            5 * base, base * (5 + lv), 5);
        assert((5 * (base as int)) / 5 == base as int) by {
            vstd::arithmetic::div_mod::lemma_div_multiples_vanish(base as int, 5);
        };
    }
    if raw > cap {
        cap
    } else {
        raw
    }
}

} // verus!
