//! The expanding blast: a three-phase state machine.
//!
//! An explosion grows linearly to 80% of its maximum radius, decelerates
//! smoothly over the last 20%, then holds its full size for a configured
//! duration and ends.  Every step is an exact integer function of the
//! previous state, stated by [`spec_step`].

use vstd::prelude::*;
use crate::geom::{Vec2Fx, imax, imin, spec_clamp};

verus! {

/// Upper bound on any explosion radius, in milli-units.
pub const RADIUS_MAX: i64 = 1_000_000_000;
/// Upper bound on any growth rate, in milli-units per second.
pub const RATE_MAX: i64 = 1_000_000_000;
/// Upper bound on the static-phase duration, in milliseconds.
pub const DURATION_MAX: i64 = 1_000_000_000;
/// Upper bound on one frame's time delta, in milliseconds.
pub const DT_MAX: i64 = 100_000;
/// The static timer saturates here, one frame past the longest
/// duration: the timer itself keeps counting `dt` per tick as long as
/// the value fits, and the bound lies strictly above every duration,
/// so the end condition is never affected.
pub const STATIC_ELAPSED_LIMIT: i64 = DURATION_MAX + DT_MAX;

/// Default maximum radius (50 world units).
pub const DEFAULT_MAX_RADIUS: i64 = 50_000;
/// Default growth rate (200 world units per second).
pub const DEFAULT_GROWTH_RATE: i64 = 200_000;
/// Default static duration (0.05 s).
pub const DEFAULT_STATIC_DURATION: i64 = 50;

#[derive(Clone, Copy, Debug, PartialEq, Eq, Structural)]
pub enum ExplosionPhase {
    /// Linear growth until 80% of the maximum radius.
    Linear,
    /// Decreasing growth over the last 20%.
    Decelerate,
    /// Held at the maximum radius for a short time.
    Static,
}

/// Parameters an explosion is created from: either the defaults (enemy
/// hits) or a snapshot of the player's skills (player shots).
#[derive(Clone, Copy, Debug, PartialEq, Eq, Structural)]
pub struct ExplosionParams {
    pub max_radius: i64,
    pub growth_rate: i64,
    pub static_duration: i64,
}

impl ExplosionParams {
    /// Parameter ranges under which every update step stays exact.
    pub open spec fn wf(self) -> bool {
        &&& 1 <= self.max_radius <= RADIUS_MAX
        &&& 1 <= self.growth_rate <= RATE_MAX
        &&& 0 <= self.static_duration <= DURATION_MAX
    }
}

/// The fixed default parameters, used for enemy-missile blasts.
pub open spec fn spec_default_params() -> ExplosionParams {
    ExplosionParams {
        max_radius: DEFAULT_MAX_RADIUS,
        growth_rate: DEFAULT_GROWTH_RATE,
        static_duration: DEFAULT_STATIC_DURATION,
    }
}

impl Default for ExplosionParams {
    /// The fixed default parameters, used for enemy-missile blasts.
    fn default() -> (r: ExplosionParams)
        ensures
            r == spec_default_params(),
            r.wf(),
    {
        ExplosionParams {
            max_radius: DEFAULT_MAX_RADIUS,
            growth_rate: DEFAULT_GROWTH_RATE,
            static_duration: DEFAULT_STATIC_DURATION,
        }
    }
}

/// The parameters a player-made explosion gets: the defaults scaled by
/// the player's current skill levels.
pub open spec fn spec_player_params(p: crate::player::Player) -> ExplosionParams {
    ExplosionParams {
        max_radius: crate::player::spec_scaled(
            DEFAULT_MAX_RADIUS as int,
            p.spec_skill_level(crate::player::Skill::ExplosionRadius) as int,
            RADIUS_MAX as int,
        ) as i64,
        growth_rate: crate::player::spec_scaled(
            DEFAULT_GROWTH_RATE as int,
            p.spec_skill_level(crate::player::Skill::ExplosionSpeed) as int,
            RATE_MAX as int,
        ) as i64,
        static_duration: crate::player::spec_scaled(
            DEFAULT_STATIC_DURATION as int,
            p.spec_skill_level(crate::player::Skill::ExplosionAfterGlow) as int,
            DURATION_MAX as int,
        ) as i64,
    }
}

impl From<&crate::player::Player> for ExplosionParams {
    /// A snapshot of the player's current explosion skills; later skill
    /// changes do not touch explosions already created from it.
    fn from(player: &crate::player::Player) -> (r: ExplosionParams) {
        ExplosionParams {
            max_radius: player.get_explosion_max_radius(),
            growth_rate: player.get_explosion_growth_rate(),
            static_duration: player.get_explosion_static_duration(),
        }
    }
}

impl vstd::std_specs::convert::FromSpecImpl<&crate::player::Player> for ExplosionParams {
    open spec fn obeys_from_spec() -> bool {
        true
    }

    open spec fn from_spec(p: &crate::player::Player) -> ExplosionParams {
        spec_player_params(*p)
    }
}

/// Player-parametrized explosion parameters are always well formed.
pub proof fn lemma_player_params_wf(p: crate::player::Player)
    ensures
        spec_player_params(p).wf(),
{
    crate::player::lemma_spec_scaled_range(
        DEFAULT_MAX_RADIUS as int,
        p.spec_skill_level(crate::player::Skill::ExplosionRadius) as int,
        RADIUS_MAX as int,
    );
    crate::player::lemma_spec_scaled_range(
        DEFAULT_GROWTH_RATE as int,
        p.spec_skill_level(crate::player::Skill::ExplosionSpeed) as int,
        RATE_MAX as int,
    );
    crate::player::lemma_spec_scaled_range(
        DEFAULT_STATIC_DURATION as int,
        p.spec_skill_level(crate::player::Skill::ExplosionAfterGlow) as int,
        DURATION_MAX as int,
    );
}

/// The mathematical state of an explosion, with unbounded integers.
pub struct ExplosionModel {
    pub pos: Vec2Fx,
    pub radius: int,
    pub max_radius: int,
    pub phase: ExplosionPhase,
    pub phase_transition_radius: int,
    pub initial_growth_rate: int,
    pub current_growth_rate: int,
    pub static_duration: int,
    pub static_time_elapsed: int,
}

impl ExplosionModel {
    /// State invariant: the radius stays within `[0, max_radius]`, the
    /// transition threshold is 80% of the maximum, rates are bounded,
    /// and the static timer only runs in the static phase.
    pub open spec fn wf(self) -> bool {
        &&& self.pos.in_world()
        &&& 1 <= self.max_radius <= RADIUS_MAX
        &&& self.phase_transition_radius == 4 * self.max_radius / 5
        &&& 1 <= self.initial_growth_rate <= RATE_MAX
        &&& 0 <= self.current_growth_rate <= RATE_MAX
        &&& 0 <= self.radius <= self.max_radius
        &&& 0 <= self.static_duration <= DURATION_MAX
        &&& 0 <= self.static_time_elapsed <= STATIC_ELAPSED_LIMIT
        &&& (self.phase != ExplosionPhase::Static ==> self.static_time_elapsed == 0)
        &&& (self.phase == ExplosionPhase::Linear ==> self.radius
            <= self.phase_transition_radius && self.current_growth_rate
            == self.initial_growth_rate)
        &&& (self.phase == ExplosionPhase::Static ==> self.radius == self.max_radius)
    }

    /// The explosion has completed all three phases.
    pub open spec fn spec_has_ended(self) -> bool {
        self.phase == ExplosionPhase::Static && self.static_time_elapsed
            >= self.static_duration
    }
}

/// Radius gained by one linear-phase step before the threshold check:
/// the rate applied over `dt`, but at least one milli-unit, so growth
/// always makes progress.
pub open spec fn linear_growth(rate: int, dt: int) -> int {
    imax(rate * dt / 1000, 1)
}

/// Deceleration that brings a blast growing at `rate` to rest after
/// exactly the remaining distance `rem`.
pub open spec fn deceleration(rate: int, rem: int) -> int
    recommends rem > 0,
{
    rate * rate / (2 * rem)
}

/// Distance covered in time `t` starting at `rate` under deceleration
/// `dec` (the familiar `v*t - a*t^2/2`, in milli-units and ms).
pub open spec fn decelerated_travel(rate: int, dec: int, t: int) -> int {
    rate * t / 1000 - dec * t * t / 2_000_000
}

/// Growth rate left after decelerating from `rate` by `dec` for `t` ms,
/// never below zero.
pub open spec fn decayed_rate(rate: int, dec: int, t: int) -> int {
    imax(rate - dec * t / 1000, 0)
}

/// One update step of the explosion state machine over `dt` ms.
pub open spec fn spec_step(m: ExplosionModel, dt: int) -> ExplosionModel {
    match m.phase {
        ExplosionPhase::Linear => {
            let raw = m.radius + linear_growth(m.initial_growth_rate, dt);
            if raw < m.phase_transition_radius {
                ExplosionModel { radius: raw, ..m }
            } else {
                let overshoot = raw - m.phase_transition_radius;
                let rem = m.max_radius - m.phase_transition_radius;
                let dec0 = deceleration(m.initial_growth_rate, rem);
                if overshoot > 0 {
                    let t = overshoot * 1000 / m.initial_growth_rate;
                    let p2 = spec_clamp(
                        decelerated_travel(m.initial_growth_rate, dec0, t),
                        0,
                        rem,
                    );
                    ExplosionModel {
                        radius: m.phase_transition_radius + p2,
                        phase: ExplosionPhase::Decelerate,
                        current_growth_rate: decayed_rate(m.initial_growth_rate, dec0, t),
                        ..m
                    }
                } else {
                    ExplosionModel {
                        radius: m.phase_transition_radius,
                        phase: ExplosionPhase::Decelerate,
                        ..m
                    }
                }
            }
        },
        ExplosionPhase::Decelerate => {
            let rem = m.max_radius - m.radius;
            if rem > 100 {
                let dec = deceleration(m.current_growth_rate, rem);
                let g = spec_clamp(
                    decelerated_travel(m.current_growth_rate, dec, dt),
                    1,
                    rem,
                );
                ExplosionModel {
                    radius: m.radius + g,
                    current_growth_rate: decayed_rate(m.current_growth_rate, dec, dt),
                    ..m
                }
            } else {
                ExplosionModel {
                    radius: m.max_radius,
                    phase: ExplosionPhase::Static,
                    static_time_elapsed: 0,
                    ..m
                }
            }
        },
        ExplosionPhase::Static => {
            ExplosionModel {
                static_time_elapsed: imin(
                    m.static_time_elapsed + dt,
                    STATIC_ELAPSED_LIMIT as int,
                ),
                ..m
            }
        },
    }
}

/// Number of whole ticks of length `dt` needed to cover `x` milliseconds.
pub open spec fn ticks_needed(x: int, dt: int) -> int
    recommends dt >= 1,
{
    if x <= 0 {
        0
    } else {
        (x + dt - 1) / dt
    }
}

/// How far an explosion still is from ending, counted in radius
/// milli-units, phases and static-phase ticks.
pub open spec fn termination_measure(m: ExplosionModel, dt: int) -> int {
    (m.max_radius - m.radius) + phase_rank(m.phase) + (
        if m.phase == ExplosionPhase::Static {
            ticks_needed(m.static_duration - m.static_time_elapsed, dt)
        } else {
            ticks_needed(m.static_duration, dt)
        }
    )
}

/// Phases left after the current one.
pub open spec fn phase_rank(p: ExplosionPhase) -> int {
    match p {
        ExplosionPhase::Linear => 2,
        ExplosionPhase::Decelerate => 1,
        ExplosionPhase::Static => 0,
    }
}

/// One step of the state machine preserves the explosion invariant.
pub proof fn lemma_step_wf(m: ExplosionModel, dt: int)
    requires
        m.wf(),
        0 <= dt <= DT_MAX as int,
    ensures
        spec_step(m, dt).wf(),
        spec_step(m, dt).radius >= m.radius,
{
    lemma_threshold_below_max(m.max_radius);
    match m.phase {
        ExplosionPhase::Linear => {
            let raw = m.radius + linear_growth(m.initial_growth_rate, dt);
            if raw >= m.phase_transition_radius {
                let overshoot = raw - m.phase_transition_radius;
                let rem = m.max_radius - m.phase_transition_radius;
                let dec0 = deceleration(m.initial_growth_rate, rem);
                vstd::arithmetic::div_mod::lemma_div_pos_is_pos(
                    m.initial_growth_rate * m.initial_growth_rate, 2 * rem);
                if overshoot > 0 {
                    let t = overshoot * 1000 / m.initial_growth_rate;
                    vstd::arithmetic::div_mod::lemma_div_pos_is_pos(
                        overshoot * 1000, m.initial_growth_rate);
                    vstd::arithmetic::div_mod::lemma_div_pos_is_pos(
                        dec0 * t, 1000);
                }
            }
        },
        ExplosionPhase::Decelerate => {
            let rem = m.max_radius - m.radius;
            if rem > 100 {
                let dec = deceleration(m.current_growth_rate, rem);
                vstd::arithmetic::div_mod::lemma_div_pos_is_pos(
                    m.current_growth_rate * m.current_growth_rate, 2 * rem);
                vstd::arithmetic::div_mod::lemma_div_pos_is_pos(dec * dt, 1000);
            }
        },
        ExplosionPhase::Static => {},
    }
}

/// The radius invariant: a well-formed blast has its radius within
/// `[0, max_radius]`, and one update step keeps it there (so it holds
/// at every tick, since creation starts at radius zero).
pub proof fn lemma_radius_in_range(m: ExplosionModel, dt: int)
    requires
        m.wf(),
        0 <= dt <= DT_MAX as int,
    ensures
        0 <= m.radius <= m.max_radius,
        0 <= spec_step(m, dt).radius <= spec_step(m, dt).max_radius,
{
    lemma_step_wf(m, dt);
}

/// Monotone growth: one step never shrinks the radius, and during the
/// static phase it leaves the radius exactly where it is.
pub proof fn lemma_radius_monotone(m: ExplosionModel, dt: int)
    requires
        m.wf(),
        0 <= dt <= DT_MAX as int,
    ensures
        spec_step(m, dt).radius >= m.radius,
        m.phase == ExplosionPhase::Static ==> spec_step(m, dt).radius == m.radius,
{
    lemma_step_wf(m, dt);
}

/// Termination of every blast: as long as an explosion with a fixed
/// positive tick length `dt` has not ended, each update strictly
/// decreases a non-negative measure that is at most
/// `max_radius + ticks_needed(static_duration, dt) + 2`.  A blast with
/// `static_duration = D` therefore reaches `has_ended` within that many
/// ticks: there is no unbounded growth.
pub proof fn lemma_update_terminates(m: ExplosionModel, dt: int)
    requires
        m.wf(),
        1 <= dt <= DT_MAX as int,
        !m.spec_has_ended(),
    ensures
        spec_step(m, dt).wf(),
        0 <= termination_measure(spec_step(m, dt), dt) < termination_measure(m, dt),
        termination_measure(m, dt) <= m.max_radius + ticks_needed(m.static_duration, dt) + 2,
{
    lemma_step_wf(m, dt);
    lemma_threshold_below_max(m.max_radius);
    let n = spec_step(m, dt);
    if m.static_duration > 0 {
        vstd::arithmetic::div_mod::lemma_div_pos_is_pos(
            m.static_duration + dt - 1, dt);
    }
    match m.phase {
        ExplosionPhase::Linear => {
            assert(n.radius > m.radius || phase_rank(n.phase) < phase_rank(m.phase));
        },
        ExplosionPhase::Decelerate => {
            assert(n.radius > m.radius || phase_rank(n.phase) < phase_rank(m.phase));
        },
        ExplosionPhase::Static => {
            let a = m.static_duration - m.static_time_elapsed;
            assert(a >= 1);
            if m.static_time_elapsed + dt >= m.static_duration {
                assert(n.static_time_elapsed == m.static_time_elapsed + dt);
                assert(ticks_needed(m.static_duration - n.static_time_elapsed, dt) == 0);
                assert((a + dt - 1) / dt >= 1) by {
                    vstd::arithmetic::div_mod::lemma_div_is_ordered(dt, a + dt - 1, dt);
                    vstd::arithmetic::div_mod::lemma_div_by_self(dt);
                };
            } else {
                let a2 = m.static_duration - n.static_time_elapsed;
                assert(a2 == a - dt >= 1);
                assert((a + dt - 1) / dt == (a - 1) / dt + 1) by {
                    vstd::arithmetic::div_mod::lemma_div_plus_one(a - 1, dt);
                };
                assert(ticks_needed(a2, dt) == (a - dt + dt - 1) / dt);
            }
        },
    }
    if m.phase == ExplosionPhase::Static {
        let a = m.static_duration - m.static_time_elapsed;
        assert(ticks_needed(a, dt) <= ticks_needed(m.static_duration, dt)) by {
            if a > 0 {
                vstd::arithmetic::div_mod::lemma_div_is_ordered(
                    a + dt - 1, m.static_duration + dt - 1, dt);
            }
        };
    }
}

/// An expanding blast in the world.
#[derive(Clone, Copy, Debug)]
pub struct Explosion {
    pub pos: Vec2Fx,
    pub radius: i64,
    pub max_radius: i64,
    pub phase: ExplosionPhase,
    pub phase_transition_radius: i64,
    pub initial_growth_rate: i64,
    pub current_growth_rate: i64,
    pub static_duration: i64,
    pub static_time_elapsed: i64,
}

impl View for Explosion {
    type V = ExplosionModel;

    open spec fn view(&self) -> ExplosionModel {
        ExplosionModel {
            pos: self.pos,
            radius: self.radius as int,
            max_radius: self.max_radius as int,
            phase: self.phase,
            phase_transition_radius: self.phase_transition_radius as int,
            initial_growth_rate: self.initial_growth_rate as int,
            current_growth_rate: self.current_growth_rate as int,
            static_duration: self.static_duration as int,
            static_time_elapsed: self.static_time_elapsed as int,
        }
    }
}

/// The model of a freshly created explosion at `pos`.
pub open spec fn spec_new_explosion(pos: Vec2Fx, params: ExplosionParams) -> ExplosionModel {
    ExplosionModel {
        pos,
        radius: 0,
        max_radius: params.max_radius as int,
        phase: ExplosionPhase::Linear,
        phase_transition_radius: 4 * params.max_radius / 5,
        initial_growth_rate: params.growth_rate as int,
        current_growth_rate: params.growth_rate as int,
        static_duration: params.static_duration as int,
        static_time_elapsed: 0,
    }
}

/// 80% of a maximum radius in `1..=RADIUS_MAX` lies strictly below it.
pub proof fn lemma_threshold_below_max(max_radius: int)
    requires
        1 <= max_radius,
    ensures
        0 <= 4 * max_radius / 5 < max_radius,
{
    assert(0 <= 4 * max_radius / 5 < max_radius) by (nonlinear_arith)
        requires 1 <= max_radius;
}

impl Explosion {
    /// The executable state matches its model's invariant.
    pub open spec fn wf(self) -> bool {
        self@.wf()
    }

    /// A new explosion at `pos`: zero radius, growing linearly.
    pub fn new(pos: Vec2Fx, params: ExplosionParams) -> (r: Explosion)
        requires
            pos.in_world(),
            params.wf(),
        ensures
            r.wf(),
            r@ == spec_new_explosion(pos, params),
    {
        proof {
            lemma_threshold_below_max(params.max_radius as int);
        }
        Explosion {
            pos,
            radius: 0,
            max_radius: params.max_radius,
            phase: ExplosionPhase::Linear,
            phase_transition_radius: 4 * params.max_radius / 5,
            initial_growth_rate: params.growth_rate,
            current_growth_rate: params.growth_rate,
            static_duration: params.static_duration,
            static_time_elapsed: 0,
        }
    }

    /// A new explosion with the default parameters.
    pub fn new_default(pos: Vec2Fx) -> (r: Explosion)
        requires
            pos.in_world(),
        ensures
            r.wf(),
            r@ == spec_new_explosion(pos, spec_default_params()),
    {
        Explosion::new(pos, ExplosionParams::default())
    }

    /// Advance the state machine by `dt` milliseconds.
    ///
    /// The new state is exactly `spec_step` of the old one; the radius
    /// never leaves `[0, max_radius]`, never shrinks, and is constant
    /// during the static phase.
    pub fn update(&mut self, dt: i64)
        requires
            old(self).wf(),
            0 <= dt <= DT_MAX,
        ensures
            final(self)@ == spec_step(old(self)@, dt as int),
            final(self).wf(),
            final(self).radius >= old(self).radius,
            old(self)@.phase == ExplosionPhase::Static ==> final(self).radius == old(self).radius,
            old(self)@.phase == ExplosionPhase::Static
                && old(self).static_time_elapsed + dt <= STATIC_ELAPSED_LIMIT
                ==> final(self).static_time_elapsed == old(self).static_time_elapsed + dt,
    {
        proof {
            lemma_threshold_below_max(self.max_radius as int);
        }
        match self.phase {
            ExplosionPhase::Linear => {
                let rate: i64 = self.initial_growth_rate;
                assert(0 <= rate * dt <= 100_000_000_000_000) by (nonlinear_arith)
                    requires 1 <= rate <= RATE_MAX, 0 <= dt <= DT_MAX;
                let g0: i64 = (rate * dt) / 1000;
                proof {
                    vstd::arithmetic::div_mod::lemma_div_is_ordered(
                        0, rate * dt, 1000);
                    vstd::arithmetic::div_mod::lemma_div_is_ordered(
                        rate * dt, 100_000_000_000_000, 1000);
                }
                let growth: i64 = if g0 < 1 { 1 } else { g0 };
                assert(growth == linear_growth(rate as int, dt as int));
                let raw: i64 = self.radius + growth;
                if raw < self.phase_transition_radius {
                    self.radius = raw;
                    assert(self@ == spec_step(old(self)@, dt as int));
                } else {
                    let overshoot: i64 = raw - self.phase_transition_radius;
                    let rem: i64 = self.max_radius - self.phase_transition_radius;
                    assert(1 <= rem <= RADIUS_MAX);
                    assert(0 <= rate * rate <= 1_000_000_000_000_000_000) by (nonlinear_arith)
                        requires 1 <= rate <= RATE_MAX;
                    let dec0: i64 = (rate * rate) / (2 * rem);
                    proof {
                        vstd::arithmetic::div_mod::lemma_div_pos_is_pos(
                            rate * rate, 2 * rem);
                        vstd::arithmetic::div_mod::lemma_div_is_ordered_by_denominator(
                            rate * rate, 2, 2 * rem);
                        assert(dec0 <= 500_000_000_000_000_000);
                    }
                    self.radius = self.phase_transition_radius;
                    self.phase = ExplosionPhase::Decelerate;
                    if overshoot > 0 {
                        assert(overshoot <= growth);
                        assert(0 <= overshoot * 1000 <= 100_000_000_000_000_000) by (nonlinear_arith)
                            requires 0 <= overshoot <= 100_000_000_001;
                        let t: i64 = (overshoot * 1000) / rate;
                        proof {
                            vstd::arithmetic::div_mod::lemma_div_pos_is_pos(
                                overshoot * 1000, rate as int);
                            // overshoot <= rate*dt/1000 + 1, so t <= dt + 1000
                            assert(overshoot * 1000 <= (rate * dt / 1000) * 1000 + 1000);
                            assert((rate * dt / 1000) * 1000 <= rate * dt) by (nonlinear_arith)
                                requires rate * dt >= 0;
                            assert(overshoot * 1000 <= rate * (dt + 1000)) by (nonlinear_arith)
                                requires
                                    overshoot * 1000 <= rate * dt + 1000,
                                    rate >= 1;
                            vstd::arithmetic::div_mod::lemma_div_is_ordered(
                                overshoot * 1000, rate * (dt + 1000), rate as int);
                            vstd::arithmetic::div_mod::lemma_div_multiples_vanish(
                                dt + 1000, rate as int);
                            assert(t <= dt + 1000);
                        }
                        assert(t <= 101_000);
                        assert(0 <= (rate as i128) * (t as i128)
                            <= 101_000_000_000_000) by (nonlinear_arith)
                            requires 1 <= rate <= 1_000_000_000, 0 <= t <= 101_000;
                        assert(0 <= (dec0 as i128) * (t as i128)
                            <= 0x10_0000_0000_0000_0000_0000
                            && 0 <= (dec0 as i128) * (t as i128) * (t as i128)
                            <= 0x1_0000_0000_0000_0000_0000_0000_0000) by (nonlinear_arith)
                            requires 0 <= dec0 <= 500_000_000_000_000_000, 0 <= t <= 101_000;
                        let travel_pos: i128 = (rate as i128) * (t as i128) / 1000;
                        let travel_neg: i128 = (dec0 as i128) * (t as i128) * (t as i128)
                            / 2_000_000;
                        let travel: i128 = travel_pos - travel_neg;
                        proof {
                            vstd::arithmetic::div_mod::lemma_div_pos_is_pos(
                                rate * t, 1000);
                            vstd::arithmetic::div_mod::lemma_div_pos_is_pos(
                                dec0 * t * t, 2_000_000);
                            assert(travel == decelerated_travel(
                                rate as int, dec0 as int, t as int));
                        }
                        let p2: i64 = if travel < 0 {
                            0
                        } else if travel > rem as i128 {
                            rem
                        } else {
                            travel as i64
                        };
                        assert(p2 == spec_clamp(
                            decelerated_travel(rate as int, dec0 as int, t as int),
                            0, rem as int));
                        let decay: i128 = (dec0 as i128) * (t as i128) / 1000;
                        proof {
                            vstd::arithmetic::div_mod::lemma_div_pos_is_pos(
                                dec0 * t, 1000);
                        }
                        let new_rate: i64 = if (rate as i128) - decay < 0 {
                            0
                        } else {
                            ((rate as i128) - decay) as i64
                        };
                        assert(new_rate == decayed_rate(rate as int, dec0 as int, t as int));
                        self.radius = self.phase_transition_radius + p2;
                        self.current_growth_rate = new_rate;
                        assert(self@ == spec_step(old(self)@, dt as int));
                    } else {
                        assert(self@ == spec_step(old(self)@, dt as int));
                    }
                }
            },
            ExplosionPhase::Decelerate => {
                let rem: i64 = self.max_radius - self.radius;
                if rem > 100 {
                    let cur: i64 = self.current_growth_rate;
                    assert(0 <= cur * cur <= 1_000_000_000_000_000_000) by (nonlinear_arith)
                        requires 0 <= cur <= RATE_MAX;
                    let dec: i64 = (cur * cur) / (2 * rem);
                    proof {
                        vstd::arithmetic::div_mod::lemma_div_pos_is_pos(
                            cur * cur, 2 * rem);
                        vstd::arithmetic::div_mod::lemma_div_is_ordered_by_denominator(
                            cur * cur, 2, 2 * rem);
                        assert(dec <= 500_000_000_000_000_000);
                    }
                    assert(0 <= (cur as i128) * (dt as i128)
                        <= 100_000_000_000_000) by (nonlinear_arith)
                        requires 0 <= cur <= 1_000_000_000, 0 <= dt <= 100_000;
                    assert(0 <= (dec as i128) * (dt as i128)
                        <= 0x10_0000_0000_0000_0000_0000
                        && 0 <= (dec as i128) * (dt as i128) * (dt as i128)
                        <= 0x1_0000_0000_0000_0000_0000_0000_0000) by (nonlinear_arith)
                        requires 0 <= dec <= 500_000_000_000_000_000, 0 <= dt <= 100_000;
                    let travel_pos: i128 = (cur as i128) * (dt as i128) / 1000;
                    let travel_neg: i128 = (dec as i128) * (dt as i128) * (dt as i128)
                        / 2_000_000;
                    let travel: i128 = travel_pos - travel_neg;
                    proof {
                        vstd::arithmetic::div_mod::lemma_div_pos_is_pos(cur * dt, 1000);
                        vstd::arithmetic::div_mod::lemma_div_pos_is_pos(
                            dec * dt * dt, 2_000_000);
                        assert(travel == decelerated_travel(
                            cur as int, dec as int, dt as int));
                    }
                    let g: i64 = if travel < 1 {
                        1
                    } else if travel > rem as i128 {
                        rem
                    } else {
                        travel as i64
                    };
                    assert(g == spec_clamp(
                        decelerated_travel(cur as int, dec as int, dt as int),
                        1, rem as int));
                    let decay: i128 = (dec as i128) * (dt as i128) / 1000;
                    proof {
                        vstd::arithmetic::div_mod::lemma_div_pos_is_pos(dec * dt, 1000);
                    }
                    let new_rate: i64 = if (cur as i128) - decay < 0 {
                        0
                    } else {
                        ((cur as i128) - decay) as i64
                    };
                    assert(new_rate == decayed_rate(cur as int, dec as int, dt as int));
                    self.radius = self.radius + g;
                    self.current_growth_rate = new_rate;
                    assert(self@ == spec_step(old(self)@, dt as int));
                } else {
                    self.phase = ExplosionPhase::Static;
                    self.radius = self.max_radius;
                    self.static_time_elapsed = 0;
                    assert(self@ == spec_step(old(self)@, dt as int));
                }
            },
            ExplosionPhase::Static => {
                let e: i64 = self.static_time_elapsed + dt;
                self.static_time_elapsed = if e > STATIC_ELAPSED_LIMIT {
                    STATIC_ELAPSED_LIMIT
                } else {
                    e
                };
                assert(self@ == spec_step(old(self)@, dt as int));
            },
        }
    }

    /// The explosion has stayed at full size for its whole duration.
    pub fn has_ended(&self) -> (r: bool)
        ensures
            r == self@.spec_has_ended(),
    {
        self.phase == ExplosionPhase::Static && self.static_time_elapsed >= self.static_duration
    }
}

} // verus!

