use missile_survivor::explosion::{Explosion, ExplosionParams, ExplosionPhase};
use missile_survivor::geom::Vec2Fx;

fn origin() -> Vec2Fx {
    Vec2Fx { x: 0, y: 0 }
}

fn scenario_params() -> ExplosionParams {
    // max radius 50 units, growth 200 units/s, static 0.05 s.
    ExplosionParams {
        max_radius: 50_000,
        growth_rate: 200_000,
        static_duration: 50,
    }
}

#[test]
fn new_blast_starts_at_zero_radius() {
    let e = Explosion::new(origin(), scenario_params());
    assert_eq!(e.radius, 0);
    assert_eq!(e.max_radius, 50_000);
    assert_eq!(e.phase_transition_radius, 40_000);
    assert!(e.phase == ExplosionPhase::Linear);
    assert!(!e.has_ended());
}

#[test]
fn default_blast_uses_default_parameters() {
    let e = Explosion::new_default(origin());
    assert_eq!(e.max_radius, 50_000);
    assert_eq!(e.initial_growth_rate, 200_000);
    assert_eq!(e.static_duration, 50);
}

#[test]
fn radius_stays_in_range_every_tick() {
    // The blast invariant: 0 <= radius <= max_radius at every tick.
    let mut e = Explosion::new(origin(), scenario_params());
    for _ in 0..100 {
        e.update(10);
        assert!(e.radius >= 0);
        assert!(e.radius <= e.max_radius);
    }
}

#[test]
fn radius_is_monotone_and_static_phase_constant() {
    // Monotone while growing; exactly constant in the static phase.
    let mut e = Explosion::new(origin(), scenario_params());
    for _ in 0..100 {
        let before = e.radius;
        let phase_before = e.phase;
        e.update(10);
        if phase_before == ExplosionPhase::Static {
            assert_eq!(e.radius, before);
        } else {
            assert!(e.radius >= before);
        }
    }
}

#[test]
fn scenario_growth_timeline() {
    // max_radius=50, growth_rate=200, static_duration=0.05, dt=0.01:
    // after ~0.2 s the blast is past its linear phase, and after
    // ~0.3 s (here: 0.35 s) it has ended.
    let mut e = Explosion::new(origin(), scenario_params());
    for _ in 0..20 {
        e.update(10);
    }
    assert!(e.phase == ExplosionPhase::Decelerate || e.phase == ExplosionPhase::Static);
    for _ in 0..16 {
        e.update(10);
    }
    assert!(e.has_ended());
}

#[test]
fn exact_values_at_phase_transition() {
    // 20 ticks of 10 ms at 200 units/s land exactly on the 80%
    // threshold; the first decelerate tick then grows the radius by
    // 200*0.01 - 0.5*dec*0.01^2 with dec = 200^2/(2*10) = 2000 u/s^2,
    // i.e. 2 - 0.1 = 1.9 units, and the rate drops by 20 u/s.
    let mut e = Explosion::new(origin(), scenario_params());
    for _ in 0..20 {
        e.update(10);
    }
    assert_eq!(e.radius, 40_000);
    assert!(e.phase == ExplosionPhase::Decelerate);
    assert_eq!(e.current_growth_rate, 200_000);
    e.update(10);
    assert_eq!(e.radius, 41_900);
    assert_eq!(e.current_growth_rate, 180_000);
}

#[test]
fn overshoot_is_carried_into_the_decelerate_phase() {
    // At 150 units/s the threshold is crossed mid-tick with 0.5 units
    // of overshoot; the overshoot time (3+1/3 ms, truncated to 3 ms)
    // is re-applied with phase-2 physics: growth 450 - 5 milli-units,
    // rate 150000 - 1125000*3/1000.
    let params = ExplosionParams {
        max_radius: 50_000,
        growth_rate: 150_000,
        static_duration: 50,
    };
    let mut e = Explosion::new(origin(), params);
    for _ in 0..27 {
        e.update(10);
    }
    assert!(e.phase == ExplosionPhase::Decelerate);
    assert_eq!(e.radius, 40_445);
    assert_eq!(e.current_growth_rate, 146_625);
}

#[test]
fn every_blast_terminates() {
    // A bounded number of ticks (max_radius in milli-units plus the
    // static ticks plus the phase changes) always reaches the end.
    let params = ExplosionParams {
        max_radius: 2_000,
        growth_rate: 1_000,
        static_duration: 1_000,
    };
    let mut e = Explosion::new(origin(), params);
    let mut ticks = 0u64;
    while !e.has_ended() {
        e.update(7);
        ticks += 1;
        assert!(ticks <= 2_000 + 1_000 + 3);
    }
    assert!(e.has_ended());
    assert_eq!(e.radius, e.max_radius);
}

#[test]
fn static_timer_keeps_counting_each_tick() {
    // The static phase adds dt to the timer every tick, also once the
    // duration is already passed; only the radius is frozen.
    let mut e = Explosion::new(origin(), scenario_params());
    while e.phase != ExplosionPhase::Static {
        e.update(10);
    }
    assert_eq!(e.static_time_elapsed, 0);
    e.update(40);
    assert_eq!(e.static_time_elapsed, 40);
    e.update(40);
    assert_eq!(e.static_time_elapsed, 80);
    assert!(e.has_ended());
    assert_eq!(e.radius, 50_000);
}

#[test]
fn static_phase_holds_until_duration_elapses() {
    let mut e = Explosion::new(origin(), scenario_params());
    while e.phase != ExplosionPhase::Static {
        e.update(10);
    }
    assert_eq!(e.radius, 50_000);
    assert!(!e.has_ended());
    for _ in 0..5 {
        assert!(!e.has_ended() || e.static_time_elapsed >= e.static_duration);
        e.update(10);
        assert_eq!(e.radius, 50_000);
    }
    assert!(e.has_ended());
}
