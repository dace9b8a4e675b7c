//! Fixed parameters of the play field and the pacing curves that make
//! enemy missiles spawn faster and fly faster as a run goes on.
//!
//! Lengths are milli-units, times are milliseconds.

use vstd::prelude::*;

verus! {

/// Height of the ground strip.
pub const GROUND_HEIGHT: i64 = 20_000;
/// Width of a bunker.
pub const BUNKER_WIDTH: i64 = 30_000;
/// Height of a bunker.
pub const BUNKER_HEIGHT: i64 = 20_000;
/// Base speed of a player missile (100 units/s).
pub const MISSILE_SPEED: i64 = 100_000;
/// Base interval between enemy missile spawns (4 s).
pub const ENEMY_MISSILE_SPAWN_INTERVAL: i64 = 4_000;
/// Time before the first enemy missile (2 s).
pub const INITIAL_SPAWN_TIME: i64 = 2_000;

/// The spawn interval never drops below a third of the base interval.
pub const MIN_SPAWN_INTERVAL: i64 = 1_333;
/// The pacing curves reach their extremes after 5 minutes.
pub const TIME_TO_EXTREME: i64 = 300_000;
/// Game time saturates here, keeping every pacing product in range.
pub const TIME_LIMIT: i64 = 1_000_000_000_000;

/// y of the bunker row (world 260, below which the ground starts).
pub const BUNKER_Y: i64 = 260_000;
/// y of the line where destroyed missiles yield full experience.
pub const TOP_Y: i64 = -300_000;
/// y of the line where destroyed missiles yield no experience.
pub const EXP_BASE_Y: i64 = 280_000;

/// Interval until the next enemy spawn after `elapsed` ms of play:
/// shrinks linearly from the base interval toward a third of it over
/// five minutes (2667 thousandths of a ms lost per ms, the integer
/// rendering of the two-thirds drop).
pub open spec fn spec_spawn_interval(elapsed: int) -> int {
    crate::geom::imax(
        ENEMY_MISSILE_SPAWN_INTERVAL - (elapsed * 2_667) / TIME_TO_EXTREME as int,
        MIN_SPAWN_INTERVAL as int,
    )
}

/// Enemy spawn interval after `elapsed` ms of play.
pub fn get_enemy_missile_spawn_interval(elapsed: i64) -> (r: i64)
    requires
        0 <= elapsed <= TIME_LIMIT,
    ensures
        r == spec_spawn_interval(elapsed as int),
        MIN_SPAWN_INTERVAL <= r <= ENEMY_MISSILE_SPAWN_INTERVAL,
{
    assert(0 <= elapsed * 2_667 <= 2_667_000_000_000_000) by (nonlinear_arith)
        requires 0 <= elapsed <= 1_000_000_000_000;
    let drop: i64 = (elapsed * 2_667) / 300_000;
    proof {
        vstd::arithmetic::div_mod::lemma_div_pos_is_pos(elapsed * 2_667, 300_000);
        vstd::arithmetic::div_mod::lemma_div_is_ordered(
            elapsed * 2_667, 2_667_000_000_000_000, 300_000);
    }
    let raw: i64 = ENEMY_MISSILE_SPAWN_INTERVAL - drop;
    if raw < MIN_SPAWN_INTERVAL {
        MIN_SPAWN_INTERVAL
    } else {
        raw
    }
}

/// Enemy missile speed after `elapsed` ms of play: starts at half the
/// base missile speed and rises linearly to triple that over five
/// minutes.
pub open spec fn spec_enemy_speed(elapsed: int) -> int {
    crate::geom::imin(
        50_000 + (elapsed * 100_000) / TIME_TO_EXTREME as int,
        150_000,
    )
}

/// Enemy missile speed after `elapsed` ms of play.
pub fn get_enemy_missile_speed(elapsed: i64) -> (r: i64)
    requires
        0 <= elapsed <= TIME_LIMIT,
    ensures
        r == spec_enemy_speed(elapsed as int),
        50_000 <= r <= 150_000,
{
    assert(0 <= elapsed * 100_000 <= 100_000_000_000_000_000) by (nonlinear_arith)
        requires 0 <= elapsed <= 1_000_000_000_000;
    let rise: i64 = (elapsed * 100_000) / 300_000;
    proof {
        vstd::arithmetic::div_mod::lemma_div_pos_is_pos(elapsed * 100_000, 300_000);
    }
    let raw: i64 = 50_000 + rise;
    if raw > 150_000 {
        150_000
    } else {
        raw
    }
}

} // verus!
