use missile_survivor::coord::Coord;
use missile_survivor::geom::{Vec2Fx, clamp_i64, dist_squared, div_toward_zero, isqrt};
use missile_survivor::hash::hash_of;
use missile_survivor::missile::Missile;

#[test]
fn integer_square_roots() {
    assert_eq!(isqrt(0), 0);
    assert_eq!(isqrt(1), 1);
    assert_eq!(isqrt(15), 3);
    assert_eq!(isqrt(16), 4);
    assert_eq!(isqrt(1_000_000), 1_000);
    assert_eq!(isqrt(999_999), 999);
}

#[test]
fn squared_distances() {
    let a = Vec2Fx { x: 0, y: 0 };
    let b = Vec2Fx { x: 3_000, y: 4_000 };
    assert_eq!(dist_squared(a, b), 25_000_000);
    assert_eq!(dist_squared(b, b), 0);
}

#[test]
fn division_rounds_toward_zero() {
    assert_eq!(div_toward_zero(7, 2), 3);
    assert_eq!(div_toward_zero(-7, 2), -3);
    assert_eq!(div_toward_zero(0, 5), 0);
}

#[test]
fn clamping() {
    assert_eq!(clamp_i64(5, 0, 10), 5);
    assert_eq!(clamp_i64(-5, 0, 10), 0);
    assert_eq!(clamp_i64(15, 0, 10), 10);
}

#[test]
fn missile_direction_is_a_scaled_unit_vector() {
    // 3-4-5 triangle: the unit direction is (0.6, 0.8).
    let start = Vec2Fx { x: 0, y: 0 };
    let target = Vec2Fx { x: 3_000, y: 4_000 };
    let m = Missile::new(start, target, None, 100_000);
    assert_eq!(m.direction.x, 600);
    assert_eq!(m.direction.y, 800);
    assert_eq!(m.current_pos, start);
    assert!(!m.exploded);
    assert!(m.is_player_missile());
}

#[test]
fn missile_advances_along_its_direction() {
    let start = Vec2Fx { x: 0, y: 0 };
    let target = Vec2Fx { x: 3_000, y: 4_000 };
    let mut m = Missile::new(start, target, None, 100_000);
    // 100 units/s for 10 ms moves 1 unit: (0.6, 0.8) units.
    m.advance(10);
    assert_eq!(m.current_pos.x, 600);
    assert_eq!(m.current_pos.y, 800);
    m.advance(10);
    assert_eq!(m.current_pos.x, 1_200);
    assert_eq!(m.current_pos.y, 1_600);
}

#[test]
fn enemy_missiles_carry_their_bunker_index() {
    let start = Vec2Fx { x: 0, y: -300_000 };
    let target = Vec2Fx { x: 0, y: 260_000 };
    let m = Missile::new(start, target, Some(1), 50_000);
    assert!(!m.is_player_missile());
    assert_eq!(m.direction.x, 0);
    assert_eq!(m.direction.y, 1_000);
}

#[test]
fn coords_do_componentwise_arithmetic() {
    let a = Coord::new(6, 8);
    let b = Coord::new(2, -4);
    assert_eq!(a + b, Coord::new(8, 4));
    assert_eq!(a - b, Coord::new(4, 12));
    assert_eq!(a * b, Coord::new(12, -32));
    assert_eq!(a / b, Coord::new(3, -2));
}

#[test]
fn hashing_is_deterministic_within_a_run() {
    let one = hash_of(b"missile");
    let two = hash_of(b"missile");
    assert_eq!(one, two);
    assert!(hash_of(b"missile") != hash_of(b"missiles"));
}
