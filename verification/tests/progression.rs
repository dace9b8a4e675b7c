use missile_survivor::player::{Player, Skill};

#[test]
fn fresh_player_is_level_zero() {
    let p = Player::new();
    assert_eq!(p.player_level(), 0);
    assert_eq!(p.experience(), 0);
    assert_eq!(p.get_skill_level(Skill::ExplosionSpeed), 0);
    assert_eq!(p.get_skill_level(Skill::MissileSpeed), 0);
}

#[test]
fn required_experience_grows_ten_percent_per_level() {
    let mut p = Player::new();
    assert_eq!(p.experience_required_for_next_level(), 50_000);
    p.level_up();
    assert_eq!(p.experience_required_for_next_level(), 55_000);
    p.level_up();
    p.level_up();
    assert_eq!(p.experience_required_for_next_level(), 65_000);
}

#[test]
fn experience_120_at_level_0_gives_two_level_ups() {
    // 120 - 50 - 50 leaves 20 experience and two crossings.
    let mut p = Player::new();
    let level_ups = p.add_experience(120_000);
    assert_eq!(level_ups, 2);
    assert_eq!(p.experience(), 20_000);
}

#[test]
fn experience_is_always_normalized_below_threshold() {
    let mut p = Player::new();
    for amount in [0i64, 49_999, 1, 250_000, 999_999_999] {
        p.add_experience(amount);
        assert!(p.experience() >= 0);
        assert!(p.experience() < p.experience_required_for_next_level());
    }
}

#[test]
fn skill_levels_scale_the_derived_parameters() {
    let mut p = Player::new();
    p.level_up_skill(Skill::ExplosionRadius);
    p.level_up_skill(Skill::ExplosionRadius);
    p.level_up_skill(Skill::ExplosionSpeed);
    p.level_up_skill(Skill::ExplosionAfterGlow);
    p.level_up_skill(Skill::MissileSpeed);
    // base * (1 + 0.2 * level)
    assert_eq!(p.get_explosion_max_radius(), 70_000);
    assert_eq!(p.get_explosion_growth_rate(), 240_000);
    assert_eq!(p.get_explosion_static_duration(), 60);
    assert_eq!(p.get_missile_speed(), 120_000);
}

#[test]
fn unleveled_parameters_are_the_defaults() {
    let p = Player::default();
    assert_eq!(p.get_explosion_max_radius(), 50_000);
    assert_eq!(p.get_explosion_growth_rate(), 200_000);
    assert_eq!(p.get_explosion_static_duration(), 50);
    assert_eq!(p.get_missile_speed(), 100_000);
}

#[test]
fn experience_progress_is_in_thousandths() {
    let mut p = Player::new();
    p.add_experience(20_000);
    assert_eq!(p.experience_progress(), 400);
}

#[test]
fn all_skills_in_canonical_order() {
    let all = Skill::all();
    assert_eq!(all.len(), 4);
    assert!(all[0] == Skill::ExplosionSpeed);
    assert!(all[1] == Skill::ExplosionAfterGlow);
    assert!(all[2] == Skill::ExplosionRadius);
    assert!(all[3] == Skill::MissileSpeed);
}

#[test]
fn random_subset_gives_distinct_skills() {
    for _ in 0..50 {
        let two = Skill::random_subset(2);
        assert_eq!(two.len(), 2);
        assert!(two[0] != two[1]);
    }
    let none = Skill::random_subset(0);
    assert_eq!(none.len(), 0);
    let many = Skill::random_subset(9);
    assert_eq!(many.len(), 4);
    for i in 0..4 {
        for j in (i + 1)..4 {
            assert!(many[i] != many[j]);
        }
    }
}

#[test]
fn skill_names_and_descriptions() {
    assert_eq!(Skill::ExplosionSpeed.name(), "Explosion Speed");
    assert_eq!(Skill::ExplosionAfterGlow.name(), "Explosion After Glow");
    assert_eq!(Skill::ExplosionRadius.name(), "Explosion Radius");
    assert_eq!(Skill::MissileSpeed.name(), "Missile Speed");
    assert_eq!(
        Skill::ExplosionRadius.description(),
        "Explosions are 20% larger per level"
    );
    assert_eq!(
        Skill::MissileSpeed.description(),
        "Missiles are 20% faster per level"
    );
}
