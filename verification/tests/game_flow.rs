use missile_survivor::constants::{
    get_enemy_missile_spawn_interval, get_enemy_missile_speed,
};
use missile_survivor::explosion::Explosion;
use missile_survivor::game::Game;
use missile_survivor::geom::Vec2Fx;
use missile_survivor::player::Skill;

fn all_inactive(g: &Game) -> bool {
    g.bunkers.iter().all(|b| !b.active)
}

#[test]
fn a_new_game_has_three_intact_bunkers() {
    let g = Game::new();
    assert_eq!(g.bunkers.len(), 3);
    assert_eq!(g.bunkers[0].pos, Vec2Fx { x: -200_000, y: 260_000 });
    assert_eq!(g.bunkers[1].pos, Vec2Fx { x: 0, y: 260_000 });
    assert_eq!(g.bunkers[2].pos, Vec2Fx { x: 200_000, y: 260_000 });
    assert!(g.bunkers.iter().all(|b| b.active && !b.firing));
    assert!(!g.game_over);
    assert_eq!(g.game_time, 0);
    assert_eq!(g.missiles.len(), 0);
}

#[test]
fn spawn_pacing_curves() {
    // Interval: 4 s at the start, down to a third after 5 minutes.
    assert_eq!(get_enemy_missile_spawn_interval(0), 4_000);
    assert_eq!(get_enemy_missile_spawn_interval(150_000), 2_667);
    assert_eq!(get_enemy_missile_spawn_interval(300_000), 1_333);
    assert_eq!(get_enemy_missile_spawn_interval(600_000), 1_333);
    // Speed: half the base at the start, triple the half after 5 min.
    assert_eq!(get_enemy_missile_speed(0), 50_000);
    assert_eq!(get_enemy_missile_speed(150_000), 100_000);
    assert_eq!(get_enemy_missile_speed(300_000), 150_000);
    assert_eq!(get_enemy_missile_speed(900_000), 150_000);
}

#[test]
fn experience_for_height_is_linear_between_the_lines() {
    let g = Game::new();
    // At the bunker line: nothing; at the top line: 100 points.
    assert_eq!(g.calculate_experience_for_missile(Vec2Fx { x: 0, y: 280_000 }), 0);
    assert_eq!(
        g.calculate_experience_for_missile(Vec2Fx { x: 0, y: -300_000 }),
        100_000
    );
    // 300 units above the base line: 100 * 300/580 points.
    assert_eq!(
        g.calculate_experience_for_missile(Vec2Fx { x: 0, y: -20_000 }),
        51_724
    );
    // Below the bunker line the award clamps at zero.
    assert_eq!(g.calculate_experience_for_missile(Vec2Fx { x: 0, y: 300_000 }), 0);
}

#[test]
fn hostile_hit_deactivates_the_bunker_and_spawns_one_blast() {
    // A hostile missile from straight above bunker 1 at (0, 260):
    // when it comes within 2 units the bunker dies and exactly one
    // default blast appears at the bunker's position.
    let mut g = Game::new();
    g.spawn_enemy_missile_at(0, 1);
    assert_eq!(g.missiles.len(), 1);
    let mut ticks = 0;
    while !g.missiles.is_empty() && !g.missiles[0].exploded {
        g.update_missiles(100);
        ticks += 1;
        assert!(ticks < 1_000, "missile never arrived");
    }
    assert!(!g.bunkers[1].active);
    assert!(g.bunkers[0].active && g.bunkers[2].active);
    assert_eq!(g.explosions.len(), 1);
    assert_eq!(g.explosions[0].pos, Vec2Fx { x: 0, y: 260_000 });
    assert_eq!(g.explosions[0].max_radius, 50_000);
}

#[test]
fn chain_destroyed_player_missile_uses_skill_parameters() {
    // A player missile caught in a blast spawns a new blast built
    // from the player's current skills, not from the defaults.
    let mut g = Game::new();
    g.player.level_up_skill(Skill::ExplosionRadius);
    g.fire_at(Vec2Fx { x: -200_000, y: 100_000 });
    assert_eq!(g.missiles.len(), 1);
    assert!(g.bunkers[0].firing);
    let mpos = g.missiles[0].current_pos;
    g.explosions.push(Explosion::new_default(mpos));
    g.update_explosions(10);
    // The missile was destroyed and pruned; two blasts remain: the
    // planted one and the chain blast with the enlarged radius.
    assert_eq!(g.missiles.len(), 0);
    assert_eq!(g.explosions.len(), 2);
    assert_eq!(g.explosions[1].max_radius, 60_000);
    assert_eq!(g.explosions[1].pos, mpos);
    // With its missile gone, the bunker is no longer firing.
    assert!(!g.bunkers[0].firing);
}

#[test]
fn awarding_experience_spawns_one_star_per_level_up() {
    let mut g = Game::new();
    g.award_experience(120_000);
    assert_eq!(g.stars.len(), 2);
    assert_eq!(g.player.experience(), 20_000);
    for s in g.stars.iter() {
        assert!(s.active);
        assert!(s.pos.x >= -350_000 && s.pos.x < 350_000);
        assert!(s.pos.y >= -250_000 && s.pos.y < 200_000);
    }
}

#[test]
fn destroying_a_star_grants_a_skill_choice_and_suspends_the_tick() {
    let mut g = Game::new();
    g.award_experience(50_000);
    assert_eq!(g.stars.len(), 1);
    let spos = g.stars[0].pos;
    g.explosions.push(Explosion::new_default(spos));
    g.update_explosions(10);
    assert_eq!(g.stars.len(), 0);
    assert_eq!(g.level_ups_left, 1);
    assert!(g.is_skill_selection_active());
    // The suspended tick only fills the skill offer.
    let time_before = g.game_time;
    let missiles_before = g.missiles.len();
    g.update(100);
    assert_eq!(g.game_time, time_before);
    assert_eq!(g.missiles.len(), missiles_before);
    assert_eq!(g.skill_options.len(), 2);
    assert!(g.skill_options[0] != g.skill_options[1]);
    // Choosing the skill levels the player and resumes the game.
    let chosen = g.skill_options[0];
    let before = g.player.get_skill_level(chosen);
    g.select_skill(0);
    assert_eq!(g.player.get_skill_level(chosen), before + 1);
    assert_eq!(g.player.player_level(), 1);
    assert_eq!(g.level_ups_left, 0);
    assert_eq!(g.skill_options.len(), 0);
    assert!(!g.is_skill_selection_active());
}

#[test]
fn skill_boxes_cover_the_menu_row() {
    let mut g = Game::new();
    g.award_experience(50_000);
    let spos = g.stars[0].pos;
    g.explosions.push(Explosion::new_default(spos));
    g.update_explosions(10);
    g.update(10);
    assert_eq!(g.skill_options.len(), 2);
    assert_eq!(g.skill_option_at(Vec2Fx { x: -150_000, y: 0 }), Some(0));
    assert_eq!(g.skill_option_at(Vec2Fx { x: 150_000, y: 0 }), Some(1));
    assert_eq!(g.skill_option_at(Vec2Fx { x: -150_000, y: -100_000 }), None);
    assert_eq!(g.skill_option_at(Vec2Fx { x: 400_000, y: 0 }), None);
}

#[test]
fn firing_picks_the_closest_idle_bunker() {
    let mut g = Game::new();
    g.fire_at(Vec2Fx { x: 150_000, y: 100_000 });
    assert_eq!(g.missiles.len(), 1);
    assert_eq!(g.missiles[0].start_pos, Vec2Fx { x: 200_000, y: 260_000 });
    assert!(g.bunkers[2].firing);
    assert!(!g.bunkers[0].firing && !g.bunkers[1].firing);
    // The closest bunker is busy now, so the next shot comes from the
    // middle one.
    g.fire_at(Vec2Fx { x: 150_000, y: 100_000 });
    assert_eq!(g.missiles.len(), 2);
    assert_eq!(g.missiles[1].start_pos, Vec2Fx { x: 0, y: 260_000 });
}

#[test]
fn a_shot_at_the_launch_point_is_dropped() {
    let mut g = Game::new();
    g.fire_at(Vec2Fx { x: 200_000, y: 260_000 });
    assert_eq!(g.missiles.len(), 0);
    assert!(!g.bunkers[2].firing);
}

#[test]
fn the_tick_advances_clock_and_spawn_timer() {
    let mut g = Game::new();
    g.update(10);
    assert_eq!(g.game_time, 10);
    assert_eq!(g.time_until_next_missile_spawn, 1_990);
}

#[test]
fn game_over_on_the_tick_the_last_bunker_dies() {
    let mut g = Game::new();
    g.spawn_enemy_missile_at(-200_000, 0);
    g.spawn_enemy_missile_at(0, 1);
    g.spawn_enemy_missile_at(200_000, 2);
    let mut ticks = 0;
    while !g.game_over {
        g.update_missiles(100);
        g.update_explosions(100);
        g.check_game_over();
        // The flag appears exactly when the last bunker goes down.
        assert_eq!(g.game_over, all_inactive(&g));
        ticks += 1;
        assert!(ticks < 2_000, "bunkers survived the barrage");
    }
    // A finished game freezes until reset.
    let missiles_before = g.missiles.len();
    let time_before = g.game_time;
    g.update(100);
    assert!(g.game_over);
    assert_eq!(g.missiles.len(), missiles_before);
    assert_eq!(g.game_time, time_before);
    g.reset();
    assert!(!g.game_over);
    assert!(g.bunkers.iter().all(|b| b.active));
    assert_eq!(g.missiles.len(), 0);
    assert_eq!(g.game_time, 0);
}

#[test]
fn clock_splits_into_minutes_and_seconds() {
    let mut g = Game::new();
    g.game_time = 125_000;
    assert_eq!(g.time_minutes_seconds(), (2, 5));
    g.game_time = 59_999;
    assert_eq!(g.time_minutes_seconds(), (0, 59));
}

#[test]
fn enemy_spawns_target_only_active_bunkers() {
    let mut g = Game::new();
    // Destroy bunker 0 first.
    g.spawn_enemy_missile_at(-200_000, 0);
    let mut ticks = 0;
    while g.bunkers[0].active {
        g.update_missiles(100);
        g.update_explosions(100);
        ticks += 1;
        assert!(ticks < 2_000);
    }
    g.check_game_over();
    assert!(!g.game_over);
    // Choice 0 among the active bunkers is now bunker 1.
    g.spawn_enemy_missile_at(0, 0);
    let m = &g.missiles[g.missiles.len() - 1];
    assert_eq!(m.target_bunker_idx, Some(1));
    assert_eq!(m.target_pos, Vec2Fx { x: 0, y: 260_000 });
}
