use shooting_rst::alien::{Alien, AlienProcessPattern};
use shooting_rst::alien_bullet::AlienBullet;
use shooting_rst::stage::{Stage, StageAction, SpawnDraws};
use shooting_rst::vec3::Vec3;

fn pooled_alien() -> Alien {
    let mut a = Alien::new();
    a.ready(
        -10_000, 10_000, -20_000, 20_000, -12_000, 12_000, -28_000, 28_000, 1500, 6000,
    );
    a
}

fn readied_stage(aliens: usize, bullets: usize) -> Stage {
    let mut s = Stage::new();
    let alien_slots: Vec<Option<Alien>> = (0..aliens).map(|_| Some(pooled_alien())).collect();
    let bullet_slots: Vec<Option<AlienBullet>> =
        (0..bullets).map(|_| Some(AlienBullet::new())).collect();
    s.ready(alien_slots, bullet_slots, -10_000, 10_000, -20_000, 20_000);
    s
}

fn invasion_draws() -> SpawnDraws {
    SpawnDraws {
        interval_draw: 1000,
        invasion: true,
        spawn_x: 0,
        spawn_z: -10_000,
        from_right: false,
        dir_span_draw: 1500,
        fire_span_draw: 6000,
    }
}

#[test]
fn start_game_resets_the_session() {
    let mut s = readied_stage(0, 0);
    s.player_life = 1;
    s.beated_alien_num = 55;
    s.stage_heat = 1610;
    let actions = s.start_game(700);
    assert_eq!(s.player_life, 3);
    assert_eq!(s.beated_alien_num, 0);
    assert_eq!(s.stage_heat, 1000);
    assert_eq!(
        actions,
        vec![
            StageAction::SetRemain(3),
            StageAction::SetScore(0),
            StageAction::SpeedUp(1000),
            StageAction::StartSpawnTimer(700),
            StageAction::PlayBgm,
            StageAction::RestartPlayer,
        ]
    );
}

#[test]
fn end_game_stops_the_world() {
    let mut s = readied_stage(0, 0);
    let actions = s.end_game();
    assert_eq!(
        actions,
        vec![StageAction::StopSpawnTimer, StageAction::StopBgm, StageAction::GameOver]
    );
}

#[test]
fn heat_escalates_every_ten_kills() {
    let mut s = readied_stage(0, 0);
    for _ in 0..9 {
        s.alien_beated();
    }
    assert_eq!(s.stage_heat, 1000);
    s.alien_beated();
    // After exactly ten kills: 1.0 times 1.1.
    assert_eq!(s.beated_alien_num, 10);
    assert_eq!(s.stage_heat, 1100);
    for _ in 0..9 {
        s.alien_beated();
    }
    assert_eq!(s.stage_heat, 1100);
    let life_after_19 = s.player_life;
    s.alien_beated();
    // After exactly twenty kills: 1.0 times 1.1 squared, and one extra life.
    assert_eq!(s.stage_heat, 1210);
    assert_eq!(s.player_life, life_after_19 + 1);
}

#[test]
fn tenth_kill_announces_score_and_heat() {
    let mut s = readied_stage(0, 0);
    for _ in 0..9 {
        s.alien_beated();
    }
    let actions = s.alien_beated();
    assert_eq!(actions, vec![StageAction::SetScore(10), StageAction::SpeedUp(1100)]);
}

#[test]
fn twentieth_kill_adds_the_extend_jingle() {
    let mut s = readied_stage(0, 0);
    for _ in 0..19 {
        s.alien_beated();
    }
    let actions = s.alien_beated();
    assert_eq!(
        actions,
        vec![
            StageAction::SetScore(20),
            StageAction::SpeedUp(1210),
            StageAction::SetRemain(4),
            StageAction::PlayExtendJingle,
        ]
    );
}

#[test]
fn ordinary_kill_announces_only_the_score() {
    let mut s = readied_stage(0, 0);
    let actions = s.alien_beated();
    assert_eq!(actions, vec![StageAction::SetScore(1)]);
}

#[test]
fn player_defeat_with_lives_left_restarts() {
    let mut s = readied_stage(0, 0);
    let actions = s.player_beated();
    assert_eq!(s.player_life, 2);
    assert_eq!(actions, vec![StageAction::SetRemain(2), StageAction::RestartPlayer]);
}

#[test]
fn player_defeat_on_last_life_ends_the_game() {
    let mut s = readied_stage(0, 0);
    s.player_life = 1;
    let actions = s.player_beated();
    assert_eq!(s.player_life, 0);
    assert_eq!(
        actions,
        vec![
            StageAction::SetRemain(0),
            StageAction::StopSpawnTimer,
            StageAction::StopBgm,
            StageAction::GameOver,
        ]
    );
}

#[test]
fn invasion_spawn_appears_at_the_top_edge() {
    let mut s = readied_stage(1, 0);
    let (spawned, actions) = s.spawn_alien(invasion_draws());
    let sp = spawned.unwrap();
    assert_eq!(sp.pos, Vec3::new(0, 0, -27_000));
    assert!(sp.entity.alive);
    assert_eq!(sp.entity.speed, 5000);
    assert_eq!(sp.entity.direction, Vec3::new(0, 0, 1000));
    assert_eq!(sp.entity.process_pattern, AlienProcessPattern::Invasion);
    assert_eq!(sp.entity.change_dir_wait, 1500);
    assert_eq!(sp.entity.fire_wait, 6000);
    assert_eq!(actions, vec![StageAction::SetSpawnWait(1000)]);
    assert_eq!(s.aliens_magazine.get_left_num(), 0);
}

#[test]
fn side_spawn_heads_across_the_stage() {
    let mut s = readied_stage(1, 0);
    let draws = SpawnDraws { invasion: false, from_right: true, ..invasion_draws() };
    let (spawned, _) = s.spawn_alien(draws);
    let sp = spawned.unwrap();
    assert_eq!(sp.pos, Vec3::new(22_000, 0, -10_000));
    assert_eq!(sp.entity.direction, Vec3::new(-1000, 0, 0));
    assert_eq!(sp.entity.process_pattern, AlienProcessPattern::Dir);
}

#[test]
fn heat_scales_spawn_speed_and_shrinks_the_waits() {
    let mut s = readied_stage(1, 0);
    s.stage_heat = 2000;
    let (spawned, actions) = s.spawn_alien(invasion_draws());
    let sp = spawned.unwrap();
    // Speed doubles; spans and the next interval halve.
    assert_eq!(sp.entity.speed, 10_000);
    assert_eq!(sp.entity.change_dir_wait, 750);
    assert_eq!(sp.entity.fire_wait, 3000);
    assert_eq!(actions, vec![StageAction::SetSpawnWait(500)]);
}

#[test]
fn depleted_alien_pool_skips_the_spawn() {
    let mut s = readied_stage(0, 0);
    let (spawned, actions) = s.spawn_alien(invasion_draws());
    assert!(spawned.is_none());
    assert!(actions.is_empty());
    // And again: no panic, no duplication.
    let (spawned, _) = s.spawn_alien(invasion_draws());
    assert!(spawned.is_none());
}

#[test]
fn barrage_request_becomes_one_bullet_per_direction() {
    let mut s = readied_stage(0, 5);
    let shots = s.alien_fire(Vec3::new(100, 0, 200), Vec3::new(0, 0, 1000), 6500, 4);
    assert_eq!(shots.len(), 3);
    for shot in &shots {
        assert_eq!(shot.pos, Vec3::new(100, 0, 200));
        assert!(shot.entity.flying);
        assert_eq!(shot.entity.speed, 6500);
    }
    assert_eq!(shots[0].entity.direction, Vec3::new(0, 0, 1000));
    assert_eq!(shots[1].entity.direction, Vec3::new(-866, 0, 500));
    assert_eq!(shots[2].entity.direction, Vec3::new(866, 0, 500));
    assert_eq!(s.alibullets_magazine.get_left_num(), 2);
}

#[test]
fn volley_is_cut_short_when_the_pool_runs_dry() {
    let mut s = readied_stage(0, 2);
    let shots = s.alien_fire(Vec3::new(0, 0, 0), Vec3::new(0, 0, 1000), 6500, 6);
    assert_eq!(shots.len(), 2);
    assert_eq!(s.alibullets_magazine.get_left_num(), 0);
    let shots = s.alien_fire(Vec3::new(0, 0, 0), Vec3::new(0, 0, 1000), 6500, 0);
    assert!(shots.is_empty());
}

#[test]
fn collected_entities_return_to_their_pools() {
    let mut s = readied_stage(1, 1);
    let (spawned, _) = s.spawn_alien(invasion_draws());
    let alien = spawned.unwrap().entity;
    assert_eq!(s.aliens_magazine.get_left_num(), 0);
    s.collect_alien(alien);
    assert_eq!(s.aliens_magazine.get_left_num(), 1);
    let shots = s.alien_fire(Vec3::new(0, 0, 0), Vec3::new(0, 0, 1000), 6500, 0);
    assert_eq!(s.alibullets_magazine.get_left_num(), 0);
    s.collect_alien_bullet(shots.into_iter().next().unwrap().entity);
    assert_eq!(s.alibullets_magazine.get_left_num(), 1);
}
