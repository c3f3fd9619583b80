use invaders::alien::{Alien, AlienDirection};
use invaders::bullet::BulletData;
use invaders::commands::{DrawCommand, EventKind, MusicAction, SceneKind, SoundId, TextContent};
use invaders::geom::Rect;
use invaders::input::{InputState, SCANCODE_A, SCANCODE_D, SCANCODE_ESCAPE, SCANCODE_SPACE};
use invaders::space_scene::{INITIAL_PLAYER_LIVES, LEVEL_RESET_TIME, SpaceScene};
use invaders::spaceship::SPACESHIP_SHOOT_DELAY;

fn keys(current: Vec<i32>) -> InputState {
    InputState::new(current, Vec::new(), Vec::new(), Vec::new(), (0, 0), 0)
}

fn combat_scene() -> SpaceScene {
    let mut s = SpaceScene::new();
    s.spaceship.rect = Rect { x: 100_000, y: 500_000, w: 64_000, h: 32_000 };
    s.spaceship.bullet_data = BulletData { width: 4_000, height: 12_000, texture_index: 1 };
    s.spaceship_size = (64_000, 32_000);
    s.alien_data.width = 50_000;
    s.alien_data.height = 30_000;
    s
}

#[test]
fn fresh_scene_has_full_lives_and_level_one() {
    let s = SpaceScene::new();
    assert_eq!(s.current_level, 1);
    assert_eq!(s.player_lives, INITIAL_PLAYER_LIVES);
    assert_eq!(s.score, 0);
    assert!(!s.is_done);
    assert_eq!(s.alien_data.direction, AlienDirection::Right);
    assert_eq!(s.alien_data.next_direction, None);
}

#[test]
fn fleet_grid_fills_the_field() {
    let mut s = combat_scene();
    s.create_alien_fleet(800_000);
    // Columns at 50, 150, ..., 650 thousand subpixels: seven per row,
    // four rows.
    assert_eq!(s.aliens.len(), 28);
    for k in 0..7 {
        assert_eq!(s.aliens[k].x, 50_000 + 100_000 * k as i64);
        assert_eq!(s.aliens[k].y, 30_000);
    }
    assert_eq!(s.aliens[7].x, 50_000);
    assert_eq!(s.aliens[7].y, 75_000);
    assert_eq!(s.aliens[27].y, 165_000);
    for a in &s.aliens {
        assert!(!a.is_hit);
        assert!(0 <= a.shoot_delay && a.shoot_delay < 10_000);
    }
    assert_eq!(s.alien_data.velocity, 100);
    assert_eq!(s.alien_data.direction, AlienDirection::Right);
}

#[test]
fn fleet_speed_grows_with_the_level() {
    let mut s = combat_scene();
    s.current_level = 3;
    s.create_alien_fleet(800_000);
    assert_eq!(s.alien_data.velocity, 140);
}

#[test]
fn firing_with_cooldown_elapsed_spawns_one_bullet() {
    let mut s = combat_scene();
    let mut sounds: Vec<SoundId> = Vec::new();

    s.process_input(&keys(vec![SCANCODE_SPACE]));
    assert!(s.spaceship.is_firing);
    assert_eq!(s.spaceship.shoot_delay, SPACESHIP_SHOOT_DELAY);

    s.update_spaceship(0, 800_000, &mut sounds);
    assert_eq!(s.spaceship.bullets.len(), 1);
    // The bullet sits at the ship's horizontal centre and top edge.
    assert_eq!(s.spaceship.bullets[0].x, 100_000 + 32_000);
    assert_eq!(s.spaceship.bullets[0].y, 500_000);
    assert_eq!(sounds, vec![SoundId::PlayerShoot]);

    // One frame later the cooldown still runs: no second bullet.
    s.process_input(&keys(vec![SCANCODE_SPACE]));
    assert!(!s.spaceship.is_firing);
    let mut sounds2: Vec<SoundId> = Vec::new();
    s.update_spaceship(16, 800_000, &mut sounds2);
    assert_eq!(s.spaceship.bullets.len(), 1);
    assert!(sounds2.is_empty());
    assert_eq!(s.spaceship.shoot_delay, SPACESHIP_SHOOT_DELAY - 16);
}

#[test]
fn ship_never_leaves_the_field() {
    let mut s = combat_scene();
    let mut sounds: Vec<SoundId> = Vec::new();
    s.spaceship.x_velocity = 1;
    s.update_spaceship(3_600_000, 800_000, &mut sounds);
    assert_eq!(s.spaceship.rect.x, 800_000 - 64_000);
    s.spaceship.x_velocity = -1;
    s.update_spaceship(3_600_000, 800_000, &mut sounds);
    assert_eq!(s.spaceship.rect.x, 0);
}

#[test]
fn opposite_keys_cancel() {
    let mut s = combat_scene();
    s.process_input(&keys(vec![SCANCODE_A, SCANCODE_D]));
    assert_eq!(s.spaceship.x_velocity, 0);
    s.process_input(&keys(vec![SCANCODE_A]));
    assert_eq!(s.spaceship.x_velocity, -1);
    s.process_input(&keys(vec![SCANCODE_D]));
    assert_eq!(s.spaceship.x_velocity, 1);
}

#[test]
fn escape_ends_the_scene() {
    let mut s = combat_scene();
    s.process_input(&keys(vec![SCANCODE_ESCAPE]));
    assert!(s.is_done);
}

#[test]
fn update_moves_the_fleet_right() {
    let mut s = combat_scene();
    s.aliens.push(Alien { x: 100_000, y: 50_000, shoot_delay: 9_000, is_hit: false });
    let mut sounds: Vec<SoundId> = Vec::new();
    s.update_aliens(16, 800_000, 600_000, &mut sounds);
    // velocity 100 px/s for 16 ms is 1600 subpixels.
    assert_eq!(s.aliens[0].x, 101_600);
    assert_eq!(s.aliens[0].shoot_delay, 8_984);
    assert_eq!(s.alien_data.direction, AlienDirection::Right);
    assert!(sounds.is_empty());
}

#[test]
fn fleet_bounce_turns_downward_and_speeds_up() {
    let mut s = combat_scene();
    s.aliens.push(Alien { x: 774_000, y: 50_000, shoot_delay: 9_000, is_hit: false });
    let mut sounds: Vec<SoundId> = Vec::new();
    s.update_aliens(16, 800_000, 600_000, &mut sounds);
    assert_eq!(s.alien_data.direction, AlienDirection::Down);
    assert_eq!(s.alien_data.next_direction, Some(AlienDirection::Left));
    assert_eq!(s.alien_data.velocity, 110);
    assert_eq!(s.alien_data.dropdown_distance, 40_000);
    assert_eq!(sounds, vec![SoundId::AlienShift]);
}

#[test]
fn bullet_destroys_the_last_alien_and_wins_the_level() {
    let mut s = combat_scene();
    s.aliens.push(Alien { x: 100_000, y: 100_000, shoot_delay: 9_000, is_hit: false });
    s.spaceship.bullets.push(invaders::bullet::Bullet {
        x: 100_000,
        y: 101_000,
        has_hit_something: false,
    });
    let mut queue: Vec<SceneKind> = Vec::new();
    let sounds = s.update(16, &mut queue, 800_000, 600_000);
    assert!(s.aliens.is_empty());
    assert!(s.spaceship.bullets.is_empty());
    assert_eq!(s.score, 25 + 100);
    assert_eq!(s.level_reset_timeout, LEVEL_RESET_TIME);
    assert_eq!(sounds, vec![SoundId::AlienDeath, SoundId::LevelWin]);
}

#[test]
fn frozen_scene_only_runs_the_pause_timer() {
    let mut s = combat_scene();
    s.level_reset_timeout = 500;
    s.aliens.push(Alien { x: 100_000, y: 50_000, shoot_delay: 9_000, is_hit: false });
    let mut queue: Vec<SceneKind> = Vec::new();
    let sounds = s.update(100, &mut queue, 800_000, 600_000);
    assert_eq!(s.level_reset_timeout, 400);
    assert_eq!(s.aliens[0].x, 100_000);
    assert!(sounds.is_empty());
    assert!(queue.is_empty());
}

#[test]
fn clearing_the_fleet_awards_the_level_bonus() {
    let mut s = combat_scene();
    s.score = 10;
    let mut queue: Vec<SceneKind> = Vec::new();
    let sounds = s.update(16, &mut queue, 800_000, 600_000);
    assert_eq!(s.score, 110);
    assert_eq!(s.level_reset_timeout, LEVEL_RESET_TIME);
    assert_eq!(sounds, vec![SoundId::LevelWin]);
}

#[test]
fn level_complete_rebuilds_a_faster_fleet() {
    let mut s = combat_scene();
    s.level_reset_timeout = 0;
    let mut queue: Vec<SceneKind> = Vec::new();
    s.late_update(16, &mut queue, 800_000, 600_000);
    assert_eq!(s.current_level, 2);
    assert_eq!(s.player_lives, INITIAL_PLAYER_LIVES + 1);
    assert_eq!(s.aliens.len(), 28);
    assert_eq!(s.alien_data.velocity, 120);
    assert!(queue.is_empty());
    assert!(!s.is_done);
}

#[test]
fn losing_a_life_rebuilds_the_same_level() {
    let mut s = combat_scene();
    s.aliens.push(Alien { x: 100_000, y: 50_000, shoot_delay: 9_000, is_hit: false });
    s.spaceship.is_hit = true;
    s.player_lives = 2;
    let mut queue: Vec<SceneKind> = Vec::new();
    s.late_update(16, &mut queue, 800_000, 600_000);
    assert_eq!(s.player_lives, 1);
    assert_eq!(s.current_level, 1);
    assert!(!s.spaceship.is_hit);
    assert_eq!(s.aliens.len(), 28);
    assert!(queue.is_empty());
}

#[test]
fn bottomed_fleet_with_last_life_ends_the_run() {
    let mut s = combat_scene();
    s.aliens.push(Alien { x: 100_000, y: 585_000, shoot_delay: 9_000, is_hit: false });
    s.alien_data.has_hit_bottom = true;
    s.level_reset_timeout = 0;
    s.player_lives = 1;
    s.score = 4_200;
    let mut queue: Vec<SceneKind> = Vec::new();
    s.late_update(16, &mut queue, 800_000, 600_000);
    assert!(s.is_done);
    assert_eq!(s.player_lives, 0);
    assert_eq!(queue, vec![SceneKind::GameOver]);
    let (payload, music) = s.on_unload();
    assert_eq!(payload, Some(4_200));
    assert_eq!(music, vec![MusicAction::Halt]);
}

#[test]
fn finished_scene_queues_the_menu_once_the_death_pause_is_over() {
    let mut s = combat_scene();
    s.is_done = true;
    let mut queue: Vec<SceneKind> = Vec::new();
    let _ = s.update(16, &mut queue, 800_000, 600_000);
    assert_eq!(queue, vec![SceneKind::MainMenu]);
}

#[test]
fn losing_focus_pauses_the_simulation() {
    let mut s = combat_scene();
    s.aliens.push(Alien { x: 100_000, y: 50_000, shoot_delay: 9_000, is_hit: false });
    let music = s.poll_event(EventKind::FocusLost);
    assert_eq!(music, vec![MusicAction::PauseIfPlaying]);
    assert!(!s.has_window_focus);
    let mut queue: Vec<SceneKind> = Vec::new();
    let sounds = s.update(16, &mut queue, 800_000, 600_000);
    assert_eq!(s.aliens[0].x, 100_000);
    assert!(sounds.is_empty());
    let music = s.poll_event(EventKind::FocusGained);
    assert_eq!(music, vec![MusicAction::ResumeIfPaused]);
    assert!(s.has_window_focus);
}

#[test]
fn combat_assets_are_requested_by_name() {
    let mut s = SpaceScene::new();
    let request = s.on_load(None);
    assert_eq!(
        request.textures,
        vec!["ship.png", "bullet.png", "alien.png", "alien_bullet.png", "background.png"],
    );
    assert_eq!(request.fonts, vec!["Recursive.ttf"]);
    assert_eq!(request.music, Some("Werq.mp3"));
    assert_eq!(s.spaceship.texture_index, 0);
    assert_eq!(s.alien_data.texture_index, 2);
    assert_eq!(s.background_texture_index, 4);
}

#[test]
fn late_load_measures_the_world_and_builds_it() {
    let mut s = SpaceScene::new();
    let _ = s.on_load(None);
    let sizes: Vec<(i64, i64)> = vec![
        (64_000, 32_000),
        (4_000, 12_000),
        (50_000, 30_000),
        (6_000, 14_000),
        (800_000, 600_000),
    ];
    let music = s.on_late_load(800_000, 600_000, &sizes);
    assert_eq!(music, vec![MusicAction::Play]);
    assert_eq!(s.spaceship_size, (64_000, 32_000));
    assert_eq!(s.alien_data.width, 50_000);
    assert_eq!(s.alien_data.height, 30_000);
    assert_eq!(s.background_size, (800_000, 600_000));
    assert_eq!(s.aliens.len(), 28);
    // The ship sits centred near the bottom of the field.
    assert_eq!(s.spaceship.rect.x, 400_000 - 32_000);
    assert_eq!(s.spaceship.rect.y, (600_000 - 32_000) - 16_000);
}

#[test]
fn overlay_shows_lives_level_aliens_and_score() {
    let mut s = combat_scene();
    s.player_lives = 2;
    s.current_level = 5;
    s.score = 1_234;
    let cmds = s.draw_text_overlay();
    assert_eq!(cmds.len(), 4);
    match cmds[0] {
        DrawCommand::Text { content, .. } => assert_eq!(content, TextContent::Lives(2)),
        _ => panic!("expected a text command"),
    }
    match cmds[3] {
        DrawCommand::Text { content, .. } => assert_eq!(content, TextContent::Score(1_234)),
        _ => panic!("expected a text command"),
    }
}

#[test]
fn draw_starts_with_a_clear_and_skips_a_dead_ship() {
    let mut s = combat_scene();
    let cmds = s.draw();
    assert!(matches!(cmds[0], DrawCommand::Clear { .. }));
    let with_ship = cmds.len();
    s.spaceship.is_hit = true;
    let cmds = s.draw();
    assert_eq!(cmds.len(), with_ship - 1);
    s.has_window_focus = false;
    assert!(s.draw().is_empty());
}
