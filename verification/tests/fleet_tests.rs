use invaders::alien::{
    ALIEN_DROPDOWN_DISTANCE, ALIEN_SHOOT_INTERVAL, ALIEN_VELOCITY_INCREMENT, Alien, AlienData,
    AlienDirection, advance_fleet_direction, check_fleet_bottom, collide_aliens_with_ship,
    collide_ship_bullets_with_fleet, move_alien_bullets_against_ship, move_fleet_aliens,
    tick_alien_shooting,
};
use invaders::bullet::{Bullet, BulletData};
use invaders::commands::SoundId;
use invaders::geom::Rect;

fn alien(x: i64, y: i64) -> Alien {
    Alien { x, y, shoot_delay: ALIEN_SHOOT_INTERVAL, is_hit: false }
}

fn fleet(direction: AlienDirection, next: Option<AlienDirection>, dropdown: i64) -> AlienData {
    AlienData {
        width: 50_000,
        height: 30_000,
        velocity: 100,
        direction,
        next_direction: next,
        dropdown_distance: dropdown,
        has_hit_bottom: false,
        texture_index: 2,
        bullet_data: BulletData { width: 10_000, height: 20_000, texture_index: 3 },
        bullets: Vec::new(),
    }
}

#[test]
fn alien_spawns_with_delay_inside_the_interval() {
    for _ in 0..64 {
        let a = Alien::new(7, 9);
        assert_eq!(a.x, 7);
        assert_eq!(a.y, 9);
        assert!(!a.is_hit);
        assert!(0 <= a.shoot_delay && a.shoot_delay < ALIEN_SHOOT_INTERVAL);
    }
}

#[test]
fn fleet_moves_as_a_rigid_body_and_flags_the_edge() {
    let mut aliens = vec![alien(100_000, 50_000), alien(200_000, 50_000)];
    let hit = move_fleet_aliens(&mut aliens, AlienDirection::Right, 1_600, 25_000, 775_000);
    assert!(!hit);
    assert_eq!(aliens[0].x, 101_600);
    assert_eq!(aliens[1].x, 201_600);

    let mut near_edge = vec![alien(100_000, 50_000), alien(774_000, 50_000)];
    let hit = move_fleet_aliens(&mut near_edge, AlienDirection::Right, 1_600, 25_000, 775_000);
    assert!(hit);

    let mut dropping = vec![alien(774_000, 50_000)];
    let hit = move_fleet_aliens(&mut dropping, AlienDirection::Down, 1_600, 25_000, 775_000);
    assert!(!hit);
    assert_eq!(dropping[0].y, 51_600);
}

#[test]
fn wall_bounce_adds_the_increment_exactly_once() {
    let mut f = fleet(AlienDirection::Right, None, 0);
    let mut sounds: Vec<SoundId> = Vec::new();
    advance_fleet_direction(&mut f, 1_600, true, &mut sounds);
    assert_eq!(f.velocity, 100 + ALIEN_VELOCITY_INCREMENT);
    assert_eq!(f.direction, AlienDirection::Down);
    assert_eq!(f.next_direction, Some(AlienDirection::Left));
    assert_eq!(f.dropdown_distance, ALIEN_DROPDOWN_DISTANCE);
    assert_eq!(sounds, vec![SoundId::AlienShift]);

    // The following drop-down frames change the speed no further.
    advance_fleet_direction(&mut f, 1_600, false, &mut sounds);
    assert_eq!(f.velocity, 110);
    assert_eq!(f.dropdown_distance, ALIEN_DROPDOWN_DISTANCE - 1_600);
    assert_eq!(f.direction, AlienDirection::Down);
}

#[test]
fn direction_alternates_through_a_down_leg() {
    // Right, then Down with Left queued, then Left: never Right to Left
    // without the Down leg in between.
    let mut f = fleet(AlienDirection::Right, None, 0);
    let mut sounds: Vec<SoundId> = Vec::new();
    advance_fleet_direction(&mut f, 10_000, true, &mut sounds);
    assert_eq!(f.direction, AlienDirection::Down);
    let mut steps = 0;
    while f.direction == AlienDirection::Down {
        advance_fleet_direction(&mut f, 10_000, false, &mut sounds);
        steps += 1;
        assert!(steps < 100);
    }
    assert_eq!(f.direction, AlienDirection::Left);
    assert_eq!(f.next_direction, None);
    assert_eq!(f.velocity, 110);
}

#[test]
fn shoot_tick_spawns_at_the_alien_and_rearms() {
    let mut aliens = vec![
        Alien { x: 111, y: 222, shoot_delay: 5, is_hit: false },
        Alien { x: 333, y: 444, shoot_delay: 9_000, is_hit: false },
    ];
    let mut bullets: Vec<Bullet> = Vec::new();
    let mut sounds: Vec<SoundId> = Vec::new();
    tick_alien_shooting(&mut aliens, 16, &mut bullets, &mut sounds);
    assert_eq!(aliens[0].shoot_delay, ALIEN_SHOOT_INTERVAL);
    assert_eq!(aliens[1].shoot_delay, 8_984);
    assert_eq!(bullets, vec![Bullet { x: 111, y: 222, has_hit_something: false }]);
    assert_eq!(sounds, vec![SoundId::AlienShoot]);
}

#[test]
fn one_bullet_overlapping_two_aliens_scores_both() {
    let mut aliens = vec![alien(100_000, 100_000), alien(120_000, 100_000)];
    let mut bullets = vec![Bullet { x: 110_000, y: 100_000, has_hit_something: false }];
    let mut score: u32 = 0;
    let mut sounds: Vec<SoundId> = Vec::new();
    collide_ship_bullets_with_fleet(
        &mut aliens,
        50_000,
        30_000,
        &mut bullets,
        10_000,
        20_000,
        25,
        &mut score,
        &mut sounds,
    );
    assert!(aliens[0].is_hit);
    assert!(aliens[1].is_hit);
    assert!(bullets[0].has_hit_something);
    assert_eq!(score, 50);
    assert_eq!(sounds, vec![SoundId::AlienDeath, SoundId::AlienDeath]);
}

#[test]
fn bullet_missing_every_alien_changes_nothing() {
    let mut aliens = vec![alien(100_000, 100_000)];
    let mut bullets = vec![Bullet { x: 400_000, y: 400_000, has_hit_something: false }];
    let mut score: u32 = 7;
    let mut sounds: Vec<SoundId> = Vec::new();
    collide_ship_bullets_with_fleet(
        &mut aliens,
        50_000,
        30_000,
        &mut bullets,
        10_000,
        20_000,
        25,
        &mut score,
        &mut sounds,
    );
    assert!(!aliens[0].is_hit);
    assert!(!bullets[0].has_hit_something);
    assert_eq!(score, 7);
    assert!(sounds.is_empty());
}

#[test]
fn body_contact_destroys_alien_and_scores() {
    let ship = Rect { x: 80_000, y: 90_000, w: 64_000, h: 32_000 };
    let mut aliens = vec![alien(100_000, 100_000), alien(700_000, 100_000)];
    let mut score: u32 = 0;
    let mut sounds: Vec<SoundId> = Vec::new();
    let contact = collide_aliens_with_ship(
        &mut aliens,
        50_000,
        30_000,
        ship,
        25,
        &mut score,
        &mut sounds,
    );
    assert!(contact);
    assert!(aliens[0].is_hit);
    assert!(!aliens[1].is_hit);
    assert_eq!(score, 25);
    assert_eq!(sounds, vec![SoundId::AlienDeath, SoundId::PlayerDeath]);
}

#[test]
fn fleet_bottom_is_the_lower_sprite_edge() {
    let mut sounds: Vec<SoundId> = Vec::new();
    let clear = vec![alien(100_000, 500_000)];
    assert!(!check_fleet_bottom(&clear, 30_000, 600_000, &mut sounds));
    assert!(sounds.is_empty());

    let touching = vec![alien(100_000, 585_000)];
    assert!(check_fleet_bottom(&touching, 30_000, 600_000, &mut sounds));
    assert_eq!(sounds, vec![SoundId::AlienPass]);
}

#[test]
fn alien_bullets_fall_and_strike_the_ship() {
    let ship = Rect { x: 80_000, y: 90_000, w: 64_000, h: 32_000 };
    let mut bullets = vec![
        Bullet { x: 100_000, y: 80_000, has_hit_something: false },
        Bullet { x: 700_000, y: 80_000, has_hit_something: false },
    ];
    let mut sounds: Vec<SoundId> = Vec::new();
    let struck = move_alien_bullets_against_ship(
        &mut bullets,
        20_000,
        10_000,
        20_000,
        ship,
        &mut sounds,
    );
    assert!(struck);
    assert_eq!(bullets[0].y, 100_000);
    assert!(bullets[0].has_hit_something);
    assert!(!bullets[1].has_hit_something);
    assert_eq!(sounds, vec![SoundId::PlayerDeath]);
}
