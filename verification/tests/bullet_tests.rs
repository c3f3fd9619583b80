use invaders::bullet::{
    Bullet, move_bullets_by, retain_live_alien_bullets, retain_live_ship_bullets,
};

fn bullet(x: i64, y: i64) -> Bullet {
    Bullet { x, y, has_hit_something: false }
}

#[test]
fn bullets_move_vertically_only() {
    let mut bullets = vec![bullet(10, 100), bullet(20, 200)];
    move_bullets_by(&mut bullets, -30);
    assert_eq!(bullets[0], bullet(10, 70));
    assert_eq!(bullets[1], bullet(20, 170));
    move_bullets_by(&mut bullets, 5);
    assert_eq!(bullets[0], bullet(10, 75));
}

#[test]
fn ship_bullet_at_threshold_is_retained() {
    // Threshold is twice the bullet height above the top edge; the
    // destroy side of the boundary is exclusive.
    let threshold = -24_000;
    let mut bullets = vec![
        bullet(0, threshold),
        bullet(1, threshold - 1),
        bullet(2, threshold + 1),
    ];
    retain_live_ship_bullets(&mut bullets, threshold);
    assert_eq!(bullets, vec![bullet(0, threshold), bullet(2, threshold + 1)]);
}

#[test]
fn spent_ship_bullets_are_removed() {
    let mut bullets = vec![
        bullet(0, 100),
        Bullet { x: 1, y: 100, has_hit_something: true },
        bullet(2, 100),
    ];
    retain_live_ship_bullets(&mut bullets, -24_000);
    assert_eq!(bullets, vec![bullet(0, 100), bullet(2, 100)]);
}

#[test]
fn alien_bullet_at_threshold_is_retained() {
    let threshold = 624_000;
    let mut bullets = vec![
        bullet(0, threshold),
        bullet(1, threshold + 1),
        bullet(2, threshold - 1),
        Bullet { x: 3, y: 0, has_hit_something: true },
    ];
    retain_live_alien_bullets(&mut bullets, threshold);
    assert_eq!(bullets, vec![bullet(0, threshold), bullet(2, threshold - 1)]);
}
