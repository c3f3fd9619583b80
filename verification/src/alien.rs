//! Aliens and the shared fleet state.
//!
//! Individual aliens carry only their position and a per-alien shoot
//! timer; the whole fleet shares one direction, one speed, the pending
//! direction queued during a drop-down leg, and the alien bullet list.

use vstd::prelude::*;
use crate::bullet::{Bullet, BulletData, bullet_in_range, bullet_moved};
use crate::commands::{SoundId, repeated_sound};
use crate::geom::{
    COORD_LIMIT, MAX_SPRITE_SIZE, Rect, centred_box_overlaps_rect, centred_boxes_overlap, clip,
    clip_add, in_range, lemma_sat_u32_chain, overlaps, rect_from_centre, rect_wf, sat_add_u32,
    sat_u32,
};

verus! {

pub const ALIEN_ROW_COUNT: u32 = 4;

/// Initial fleet speed, in pixels per second.
pub const INITIAL_ALIEN_VELOCITY: i64 = 100;

/// Extra base speed per level beyond the first, in pixels per second.
pub const PER_LEVEL_ALIEN_VELOCITY_INCREASE: i64 = 20;

/// Speed gained at each wall bounce, in pixels per second.
pub const ALIEN_VELOCITY_INCREMENT: i64 = 10;

/// Vertical distance of one drop-down leg, in subpixels.
pub const ALIEN_DROPDOWN_DISTANCE: i64 = 40_000;

/// Interval between two shots of one alien, in milliseconds.
pub const ALIEN_SHOOT_INTERVAL: i64 = 10_000;

/// Points a destroyed alien is worth on the first level.
pub const ALIEN_BASE_POINTS: u32 = 25;

/// Cap on the fleet speed, in pixels per second; the speed saturates here
/// instead of growing without bound.
pub const ALIEN_VELOCITY_LIMIT: i64 = 1_000_000;

/// The direction the whole fleet currently travels in.
#[derive(Clone, Copy, PartialEq, Eq, Structural, Debug)]
pub enum AlienDirection {
    Left,
    Right,
    Down,
}

/// One alien: its centre position in subpixels, its shoot timer in
/// milliseconds, and whether it was hit this frame.
#[derive(Clone, Copy, PartialEq, Eq, Structural, Debug)]
pub struct Alien {
    pub x: i64,
    pub y: i64,
    pub shoot_delay: i64,
    pub is_hit: bool,
}

/// State shared by the whole fleet.
pub struct AlienData {
    pub width: i64,
    pub height: i64,
    pub velocity: i64,
    pub direction: AlienDirection,
    pub next_direction: Option<AlienDirection>,
    pub dropdown_distance: i64,
    pub has_hit_bottom: bool,
    pub texture_index: usize,
    pub bullet_data: BulletData,
    pub bullets: Vec<Bullet>,
}

pub open spec fn alien_in_range(a: Alien) -> bool {
    in_range(a.x as int) && in_range(a.y as int) && in_range(a.shoot_delay as int)
}

/// A pending direction exists exactly while the fleet traverses a
/// drop-down leg, and the pending direction is always horizontal.
pub open spec fn direction_state_wf(
    direction: AlienDirection,
    next_direction: Option<AlienDirection>,
) -> bool {
    match next_direction {
        Some(n) => direction == AlienDirection::Down && n != AlienDirection::Down,
        None => direction != AlienDirection::Down,
    }
}

pub open spec fn fleet_wf(f: AlienData) -> bool {
    &&& direction_state_wf(f.direction, f.next_direction)
    &&& 0 <= f.velocity <= ALIEN_VELOCITY_LIMIT
    &&& in_range(f.dropdown_distance as int)
    &&& 0 <= f.width <= MAX_SPRITE_SIZE
    &&& 0 <= f.height <= MAX_SPRITE_SIZE
    &&& 0 <= f.bullet_data.width <= COORD_LIMIT
    &&& 0 <= f.bullet_data.height <= COORD_LIMIT
    &&& forall|i: int| 0 <= i < f.bullets@.len() ==> bullet_in_range(#[trigger] f.bullets@[i])
}

/// Relies on rand::random_range over `0..bound`: a uniform sample in the
/// half-open range, panicking only when the range is empty.
#[verifier::external_body]
fn random_below(bound: i64) -> (r: i64)
    requires
        bound > 0,
    ensures
        0 <= r < bound,
{
    rand::random_range(0..bound)
}

impl Alien {
    /// A fresh alien at the given position. Its shoot timer starts at a
    /// random point of the shoot interval, so fleet fire is staggered.
    pub fn new(x: i64, y: i64) -> (a: Alien)
        ensures
            a.x == x,
            a.y == y,
            !a.is_hit,
            0 <= a.shoot_delay < ALIEN_SHOOT_INTERVAL,
    {
        Alien { x, y, shoot_delay: random_below(ALIEN_SHOOT_INTERVAL), is_hit: false }
    }
}

/// The alien `a` carried one frame along the shared direction.
pub open spec fn alien_moved(a: Alien, direction: AlienDirection, movement: int) -> Alien {
    match direction {
        AlienDirection::Left => Alien { x: clip(a.x - movement) as i64, ..a },
        AlienDirection::Right => Alien { x: clip(a.x + movement) as i64, ..a },
        AlienDirection::Down => Alien { y: clip(a.y + movement) as i64, ..a },
    }
}

/// After moving, the alien's centre has reached the horizontal boundary
/// of its travel direction. Drop-down legs never flag an edge.
pub open spec fn alien_at_edge(
    a: Alien,
    direction: AlienDirection,
    half_width: int,
    right_bound: int,
) -> bool {
    match direction {
        AlienDirection::Left => a.x <= half_width,
        AlienDirection::Right => a.x >= right_bound,
        AlienDirection::Down => false,
    }
}

/// Move every alien one frame along the shared direction, and report
/// whether any alien reached the boundary of the field: the decision to
/// turn is global, taken the instant the first alien touches an edge.
pub fn move_fleet_aliens(
    aliens: &mut Vec<Alien>,
    direction: AlienDirection,
    movement: i64,
    half_width: i64,
    right_bound: i64,
) -> (hit_edge: bool)
    requires
        0 <= movement,
    ensures
        final(aliens)@.len() == old(aliens)@.len(),
        forall|i: int|
            0 <= i < old(aliens)@.len() ==> final(aliens)@[i] == alien_moved(
                old(aliens)@[i],
                direction,
                movement as int,
            ),
        hit_edge == exists|i: int|
            0 <= i < old(aliens)@.len() && alien_at_edge(
                alien_moved(old(aliens)@[i], direction, movement as int),
                direction,
                half_width as int,
                right_bound as int,
            ),
{
    let ghost orig = aliens@;
    let mut hit_edge = false;
    let mut i: usize = 0;
    while i < aliens.len()
        invariant
            0 <= movement,
            i <= orig.len(),
            aliens@.len() == orig.len(),
            forall|j: int|
                0 <= j < i ==> aliens@[j] == alien_moved(orig[j], direction, movement as int),
            forall|j: int| i <= j < orig.len() ==> aliens@[j] == orig[j],
            hit_edge == exists|j: int|
                0 <= j < i && alien_at_edge(
                    alien_moved(orig[j], direction, movement as int),
                    direction,
                    half_width as int,
                    right_bound as int,
                ),
        decreases orig.len() - i,
    {
        let a = aliens[i];
        let moved = match direction {
            AlienDirection::Left => Alien {
                x: clip_add(a.x, -movement),
                y: a.y,
                shoot_delay: a.shoot_delay,
                is_hit: a.is_hit,
            },
            AlienDirection::Right => Alien {
                x: clip_add(a.x, movement),
                y: a.y,
                shoot_delay: a.shoot_delay,
                is_hit: a.is_hit,
            },
            AlienDirection::Down => Alien {
                x: a.x,
                y: clip_add(a.y, movement),
                shoot_delay: a.shoot_delay,
                is_hit: a.is_hit,
            },
        };
        let at_edge = match direction {
            AlienDirection::Left => moved.x <= half_width,
            AlienDirection::Right => moved.x >= right_bound,
            AlienDirection::Down => false,
        };
        proof {
            assert(moved == alien_moved(orig[i as int], direction, movement as int));
            assert(at_edge == alien_at_edge(
                alien_moved(orig[i as int], direction, movement as int),
                direction,
                half_width as int,
                right_bound as int,
            ));
        }
        aliens[i] = moved;
        if at_edge {
            hit_edge = true;
        }
        i += 1;
    }
    hit_edge
}

/// The aliens that survive the end-of-frame cleanup, in order: those not
/// hit this frame.
pub open spec fn live_aliens(aliens: Seq<Alien>) -> Seq<Alien> {
    aliens.filter(|a: Alien| !a.is_hit)
}

/// Remove every alien whose hit flag is set; the survivors keep their
/// order.
pub fn retain_live_aliens(aliens: &mut Vec<Alien>)
    ensures
        final(aliens)@ == live_aliens(old(aliens)@),
{
    let ghost orig = aliens@;
    let mut kept: Vec<Alien> = Vec::new();
    let mut i: usize = 0;
    while i < aliens.len()
        invariant
            i <= orig.len(),
            aliens@ == orig,
            kept@ == live_aliens(orig.take(i as int)),
        decreases orig.len() - i,
    {
        let a = aliens[i];
        proof {
            reveal(Seq::filter);
            assert(orig.take(i + 1).drop_last() =~= orig.take(i as int));
            assert(orig.take(i + 1).last() == orig[i as int]);
        }
        if !a.is_hit {
            kept.push(a);
        }
        i += 1;
    }
    proof {
        assert(orig.take(orig.len() as int) =~= orig);
    }
    *aliens = kept;
}

/// Survivors of the alien cleanup stay in the coordinate range.
pub proof fn lemma_live_aliens_in_range(aliens: Seq<Alien>)
    requires
        forall|i: int| 0 <= i < aliens.len() ==> alien_in_range(#[trigger] aliens[i]),
    ensures
        forall|i: int|
            0 <= i < live_aliens(aliens).len() ==> alien_in_range(#[trigger] live_aliens(aliens)[i]),
    decreases aliens.len(),
{
    reveal(Seq::filter);
    if aliens.len() > 0 {
        assert(forall|i: int|
            0 <= i < aliens.drop_last().len() ==> alien_in_range(#[trigger] aliens.drop_last()[i]));
        lemma_live_aliens_in_range(aliens.drop_last());
        let rest = live_aliens(aliens.drop_last());
        let all = live_aliens(aliens);
        assert(alien_in_range(aliens.last()));
        assert forall|i: int| 0 <= i < all.len() implies alien_in_range(all[i]) by {
            if !aliens.last().is_hit {
                if i < rest.len() {
                    assert(all[i] == rest[i]);
                } else {
                    assert(all[i] == aliens.last());
                }
            } else {
                assert(all[i] == rest[i]);
            }
        }
    }
}

/// The alien's shoot timer has run out this frame, so it fires.
pub open spec fn alien_fires(a: Alien, dt: int) -> bool {
    clip(a.shoot_delay - dt) <= 0
}

/// The alien after one shoot-timer tick: the timer drops by `dt` and is
/// wound back to the full interval when it runs out.
pub open spec fn alien_after_shot_tick(a: Alien, dt: int) -> Alien {
    if alien_fires(a, dt) {
        Alien { shoot_delay: ALIEN_SHOOT_INTERVAL, ..a }
    } else {
        Alien { shoot_delay: clip(a.shoot_delay - dt) as i64, ..a }
    }
}

/// The bullets spawned by one shoot tick, in fleet order: each alien
/// whose timer ran out contributes one bullet at its own position.
pub open spec fn spawned_alien_bullets(aliens: Seq<Alien>, dt: int) -> Seq<Bullet>
    decreases aliens.len(),
{
    if aliens.len() == 0 {
        Seq::empty()
    } else {
        let rest = spawned_alien_bullets(aliens.drop_last(), dt);
        let a = aliens.last();
        if alien_fires(a, dt) {
            rest.push(Bullet { x: a.x, y: a.y, has_hit_something: false })
        } else {
            rest
        }
    }
}

/// Run every alien's shoot timer by `dt` milliseconds, appending one
/// bullet and one shoot-sound request per alien whose timer ran out.
#[verifier::loop_isolation(false)]
pub fn tick_alien_shooting(
    aliens: &mut Vec<Alien>,
    dt: i64,
    bullets: &mut Vec<Bullet>,
    sounds: &mut Vec<SoundId>,
)
    requires
        0 <= dt,
    ensures
        final(aliens)@.len() == old(aliens)@.len(),
        forall|i: int|
            0 <= i < old(aliens)@.len() ==> final(aliens)@[i] == alien_after_shot_tick(
                old(aliens)@[i],
                dt as int,
            ),
        final(bullets)@ == old(bullets)@ + spawned_alien_bullets(old(aliens)@, dt as int),
        final(sounds)@ == old(sounds)@ + repeated_sound(
            spawned_alien_bullets(old(aliens)@, dt as int).len(),
            SoundId::AlienShoot,
        ),
{
    let ghost orig = aliens@;
    let ghost bullets0 = bullets@;
    let ghost sounds0 = sounds@;
    let mut i: usize = 0;
    while i < aliens.len()
        invariant
            i <= orig.len(),
            aliens@.len() == orig.len(),
            forall|j: int| 0 <= j < i ==> aliens@[j] == alien_after_shot_tick(orig[j], dt as int),
            forall|j: int| i <= j < orig.len() ==> aliens@[j] == orig[j],
            bullets@ == bullets0 + spawned_alien_bullets(orig.take(i as int), dt as int),
            sounds@ == sounds0 + repeated_sound(
                spawned_alien_bullets(orig.take(i as int), dt as int).len(),
                SoundId::AlienShoot,
            ),
        decreases orig.len() - i,
    {
        let a = aliens[i];
        let ghost n = spawned_alien_bullets(orig.take(i as int), dt as int).len();
        proof {
            assert(orig.take(i + 1).drop_last() =~= orig.take(i as int));
            assert(orig.take(i + 1).last() == orig[i as int]);
        }
        let ticked = clip_add(a.shoot_delay, -dt);
        if ticked <= 0 {
            aliens[i] = Alien {
                x: a.x,
                y: a.y,
                shoot_delay: ALIEN_SHOOT_INTERVAL,
                is_hit: a.is_hit,
            };
            bullets.push(Bullet { x: a.x, y: a.y, has_hit_something: false });
            sounds.push(SoundId::AlienShoot);
            proof {
                let spawned = spawned_alien_bullets(orig.take(i + 1), dt as int);
                assert(bullets@ =~= bullets0 + spawned);
                assert(repeated_sound(n + 1, SoundId::AlienShoot) =~= repeated_sound(
                    n,
                    SoundId::AlienShoot,
                ).push(SoundId::AlienShoot));
                assert(sounds@ =~= sounds0 + repeated_sound(n + 1, SoundId::AlienShoot));
            }
        } else {
            aliens[i] = Alien { x: a.x, y: a.y, shoot_delay: ticked, is_hit: a.is_hit };
        }
        i += 1;
    }
    proof {
        assert(orig.take(orig.len() as int) =~= orig);
    }
}

/// The bullet overlaps the alien's rectangle.
pub open spec fn bullet_hits_alien(
    a: Alien,
    alien_w: int,
    alien_h: int,
    b: Bullet,
    bullet_w: int,
    bullet_h: int,
) -> bool {
    centred_boxes_overlap(
        a.x as int,
        a.y as int,
        alien_w,
        alien_h,
        b.x as int,
        b.y as int,
        bullet_w,
        bullet_h,
    )
}

/// Some bullet of the list overlaps the alien.
pub open spec fn alien_hit_by_some_bullet(
    a: Alien,
    alien_w: int,
    alien_h: int,
    bs: Seq<Bullet>,
    bullet_w: int,
    bullet_h: int,
) -> bool {
    exists|j: int| 0 <= j < bs.len() && bullet_hits_alien(a, alien_w, alien_h, bs[j], bullet_w, bullet_h)
}

/// Some alien of the fleet overlaps the bullet.
pub open spec fn bullet_hit_by_some_alien(
    b: Bullet,
    bullet_w: int,
    bullet_h: int,
    aliens: Seq<Alien>,
    alien_w: int,
    alien_h: int,
) -> bool {
    exists|i: int|
        0 <= i < aliens.len() && bullet_hits_alien(aliens[i], alien_w, alien_h, b, bullet_w, bullet_h)
}

/// How many of the bullets overlap the alien.
pub open spec fn hits_on_alien(
    a: Alien,
    alien_w: int,
    alien_h: int,
    bs: Seq<Bullet>,
    bullet_w: int,
    bullet_h: int,
) -> nat
    decreases bs.len(),
{
    if bs.len() == 0 {
        0
    } else {
        hits_on_alien(a, alien_w, alien_h, bs.drop_last(), bullet_w, bullet_h) + (
        if bullet_hits_alien(a, alien_w, alien_h, bs.last(), bullet_w, bullet_h) {
            1nat
        } else {
            0nat
        })
    }
}

/// How many (alien, bullet) pairs overlap: every pair scores, so a bullet
/// overlapping two aliens in the same frame counts twice.
pub open spec fn fleet_bullet_hits(
    aliens: Seq<Alien>,
    alien_w: int,
    alien_h: int,
    bs: Seq<Bullet>,
    bullet_w: int,
    bullet_h: int,
) -> nat
    decreases aliens.len(),
{
    if aliens.len() == 0 {
        0
    } else {
        fleet_bullet_hits(aliens.drop_last(), alien_w, alien_h, bs, bullet_w, bullet_h)
            + hits_on_alien(aliens.last(), alien_w, alien_h, bs, bullet_w, bullet_h)
    }
}

/// Resolve spaceship-bullet against alien collisions over all pairs, with
/// no early exit: every overlapping pair marks the alien hit, marks the
/// bullet spent, scores `points` and requests one alien-death sound.
#[verifier::loop_isolation(false)]
pub fn collide_ship_bullets_with_fleet(
    aliens: &mut Vec<Alien>,
    alien_w: i64,
    alien_h: i64,
    bullets: &mut Vec<Bullet>,
    bullet_w: i64,
    bullet_h: i64,
    points: u32,
    score: &mut u32,
    sounds: &mut Vec<SoundId>,
)
    requires
        forall|i: int| 0 <= i < old(aliens)@.len() ==> alien_in_range(#[trigger] old(aliens)@[i]),
        forall|j: int|
            0 <= j < old(bullets)@.len() ==> bullet_in_range(#[trigger] old(bullets)@[j]),
        0 <= alien_w <= COORD_LIMIT,
        0 <= alien_h <= COORD_LIMIT,
        0 <= bullet_w <= COORD_LIMIT,
        0 <= bullet_h <= COORD_LIMIT,
    ensures
        final(aliens)@.len() == old(aliens)@.len(),
        forall|i: int|
            0 <= i < old(aliens)@.len() ==> {
                let a0 = old(aliens)@[i];
                let a1 = #[trigger] final(aliens)@[i];
                a1.x == a0.x && a1.y == a0.y && a1.shoot_delay == a0.shoot_delay && (a1.is_hit
                    <==> a0.is_hit || alien_hit_by_some_bullet(
                    a0,
                    alien_w as int,
                    alien_h as int,
                    old(bullets)@,
                    bullet_w as int,
                    bullet_h as int,
                ))
            },
        final(bullets)@.len() == old(bullets)@.len(),
        forall|j: int|
            0 <= j < old(bullets)@.len() ==> {
                let b0 = old(bullets)@[j];
                let b1 = #[trigger] final(bullets)@[j];
                b1.x == b0.x && b1.y == b0.y && (b1.has_hit_something <==> b0.has_hit_something
                    || bullet_hit_by_some_alien(
                    b0,
                    bullet_w as int,
                    bullet_h as int,
                    old(aliens)@,
                    alien_w as int,
                    alien_h as int,
                ))
            },
        *final(score) == sat_u32(
            *old(score) + points * fleet_bullet_hits(
                old(aliens)@,
                alien_w as int,
                alien_h as int,
                old(bullets)@,
                bullet_w as int,
                bullet_h as int,
            ),
        ),
        final(sounds)@ == old(sounds)@ + repeated_sound(
            fleet_bullet_hits(
                old(aliens)@,
                alien_w as int,
                alien_h as int,
                old(bullets)@,
                bullet_w as int,
                bullet_h as int,
            ),
            SoundId::AlienDeath,
        ),
{
    let ghost orig_a = aliens@;
    let ghost orig_b = bullets@;
    let ghost base = *score as int;
    let ghost sounds0 = sounds@;
    let ghost aw = alien_w as int;
    let ghost ah = alien_h as int;
    let ghost bw = bullet_w as int;
    let ghost bh = bullet_h as int;
    proof {
        assert(orig_a.take(0) =~= Seq::<Alien>::empty());
        assert(fleet_bullet_hits(orig_a.take(0), aw, ah, orig_b, bw, bh) == 0);
        assert(repeated_sound(0, SoundId::AlienDeath) =~= Seq::<SoundId>::empty());
        assert(sounds0 + repeated_sound(0, SoundId::AlienDeath) =~= sounds0);
    }
    let mut i: usize = 0;
    while i < aliens.len()
        invariant
            i <= orig_a.len(),
            aliens@.len() == orig_a.len(),
            bullets@.len() == orig_b.len(),
            forall|k: int|
                0 <= k < orig_a.len() ==> {
                    let a0 = orig_a[k];
                    let a1 = #[trigger] aliens@[k];
                    a1.x == a0.x && a1.y == a0.y && a1.shoot_delay == a0.shoot_delay && (if k < i {
                        a1.is_hit <==> a0.is_hit || alien_hit_by_some_bullet(a0, aw, ah, orig_b, bw, bh)
                    } else {
                        a1.is_hit == a0.is_hit
                    })
                },
            forall|j: int|
                0 <= j < orig_b.len() ==> {
                    let b0 = orig_b[j];
                    let b1 = #[trigger] bullets@[j];
                    b1.x == b0.x && b1.y == b0.y && (b1.has_hit_something <==> b0.has_hit_something
                        || exists|i2: int|
                        0 <= i2 < i && bullet_hits_alien(orig_a[i2], aw, ah, b0, bw, bh))
                },
            *score == sat_u32(base + points * fleet_bullet_hits(orig_a.take(i as int), aw, ah, orig_b, bw, bh)),
            sounds@ == sounds0 + repeated_sound(
                fleet_bullet_hits(orig_a.take(i as int), aw, ah, orig_b, bw, bh),
                SoundId::AlienDeath,
            ),
        decreases orig_a.len() - i,
    {
        let a = aliens[i];
        let alien_rect = rect_from_centre(a.x, a.y, alien_w, alien_h);
        let mut was_hit = a.is_hit;
        let ghost outer_hits = fleet_bullet_hits(orig_a.take(i as int), aw, ah, orig_b, bw, bh);
        proof {
            assert(orig_b.take(0) =~= Seq::<Bullet>::empty());
            assert(hits_on_alien(orig_a[i as int], aw, ah, orig_b.take(0), bw, bh) == 0);
        }
        let mut j: usize = 0;
        while j < bullets.len()
            invariant
                j <= orig_b.len(),
                bullets@.len() == orig_b.len(),
                forall|jj: int|
                    0 <= jj < orig_b.len() ==> {
                        let b0 = orig_b[jj];
                        let b1 = #[trigger] bullets@[jj];
                        b1.x == b0.x && b1.y == b0.y && (b1.has_hit_something
                            <==> b0.has_hit_something || (exists|i2: int|
                            0 <= i2 < i && bullet_hits_alien(orig_a[i2], aw, ah, b0, bw, bh)) || (jj
                            < j && bullet_hits_alien(orig_a[i as int], aw, ah, b0, bw, bh)))
                    },
                was_hit <==> orig_a[i as int].is_hit || exists|jj: int|
                    0 <= jj < j && bullet_hits_alien(orig_a[i as int], aw, ah, orig_b[jj], bw, bh),
                *score == sat_u32(
                    base + points * (outer_hits + hits_on_alien(
                        orig_a[i as int],
                        aw,
                        ah,
                        orig_b.take(j as int),
                        bw,
                        bh,
                    )),
                ),
                sounds@ == sounds0 + repeated_sound(
                    (outer_hits + hits_on_alien(orig_a[i as int], aw, ah, orig_b.take(j as int), bw, bh)) as nat,
                    SoundId::AlienDeath,
                ),
            decreases orig_b.len() - j,
        {
            let b = bullets[j];
            let bullet_rect = rect_from_centre(b.x, b.y, bullet_w, bullet_h);
            let ghost inner_hits = hits_on_alien(orig_a[i as int], aw, ah, orig_b.take(j as int), bw, bh);
            proof {
                assert(orig_b.take(j + 1).drop_last() =~= orig_b.take(j as int));
                assert(orig_b.take(j + 1).last() == orig_b[j as int]);
            }
            if overlaps(&alien_rect, &bullet_rect) {
                proof {
                    assert(bullet_hits_alien(orig_a[i as int], aw, ah, orig_b[j as int], bw, bh));
                    lemma_sat_u32_chain(base + points * (outer_hits + inner_hits), points as int);
                    assert(points * (outer_hits + inner_hits + 1) == points * (outer_hits
                        + inner_hits) + points) by (nonlinear_arith);
                    assert(repeated_sound((outer_hits + inner_hits + 1) as nat, SoundId::AlienDeath)
                        =~= repeated_sound((outer_hits + inner_hits) as nat, SoundId::AlienDeath).push(
                        SoundId::AlienDeath,
                    ));
                }
                was_hit = true;
                bullets[j] = Bullet { x: b.x, y: b.y, has_hit_something: true };
                *score = sat_add_u32(*score, points);
                sounds.push(SoundId::AlienDeath);
                proof {
                    assert(sounds@ =~= sounds0 + repeated_sound(
                        (outer_hits + inner_hits + 1) as nat,
                        SoundId::AlienDeath,
                    ));
                }
            } else {
                proof {
                    assert(!bullet_hits_alien(orig_a[i as int], aw, ah, orig_b[j as int], bw, bh));
                }
            }
            j += 1;
        }
        proof {
            assert(orig_b.take(orig_b.len() as int) =~= orig_b);
            assert(orig_a.take(i + 1).drop_last() =~= orig_a.take(i as int));
            assert(orig_a.take(i + 1).last() == orig_a[i as int]);
        }
        aliens[i] = Alien { x: a.x, y: a.y, shoot_delay: a.shoot_delay, is_hit: was_hit };
        proof {
            assert forall|j: int| 0 <= j < orig_b.len() implies {
                let b0 = orig_b[j];
                let b1 = #[trigger] bullets@[j];
                b1.has_hit_something <==> b0.has_hit_something || exists|i2: int|
                    0 <= i2 < i + 1 && bullet_hits_alien(orig_a[i2], aw, ah, b0, bw, bh)
            } by {
                let b0 = orig_b[j];
                let b1 = bullets@[j];
                if b1.has_hit_something {
                    if !b0.has_hit_something {
                        if exists|i2: int| 0 <= i2 < i && bullet_hits_alien(orig_a[i2], aw, ah, b0, bw, bh) {
                            let i2 = choose|i2: int|
                                0 <= i2 < i && bullet_hits_alien(orig_a[i2], aw, ah, b0, bw, bh);
                            assert(bullet_hits_alien(orig_a[i2], aw, ah, b0, bw, bh));
                        } else {
                            assert(bullet_hits_alien(orig_a[i as int], aw, ah, b0, bw, bh));
                        }
                    }
                } else {
                    assert forall|i2: int|
                        0 <= i2 < i + 1 implies !bullet_hits_alien(orig_a[i2], aw, ah, b0, bw, bh) by {
                        if i2 < i {
                            assert(!(exists|i3: int|
                                0 <= i3 < i && bullet_hits_alien(orig_a[i3], aw, ah, b0, bw, bh)));
                        }
                    }
                }
            }
        }
        i += 1;
    }
    proof {
        assert(orig_a.take(orig_a.len() as int) =~= orig_a);
    }
}

/// The alien's rectangle overlaps the spaceship's rectangle.
pub open spec fn alien_touches_ship(a: Alien, alien_w: int, alien_h: int, ship: Rect) -> bool {
    centred_box_overlaps_rect(a.x as int, a.y as int, alien_w, alien_h, ship)
}

pub open spec fn some_alien_touches_ship(
    aliens: Seq<Alien>,
    alien_w: int,
    alien_h: int,
    ship: Rect,
) -> bool {
    exists|i: int| 0 <= i < aliens.len() && alien_touches_ship(aliens[i], alien_w, alien_h, ship)
}

/// How many aliens overlap the spaceship.
pub open spec fn ship_contacts(aliens: Seq<Alien>, alien_w: int, alien_h: int, ship: Rect) -> nat
    decreases aliens.len(),
{
    if aliens.len() == 0 {
        0
    } else {
        ship_contacts(aliens.drop_last(), alien_w, alien_h, ship) + (if alien_touches_ship(
            aliens.last(),
            alien_w,
            alien_h,
            ship,
        ) {
            1nat
        } else {
            0nat
        })
    }
}

/// The sound requests of `n` body contacts: an alien death followed by a
/// player death, per contact.
pub open spec fn contact_sounds(n: nat) -> Seq<SoundId>
    decreases n,
{
    if n == 0 {
        Seq::empty()
    } else {
        contact_sounds((n - 1) as nat).push(SoundId::AlienDeath).push(SoundId::PlayerDeath)
    }
}

/// Resolve alien-body against spaceship collisions: every alien touching
/// the ship is destroyed (and still scores), and any contact destroys the
/// ship. The caller marks the ship and arms the level-reset timer when
/// this returns true.
#[verifier::loop_isolation(false)]
pub fn collide_aliens_with_ship(
    aliens: &mut Vec<Alien>,
    alien_w: i64,
    alien_h: i64,
    ship: Rect,
    points: u32,
    score: &mut u32,
    sounds: &mut Vec<SoundId>,
) -> (contact: bool)
    requires
        forall|i: int| 0 <= i < old(aliens)@.len() ==> alien_in_range(#[trigger] old(aliens)@[i]),
        0 <= alien_w <= COORD_LIMIT,
        0 <= alien_h <= COORD_LIMIT,
        rect_wf(ship),
    ensures
        final(aliens)@.len() == old(aliens)@.len(),
        forall|i: int|
            0 <= i < old(aliens)@.len() ==> {
                let a0 = old(aliens)@[i];
                let a1 = #[trigger] final(aliens)@[i];
                a1.x == a0.x && a1.y == a0.y && a1.shoot_delay == a0.shoot_delay && (a1.is_hit
                    <==> a0.is_hit || alien_touches_ship(a0, alien_w as int, alien_h as int, ship))
            },
        contact == some_alien_touches_ship(old(aliens)@, alien_w as int, alien_h as int, ship),
        *final(score) == sat_u32(
            *old(score) + points * ship_contacts(old(aliens)@, alien_w as int, alien_h as int, ship),
        ),
        final(sounds)@ == old(sounds)@ + contact_sounds(
            ship_contacts(old(aliens)@, alien_w as int, alien_h as int, ship),
        ),
{
    let ghost orig = aliens@;
    let ghost base = *score as int;
    let ghost sounds0 = sounds@;
    let ghost aw = alien_w as int;
    let ghost ah = alien_h as int;
    proof {
        assert(orig.take(0) =~= Seq::<Alien>::empty());
        assert(ship_contacts(orig.take(0), aw, ah, ship) == 0);
        assert(sounds0 + contact_sounds(0) =~= sounds0);
    }
    let mut contact = false;
    let mut i: usize = 0;
    while i < aliens.len()
        invariant
            i <= orig.len(),
            aliens@.len() == orig.len(),
            forall|k: int|
                0 <= k < orig.len() ==> {
                    let a0 = orig[k];
                    let a1 = #[trigger] aliens@[k];
                    a1.x == a0.x && a1.y == a0.y && a1.shoot_delay == a0.shoot_delay && (if k < i {
                        a1.is_hit <==> a0.is_hit || alien_touches_ship(a0, aw, ah, ship)
                    } else {
                        a1.is_hit == a0.is_hit
                    })
                },
            contact == exists|k: int| 0 <= k < i && alien_touches_ship(orig[k], aw, ah, ship),
            *score == sat_u32(base + points * ship_contacts(orig.take(i as int), aw, ah, ship)),
            sounds@ == sounds0 + contact_sounds(ship_contacts(orig.take(i as int), aw, ah, ship)),
        decreases orig.len() - i,
    {
        let a = aliens[i];
        let alien_rect = rect_from_centre(a.x, a.y, alien_w, alien_h);
        let ghost done = ship_contacts(orig.take(i as int), aw, ah, ship);
        proof {
            assert(orig.take(i + 1).drop_last() =~= orig.take(i as int));
            assert(orig.take(i + 1).last() == orig[i as int]);
        }
        if overlaps(&alien_rect, &ship) {
            proof {
                assert(alien_touches_ship(orig[i as int], aw, ah, ship));
                lemma_sat_u32_chain(base + points * done, points as int);
                assert(points * (done + 1) == points * done + points) by (nonlinear_arith);
            }
            aliens[i] = Alien { x: a.x, y: a.y, shoot_delay: a.shoot_delay, is_hit: true };
            contact = true;
            *score = sat_add_u32(*score, points);
            sounds.push(SoundId::AlienDeath);
            sounds.push(SoundId::PlayerDeath);
            proof {
                assert(sounds@ =~= sounds0 + contact_sounds((done + 1) as nat));
            }
        } else {
            proof {
                assert(!alien_touches_ship(orig[i as int], aw, ah, ship));
            }
        }
        i += 1;
    }
    proof {
        assert(orig.take(orig.len() as int) =~= orig);
    }
    contact
}

/// After moving, the alien's lower edge has reached the bottom of the
/// field.
pub open spec fn alien_at_bottom(a: Alien, alien_h: int, field_height: int) -> bool {
    (a.y - alien_h / 2) + alien_h >= field_height
}

pub open spec fn some_alien_at_bottom(aliens: Seq<Alien>, alien_h: int, field_height: int) -> bool {
    exists|i: int| 0 <= i < aliens.len() && alien_at_bottom(aliens[i], alien_h, field_height)
}

/// How many aliens have reached the bottom of the field.
pub open spec fn bottom_count(aliens: Seq<Alien>, alien_h: int, field_height: int) -> nat
    decreases aliens.len(),
{
    if aliens.len() == 0 {
        0
    } else {
        bottom_count(aliens.drop_last(), alien_h, field_height) + (if alien_at_bottom(
            aliens.last(),
            alien_h,
            field_height,
        ) {
            1nat
        } else {
            0nat
        })
    }
}

/// Report whether any alien has reached the bottom of the field, with one
/// pass-sound request per such alien. Reaching the bottom is a loss
/// condition, treated like the ship being hit: the caller arms the
/// level-reset timer.
#[verifier::loop_isolation(false)]
pub fn check_fleet_bottom(
    aliens: &Vec<Alien>,
    alien_h: i64,
    field_height: i64,
    sounds: &mut Vec<SoundId>,
) -> (hit_bottom: bool)
    requires
        forall|i: int| 0 <= i < aliens@.len() ==> alien_in_range(#[trigger] aliens@[i]),
        0 <= alien_h <= COORD_LIMIT,
    ensures
        hit_bottom == some_alien_at_bottom(aliens@, alien_h as int, field_height as int),
        final(sounds)@ == old(sounds)@ + repeated_sound(
            bottom_count(aliens@, alien_h as int, field_height as int),
            SoundId::AlienPass,
        ),
{
    let ghost sounds0 = sounds@;
    let ghost ah = alien_h as int;
    let ghost fh = field_height as int;
    proof {
        assert(aliens@.take(0) =~= Seq::<Alien>::empty());
        assert(bottom_count(aliens@.take(0), ah, fh) == 0);
        assert(sounds0 + repeated_sound(0, SoundId::AlienPass) =~= sounds0);
    }
    let mut hit_bottom = false;
    let mut i: usize = 0;
    while i < aliens.len()
        invariant
            i <= aliens@.len(),
            hit_bottom == exists|k: int| 0 <= k < i && alien_at_bottom(aliens@[k], ah, fh),
            sounds@ == sounds0 + repeated_sound(
                bottom_count(aliens@.take(i as int), ah, fh),
                SoundId::AlienPass,
            ),
        decreases aliens@.len() - i,
    {
        let a = aliens[i];
        let ghost done = bottom_count(aliens@.take(i as int), ah, fh);
        proof {
            assert(aliens@.take(i + 1).drop_last() =~= aliens@.take(i as int));
            assert(aliens@.take(i + 1).last() == aliens@[i as int]);
        }
        if (a.y - alien_h / 2) + alien_h >= field_height {
            proof {
                assert(alien_at_bottom(aliens@[i as int], ah, fh));
                assert(repeated_sound(done + 1, SoundId::AlienPass) =~= repeated_sound(
                    done,
                    SoundId::AlienPass,
                ).push(SoundId::AlienPass));
            }
            hit_bottom = true;
            sounds.push(SoundId::AlienPass);
        } else {
            proof {
                assert(!alien_at_bottom(aliens@[i as int], ah, fh));
            }
        }
        i += 1;
    }
    proof {
        assert(aliens@.take(aliens@.len() as int) =~= aliens@);
    }
    hit_bottom
}

/// The moved alien bullet overlaps the spaceship's rectangle. Alien
/// bullets share the spaceship bullet size for collision purposes.
pub open spec fn alien_bullet_strikes_ship(
    b: Bullet,
    movement: int,
    bullet_w: int,
    bullet_h: int,
    ship: Rect,
) -> bool {
    centred_box_overlaps_rect(
        bullet_moved(b, movement).x as int,
        bullet_moved(b, movement).y as int,
        bullet_w,
        bullet_h,
        ship,
    )
}

pub open spec fn some_alien_bullet_strikes_ship(
    bs: Seq<Bullet>,
    movement: int,
    bullet_w: int,
    bullet_h: int,
    ship: Rect,
) -> bool {
    exists|j: int|
        0 <= j < bs.len() && alien_bullet_strikes_ship(bs[j], movement, bullet_w, bullet_h, ship)
}

/// How many alien bullets strike the ship this frame.
pub open spec fn strike_count(
    bs: Seq<Bullet>,
    movement: int,
    bullet_w: int,
    bullet_h: int,
    ship: Rect,
) -> nat
    decreases bs.len(),
{
    if bs.len() == 0 {
        0
    } else {
        strike_count(bs.drop_last(), movement, bullet_w, bullet_h, ship) + (
        if alien_bullet_strikes_ship(bs.last(), movement, bullet_w, bullet_h, ship) {
            1nat
        } else {
            0nat
        })
    }
}

/// Move every alien bullet down by `movement` subpixels and resolve its
/// collision with the spaceship: a striking bullet is marked spent and
/// requests a player-death sound. The caller marks the ship and arms the
/// level-reset timer when this returns true.
#[verifier::loop_isolation(false)]
pub fn move_alien_bullets_against_ship(
    bullets: &mut Vec<Bullet>,
    movement: i64,
    bullet_w: i64,
    bullet_h: i64,
    ship: Rect,
    sounds: &mut Vec<SoundId>,
) -> (ship_struck: bool)
    requires
        0 <= movement,
        forall|j: int|
            0 <= j < old(bullets)@.len() ==> bullet_in_range(#[trigger] old(bullets)@[j]),
        0 <= bullet_w <= COORD_LIMIT,
        0 <= bullet_h <= COORD_LIMIT,
        rect_wf(ship),
    ensures
        final(bullets)@.len() == old(bullets)@.len(),
        forall|j: int|
            0 <= j < old(bullets)@.len() ==> {
                let b0 = old(bullets)@[j];
                let b1 = #[trigger] final(bullets)@[j];
                b1.x == b0.x && b1.y == bullet_moved(b0, movement as int).y && (b1.has_hit_something
                    <==> b0.has_hit_something || alien_bullet_strikes_ship(
                    b0,
                    movement as int,
                    bullet_w as int,
                    bullet_h as int,
                    ship,
                ))
            },
        ship_struck == some_alien_bullet_strikes_ship(
            old(bullets)@,
            movement as int,
            bullet_w as int,
            bullet_h as int,
            ship,
        ),
        final(sounds)@ == old(sounds)@ + repeated_sound(
            strike_count(old(bullets)@, movement as int, bullet_w as int, bullet_h as int, ship),
            SoundId::PlayerDeath,
        ),
{
    let ghost orig = bullets@;
    let ghost sounds0 = sounds@;
    let ghost mv = movement as int;
    let ghost bw = bullet_w as int;
    let ghost bh = bullet_h as int;
    proof {
        assert(orig.take(0) =~= Seq::<Bullet>::empty());
        assert(strike_count(orig.take(0), mv, bw, bh, ship) == 0);
        assert(sounds0 + repeated_sound(0, SoundId::PlayerDeath) =~= sounds0);
    }
    let mut ship_struck = false;
    let mut j: usize = 0;
    while j < bullets.len()
        invariant
            j <= orig.len(),
            bullets@.len() == orig.len(),
            forall|k: int|
                0 <= k < j ==> {
                    let b0 = orig[k];
                    let b1 = #[trigger] bullets@[k];
                    b1.x == b0.x && b1.y == bullet_moved(b0, mv).y && (b1.has_hit_something
                        <==> b0.has_hit_something || alien_bullet_strikes_ship(b0, mv, bw, bh, ship))
                },
            forall|k: int| j <= k < orig.len() ==> bullets@[k] == orig[k],
            ship_struck == exists|k: int|
                0 <= k < j && alien_bullet_strikes_ship(orig[k], mv, bw, bh, ship),
            sounds@ == sounds0 + repeated_sound(
                strike_count(orig.take(j as int), mv, bw, bh, ship),
                SoundId::PlayerDeath,
            ),
        decreases orig.len() - j,
    {
        let b = bullets[j];
        let ghost done = strike_count(orig.take(j as int), mv, bw, bh, ship);
        proof {
            assert(orig.take(j + 1).drop_last() =~= orig.take(j as int));
            assert(orig.take(j + 1).last() == orig[j as int]);
        }
        let new_y = clip_add(b.y, movement);
        let bullet_rect = rect_from_centre(b.x, new_y, bullet_w, bullet_h);
        if overlaps(&bullet_rect, &ship) {
            proof {
                assert(alien_bullet_strikes_ship(orig[j as int], mv, bw, bh, ship));
                assert(repeated_sound(done + 1, SoundId::PlayerDeath) =~= repeated_sound(
                    done,
                    SoundId::PlayerDeath,
                ).push(SoundId::PlayerDeath));
            }
            bullets[j] = Bullet { x: b.x, y: new_y, has_hit_something: true };
            ship_struck = true;
            sounds.push(SoundId::PlayerDeath);
        } else {
            proof {
                assert(!alien_bullet_strikes_ship(orig[j as int], mv, bw, bh, ship));
            }
            bullets[j] = Bullet { x: b.x, y: new_y, has_hit_something: b.has_hit_something };
        }
        j += 1;
    }
    proof {
        assert(orig.take(orig.len() as int) =~= orig);
    }
    ship_struck
}

/// Bullets spawned by in-range aliens are themselves in range.
pub proof fn lemma_spawned_bullets_in_range(aliens: Seq<Alien>, dt: int)
    requires
        forall|i: int| 0 <= i < aliens.len() ==> alien_in_range(#[trigger] aliens[i]),
    ensures
        forall|j: int|
            0 <= j < spawned_alien_bullets(aliens, dt).len() ==> bullet_in_range(
                #[trigger] spawned_alien_bullets(aliens, dt)[j],
            ),
    decreases aliens.len(),
{
    if aliens.len() > 0 {
        assert(forall|i: int|
            0 <= i < aliens.drop_last().len() ==> alien_in_range(#[trigger] aliens.drop_last()[i]));
        lemma_spawned_bullets_in_range(aliens.drop_last(), dt);
        assert(alien_in_range(aliens.last()));
        let rest = spawned_alien_bullets(aliens.drop_last(), dt);
        let all = spawned_alien_bullets(aliens, dt);
        assert forall|j: int| 0 <= j < all.len() implies bullet_in_range(all[j]) by {
            if alien_fires(aliens.last(), dt) {
                if j < rest.len() {
                    assert(all[j] == rest[j]);
                } else {
                    assert(all[j] == (Bullet {
                        x: aliens.last().x,
                        y: aliens.last().y,
                        has_hit_something: false,
                    }));
                }
            } else {
                assert(all[j] == rest[j]);
            }
        }
    }
}

/// Ship-contact aggregates read only the aliens' positions: sequences
/// that agree on positions agree on the contact count and flag.
pub proof fn lemma_ship_contacts_ignore_hits(
    s1: Seq<Alien>,
    s2: Seq<Alien>,
    alien_w: int,
    alien_h: int,
    ship: Rect,
)
    requires
        s1.len() == s2.len(),
        forall|i: int|
            0 <= i < s1.len() ==> (#[trigger] s1[i]).x == s2[i].x && s1[i].y == s2[i].y,
    ensures
        ship_contacts(s1, alien_w, alien_h, ship) == ship_contacts(s2, alien_w, alien_h, ship),
        some_alien_touches_ship(s1, alien_w, alien_h, ship) == some_alien_touches_ship(
            s2,
            alien_w,
            alien_h,
            ship,
        ),
    decreases s1.len(),
{
    if s1.len() > 0 {
        assert(forall|i: int|
            0 <= i < s1.drop_last().len() ==> (#[trigger] s1.drop_last()[i]).x
                == s2.drop_last()[i].x && s1.drop_last()[i].y == s2.drop_last()[i].y);
        lemma_ship_contacts_ignore_hits(s1.drop_last(), s2.drop_last(), alien_w, alien_h, ship);
        assert(s1[s1.len() - 1].x == s2[s1.len() - 1].x && s1[s1.len() - 1].y == s2[s1.len() - 1].y);
    }
    if some_alien_touches_ship(s1, alien_w, alien_h, ship) {
        let i = choose|i: int| 0 <= i < s1.len() && alien_touches_ship(s1[i], alien_w, alien_h, ship);
        assert(alien_touches_ship(s2[i], alien_w, alien_h, ship));
    }
    if some_alien_touches_ship(s2, alien_w, alien_h, ship) {
        let i = choose|i: int| 0 <= i < s2.len() && alien_touches_ship(s2[i], alien_w, alien_h, ship);
        assert(alien_touches_ship(s1[i], alien_w, alien_h, ship));
    }
}

/// Bottom-edge aggregates read only the aliens' positions: sequences
/// that agree on positions agree on the bottom count and flag.
pub proof fn lemma_bottom_ignore_hits(
    s1: Seq<Alien>,
    s2: Seq<Alien>,
    alien_h: int,
    field_height: int,
)
    requires
        s1.len() == s2.len(),
        forall|i: int|
            0 <= i < s1.len() ==> (#[trigger] s1[i]).x == s2[i].x && s1[i].y == s2[i].y,
    ensures
        bottom_count(s1, alien_h, field_height) == bottom_count(s2, alien_h, field_height),
        some_alien_at_bottom(s1, alien_h, field_height) == some_alien_at_bottom(
            s2,
            alien_h,
            field_height,
        ),
    decreases s1.len(),
{
    if s1.len() > 0 {
        assert(forall|i: int|
            0 <= i < s1.drop_last().len() ==> (#[trigger] s1.drop_last()[i]).x
                == s2.drop_last()[i].x && s1.drop_last()[i].y == s2.drop_last()[i].y);
        lemma_bottom_ignore_hits(s1.drop_last(), s2.drop_last(), alien_h, field_height);
        assert(s1[s1.len() - 1].y == s2[s1.len() - 1].y);
    }
    if some_alien_at_bottom(s1, alien_h, field_height) {
        let i = choose|i: int| 0 <= i < s1.len() && alien_at_bottom(s1[i], alien_h, field_height);
        assert(alien_at_bottom(s2[i], alien_h, field_height));
    }
    if some_alien_at_bottom(s2, alien_h, field_height) {
        let i = choose|i: int| 0 <= i < s2.len() && alien_at_bottom(s2[i], alien_h, field_height);
        assert(alien_at_bottom(s1[i], alien_h, field_height));
    }
}

/// The horizontal opposite of a travel direction.
pub open spec fn opposite(d: AlienDirection) -> AlienDirection {
    match d {
        AlienDirection::Left => AlienDirection::Right,
        AlienDirection::Right => AlienDirection::Left,
        AlienDirection::Down => AlienDirection::Down,
    }
}

/// The fleet's drop-down bookkeeping for one frame: while dropping, the
/// remaining distance shrinks by this frame's movement; once it is spent,
/// the queued direction is consumed and becomes current.
pub open spec fn fleet_after_down_leg(f: AlienData, movement: int) -> AlienData {
    if f.direction == AlienDirection::Down {
        if f.dropdown_distance > 0 {
            AlienData { dropdown_distance: clip(f.dropdown_distance - movement) as i64, ..f }
        } else {
            match f.next_direction {
                Some(n) => AlienData { direction: n, next_direction: None, ..f },
                None => f,
            }
        }
    } else {
        f
    }
}

/// The fleet's reaction to an edge touch: queue the opposite horizontal
/// direction, speed up by the fixed increment (saturating at the cap),
/// turn downward and arm a fresh drop-down distance.
pub open spec fn fleet_after_switch(f: AlienData, switch: bool) -> AlienData {
    if switch {
        AlienData {
            next_direction: Some(opposite(f.direction)),
            velocity: if f.velocity + ALIEN_VELOCITY_INCREMENT <= ALIEN_VELOCITY_LIMIT {
                (f.velocity + ALIEN_VELOCITY_INCREMENT) as i64
            } else {
                ALIEN_VELOCITY_LIMIT
            },
            direction: AlienDirection::Down,
            dropdown_distance: ALIEN_DROPDOWN_DISTANCE,
            ..f
        }
    } else {
        f
    }
}

/// One frame of the shared direction state machine: the drop-down leg is
/// advanced first, then an edge touch flagged this frame is honoured.
pub open spec fn fleet_direction_step(f: AlienData, movement: int, switch: bool) -> AlienData {
    fleet_after_switch(fleet_after_down_leg(f, movement), switch)
}

/// Advance the fleet's shared direction, speed and drop-down state by one
/// frame. An edge touch can only be flagged while travelling
/// horizontally.
pub fn advance_fleet_direction(
    fleet: &mut AlienData,
    movement: i64,
    switch: bool,
    sounds: &mut Vec<SoundId>,
)
    requires
        fleet_wf(*old(fleet)),
        0 <= movement,
        switch ==> old(fleet).direction != AlienDirection::Down,
    ensures
        *final(fleet) == fleet_direction_step(*old(fleet), movement as int, switch),
        fleet_wf(*final(fleet)),
        final(sounds)@ == if switch {
            old(sounds)@.push(SoundId::AlienShift)
        } else {
            old(sounds)@
        },
{
    if fleet.direction == AlienDirection::Down {
        if fleet.dropdown_distance > 0 {
            fleet.dropdown_distance = clip_add(fleet.dropdown_distance, -movement);
        } else {
            match fleet.next_direction {
                Some(n) => {
                    fleet.direction = n;
                    fleet.next_direction = None;
                },
                None => {},
            }
        }
    }
    if switch {
        fleet.next_direction = Some(
            match fleet.direction {
                AlienDirection::Left => AlienDirection::Right,
                AlienDirection::Right => AlienDirection::Left,
                AlienDirection::Down => AlienDirection::Down,
            },
        );
        fleet.velocity = if fleet.velocity + ALIEN_VELOCITY_INCREMENT <= ALIEN_VELOCITY_LIMIT {
            fleet.velocity + ALIEN_VELOCITY_INCREMENT
        } else {
            ALIEN_VELOCITY_LIMIT
        };
        fleet.direction = AlienDirection::Down;
        fleet.dropdown_distance = ALIEN_DROPDOWN_DISTANCE;
        sounds.push(SoundId::AlienShift);
    }
}

/// Law: the fleet direction sequence alternates between a horizontal leg
/// and a drop-down leg. A left-travelling fleet can only keep going left
/// or enter a drop-down that queues right, symmetrically for right, and a
/// dropping fleet either keeps dropping or takes up exactly the queued
/// horizontal direction: a reversal without an intervening drop-down leg
/// is impossible.
pub proof fn lemma_direction_alternation(f: AlienData, movement: int, switch: bool)
    requires
        fleet_wf(f),
        switch ==> f.direction != AlienDirection::Down,
    ensures
        ({
            let g = fleet_direction_step(f, movement, switch);
            &&& f.direction == AlienDirection::Left ==> (g.direction == AlienDirection::Left || (
            g.direction == AlienDirection::Down && g.next_direction == Some(AlienDirection::Right)))
            &&& f.direction == AlienDirection::Right ==> (g.direction == AlienDirection::Right || (
            g.direction == AlienDirection::Down && g.next_direction == Some(AlienDirection::Left)))
            &&& f.direction == AlienDirection::Down ==> (g.direction == AlienDirection::Down || Some(
                g.direction,
            ) == f.next_direction)
            &&& f.direction == AlienDirection::Left ==> g.direction != AlienDirection::Right
            &&& f.direction == AlienDirection::Right ==> g.direction != AlienDirection::Left
        }),
{
}

/// Law: a wall bounce increases the fleet speed by exactly the fixed
/// increment, once per bounce, until the speed cap; a frame without a
/// bounce leaves the speed unchanged; the speed never decreases.
pub proof fn lemma_bounce_velocity(f: AlienData, movement: int, switch: bool)
    requires
        fleet_wf(f),
        switch ==> f.direction != AlienDirection::Down,
    ensures
        ({
            let g = fleet_direction_step(f, movement, switch);
            &&& switch && f.velocity + ALIEN_VELOCITY_INCREMENT <= ALIEN_VELOCITY_LIMIT
                ==> g.velocity == f.velocity + ALIEN_VELOCITY_INCREMENT
            &&& !switch ==> g.velocity == f.velocity
            &&& g.velocity >= f.velocity
        }),
{
}

} // verus!
