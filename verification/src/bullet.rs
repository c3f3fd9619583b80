//! Bullets: straight-line projectiles fired by the spaceship and by the
//! aliens.
//!
//! A bullet moves along the vertical axis only, at a fixed speed. It is
//! destroyed once it has registered a hit or has travelled strictly past a
//! threshold beyond the screen edge (twice its own height); a bullet
//! exactly at the threshold is retained.

use vstd::prelude::*;
use crate::geom::{clip, clip_add, in_range};

verus! {

/// Bullet speed, in pixels per second.
pub const BULLET_VELOCITY: i64 = 650;

/// The size shared by all bullets of one firer, in subpixel units, and
/// the texture they are drawn with.
#[derive(Clone, Copy, PartialEq, Eq, Structural, Debug)]
pub struct BulletData {
    pub width: i64,
    pub height: i64,
    pub texture_index: usize,
}

/// One bullet in flight: its centre position in subpixel units, and
/// whether it has already scored a hit this frame.
#[derive(Clone, Copy, PartialEq, Eq, Structural, Debug)]
pub struct Bullet {
    pub x: i64,
    pub y: i64,
    pub has_hit_something: bool,
}

pub open spec fn bullet_in_range(b: Bullet) -> bool {
    in_range(b.x as int) && in_range(b.y as int)
}

/// The bullet `b` shifted vertically by `dy`, clamped to the coordinate
/// range.
pub open spec fn bullet_moved(b: Bullet, dy: int) -> Bullet {
    Bullet { x: b.x, y: clip(b.y + dy) as i64, has_hit_something: b.has_hit_something }
}

/// Shift every bullet vertically by `dy` subpixels (negative is upward).
pub fn move_bullets_by(bullets: &mut Vec<Bullet>, dy: i64)
    ensures
        final(bullets)@.len() == old(bullets)@.len(),
        forall|i: int|
            0 <= i < old(bullets)@.len() ==> final(bullets)@[i] == bullet_moved(
                old(bullets)@[i],
                dy as int,
            ),
{
    let ghost orig = bullets@;
    let mut i: usize = 0;
    while i < bullets.len()
        invariant
            i <= orig.len(),
            bullets@.len() == orig.len(),
            forall|j: int| 0 <= j < i ==> bullets@[j] == bullet_moved(orig[j], dy as int),
            forall|j: int| i <= j < orig.len() ==> bullets@[j] == orig[j],
        decreases orig.len() - i,
    {
        let b = bullets[i];
        bullets[i] = Bullet { x: b.x, y: clip_add(b.y, dy), has_hit_something: b.has_hit_something };
        i += 1;
    }
}

/// A spaceship bullet survives the cleanup pass: it has not hit anything
/// and has not travelled strictly past the upper threshold.
pub open spec fn ship_bullet_live(b: Bullet, threshold: int) -> bool {
    b.y >= threshold && !b.has_hit_something
}

/// An alien bullet survives the cleanup pass: it has not hit anything and
/// has not travelled strictly past the lower threshold.
pub open spec fn alien_bullet_live(b: Bullet, threshold: int) -> bool {
    b.y <= threshold && !b.has_hit_something
}

pub open spec fn live_ship_bullets(bs: Seq<Bullet>, threshold: int) -> Seq<Bullet> {
    bs.filter(|b: Bullet| ship_bullet_live(b, threshold))
}

pub open spec fn live_alien_bullets(bs: Seq<Bullet>, threshold: int) -> Seq<Bullet> {
    bs.filter(|b: Bullet| alien_bullet_live(b, threshold))
}

/// Remove every spaceship bullet that has hit something or is strictly
/// above `threshold`; the survivors keep their order.
pub fn retain_live_ship_bullets(bullets: &mut Vec<Bullet>, threshold: i64)
    ensures
        final(bullets)@ == live_ship_bullets(old(bullets)@, threshold as int),
{
    let ghost orig = bullets@;
    let mut kept: Vec<Bullet> = Vec::new();
    let mut i: usize = 0;
    while i < bullets.len()
        invariant
            i <= orig.len(),
            bullets@ == orig,
            kept@ == live_ship_bullets(orig.take(i as int), threshold as int),
        decreases orig.len() - i,
    {
        let b = bullets[i];
        proof {
            reveal(Seq::filter);
            assert(orig.take(i + 1).drop_last() =~= orig.take(i as int));
            assert(orig.take(i + 1).last() == orig[i as int]);
        }
        if b.y >= threshold && !b.has_hit_something {
            kept.push(b);
        }
        i += 1;
    }
    proof {
        assert(orig.take(orig.len() as int) =~= orig);
    }
    *bullets = kept;
}

/// Remove every alien bullet that has hit something or is strictly below
/// `threshold`; the survivors keep their order.
pub fn retain_live_alien_bullets(bullets: &mut Vec<Bullet>, threshold: i64)
    ensures
        final(bullets)@ == live_alien_bullets(old(bullets)@, threshold as int),
{
    let ghost orig = bullets@;
    let mut kept: Vec<Bullet> = Vec::new();
    let mut i: usize = 0;
    while i < bullets.len()
        invariant
            i <= orig.len(),
            bullets@ == orig,
            kept@ == live_alien_bullets(orig.take(i as int), threshold as int),
        decreases orig.len() - i,
    {
        let b = bullets[i];
        proof {
            reveal(Seq::filter);
            assert(orig.take(i + 1).drop_last() =~= orig.take(i as int));
            assert(orig.take(i + 1).last() == orig[i as int]);
        }
        if b.y <= threshold && !b.has_hit_something {
            kept.push(b);
        }
        i += 1;
    }
    proof {
        assert(orig.take(orig.len() as int) =~= orig);
    }
    *bullets = kept;
}

/// Cleanup keeps only bullets that were already there: survivors of the
/// upper-threshold pass stay in the coordinate range.
pub proof fn lemma_live_ship_bullets_in_range(bs: Seq<Bullet>, threshold: int)
    requires
        forall|i: int| 0 <= i < bs.len() ==> bullet_in_range(#[trigger] bs[i]),
    ensures
        forall|i: int|
            0 <= i < live_ship_bullets(bs, threshold).len() ==> bullet_in_range(
                #[trigger] live_ship_bullets(bs, threshold)[i],
            ),
    decreases bs.len(),
{
    reveal(Seq::filter);
    if bs.len() > 0 {
        assert(forall|i: int|
            0 <= i < bs.drop_last().len() ==> bullet_in_range(#[trigger] bs.drop_last()[i]));
        lemma_live_ship_bullets_in_range(bs.drop_last(), threshold);
        let rest = live_ship_bullets(bs.drop_last(), threshold);
        let all = live_ship_bullets(bs, threshold);
        assert(bullet_in_range(bs.last()));
        assert forall|i: int| 0 <= i < all.len() implies bullet_in_range(all[i]) by {
            if ship_bullet_live(bs.last(), threshold) {
                if i < rest.len() {
                    assert(all[i] == rest[i]);
                } else {
                    assert(all[i] == bs.last());
                }
            } else {
                assert(all[i] == rest[i]);
            }
        }
    }
}

/// Survivors of the lower-threshold pass stay in the coordinate range.
pub proof fn lemma_live_alien_bullets_in_range(bs: Seq<Bullet>, threshold: int)
    requires
        forall|i: int| 0 <= i < bs.len() ==> bullet_in_range(#[trigger] bs[i]),
    ensures
        forall|i: int|
            0 <= i < live_alien_bullets(bs, threshold).len() ==> bullet_in_range(
                #[trigger] live_alien_bullets(bs, threshold)[i],
            ),
    decreases bs.len(),
{
    reveal(Seq::filter);
    if bs.len() > 0 {
        assert(forall|i: int|
            0 <= i < bs.drop_last().len() ==> bullet_in_range(#[trigger] bs.drop_last()[i]));
        lemma_live_alien_bullets_in_range(bs.drop_last(), threshold);
        let rest = live_alien_bullets(bs.drop_last(), threshold);
        let all = live_alien_bullets(bs, threshold);
        assert(bullet_in_range(bs.last()));
        assert forall|i: int| 0 <= i < all.len() implies bullet_in_range(all[i]) by {
            if alien_bullet_live(bs.last(), threshold) {
                if i < rest.len() {
                    assert(all[i] == rest[i]);
                } else {
                    assert(all[i] == bs.last());
                }
            } else {
                assert(all[i] == rest[i]);
            }
        }
    }
}

/// Law: an alien bullet strictly past the lower threshold is gone after
/// cleanup, and a clean bullet exactly at the threshold survives it: the
/// destroy side of the boundary is exclusive.
pub proof fn lemma_alien_bullet_cleanup_boundary(bs: Seq<Bullet>, threshold: int, i: int)
    requires
        0 <= i < bs.len(),
    ensures
        bs[i].y > threshold ==> !live_alien_bullets(bs, threshold).contains(bs[i]),
        bs[i].y == threshold && !bs[i].has_hit_something ==> live_alien_bullets(
            bs,
            threshold,
        ).contains(bs[i]),
{
    broadcast use vstd::seq_lib::group_filter_ensures;

    let pred = |b: Bullet| alien_bullet_live(b, threshold);
    if bs[i].y > threshold {
        if live_alien_bullets(bs, threshold).contains(bs[i]) {
            let j = choose|j: int|
                0 <= j < bs.filter(pred).len() && bs.filter(pred)[j] == bs[i];
            assert(pred(bs.filter(pred)[j]));
        }
    }
}

/// Law: a spaceship bullet strictly past the upper threshold is gone
/// after cleanup, and a clean bullet exactly at the threshold survives
/// it: the destroy side of the boundary is exclusive.
pub proof fn lemma_ship_bullet_cleanup_boundary(bs: Seq<Bullet>, threshold: int, i: int)
    requires
        0 <= i < bs.len(),
    ensures
        bs[i].y < threshold ==> !live_ship_bullets(bs, threshold).contains(bs[i]),
        bs[i].y == threshold && !bs[i].has_hit_something ==> live_ship_bullets(
            bs,
            threshold,
        ).contains(bs[i]),
{
    broadcast use vstd::seq_lib::group_filter_ensures;

    let pred = |b: Bullet| ship_bullet_live(b, threshold);
    if bs[i].y < threshold {
        if live_ship_bullets(bs, threshold).contains(bs[i]) {
            let j = choose|j: int|
                0 <= j < bs.filter(pred).len() && bs.filter(pred)[j] == bs[i];
            assert(pred(bs.filter(pred)[j]));
        }
    }
}

} // verus!
