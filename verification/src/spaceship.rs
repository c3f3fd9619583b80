//! The player's spaceship.

use vstd::prelude::*;
use crate::bullet::{Bullet, BulletData, bullet_in_range};
use crate::geom::{COORD_LIMIT, Rect, in_range, rect_wf};

verus! {

/// Horizontal ship speed, in pixels per second.
pub const SPACESHIP_VELOCITY: i64 = 500;

/// Cooldown between two shots, in milliseconds.
pub const SPACESHIP_SHOOT_DELAY: i64 = 300;

/// The spaceship: its rectangle in subpixel units, its horizontal intent
/// (`-1`, `0` or `+1`), its firing state and cooldown, and the bullets it
/// owns.
pub struct Spaceship {
    pub rect: Rect,
    pub x_velocity: i64,
    pub is_firing: bool,
    pub shoot_delay: i64,
    pub is_hit: bool,
    pub texture_index: usize,
    pub bullet_data: BulletData,
    pub bullets: Vec<Bullet>,
}

pub open spec fn ship_wf(s: Spaceship) -> bool {
    &&& rect_wf(s.rect)
    &&& -1 <= s.x_velocity <= 1
    &&& in_range(s.shoot_delay as int)
    &&& 0 <= s.bullet_data.width <= COORD_LIMIT
    &&& 0 <= s.bullet_data.height <= COORD_LIMIT
    &&& forall|i: int| 0 <= i < s.bullets@.len() ==> bullet_in_range(#[trigger] s.bullets@[i])
}

} // verus!
