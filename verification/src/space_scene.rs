//! The combat scene: the simulation of one run of the game.
//!
//! The scene owns the spaceship, the alien fleet, both bullet lists and
//! the level/life state machine. Each frame the host feeds it input and a
//! time step; it mutates its state exactly as the specification functions
//! describe, and emits sound requests and draw commands.

use vstd::prelude::*;
use crate::alien::{
    ALIEN_BASE_POINTS, ALIEN_ROW_COUNT, ALIEN_SHOOT_INTERVAL, ALIEN_VELOCITY_LIMIT, Alien,
    AlienData, AlienDirection, INITIAL_ALIEN_VELOCITY, PER_LEVEL_ALIEN_VELOCITY_INCREASE,
    advance_fleet_direction, alien_after_shot_tick, alien_at_bottom, alien_at_edge,
    alien_bullet_strikes_ship, alien_hit_by_some_bullet, alien_in_range, alien_moved,
    alien_touches_ship, bottom_count, bullet_hit_by_some_alien, check_fleet_bottom, lemma_live_aliens_in_range, live_aliens, retain_live_aliens,
    collide_aliens_with_ship, collide_ship_bullets_with_fleet, fleet_bullet_hits,
    fleet_direction_step, fleet_wf, contact_sounds, lemma_bottom_ignore_hits,
    lemma_ship_contacts_ignore_hits, lemma_spawned_bullets_in_range, move_alien_bullets_against_ship,
    move_fleet_aliens, ship_contacts, some_alien_at_bottom, some_alien_bullet_strikes_ship,
    some_alien_touches_ship, spawned_alien_bullets, strike_count, tick_alien_shooting,
};
use crate::bullet::{
    BULLET_VELOCITY, Bullet, BulletData, bullet_in_range, lemma_live_alien_bullets_in_range, lemma_live_ship_bullets_in_range, live_alien_bullets, live_ship_bullets,
    move_bullets_by, retain_live_alien_bullets, retain_live_ship_bullets,
};
use crate::commands::{
    AssetRequest, DrawCommand, EventKind, MusicAction, SceneKind, SoundId, TextAnchor, TextContent,
    repeated_sound,
};
use crate::geom::{
    COORD_LIMIT, Colour, MAX_SPRITE_SIZE, Rect, clip, clip_add, clip_mul, in_range,
    lemma_sat_u32_chain, rect_from_centre, rect_wf, sat_add_u32, sat_mul_u32, sat_u32,
};
use crate::input::{
    InputState, SCANCODE_A, SCANCODE_D, SCANCODE_ESCAPE, SCANCODE_LEFT, SCANCODE_RIGHT,
    SCANCODE_SPACE,
};
use crate::spaceship::{SPACESHIP_SHOOT_DELAY, SPACESHIP_VELOCITY, Spaceship, ship_wf};
use vstd::arithmetic::div_mod::lemma_fundamental_div_mod_converse;

verus! {

/// Lives a fresh run starts with.
pub const INITIAL_PLAYER_LIVES: u32 = 3;

/// Pause after a life-changing event before the next decision, in
/// milliseconds.
pub const LEVEL_RESET_TIME: i64 = 1000;

/// Points awarded per level number when a fleet is cleared.
pub const LEVEL_COMPLETE_POINTS: u32 = 100;

/// Scroll speed of the background, in pixels per second.
pub const BACKGROUND_VELOCITY: i64 = 400;

/// The combat scene's whole state.
pub struct SpaceScene {
    pub has_window_focus: bool,
    pub is_done: bool,
    pub current_level: u32,
    pub player_lives: u32,
    pub level_reset_timeout: i64,
    pub score: u32,
    pub spaceship: Spaceship,
    pub spaceship_size: (i64, i64),
    pub alien_data: AlienData,
    pub aliens: Vec<Alien>,
    pub background_offset: i64,
    pub background_size: (i64, i64),
    pub background_texture_index: usize,
    pub font_index: usize,
}

pub open spec fn scene_wf(s: SpaceScene) -> bool {
    &&& ship_wf(s.spaceship)
    &&& fleet_wf(s.alien_data)
    &&& forall|i: int| 0 <= i < s.aliens@.len() ==> alien_in_range(#[trigger] s.aliens@[i])
    &&& s.current_level >= 1
    &&& 0 <= s.spaceship_size.0 <= COORD_LIMIT
    &&& 0 <= s.spaceship_size.1 <= COORD_LIMIT
    &&& in_range(s.level_reset_timeout as int)
    &&& in_range(s.background_offset as int)
    &&& 0 <= s.background_size.0 <= COORD_LIMIT
    &&& 0 <= s.background_size.1 <= COORD_LIMIT
}

/// The fleet speed a level's fleet is built with, saturating at the cap.
pub open spec fn level_velocity(level: int) -> int {
    let v = INITIAL_ALIEN_VELOCITY + (level - 1) * PER_LEVEL_ALIEN_VELOCITY_INCREASE;
    if v <= ALIEN_VELOCITY_LIMIT {
        v
    } else {
        ALIEN_VELOCITY_LIMIT as int
    }
}

/// How many alien columns fit, starting a column at `x` and placing the
/// next one `2 * w` further, while strictly left of `bound`.
pub open spec fn count_cols(x: int, w: int, bound: int) -> nat
    decreases (if bound - x >= 0 {
        bound - x
    } else {
        0
    }),
{
    if w > 0 && x < bound {
        1 + count_cols(x + 2 * w, w, bound)
    } else {
        0
    }
}

/// How many aliens one fleet row holds on a field `viewport_w` wide:
/// centres at `w, 3w, 5w, ...`, strictly left of `viewport_w - w`.
pub open spec fn per_row_count(w: int, viewport_w: int) -> nat {
    count_cols(w, w, viewport_w - w)
}

/// Centre x of the `k`-th alien of a row.
pub open spec fn column_x(w: int, k: int) -> int {
    w + 2 * w * k
}

/// Centre y of an alien in row `r`: rows are stacked one and a half
/// alien heights apart, starting one height down.
pub open spec fn fleet_row_y(h: int, r: int) -> int {
    h + ((3 * h) / 2) * r
}

/// What the active (focused, unfrozen) combat frame does to the scene:
/// ship, fleet, collisions, background, cleanup and level-complete
/// check, related state to state with the frame's sound requests.
pub open spec fn combat_frame_rel(
    s0: SpaceScene,
    s1: SpaceScene,
    delta_time: u32,
    viewport_w: i64,
    viewport_h: i64,
    sounds: Seq<SoundId>,
) -> bool
{
    let dt = delta_time as int;
                let ship0 = s0.spaceship;
                let new_x = ship_clamped_x(
                    clip(ship0.rect.x + clip((ship0.x_velocity * SPACESHIP_VELOCITY) * dt)),
                    viewport_w - ship0.rect.w as int,
                );
                let ship_rect1 = Rect {
                    x: new_x as i64,
                    y: ship0.rect.y,
                    w: ship0.rect.w,
                    h: ship0.rect.h,
                };
                let spawned_ship = if ship0.is_firing {
                    ship0.bullets@.push(
                        Bullet {
                            x: (new_x + ship0.rect.w as int / 2) as i64,
                            y: ship0.rect.y,
                            has_hit_something: false,
                        },
                    )
                } else {
                    ship0.bullets@
                };
                let bullet_mv = clip(BULLET_VELOCITY * dt);
                let ship_bullets1 = Seq::new(
                    spawned_ship.len(),
                    |i: int| crate::bullet::bullet_moved(spawned_ship[i], -bullet_mv),
                );
                let delay1 = if ship0.shoot_delay > 0 {
                    clip(ship0.shoot_delay - dt)
                } else {
                    ship0.shoot_delay as int
                };
                let w = s0.alien_data.width as int;
                let h = s0.alien_data.height as int;
                let bw = ship0.bullet_data.width as int;
                let bh = ship0.bullet_data.height as int;
                let mv = clip(s0.alien_data.velocity * dt);
                let switch = fleet_hit_edge(
                    s0.aliens@,
                    s0.alien_data.direction,
                    mv,
                    w / 2,
                    viewport_w - w / 2,
                );
                let moved = moved_fleet(s0.aliens@, s0.alien_data.direction, mv);
                let ticked = ticked_fleet(moved, dt);
                let spawned_alien = spawned_alien_bullets(moved, dt);
                let alien_bullets1 = s0.alien_data.bullets@ + spawned_alien;
                let pts = level_points(s0.current_level as int);
                let pair_hits = fleet_bullet_hits(ticked, w, h, ship_bullets1, bw, bh);
                let contacts = ship_contacts(ticked, w, h, ship_rect1);
                let touched = some_alien_touches_ship(ticked, w, h, ship_rect1);
                let bottom = some_alien_at_bottom(ticked, h, viewport_h as int);
                let bottoms_n = bottom_count(ticked, h, viewport_h as int);
                let struck = some_alien_bullet_strikes_ship(
                    alien_bullets1,
                    bullet_mv,
                    bw,
                    bh,
                    ship_rect1,
                );
                let strikes_n = strike_count(alien_bullets1, bullet_mv, bw, bh, ship_rect1);
                let aliens2 = Seq::new(
                    ticked.len(),
                    |i: int|
                        Alien {
                            x: ticked[i].x,
                            y: ticked[i].y,
                            shoot_delay: ticked[i].shoot_delay,
                            is_hit: ticked[i].is_hit || alien_hit_by_some_bullet(
                                ticked[i],
                                w,
                                h,
                                ship_bullets1,
                                bw,
                                bh,
                            ) || alien_touches_ship(ticked[i], w, h, ship_rect1),
                        },
                );
                let ship_bullets2 = Seq::new(
                    ship_bullets1.len(),
                    |j: int|
                        Bullet {
                            x: ship_bullets1[j].x,
                            y: ship_bullets1[j].y,
                            has_hit_something: ship_bullets1[j].has_hit_something
                                || bullet_hit_by_some_alien(ship_bullets1[j], bw, bh, ticked, w, h),
                        },
                );
                let alien_bullets2 = Seq::new(
                    alien_bullets1.len(),
                    |j: int|
                        Bullet {
                            x: alien_bullets1[j].x,
                            y: clip(alien_bullets1[j].y + bullet_mv) as i64,
                            has_hit_something: alien_bullets1[j].has_hit_something
                                || alien_bullet_strikes_ship(
                                alien_bullets1[j],
                                bullet_mv,
                                bw,
                                bh,
                                ship_rect1,
                            ),
                        },
                );
                let scrolled = clip(s0.background_offset + clip(BACKGROUND_VELOCITY * dt));
                let bg1 = if scrolled > viewport_h {
                    clip(scrolled - viewport_h)
                } else {
                    scrolled
                };
                let threshold = -2 * bh;
                let ship_bullets3 = live_ship_bullets(ship_bullets2, threshold);
                let aliens3 = live_aliens(aliens2);
                let alien_bullets3 = live_alien_bullets(alien_bullets2, viewport_h - threshold);
                let cleared = aliens3.len() == 0;
                let score2 = sat_u32(s0.score + pts * pair_hits + pts * contacts);
                let score3 = if cleared {
                    sat_u32(score2 + LEVEL_COMPLETE_POINTS * s0.current_level)
                } else {
                    score2
                };
                let reset1 = if touched || bottom || struck {
                    LEVEL_RESET_TIME as int
                } else {
                    s0.level_reset_timeout as int
                };
                let reset2 = if cleared {
                    LEVEL_RESET_TIME as int
                } else {
                    reset1
                };
                {
                    &&& s1.spaceship.rect == ship_rect1
                    &&& s1.spaceship.x_velocity == ship0.x_velocity
                    &&& s1.spaceship.is_firing == ship0.is_firing
                    &&& s1.spaceship.shoot_delay == delay1
                    &&& (s1.spaceship.is_hit <==> ship0.is_hit || touched || struck)
                    &&& s1.spaceship.bullets@ == ship_bullets3
                    &&& s1.spaceship.bullet_data == ship0.bullet_data
                    &&& s1.aliens@ == aliens3
                    &&& s1.alien_data.direction == fleet_direction_step(
                        s0.alien_data,
                        mv,
                        switch,
                    ).direction
                    &&& s1.alien_data.next_direction == fleet_direction_step(
                        s0.alien_data,
                        mv,
                        switch,
                    ).next_direction
                    &&& s1.alien_data.velocity == fleet_direction_step(
                        s0.alien_data,
                        mv,
                        switch,
                    ).velocity
                    &&& s1.alien_data.dropdown_distance == fleet_direction_step(
                        s0.alien_data,
                        mv,
                        switch,
                    ).dropdown_distance
                    &&& (s1.alien_data.has_hit_bottom <==> s0.alien_data.has_hit_bottom || bottom)
                    &&& s1.alien_data.bullets@ == alien_bullets3
                    &&& s1.alien_data.width == s0.alien_data.width
                    &&& s1.alien_data.height == s0.alien_data.height
                    &&& s1.alien_data.bullet_data == s0.alien_data.bullet_data
                    &&& s1.score == score3
                    &&& s1.level_reset_timeout == reset2
                    &&& s1.background_offset == bg1
                    &&& s1.has_window_focus == s0.has_window_focus
                    &&& s1.is_done == s0.is_done
                    &&& s1.current_level == s0.current_level
                    &&& s1.player_lives == s0.player_lives
                    &&& s1.spaceship_size == s0.spaceship_size
                    &&& s1.background_size == s0.background_size
                    &&& sounds == (if ship0.is_firing {
                        seq![SoundId::PlayerShoot]
                    } else {
                        Seq::empty()
                    }) + repeated_sound(spawned_alien.len(), SoundId::AlienShoot) + repeated_sound(
                        pair_hits,
                        SoundId::AlienDeath,
                    ) + contact_sounds(contacts) + repeated_sound(bottoms_n, SoundId::AlienPass) + (
                    if switch {
                        seq![SoundId::AlienShift]
                    } else {
                        Seq::empty()
                    }) + repeated_sound(strikes_n, SoundId::PlayerDeath) + (if cleared {
                        seq![SoundId::LevelWin]
                    } else {
                        Seq::empty()
                    })
                }
            }

/// What one call of the combat scene's `update` does: the whole frame
/// pipeline, related state to state.
pub open spec fn combat_update_rel(
    s0: SpaceScene,
    s1: SpaceScene,
    delta_time: u32,
    viewport_w: i64,
    viewport_h: i64,
    queue0: Seq<SceneKind>,
    queue1: Seq<SceneKind>,
    sounds: Seq<SoundId>,
) -> bool {
    &&& (queue1 == (if s0.has_window_focus && s0.is_done && !s0.spaceship.is_hit {
                queue0.push(SceneKind::MainMenu)
            } else {
                queue0
            }))
    &&& (!s0.has_window_focus ==> s1 == s0 && sounds == Seq::<SoundId>::empty())
    &&& (s0.has_window_focus && s0.level_reset_timeout > 0 ==> s1 == (
            SpaceScene {
                level_reset_timeout: clip(
                    s0.level_reset_timeout - delta_time,
                ) as i64,
                ..s0
            }) && sounds == Seq::<SoundId>::empty())
    &&& (s0.has_window_focus && s0.level_reset_timeout <= 0 ==> combat_frame_rel(
        s0,
        s1,
        delta_time,
        viewport_w,
        viewport_h,
        sounds,
    ))
}

/// What one frame of combat input does: Escape latches the done flag,
/// and the held movement and fire keys become the ship's intent.
pub open spec fn combat_input_rel(s0: SpaceScene, s1: SpaceScene, input: InputState) -> bool {
    &&& (s1.is_done == (s0.is_done || input.key_down(SCANCODE_ESCAPE)))
    &&& (s1.spaceship.x_velocity == (if input.key_pressed(SCANCODE_A)
                || input.key_pressed(SCANCODE_LEFT) {
                -1int
            } else {
                0int
            }) + (if input.key_pressed(SCANCODE_D) || input.key_pressed(
                SCANCODE_RIGHT,
            ) {
                1int
            } else {
                0int
            }))
    &&& (s1.spaceship.is_firing == (input.key_pressed(SCANCODE_SPACE) && s0.spaceship.shoot_delay <= 0))
    &&& (s1.spaceship.shoot_delay == (if input.key_pressed(SCANCODE_SPACE) && s0.spaceship.shoot_delay <= 0 {
                SPACESHIP_SHOOT_DELAY as int
            } else {
                s0.spaceship.shoot_delay as int
            }))
    &&& (s1.spaceship.rect == s0.spaceship.rect)
    &&& (s1.spaceship.is_hit == s0.spaceship.is_hit)
    &&& (s1.spaceship.bullets == s0.spaceship.bullets)
    &&& (s1.spaceship.bullet_data == s0.spaceship.bullet_data)
    &&& (s1.has_window_focus == s0.has_window_focus)
    &&& (s1.current_level == s0.current_level)
    &&& (s1.player_lives == s0.player_lives)
    &&& (s1.level_reset_timeout == s0.level_reset_timeout)
    &&& (s1.score == s0.score)
    &&& (s1.spaceship_size == s0.spaceship_size)
    &&& (s1.alien_data == s0.alien_data)
    &&& (s1.aliens == s0.aliens)
    &&& (s1.background_offset == s0.background_offset)
    &&& (s1.background_size == s0.background_size)
}

/// What a window event does to the combat scene: focus drives the
/// pause flag and the music.
pub open spec fn combat_poll_rel(
    s0: SpaceScene,
    s1: SpaceScene,
    event: EventKind,
    music: Seq<MusicAction>,
) -> bool {
    &&& (({
                let focus_gained = event == EventKind::FocusGained || event == EventKind::Restored;
                let focus_lost = event == EventKind::FocusLost || event == EventKind::Minimised;
                &&& s1.has_window_focus == (if focus_gained {
                    true
                } else if focus_lost {
                    false
                } else {
                    s0.has_window_focus
                })
                &&& music == (if focus_gained {
                    seq![MusicAction::ResumeIfPaused]
                } else if focus_lost {
                    seq![MusicAction::PauseIfPlaying]
                } else {
                    Seq::<MusicAction>::empty()
                })
                &&& s1 == (SpaceScene {
                    has_window_focus: s1.has_window_focus,
                    ..s0
                })
            }))
}

/// What the end-of-frame decision does: level completion, life loss,
/// rebuild or game over, once the reset pause has run out.
pub open spec fn combat_late_rel(
    s0: SpaceScene,
    s1: SpaceScene,
    viewport_w: i64,
    viewport_h: i64,
    queue0: Seq<SceneKind>,
    queue1: Seq<SceneKind>,
) -> bool {
    &&& (({
                                                                                let lives_after_loss = if s0.player_lives > 0 {
                    s0.player_lives - 1
                } else {
                    0int
                };
                if s0.level_reset_timeout > 0 {
                    s1 == s0 && queue1 == queue0
                } else if s0.aliens@.len() == 0 {
                    &&& s1.current_level == sat_u32(s0.current_level + 1)
                    &&& s1.player_lives == sat_u32(s0.player_lives + 1)
                    &&& s1.score == s0.score
                    &&& s1.is_done == s0.is_done
                    &&& s1.has_window_focus == s0.has_window_focus
                    &&& s1.level_reset_timeout == s0.level_reset_timeout
                    &&& objects_are_reset(s0, s1, viewport_w as int, viewport_h as int)
                    &&& queue1 == queue0
                } else if s0.spaceship.is_hit || s0.alien_data.has_hit_bottom {
                    if lives_after_loss > 0 {
                        &&& s1.player_lives == lives_after_loss
                        &&& s1.current_level == s0.current_level
                        &&& s1.score == s0.score
                        &&& s1.is_done == s0.is_done
                        &&& s1.has_window_focus == s0.has_window_focus
                        &&& s1.level_reset_timeout == s0.level_reset_timeout
                        &&& objects_are_reset(s0, s1, viewport_w as int, viewport_h as int)
                        &&& queue1 == queue0
                    } else {
                        &&& s1 == (SpaceScene { player_lives: 0, is_done: true, ..s0 })
                        &&& queue1 == queue0.push(SceneKind::GameOver)
                    }
                } else {
                    s1 == s0 && queue1 == queue0
                }
            }))
}

/// The combat scene's full ordered draw list: clear, background,
/// bullets, aliens, ship, overlay; empty without window focus.
pub open spec fn combat_draw_list(s: SpaceScene) -> Seq<DrawCommand> {
    if s.has_window_focus {
                seq![DrawCommand::Clear { colour: Colour { red: 10, green: 10, blue: 10 } }]
                    + seq![
                    DrawCommand::Blit {
                        texture_index: s.background_texture_index,
                        rect: Rect {
                            x: 0,
                            y: s.background_offset,
                            w: s.background_size.0,
                            h: s.background_size.1,
                        },
                    },
                    DrawCommand::Blit {
                        texture_index: s.background_texture_index,
                        rect: Rect {
                            x: 0,
                            y: (s.background_offset - s.background_size.1) as i64,
                            w: s.background_size.0,
                            h: s.background_size.1,
                        },
                    },
                ] + bullet_blits(
                    s.alien_data.bullets@,
                    s.alien_data.bullet_data.texture_index,
                    s.spaceship.bullet_data.width as int,
                    s.spaceship.bullet_data.height as int,
                ) + bullet_blits(
                    s.spaceship.bullets@,
                    s.spaceship.bullet_data.texture_index,
                    s.spaceship.bullet_data.width as int,
                    s.spaceship.bullet_data.height as int,
                ) + alien_blits(
                    s.aliens@,
                    s.alien_data.texture_index,
                    s.alien_data.width as int,
                    s.alien_data.height as int,
                ) + (if s.spaceship.is_hit {
                    Seq::<DrawCommand>::empty()
                } else {
                    seq![
                        DrawCommand::Blit {
                            texture_index: s.spaceship.texture_index,
                            rect: s.spaceship.rect,
                        },
                    ]
                }) + seq![
                    DrawCommand::Text {
                        content: TextContent::Lives(s.player_lives),
                        colour: Colour { red: 255, green: 0, blue: 0 },
                        anchor: TextAnchor::OverlayTopLeftRow { row: 0 },
                        scale_percent: 25,
                    },
                    DrawCommand::Text {
                        content: TextContent::Level(s.current_level),
                        colour: Colour { red: 255, green: 255, blue: 255 },
                        anchor: TextAnchor::OverlayTopLeftRow { row: 1 },
                        scale_percent: 25,
                    },
                    DrawCommand::Text {
                        content: TextContent::AlienCount(sat_u32(s.aliens@.len() as int) as u32),
                        colour: Colour { red: 0, green: 255, blue: 0 },
                        anchor: TextAnchor::OverlayTopCentre,
                        scale_percent: 25,
                    },
                    DrawCommand::Text {
                        content: TextContent::Score(s.score),
                        colour: Colour { red: 255, green: 255, blue: 0 },
                        anchor: TextAnchor::OverlayTopRight,
                        scale_percent: 25,
                    },
                ]
            } else {
                Seq::<DrawCommand>::empty()
            }
}

impl SpaceScene {
    /// A fresh combat scene, before any assets are known: level one, full
    /// lives, zero score, everything else empty until `on_late_load`
    /// measures the textures and builds the world.
    pub fn new() -> (s: SpaceScene)
        ensures
            s.has_window_focus,
            !s.is_done,
            s.current_level == 1,
            s.player_lives == INITIAL_PLAYER_LIVES,
            s.level_reset_timeout == 0,
            s.score == 0,
            s.spaceship.rect == (Rect { x: 0, y: 0, w: 0, h: 0 }),
            s.spaceship.x_velocity == 0,
            !s.spaceship.is_firing,
            s.spaceship.shoot_delay == 0,
            !s.spaceship.is_hit,
            s.spaceship.bullets@.len() == 0,
            s.spaceship_size == (0i64, 0i64),
            s.alien_data.velocity == INITIAL_ALIEN_VELOCITY,
            s.alien_data.direction == AlienDirection::Right,
            s.alien_data.next_direction is None,
            s.alien_data.dropdown_distance == 0,
            !s.alien_data.has_hit_bottom,
            s.alien_data.width == 0,
            s.alien_data.height == 0,
            s.alien_data.bullets@.len() == 0,
            s.aliens@.len() == 0,
            s.background_offset == 0,
            s.background_size == (0i64, 0i64),
            scene_wf(s),
    {
        SpaceScene {
            has_window_focus: true,
            is_done: false,
            current_level: 1,
            player_lives: INITIAL_PLAYER_LIVES,
            level_reset_timeout: 0,
            score: 0,
            spaceship: Spaceship {
                rect: Rect { x: 0, y: 0, w: 0, h: 0 },
                x_velocity: 0,
                is_firing: false,
                shoot_delay: 0,
                is_hit: false,
                texture_index: 0,
                bullet_data: BulletData { width: 0, height: 0, texture_index: 0 },
                bullets: Vec::new(),
            },
            spaceship_size: (0, 0),
            alien_data: AlienData {
                width: 0,
                height: 0,
                velocity: INITIAL_ALIEN_VELOCITY,
                direction: AlienDirection::Right,
                next_direction: None,
                dropdown_distance: 0,
                has_hit_bottom: false,
                texture_index: 0,
                bullet_data: BulletData { width: 0, height: 0, texture_index: 0 },
                bullets: Vec::new(),
            },
            aliens: Vec::new(),
            background_offset: 0,
            background_size: (0, 0),
            background_texture_index: 0,
            font_index: 0,
        }
    }

    /// Rebuild the alien fleet for the current level: a fresh grid of
    /// aliens travelling right at the level's base speed, with cleared
    /// bullets and drop-down state.
    #[verifier::loop_isolation(false)]
    pub fn create_alien_fleet(&mut self, viewport_w: i64)
        requires
            scene_wf(*old(self)),
            0 <= viewport_w <= COORD_LIMIT,
        ensures
            final(self).alien_data.velocity == level_velocity(old(self).current_level as int),
            final(self).alien_data.direction == AlienDirection::Right,
            final(self).alien_data.next_direction is None,
            final(self).alien_data.dropdown_distance == 0,
            !final(self).alien_data.has_hit_bottom,
            final(self).alien_data.bullets@.len() == 0,
            final(self).alien_data.width == old(self).alien_data.width,
            final(self).alien_data.height == old(self).alien_data.height,
            final(self).alien_data.bullet_data == old(self).alien_data.bullet_data,
            final(self).alien_data.texture_index == old(self).alien_data.texture_index,
            final(self).aliens@.len() == ALIEN_ROW_COUNT * per_row_count(
                old(self).alien_data.width as int,
                viewport_w as int,
            ),
            forall|idx: int|
                0 <= idx < final(self).aliens@.len() ==> {
                    let w = old(self).alien_data.width as int;
                    let h = old(self).alien_data.height as int;
                    let per = per_row_count(w, viewport_w as int) as int;
                    let a = #[trigger] final(self).aliens@[idx];
                    a.x == column_x(w, idx % per) && a.y == fleet_row_y(h, idx / per) && !a.is_hit
                        && 0 <= a.shoot_delay < ALIEN_SHOOT_INTERVAL
                },
            final(self).has_window_focus == old(self).has_window_focus,
            final(self).is_done == old(self).is_done,
            final(self).current_level == old(self).current_level,
            final(self).player_lives == old(self).player_lives,
            final(self).level_reset_timeout == old(self).level_reset_timeout,
            final(self).score == old(self).score,
            final(self).spaceship == old(self).spaceship,
            final(self).spaceship_size == old(self).spaceship_size,
            final(self).background_offset == old(self).background_offset,
            final(self).background_size == old(self).background_size,
            final(self).background_texture_index == old(self).background_texture_index,
            final(self).font_index == old(self).font_index,
            scene_wf(*final(self)),
    {
        let level = self.current_level;
        let raw: i64 = INITIAL_ALIEN_VELOCITY + (level as i64 - 1) * PER_LEVEL_ALIEN_VELOCITY_INCREASE;
        self.alien_data.velocity = if raw <= ALIEN_VELOCITY_LIMIT {
            raw
        } else {
            ALIEN_VELOCITY_LIMIT
        };
        self.alien_data.direction = AlienDirection::Right;
        self.alien_data.bullets = Vec::new();
        self.alien_data.next_direction = None;
        self.alien_data.dropdown_distance = 0;
        self.alien_data.has_hit_bottom = false;

        let w = self.alien_data.width;
        let h = self.alien_data.height;
        let bound = viewport_w - w;
        let ghost vw = viewport_w as int;
        let ghost per = per_row_count(w as int, vw);

        let mut fleet: Vec<Alien> = Vec::new();
        if w > 0 {
            let mut row: u32 = 0;
            while row < ALIEN_ROW_COUNT
                invariant
                    row <= ALIEN_ROW_COUNT,
                    fleet@.len() == row * per,
                    forall|idx: int|
                        0 <= idx < fleet@.len() ==> {
                            let a = #[trigger] fleet@[idx];
                            a.x == column_x(w as int, idx % per as int) && a.y == fleet_row_y(
                                h as int,
                                idx / per as int,
                            ) && !a.is_hit && 0 <= a.shoot_delay < ALIEN_SHOOT_INTERVAL
                                && alien_in_range(a)
                        },
                decreases ALIEN_ROW_COUNT - row,
            {
                proof {
                    assert(0 <= ((3 * (h as int)) / 2) * (row as int) && ((3 * (h as int)) / 2) * (
                    row as int) <= ((3 * (h as int)) / 2) * 4) by (nonlinear_arith)
                        requires
                            0 <= h,
                            0 <= row <= 4,
                    ;
                }
                let y = h + (3 * h / 2) * (row as i64);
                let mut x = w;
                let mut k: usize = 0;
                proof {
                    assert(column_x(w as int, 0) == w) by (nonlinear_arith);
                }
                while x < bound
                    invariant
                        x == column_x(w as int, k as int),
                        k + count_cols(x as int, w as int, bound as int) == per,
                        k <= per,
                        w <= x,
                        y == fleet_row_y(h as int, row as int),
                        fleet@.len() == row * per + k,
                        forall|idx: int|
                            0 <= idx < fleet@.len() ==> {
                                let a = #[trigger] fleet@[idx];
                                a.x == column_x(w as int, idx % per as int) && a.y == fleet_row_y(
                                    h as int,
                                    idx / per as int,
                                ) && !a.is_hit && 0 <= a.shoot_delay < ALIEN_SHOOT_INTERVAL
                                    && alien_in_range(a)
                            },
                        in_range(y as int),
                    decreases (if bound - x >= 0 {
                        bound - x
                    } else {
                        0
                    }),
                {
                    let alien = Alien::new(x, y);
                    fleet.push(alien);
                    let fleet_len: usize = fleet.len();
                    proof {
                        assert(k + 1 <= fleet_len);
                    }
                    proof {
                        assert(count_cols(x as int, w as int, bound as int) >= 1);
                        assert(k < per);
                        lemma_fundamental_div_mod_converse(
                            row as int * per as int + k as int,
                            per as int,
                            row as int,
                            k as int,
                        );
                        assert(row * per + k + 1 == fleet@.len());
                        assert(column_x(w as int, k + 1) == column_x(w as int, k as int) + 2 * w)
                            by (nonlinear_arith);
                    }
                    x = x + 2 * w;
                    k = k + 1;
                }
                proof {
                    assert(count_cols(x as int, w as int, bound as int) == 0);
                    assert(k == per);
                    assert((row + 1) * per == row * per + per) by (nonlinear_arith);
                }
                row += 1;
            }
        }
        self.aliens = fleet;
    }

    /// Reset the spaceship to the bottom centre of the field and rebuild
    /// the alien fleet: one level attempt's starting state.
    pub fn setup_objects(&mut self, viewport_w: i64, viewport_h: i64)
        requires
            scene_wf(*old(self)),
            0 <= viewport_w <= COORD_LIMIT,
            0 <= viewport_h <= COORD_LIMIT,
            old(self).spaceship_size.1 <= viewport_h,
        ensures
            final(self).spaceship.rect.x == viewport_w / 2 - old(self).spaceship_size.0 / 2,
            final(self).spaceship.rect.y == (viewport_h - old(self).spaceship_size.1) - old(
                self,
            ).spaceship_size.1 / 2,
            final(self).spaceship.rect.w == old(self).spaceship_size.0,
            final(self).spaceship.rect.h == old(self).spaceship_size.1,
            final(self).spaceship.x_velocity == 0,
            !final(self).spaceship.is_firing,
            final(self).spaceship.shoot_delay == 0,
            !final(self).spaceship.is_hit,
            final(self).spaceship.bullets@.len() == 0,
            final(self).spaceship.bullet_data == old(self).spaceship.bullet_data,
            final(self).spaceship.texture_index == old(self).spaceship.texture_index,
            final(self).alien_data.velocity == level_velocity(old(self).current_level as int),
            final(self).alien_data.direction == AlienDirection::Right,
            final(self).alien_data.next_direction is None,
            final(self).alien_data.dropdown_distance == 0,
            !final(self).alien_data.has_hit_bottom,
            final(self).alien_data.bullets@.len() == 0,
            final(self).alien_data.width == old(self).alien_data.width,
            final(self).alien_data.height == old(self).alien_data.height,
            final(self).alien_data.bullet_data == old(self).alien_data.bullet_data,
            final(self).aliens@.len() == ALIEN_ROW_COUNT * per_row_count(
                old(self).alien_data.width as int,
                viewport_w as int,
            ),
            forall|idx: int|
                0 <= idx < final(self).aliens@.len() ==> {
                    let w = old(self).alien_data.width as int;
                    let h = old(self).alien_data.height as int;
                    let per = per_row_count(w, viewport_w as int) as int;
                    let a = #[trigger] final(self).aliens@[idx];
                    a.x == column_x(w, idx % per) && a.y == fleet_row_y(h, idx / per) && !a.is_hit
                        && 0 <= a.shoot_delay < ALIEN_SHOOT_INTERVAL
                },
            final(self).has_window_focus == old(self).has_window_focus,
            final(self).is_done == old(self).is_done,
            final(self).current_level == old(self).current_level,
            final(self).player_lives == old(self).player_lives,
            final(self).level_reset_timeout == old(self).level_reset_timeout,
            final(self).score == old(self).score,
            final(self).spaceship_size == old(self).spaceship_size,
            final(self).background_offset == old(self).background_offset,
            final(self).background_size == old(self).background_size,
            scene_wf(*final(self)),
    {
        let (ship_w, ship_h) = self.spaceship_size;
        self.spaceship.rect = rect_from_centre(
            viewport_w / 2,
            viewport_h - ship_h,
            ship_w,
            ship_h,
        );
        self.spaceship.x_velocity = 0;
        self.spaceship.is_firing = false;
        self.spaceship.shoot_delay = 0;
        self.spaceship.is_hit = false;
        self.spaceship.bullets = Vec::new();
        self.create_alien_fleet(viewport_w);
    }

    /// Read the held movement and fire keys into the ship's intent:
    /// left and right cancel when both are held, and a fire press is
    /// honoured only when the cooldown has run out, rearming it.
    pub fn process_spaceship_input(&mut self, input_state: &InputState)
        ensures
            final(self).spaceship.x_velocity == (if input_state.key_pressed(SCANCODE_A)
                || input_state.key_pressed(SCANCODE_LEFT) {
                -1int
            } else {
                0int
            }) + (if input_state.key_pressed(SCANCODE_D) || input_state.key_pressed(
                SCANCODE_RIGHT,
            ) {
                1int
            } else {
                0int
            }),
            final(self).spaceship.is_firing == (input_state.key_pressed(SCANCODE_SPACE) && old(
                self,
            ).spaceship.shoot_delay <= 0),
            final(self).spaceship.shoot_delay == (if input_state.key_pressed(SCANCODE_SPACE) && old(
                self,
            ).spaceship.shoot_delay <= 0 {
                SPACESHIP_SHOOT_DELAY as int
            } else {
                old(self).spaceship.shoot_delay as int
            }),
            final(self).spaceship.rect == old(self).spaceship.rect,
            final(self).spaceship.is_hit == old(self).spaceship.is_hit,
            final(self).spaceship.bullets == old(self).spaceship.bullets,
            final(self).spaceship.bullet_data == old(self).spaceship.bullet_data,
            final(self).spaceship.texture_index == old(self).spaceship.texture_index,
            final(self).has_window_focus == old(self).has_window_focus,
            final(self).is_done == old(self).is_done,
            final(self).current_level == old(self).current_level,
            final(self).player_lives == old(self).player_lives,
            final(self).level_reset_timeout == old(self).level_reset_timeout,
            final(self).score == old(self).score,
            final(self).spaceship_size == old(self).spaceship_size,
            final(self).alien_data == old(self).alien_data,
            final(self).aliens == old(self).aliens,
            final(self).background_offset == old(self).background_offset,
            final(self).background_size == old(self).background_size,
            scene_wf(*old(self)) ==> scene_wf(*final(self)),
    {
        self.spaceship.x_velocity = 0;

        let left_keys: [i32; 2] = [SCANCODE_A, SCANCODE_LEFT];
        if input_state.is_any_key_pressed(&left_keys) {
            proof {
                assert(input_state.key_pressed(left_keys@[0]) || input_state.key_pressed(
                    left_keys@[1],
                ));
            }
            self.spaceship.x_velocity = self.spaceship.x_velocity - 1;
        } else {
            proof {
                assert(!input_state.key_pressed(left_keys@[0]) && !input_state.key_pressed(
                    left_keys@[1],
                ));
            }
        }

        let right_keys: [i32; 2] = [SCANCODE_D, SCANCODE_RIGHT];
        if input_state.is_any_key_pressed(&right_keys) {
            proof {
                assert(input_state.key_pressed(right_keys@[0]) || input_state.key_pressed(
                    right_keys@[1],
                ));
            }
            self.spaceship.x_velocity = self.spaceship.x_velocity + 1;
        } else {
            proof {
                assert(!input_state.key_pressed(right_keys@[0]) && !input_state.key_pressed(
                    right_keys@[1],
                ));
            }
        }

        self.spaceship.is_firing = false;

        if input_state.is_key_pressed(SCANCODE_SPACE) && self.spaceship.shoot_delay <= 0 {
            self.spaceship.is_firing = true;
            self.spaceship.shoot_delay = SPACESHIP_SHOOT_DELAY;
        }
    }

    /// Advance the spaceship by one frame: move and clamp it to the
    /// field, spawn a bullet at its centre-top if it is firing, carry
    /// every bullet upward, and run down the shoot cooldown.
    pub fn update_spaceship(&mut self, delta_time: u32, viewport_w: i64, sounds: &mut Vec<SoundId>)
        requires
            scene_wf(*old(self)),
            0 <= viewport_w <= COORD_LIMIT,
            old(self).spaceship.rect.w <= viewport_w,
        ensures
            ({
                let ship0 = old(self).spaceship;
                let mv = clip((ship0.x_velocity * SPACESHIP_VELOCITY) * (delta_time as int));
                let new_x = ship_clamped_x(
                    clip(ship0.rect.x + mv),
                    viewport_w - ship0.rect.w as int,
                );
                let spawned = if ship0.is_firing {
                    ship0.bullets@.push(
                        Bullet {
                            x: (new_x + ship0.rect.w as int / 2) as i64,
                            y: ship0.rect.y,
                            has_hit_something: false,
                        },
                    )
                } else {
                    ship0.bullets@
                };
                let bullet_mv = clip(BULLET_VELOCITY * (delta_time as int));
                let ship1 = final(self).spaceship;
                &&& ship1.rect.x == new_x
                &&& 0 <= ship1.rect.x <= viewport_w - ship0.rect.w
                &&& ship1.rect.y == ship0.rect.y
                &&& ship1.rect.w == ship0.rect.w
                &&& ship1.rect.h == ship0.rect.h
                &&& ship1.x_velocity == ship0.x_velocity
                &&& ship1.is_firing == ship0.is_firing
                &&& ship1.is_hit == ship0.is_hit
                &&& ship1.bullet_data == ship0.bullet_data
                &&& ship1.shoot_delay == (if ship0.shoot_delay > 0 {
                    clip(ship0.shoot_delay - delta_time)
                } else {
                    ship0.shoot_delay as int
                })
                &&& ship1.bullets@.len() == spawned.len()
                &&& forall|i: int|
                    0 <= i < spawned.len() ==> ship1.bullets@[i] == crate::bullet::bullet_moved(
                        spawned[i],
                        -bullet_mv,
                    )
                &&& final(sounds)@ == (if ship0.is_firing {
                    old(sounds)@.push(SoundId::PlayerShoot)
                } else {
                    old(sounds)@
                })
            }),
            final(self).has_window_focus == old(self).has_window_focus,
            final(self).is_done == old(self).is_done,
            final(self).current_level == old(self).current_level,
            final(self).player_lives == old(self).player_lives,
            final(self).level_reset_timeout == old(self).level_reset_timeout,
            final(self).score == old(self).score,
            final(self).spaceship_size == old(self).spaceship_size,
            final(self).alien_data == old(self).alien_data,
            final(self).aliens == old(self).aliens,
            final(self).background_offset == old(self).background_offset,
            final(self).background_size == old(self).background_size,
            scene_wf(*final(self)),
    {
        let mv = clip_mul(self.spaceship.x_velocity * SPACESHIP_VELOCITY, delta_time as i64);
        let x_moved = clip_add(self.spaceship.rect.x, mv);
        let hi = viewport_w - self.spaceship.rect.w;
        let lo_clamped: i64 = if x_moved < 0 {
            0
        } else {
            x_moved
        };
        let new_x: i64 = if lo_clamped < hi {
            lo_clamped
        } else {
            hi
        };
        self.spaceship.rect = Rect {
            x: new_x,
            y: self.spaceship.rect.y,
            w: self.spaceship.rect.w,
            h: self.spaceship.rect.h,
        };

        if self.spaceship.is_firing {
            let b = Bullet {
                x: new_x + self.spaceship.rect.w / 2,
                y: self.spaceship.rect.y,
                has_hit_something: false,
            };
            self.spaceship.bullets.push(b);
            sounds.push(SoundId::PlayerShoot);
        }

        let bullet_mv = clip_mul(BULLET_VELOCITY, delta_time as i64);
        move_bullets_by(&mut self.spaceship.bullets, -bullet_mv);

        if self.spaceship.shoot_delay > 0 {
            self.spaceship.shoot_delay = clip_add(self.spaceship.shoot_delay, -(delta_time as i64));
        }
    }

    /// Advance the alien fleet by one frame: move every alien along the
    /// shared direction, run the shoot timers, resolve bullet and body
    /// collisions over all pairs with no early exit, note any alien that
    /// reached the bottom, advance the shared direction state machine,
    /// and carry the alien bullets down into the ship.
    #[verifier::rlimit(100)]
    pub fn update_aliens(
        &mut self,
        delta_time: u32,
        viewport_w: i64,
        viewport_h: i64,
        sounds: &mut Vec<SoundId>,
    )
        requires
            scene_wf(*old(self)),
            0 <= viewport_w <= COORD_LIMIT,
            0 <= viewport_h <= COORD_LIMIT,
        ensures
            ({
                let s0 = *old(self);
                let dt = delta_time as int;
                let w = s0.alien_data.width as int;
                let h = s0.alien_data.height as int;
                let bw = s0.spaceship.bullet_data.width as int;
                let bh = s0.spaceship.bullet_data.height as int;
                let ship_rect = s0.spaceship.rect;
                let mv = clip(s0.alien_data.velocity * dt);
                let bullet_mv = clip(BULLET_VELOCITY * dt);
                let switch = fleet_hit_edge(
                    s0.aliens@,
                    s0.alien_data.direction,
                    mv,
                    w / 2,
                    viewport_w - w / 2,
                );
                let moved = moved_fleet(s0.aliens@, s0.alien_data.direction, mv);
                let ticked = ticked_fleet(moved, dt);
                let spawned = spawned_alien_bullets(moved, dt);
                let alien_bullets1 = s0.alien_data.bullets@ + spawned;
                let pts = level_points(s0.current_level as int);
                let pair_hits = fleet_bullet_hits(ticked, w, h, s0.spaceship.bullets@, bw, bh);
                let contacts = ship_contacts(ticked, w, h, ship_rect);
                let touched = some_alien_touches_ship(ticked, w, h, ship_rect);
                let bottom = some_alien_at_bottom(ticked, h, viewport_h as int);
                let bottoms_n = bottom_count(ticked, h, viewport_h as int);
                let struck = some_alien_bullet_strikes_ship(
                    alien_bullets1,
                    bullet_mv,
                    bw,
                    bh,
                    ship_rect,
                );
                let strikes_n = strike_count(alien_bullets1, bullet_mv, bw, bh, ship_rect);
                let s1 = *final(self);
                &&& s1.aliens@.len() == s0.aliens@.len()
                &&& forall|i: int|
                    0 <= i < s0.aliens@.len() ==> {
                        let a1 = #[trigger] s1.aliens@[i];
                        let t = ticked[i];
                        a1.x == t.x && a1.y == t.y && a1.shoot_delay == t.shoot_delay && (a1.is_hit
                            <==> t.is_hit || alien_hit_by_some_bullet(
                            t,
                            w,
                            h,
                            s0.spaceship.bullets@,
                            bw,
                            bh,
                        ) || alien_touches_ship(t, w, h, ship_rect))
                    }
                &&& s1.spaceship.bullets@.len() == s0.spaceship.bullets@.len()
                &&& forall|j: int|
                    0 <= j < s0.spaceship.bullets@.len() ==> {
                        let b0 = s0.spaceship.bullets@[j];
                        let b1 = #[trigger] s1.spaceship.bullets@[j];
                        b1.x == b0.x && b1.y == b0.y && (b1.has_hit_something
                            <==> b0.has_hit_something || bullet_hit_by_some_alien(
                            b0,
                            bw,
                            bh,
                            ticked,
                            w,
                            h,
                        ))
                    }
                &&& s1.alien_data.bullets@.len() == alien_bullets1.len()
                &&& forall|j: int|
                    0 <= j < alien_bullets1.len() ==> {
                        let b0 = alien_bullets1[j];
                        let b1 = #[trigger] s1.alien_data.bullets@[j];
                        b1.x == b0.x && b1.y == clip(b0.y + bullet_mv) && (b1.has_hit_something
                            <==> b0.has_hit_something || alien_bullet_strikes_ship(
                            b0,
                            bullet_mv,
                            bw,
                            bh,
                            ship_rect,
                        ))
                    }
                &&& s1.score == sat_u32(s0.score + pts * pair_hits + pts * contacts)
                &&& (s1.spaceship.is_hit <==> s0.spaceship.is_hit || touched || struck)
                &&& (s1.alien_data.has_hit_bottom <==> s0.alien_data.has_hit_bottom || bottom)
                &&& s1.level_reset_timeout == (if touched || bottom || struck {
                    LEVEL_RESET_TIME as int
                } else {
                    s0.level_reset_timeout as int
                })
                &&& s1.alien_data.direction == fleet_direction_step(
                    s0.alien_data,
                    mv,
                    switch,
                ).direction
                &&& s1.alien_data.next_direction == fleet_direction_step(
                    s0.alien_data,
                    mv,
                    switch,
                ).next_direction
                &&& s1.alien_data.velocity == fleet_direction_step(
                    s0.alien_data,
                    mv,
                    switch,
                ).velocity
                &&& s1.alien_data.dropdown_distance == fleet_direction_step(
                    s0.alien_data,
                    mv,
                    switch,
                ).dropdown_distance
                &&& s1.alien_data.width == s0.alien_data.width
                &&& s1.alien_data.height == s0.alien_data.height
                &&& s1.alien_data.bullet_data == s0.alien_data.bullet_data
                &&& s1.spaceship.rect == s0.spaceship.rect
                &&& s1.spaceship.x_velocity == s0.spaceship.x_velocity
                &&& s1.spaceship.is_firing == s0.spaceship.is_firing
                &&& s1.spaceship.shoot_delay == s0.spaceship.shoot_delay
                &&& s1.spaceship.bullet_data == s0.spaceship.bullet_data
                &&& s1.has_window_focus == s0.has_window_focus
                &&& s1.is_done == s0.is_done
                &&& s1.current_level == s0.current_level
                &&& s1.player_lives == s0.player_lives
                &&& s1.spaceship_size == s0.spaceship_size
                &&& s1.background_offset == s0.background_offset
                &&& s1.background_size == s0.background_size
                &&& final(sounds)@ == old(sounds)@ + repeated_sound(
                    spawned.len(),
                    SoundId::AlienShoot,
                ) + repeated_sound(pair_hits, SoundId::AlienDeath) + contact_sounds(contacts)
                    + repeated_sound(bottoms_n, SoundId::AlienPass) + (if switch {
                    seq![SoundId::AlienShift]
                } else {
                    Seq::empty()
                }) + repeated_sound(strikes_n, SoundId::PlayerDeath)
            }),
            scene_wf(*final(self)),
    {
        let ghost s0 = *old(self);
        let ghost dt = delta_time as int;
        let ghost ws = s0.alien_data.width as int;
        let ghost hs = s0.alien_data.height as int;
        let ghost bws = s0.spaceship.bullet_data.width as int;
        let ghost bhs = s0.spaceship.bullet_data.height as int;

        let movement = clip_mul(self.alien_data.velocity, delta_time as i64);
        proof {
            assert(0 <= s0.alien_data.velocity * dt) by (nonlinear_arith)
                requires
                    0 <= s0.alien_data.velocity,
                    0 <= dt,
            ;
        }
        let half_w = self.alien_data.width / 2;
        let right_bound = viewport_w - half_w;
        let direction = self.alien_data.direction;
        let switch = move_fleet_aliens(&mut self.aliens, direction, movement, half_w, right_bound);
        let ghost moved = moved_fleet(s0.aliens@, s0.alien_data.direction, movement as int);
        proof {
            assert(self.aliens@ =~= moved);
            assert(forall|i: int|
                0 <= i < self.aliens@.len() ==> alien_in_range(#[trigger] self.aliens@[i]));
        }

        tick_alien_shooting(&mut self.aliens, delta_time as i64, &mut self.alien_data.bullets, sounds);
        let ghost ticked = ticked_fleet(moved, dt);
        let ghost spawned = spawned_alien_bullets(moved, dt);
        let ghost alien_bullets1 = s0.alien_data.bullets@ + spawned;
        proof {
            assert(self.aliens@ =~= ticked);
            assert(forall|i: int|
                0 <= i < self.aliens@.len() ==> alien_in_range(#[trigger] self.aliens@[i]));
            lemma_spawned_bullets_in_range(moved, dt);
            assert(forall|j: int|
                0 <= j < self.alien_data.bullets@.len() ==> bullet_in_range(
                    #[trigger] self.alien_data.bullets@[j],
                ));
        }

        let points = sat_add_u32(ALIEN_BASE_POINTS, self.current_level - 1);
        let ghost score0 = s0.score as int;
        let ghost pts = level_points(s0.current_level as int);
        let ghost pair_hits = fleet_bullet_hits(ticked, ws, hs, s0.spaceship.bullets@, bws, bhs);
        collide_ship_bullets_with_fleet(
            &mut self.aliens,
            self.alien_data.width,
            self.alien_data.height,
            &mut self.spaceship.bullets,
            self.spaceship.bullet_data.width,
            self.spaceship.bullet_data.height,
            points,
            &mut self.score,
            sounds,
        );
        let ghost after3 = self.aliens@;

        proof {
            lemma_ship_contacts_ignore_hits(after3, ticked, ws, hs, s0.spaceship.rect);
        }
        let contact = collide_aliens_with_ship(
            &mut self.aliens,
            self.alien_data.width,
            self.alien_data.height,
            self.spaceship.rect,
            points,
            &mut self.score,
            sounds,
        );
        proof {
            let contacts = ship_contacts(ticked, ws, hs, s0.spaceship.rect);
            lemma_sat_u32_chain(score0 + pts * pair_hits, pts * contacts);
        }
        if contact {
            self.spaceship.is_hit = true;
            self.level_reset_timeout = LEVEL_RESET_TIME;
        }
        let ghost after4 = self.aliens@;

        proof {
            lemma_bottom_ignore_hits(after4, ticked, hs, viewport_h as int);
        }
        let hit_bottom = check_fleet_bottom(&self.aliens, self.alien_data.height, viewport_h, sounds);
        if hit_bottom {
            self.alien_data.has_hit_bottom = true;
            self.level_reset_timeout = LEVEL_RESET_TIME;
        }

        proof {
            if switch && s0.alien_data.direction == AlienDirection::Down {
                let i = choose|i: int|
                    0 <= i < s0.aliens@.len() && alien_at_edge(
                        alien_moved(s0.aliens@[i], s0.alien_data.direction, movement as int),
                        s0.alien_data.direction,
                        half_w as int,
                        right_bound as int,
                    );
                assert(false);
            }
            assert(forall|j: int|
                0 <= j < self.alien_data.bullets@.len() ==> bullet_in_range(
                    #[trigger] self.alien_data.bullets@[j],
                ));
        }
        advance_fleet_direction(&mut self.alien_data, movement, switch, sounds);

        let bullet_mv = clip_mul(BULLET_VELOCITY, delta_time as i64);
        let struck = move_alien_bullets_against_ship(
            &mut self.alien_data.bullets,
            bullet_mv,
            self.spaceship.bullet_data.width,
            self.spaceship.bullet_data.height,
            self.spaceship.rect,
            sounds,
        );
        if struck {
            self.spaceship.is_hit = true;
            self.level_reset_timeout = LEVEL_RESET_TIME;
        }

        proof {
            let bottoms_n = bottom_count(ticked, hs, viewport_h as int);
            let contacts = ship_contacts(ticked, ws, hs, s0.spaceship.rect);
            let strikes_n = strike_count(
                alien_bullets1,
                clip(BULLET_VELOCITY * dt),
                bws,
                bhs,
                s0.spaceship.rect,
            );
            let base = old(sounds)@ + repeated_sound(spawned.len(), SoundId::AlienShoot)
                + repeated_sound(pair_hits, SoundId::AlienDeath) + contact_sounds(contacts)
                + repeated_sound(bottoms_n, SoundId::AlienPass);
            if switch {
                assert(final(sounds)@ =~= base + seq![SoundId::AlienShift] + repeated_sound(
                    strikes_n,
                    SoundId::PlayerDeath,
                ));
            } else {
                assert(final(sounds)@ =~= base + Seq::empty() + repeated_sound(
                    strikes_n,
                    SoundId::PlayerDeath,
                ));
            }
        }
    }

    /// Scroll the background, wrapping once it has moved a full field
    /// height.
    pub fn update_background(&mut self, delta_time: u32, viewport_h: i64)
        requires
            0 <= viewport_h,
        ensures
            ({
                let scrolled = clip(
                    old(self).background_offset + clip(
                        BACKGROUND_VELOCITY * (delta_time as int),
                    ),
                );
                final(self).background_offset == (if scrolled > viewport_h {
                    clip(scrolled - viewport_h)
                } else {
                    scrolled
                })
            }),
            final(self).has_window_focus == old(self).has_window_focus,
            final(self).is_done == old(self).is_done,
            final(self).current_level == old(self).current_level,
            final(self).player_lives == old(self).player_lives,
            final(self).level_reset_timeout == old(self).level_reset_timeout,
            final(self).score == old(self).score,
            final(self).spaceship == old(self).spaceship,
            final(self).spaceship_size == old(self).spaceship_size,
            final(self).alien_data == old(self).alien_data,
            final(self).aliens == old(self).aliens,
            final(self).background_size == old(self).background_size,
            scene_wf(*old(self)) ==> scene_wf(*final(self)),
    {
        let scrolled = clip_add(
            self.background_offset,
            clip_mul(BACKGROUND_VELOCITY, delta_time as i64),
        );
        self.background_offset = if scrolled > viewport_h {
            clip_add(scrolled, -viewport_h)
        } else {
            scrolled
        };
    }

    /// One frame of the simulation. With window focus and no pending
    /// reset, the ship, the fleet and the background advance, spent
    /// bullets and destroyed aliens are filtered out, and clearing the
    /// fleet awards the level bonus and arms the reset pause. While a
    /// reset is pending only the pause timer runs down. A scene already
    /// done (and not mid-death) enqueues the main menu.
    #[verifier::rlimit(100)]
    #[verifier::spinoff_prover]
    pub fn update(
        &mut self,
        delta_time: u32,
        scene_queue: &mut Vec<SceneKind>,
        viewport_w: i64,
        viewport_h: i64,
    ) -> (sounds: Vec<SoundId>)
        requires
            scene_wf(*old(self)),
            0 <= viewport_w <= COORD_LIMIT,
            0 <= viewport_h <= COORD_LIMIT,
            old(self).spaceship.rect.w <= viewport_w,
        ensures
            combat_update_rel(
                *old(self),
                *final(self),
                delta_time,
                viewport_w,
                viewport_h,
                old(scene_queue)@,
                final(scene_queue)@,
                sounds@,
            ),
            scene_wf(*final(self)),
    {
        let mut sounds: Vec<SoundId> = Vec::new();

        if !self.has_window_focus {
            return sounds;
        }

        if self.is_done && !self.spaceship.is_hit {
            scene_queue.push(SceneKind::MainMenu);
        }

        if self.level_reset_timeout <= 0 {
            self.update_active(delta_time, viewport_w, viewport_h, &mut sounds);
        } else {
            self.level_reset_timeout = clip_add(self.level_reset_timeout, -(delta_time as i64));
        }

        sounds
    }

    /// The active combat frame: the pipeline run by `update` when the
    /// window has focus and no reset pause is pending.
    #[verifier::rlimit(100)]
    #[verifier::spinoff_prover]
    fn update_active(
        &mut self,
        delta_time: u32,
        viewport_w: i64,
        viewport_h: i64,
        sounds: &mut Vec<SoundId>,
    )
        requires
            scene_wf(*old(self)),
            0 <= viewport_w <= COORD_LIMIT,
            0 <= viewport_h <= COORD_LIMIT,
            old(self).spaceship.rect.w <= viewport_w,
            old(self).has_window_focus,
            old(self).level_reset_timeout <= 0,
            old(sounds)@.len() == 0,
        ensures
            ({
                let dt = delta_time as int;
                let ship0 = (*old(self)).spaceship;
                let new_x = ship_clamped_x(
                    clip(ship0.rect.x + clip((ship0.x_velocity * SPACESHIP_VELOCITY) * dt)),
                    viewport_w - ship0.rect.w as int,
                );
                let ship_rect1 = Rect {
                    x: new_x as i64,
                    y: ship0.rect.y,
                    w: ship0.rect.w,
                    h: ship0.rect.h,
                };
                let spawned_ship = if ship0.is_firing {
                    ship0.bullets@.push(
                        Bullet {
                            x: (new_x + ship0.rect.w as int / 2) as i64,
                            y: ship0.rect.y,
                            has_hit_something: false,
                        },
                    )
                } else {
                    ship0.bullets@
                };
                let bullet_mv = clip(BULLET_VELOCITY * dt);
                let ship_bullets1 = Seq::new(
                    spawned_ship.len(),
                    |i: int| crate::bullet::bullet_moved(spawned_ship[i], -bullet_mv),
                );
                let delay1 = if ship0.shoot_delay > 0 {
                    clip(ship0.shoot_delay - dt)
                } else {
                    ship0.shoot_delay as int
                };
                let w = (*old(self)).alien_data.width as int;
                let h = (*old(self)).alien_data.height as int;
                let bw = ship0.bullet_data.width as int;
                let bh = ship0.bullet_data.height as int;
                let mv = clip((*old(self)).alien_data.velocity * dt);
                let switch = fleet_hit_edge(
                    (*old(self)).aliens@,
                    (*old(self)).alien_data.direction,
                    mv,
                    w / 2,
                    viewport_w - w / 2,
                );
                let moved = moved_fleet((*old(self)).aliens@, (*old(self)).alien_data.direction, mv);
                let ticked = ticked_fleet(moved, dt);
                let spawned_alien = spawned_alien_bullets(moved, dt);
                let alien_bullets1 = (*old(self)).alien_data.bullets@ + spawned_alien;
                let pts = level_points((*old(self)).current_level as int);
                let pair_hits = fleet_bullet_hits(ticked, w, h, ship_bullets1, bw, bh);
                let contacts = ship_contacts(ticked, w, h, ship_rect1);
                let touched = some_alien_touches_ship(ticked, w, h, ship_rect1);
                let bottom = some_alien_at_bottom(ticked, h, viewport_h as int);
                let bottoms_n = bottom_count(ticked, h, viewport_h as int);
                let struck = some_alien_bullet_strikes_ship(
                    alien_bullets1,
                    bullet_mv,
                    bw,
                    bh,
                    ship_rect1,
                );
                let strikes_n = strike_count(alien_bullets1, bullet_mv, bw, bh, ship_rect1);
                let aliens2 = Seq::new(
                    ticked.len(),
                    |i: int|
                        Alien {
                            x: ticked[i].x,
                            y: ticked[i].y,
                            shoot_delay: ticked[i].shoot_delay,
                            is_hit: ticked[i].is_hit || alien_hit_by_some_bullet(
                                ticked[i],
                                w,
                                h,
                                ship_bullets1,
                                bw,
                                bh,
                            ) || alien_touches_ship(ticked[i], w, h, ship_rect1),
                        },
                );
                let ship_bullets2 = Seq::new(
                    ship_bullets1.len(),
                    |j: int|
                        Bullet {
                            x: ship_bullets1[j].x,
                            y: ship_bullets1[j].y,
                            has_hit_something: ship_bullets1[j].has_hit_something
                                || bullet_hit_by_some_alien(ship_bullets1[j], bw, bh, ticked, w, h),
                        },
                );
                let alien_bullets2 = Seq::new(
                    alien_bullets1.len(),
                    |j: int|
                        Bullet {
                            x: alien_bullets1[j].x,
                            y: clip(alien_bullets1[j].y + bullet_mv) as i64,
                            has_hit_something: alien_bullets1[j].has_hit_something
                                || alien_bullet_strikes_ship(
                                alien_bullets1[j],
                                bullet_mv,
                                bw,
                                bh,
                                ship_rect1,
                            ),
                        },
                );
                let scrolled = clip((*old(self)).background_offset + clip(BACKGROUND_VELOCITY * dt));
                let bg1 = if scrolled > viewport_h {
                    clip(scrolled - viewport_h)
                } else {
                    scrolled
                };
                let threshold = -2 * bh;
                let ship_bullets3 = live_ship_bullets(ship_bullets2, threshold);
                let aliens3 = live_aliens(aliens2);
                let alien_bullets3 = live_alien_bullets(alien_bullets2, viewport_h - threshold);
                let cleared = aliens3.len() == 0;
                let score2 = sat_u32((*old(self)).score + pts * pair_hits + pts * contacts);
                let score3 = if cleared {
                    sat_u32(score2 + LEVEL_COMPLETE_POINTS * (*old(self)).current_level)
                } else {
                    score2
                };
                let reset1 = if touched || bottom || struck {
                    LEVEL_RESET_TIME as int
                } else {
                    (*old(self)).level_reset_timeout as int
                };
                let reset2 = if cleared {
                    LEVEL_RESET_TIME as int
                } else {
                    reset1
                };
                {
                    &&& (*final(self)).spaceship.rect == ship_rect1
                    &&& (*final(self)).spaceship.x_velocity == ship0.x_velocity
                    &&& (*final(self)).spaceship.is_firing == ship0.is_firing
                    &&& (*final(self)).spaceship.shoot_delay == delay1
                    &&& ((*final(self)).spaceship.is_hit <==> ship0.is_hit || touched || struck)
                    &&& (*final(self)).spaceship.bullets@ == ship_bullets3
                    &&& (*final(self)).spaceship.bullet_data == ship0.bullet_data
                    &&& (*final(self)).aliens@ == aliens3
                    &&& (*final(self)).alien_data.direction == fleet_direction_step(
                        (*old(self)).alien_data,
                        mv,
                        switch,
                    ).direction
                    &&& (*final(self)).alien_data.next_direction == fleet_direction_step(
                        (*old(self)).alien_data,
                        mv,
                        switch,
                    ).next_direction
                    &&& (*final(self)).alien_data.velocity == fleet_direction_step(
                        (*old(self)).alien_data,
                        mv,
                        switch,
                    ).velocity
                    &&& (*final(self)).alien_data.dropdown_distance == fleet_direction_step(
                        (*old(self)).alien_data,
                        mv,
                        switch,
                    ).dropdown_distance
                    &&& ((*final(self)).alien_data.has_hit_bottom <==> (*old(self)).alien_data.has_hit_bottom || bottom)
                    &&& (*final(self)).alien_data.bullets@ == alien_bullets3
                    &&& (*final(self)).alien_data.width == (*old(self)).alien_data.width
                    &&& (*final(self)).alien_data.height == (*old(self)).alien_data.height
                    &&& (*final(self)).alien_data.bullet_data == (*old(self)).alien_data.bullet_data
                    &&& (*final(self)).score == score3
                    &&& (*final(self)).level_reset_timeout == reset2
                    &&& (*final(self)).background_offset == bg1
                    &&& (*final(self)).has_window_focus == (*old(self)).has_window_focus
                    &&& (*final(self)).is_done == (*old(self)).is_done
                    &&& (*final(self)).current_level == (*old(self)).current_level
                    &&& (*final(self)).player_lives == (*old(self)).player_lives
                    &&& (*final(self)).spaceship_size == (*old(self)).spaceship_size
                    &&& (*final(self)).background_size == (*old(self)).background_size
                    &&& final(sounds)@ == (if ship0.is_firing {
                        seq![SoundId::PlayerShoot]
                    } else {
                        Seq::empty()
                    }) + repeated_sound(spawned_alien.len(), SoundId::AlienShoot) + repeated_sound(
                        pair_hits,
                        SoundId::AlienDeath,
                    ) + contact_sounds(contacts) + repeated_sound(bottoms_n, SoundId::AlienPass) + (
                    if switch {
                        seq![SoundId::AlienShift]
                    } else {
                        Seq::empty()
                    }) + repeated_sound(strikes_n, SoundId::PlayerDeath) + (if cleared {
                        seq![SoundId::LevelWin]
                    } else {
                        Seq::empty()
                    })
                }
            }),
            scene_wf(*final(self)),
    {
        self.update_spaceship(delta_time, viewport_w, sounds);
        let ghost mid1 = *self;
        let ghost sounds1 = sounds@;
        self.update_aliens(delta_time, viewport_w, viewport_h, sounds);
        let ghost mid2 = *self;
        self.update_background(delta_time, viewport_h);

        proof {
            let s0 = *old(self);
            let dt = delta_time as int;
            let ship0 = s0.spaceship;
            let new_x = ship_clamped_x(
                clip(ship0.rect.x + clip((ship0.x_velocity * SPACESHIP_VELOCITY) * dt)),
                viewport_w - ship0.rect.w as int,
            );
            let spawned_ship = if ship0.is_firing {
                ship0.bullets@.push(
                    Bullet {
                        x: (new_x + ship0.rect.w as int / 2) as i64,
                        y: ship0.rect.y,
                        has_hit_something: false,
                    },
                )
            } else {
                ship0.bullets@
            };
            let bullet_mv = clip(BULLET_VELOCITY * dt);
            let ship_bullets1 = Seq::new(
                spawned_ship.len(),
                |i: int| crate::bullet::bullet_moved(spawned_ship[i], -bullet_mv),
            );
            assert(mid1.spaceship.bullets@ =~= ship_bullets1);
            let w = s0.alien_data.width as int;
            let h = s0.alien_data.height as int;
            let bw = ship0.bullet_data.width as int;
            let bh = ship0.bullet_data.height as int;
            let mv = clip(s0.alien_data.velocity * dt);
            let moved = moved_fleet(s0.aliens@, s0.alien_data.direction, mv);
            let ticked = ticked_fleet(moved, dt);
            let ship_rect1 = mid1.spaceship.rect;
            let alien_bullets1 = s0.alien_data.bullets@ + spawned_alien_bullets(moved, dt);
            let aliens2 = Seq::new(
                ticked.len(),
                |i: int|
                    Alien {
                        x: ticked[i].x,
                        y: ticked[i].y,
                        shoot_delay: ticked[i].shoot_delay,
                        is_hit: ticked[i].is_hit || alien_hit_by_some_bullet(
                            ticked[i],
                            w,
                            h,
                            ship_bullets1,
                            bw,
                            bh,
                        ) || alien_touches_ship(ticked[i], w, h, ship_rect1),
                    },
            );
            let ship_bullets2 = Seq::new(
                ship_bullets1.len(),
                |j: int|
                    Bullet {
                        x: ship_bullets1[j].x,
                        y: ship_bullets1[j].y,
                        has_hit_something: ship_bullets1[j].has_hit_something
                            || bullet_hit_by_some_alien(ship_bullets1[j], bw, bh, ticked, w, h),
                    },
            );
            let alien_bullets2 = Seq::new(
                alien_bullets1.len(),
                |j: int|
                    Bullet {
                        x: alien_bullets1[j].x,
                        y: clip(alien_bullets1[j].y + bullet_mv) as i64,
                        has_hit_something: alien_bullets1[j].has_hit_something
                            || alien_bullet_strikes_ship(
                            alien_bullets1[j],
                            bullet_mv,
                            bw,
                            bh,
                            ship_rect1,
                        ),
                    },
            );
            assert(mid2.aliens@ =~= aliens2);
            assert(mid2.spaceship.bullets@ =~= ship_bullets2);
            assert(mid2.alien_data.bullets@ =~= alien_bullets2);
        }

        let bullet_h = self.spaceship.bullet_data.height;
        proof {
            assert(scene_wf(*self));
            assert(0 <= bullet_h <= COORD_LIMIT);
        }
        let threshold = -2 * bullet_h;
        proof {
            lemma_live_ship_bullets_in_range(self.spaceship.bullets@, threshold as int);
            lemma_live_aliens_in_range(self.aliens@);
            lemma_live_alien_bullets_in_range(
                self.alien_data.bullets@,
                viewport_h - threshold as int,
            );
        }
        retain_live_ship_bullets(&mut self.spaceship.bullets, threshold);
        retain_live_aliens(&mut self.aliens);
        retain_live_alien_bullets(&mut self.alien_data.bullets, viewport_h - threshold);

        if self.aliens.len() == 0 {
            let bonus = sat_mul_u32(LEVEL_COMPLETE_POINTS, self.current_level);
            self.score = sat_add_u32(self.score, bonus);
            self.level_reset_timeout = LEVEL_RESET_TIME;
            sounds.push(SoundId::LevelWin);
        }
    }


    /// The end-of-frame decision, one phase after `update` so the last
    /// frame of motion is still drawn first. Once the reset pause has run
    /// out: an empty fleet means the level is complete (level and lives
    /// go up, the world is rebuilt faster); a hit ship or a fleet at the
    /// bottom costs a life, rebuilding the same level while lives remain
    /// and otherwise ending the scene with the game-over screen queued.
    pub fn late_update(
        &mut self,
        _delta_time: u32,
        scene_queue: &mut Vec<SceneKind>,
        viewport_w: i64,
        viewport_h: i64,
    )
        requires
            scene_wf(*old(self)),
            0 <= viewport_w <= COORD_LIMIT,
            0 <= viewport_h <= COORD_LIMIT,
            old(self).spaceship_size.1 <= viewport_h,
        ensures
            combat_late_rel(
                *old(self),
                *final(self),
                viewport_w,
                viewport_h,
                old(scene_queue)@,
                final(scene_queue)@,
            ),
            scene_wf(*final(self)),
    {
        if self.level_reset_timeout <= 0 {
            if self.aliens.len() == 0 {
                self.current_level = sat_add_u32(self.current_level, 1);
                self.player_lives = sat_add_u32(self.player_lives, 1);
                self.setup_objects(viewport_w, viewport_h);
            } else if self.spaceship.is_hit || self.alien_data.has_hit_bottom {
                self.player_lives = if self.player_lives > 0 {
                    self.player_lives - 1
                } else {
                    0
                };
                if self.player_lives > 0 {
                    self.setup_objects(viewport_w, viewport_h);
                } else {
                    self.is_done = true;
                    scene_queue.push(SceneKind::GameOver);
                }
            }
        }
    }

    pub fn is_done(&self) -> (r: bool)
        ensures
            r == self.is_done,
    {
        self.is_done
    }

    /// Two blits of the background texture, stacked so the scroll wraps
    /// seamlessly.
    pub fn draw_background(&self) -> (cmds: Vec<DrawCommand>)
        requires
            scene_wf(*self),
        ensures
            cmds@ == seq![
                DrawCommand::Blit {
                    texture_index: self.background_texture_index,
                    rect: Rect {
                        x: 0,
                        y: self.background_offset,
                        w: self.background_size.0,
                        h: self.background_size.1,
                    },
                },
                DrawCommand::Blit {
                    texture_index: self.background_texture_index,
                    rect: Rect {
                        x: 0,
                        y: (self.background_offset - self.background_size.1) as i64,
                        w: self.background_size.0,
                        h: self.background_size.1,
                    },
                },
            ],
    {
        let mut cmds: Vec<DrawCommand> = Vec::new();
        cmds.push(
            DrawCommand::Blit {
                texture_index: self.background_texture_index,
                rect: Rect {
                    x: 0,
                    y: self.background_offset,
                    w: self.background_size.0,
                    h: self.background_size.1,
                },
            },
        );
        cmds.push(
            DrawCommand::Blit {
                texture_index: self.background_texture_index,
                rect: Rect {
                    x: 0,
                    y: self.background_offset - self.background_size.1,
                    w: self.background_size.0,
                    h: self.background_size.1,
                },
            },
        );
        proof {
            assert(cmds@ =~= seq![cmds@[0], cmds@[1]]);
        }
        cmds
    }

    /// One blit per alien bullet, then one per spaceship bullet.
    pub fn draw_bullets(&self) -> (cmds: Vec<DrawCommand>)
        requires
            scene_wf(*self),
        ensures
            cmds@ == bullet_blits(
                self.alien_data.bullets@,
                self.alien_data.bullet_data.texture_index,
                self.spaceship.bullet_data.width as int,
                self.spaceship.bullet_data.height as int,
            ) + bullet_blits(
                self.spaceship.bullets@,
                self.spaceship.bullet_data.texture_index,
                self.spaceship.bullet_data.width as int,
                self.spaceship.bullet_data.height as int,
            ),
    {
        let bullet_w = self.spaceship.bullet_data.width;
        let bullet_h = self.spaceship.bullet_data.height;
        let ghost first = bullet_blits(
            self.alien_data.bullets@,
            self.alien_data.bullet_data.texture_index,
            bullet_w as int,
            bullet_h as int,
        );
        let ghost second = bullet_blits(
            self.spaceship.bullets@,
            self.spaceship.bullet_data.texture_index,
            bullet_w as int,
            bullet_h as int,
        );
        let mut cmds: Vec<DrawCommand> = Vec::new();
        let mut j: usize = 0;
        while j < self.alien_data.bullets.len()
            invariant
                j <= self.alien_data.bullets@.len(),
                scene_wf(*self),
                bullet_w == self.spaceship.bullet_data.width,
                bullet_h == self.spaceship.bullet_data.height,
                first == bullet_blits(
                    self.alien_data.bullets@,
                    self.alien_data.bullet_data.texture_index,
                    bullet_w as int,
                    bullet_h as int,
                ),
                cmds@.len() == j,
                forall|k: int| 0 <= k < j ==> cmds@[k] == first[k],
            decreases self.alien_data.bullets@.len() - j,
        {
            let b = self.alien_data.bullets[j];
            let rect = rect_from_centre(b.x, b.y, bullet_w, bullet_h);
            cmds.push(
                DrawCommand::Blit { texture_index: self.alien_data.bullet_data.texture_index, rect },
            );
            j += 1;
        }
        let mut k: usize = 0;
        while k < self.spaceship.bullets.len()
            invariant
                k <= self.spaceship.bullets@.len(),
                scene_wf(*self),
                bullet_w == self.spaceship.bullet_data.width,
                bullet_h == self.spaceship.bullet_data.height,
                first == bullet_blits(
                    self.alien_data.bullets@,
                    self.alien_data.bullet_data.texture_index,
                    bullet_w as int,
                    bullet_h as int,
                ),
                second == bullet_blits(
                    self.spaceship.bullets@,
                    self.spaceship.bullet_data.texture_index,
                    bullet_w as int,
                    bullet_h as int,
                ),
                cmds@.len() == first.len() + k,
                forall|m: int| 0 <= m < first.len() ==> cmds@[m] == first[m],
                forall|m: int| 0 <= m < k ==> cmds@[first.len() + m] == second[m],
            decreases self.spaceship.bullets@.len() - k,
        {
            let b = self.spaceship.bullets[k];
            let rect = rect_from_centre(b.x, b.y, bullet_w, bullet_h);
            cmds.push(
                DrawCommand::Blit { texture_index: self.spaceship.bullet_data.texture_index, rect },
            );
            k += 1;
        }
        proof {
            assert(cmds@ =~= first + second);
        }
        cmds
    }

    /// One blit per alien.
    pub fn draw_aliens(&self) -> (cmds: Vec<DrawCommand>)
        requires
            scene_wf(*self),
        ensures
            cmds@ == alien_blits(
                self.aliens@,
                self.alien_data.texture_index,
                self.alien_data.width as int,
                self.alien_data.height as int,
            ),
    {
        let ghost all = alien_blits(
            self.aliens@,
            self.alien_data.texture_index,
            self.alien_data.width as int,
            self.alien_data.height as int,
        );
        let mut cmds: Vec<DrawCommand> = Vec::new();
        let mut i: usize = 0;
        while i < self.aliens.len()
            invariant
                i <= self.aliens@.len(),
                scene_wf(*self),
                all == alien_blits(
                    self.aliens@,
                    self.alien_data.texture_index,
                    self.alien_data.width as int,
                    self.alien_data.height as int,
                ),
                cmds@.len() == i,
                forall|k: int| 0 <= k < i ==> cmds@[k] == all[k],
            decreases self.aliens@.len() - i,
        {
            let a = self.aliens[i];
            let rect = rect_from_centre(a.x, a.y, self.alien_data.width, self.alien_data.height);
            cmds.push(DrawCommand::Blit { texture_index: self.alien_data.texture_index, rect });
            i += 1;
        }
        proof {
            assert(cmds@ =~= all);
        }
        cmds
    }

    /// The spaceship's blit, unless it has been destroyed this attempt.
    pub fn draw_spaceship(&self) -> (cmds: Vec<DrawCommand>)
        ensures
            cmds@ == (if self.spaceship.is_hit {
                Seq::<DrawCommand>::empty()
            } else {
                seq![
                    DrawCommand::Blit {
                        texture_index: self.spaceship.texture_index,
                        rect: self.spaceship.rect,
                    },
                ]
            }),
    {
        let mut cmds: Vec<DrawCommand> = Vec::new();
        if !self.spaceship.is_hit {
            cmds.push(
                DrawCommand::Blit {
                    texture_index: self.spaceship.texture_index,
                    rect: self.spaceship.rect,
                },
            );
            proof {
                assert(cmds@ =~= seq![cmds@[0]]);
            }
        }
        cmds
    }

    /// The four text lines of the heads-up overlay: lives, level, alien
    /// count and score, each in its own colour and place.
    pub fn draw_text_overlay(&self) -> (cmds: Vec<DrawCommand>)
        ensures
            cmds@ == seq![
                DrawCommand::Text {
                    content: TextContent::Lives(self.player_lives),
                    colour: Colour { red: 255, green: 0, blue: 0 },
                    anchor: TextAnchor::OverlayTopLeftRow { row: 0 },
                    scale_percent: 25,
                },
                DrawCommand::Text {
                    content: TextContent::Level(self.current_level),
                    colour: Colour { red: 255, green: 255, blue: 255 },
                    anchor: TextAnchor::OverlayTopLeftRow { row: 1 },
                    scale_percent: 25,
                },
                DrawCommand::Text {
                    content: TextContent::AlienCount(sat_u32(self.aliens@.len() as int) as u32),
                    colour: Colour { red: 0, green: 255, blue: 0 },
                    anchor: TextAnchor::OverlayTopCentre,
                    scale_percent: 25,
                },
                DrawCommand::Text {
                    content: TextContent::Score(self.score),
                    colour: Colour { red: 255, green: 255, blue: 0 },
                    anchor: TextAnchor::OverlayTopRight,
                    scale_percent: 25,
                },
            ],
    {
        let alien_count: u32 = if self.aliens.len() >= u32::MAX as usize {
            u32::MAX
        } else {
            self.aliens.len() as u32
        };
        let mut cmds: Vec<DrawCommand> = Vec::new();
        cmds.push(
            DrawCommand::Text {
                content: TextContent::Lives(self.player_lives),
                colour: Colour { red: 255, green: 0, blue: 0 },
                anchor: TextAnchor::OverlayTopLeftRow { row: 0 },
                scale_percent: 25,
            },
        );
        cmds.push(
            DrawCommand::Text {
                content: TextContent::Level(self.current_level),
                colour: Colour { red: 255, green: 255, blue: 255 },
                anchor: TextAnchor::OverlayTopLeftRow { row: 1 },
                scale_percent: 25,
            },
        );
        cmds.push(
            DrawCommand::Text {
                content: TextContent::AlienCount(alien_count),
                colour: Colour { red: 0, green: 255, blue: 0 },
                anchor: TextAnchor::OverlayTopCentre,
                scale_percent: 25,
            },
        );
        cmds.push(
            DrawCommand::Text {
                content: TextContent::Score(self.score),
                colour: Colour { red: 255, green: 255, blue: 0 },
                anchor: TextAnchor::OverlayTopRight,
                scale_percent: 25,
            },
        );
        proof {
            assert(cmds@ =~= seq![cmds@[0], cmds@[1], cmds@[2], cmds@[3]]);
        }
        cmds
    }

    /// The frame's full ordered draw list: clear, background, bullets,
    /// aliens, ship, overlay. Without window focus, nothing is drawn.
    pub fn draw(&self) -> (cmds: Vec<DrawCommand>)
        requires
            scene_wf(*self),
        ensures
            cmds@ == combat_draw_list(*self),
    {
        let mut cmds: Vec<DrawCommand> = Vec::new();
        if !self.has_window_focus {
            return cmds;
        }
        cmds.push(DrawCommand::Clear { colour: Colour { red: 10, green: 10, blue: 10 } });
        let ghost start = cmds@;
        proof {
            assert(start =~= seq![
                DrawCommand::Clear { colour: Colour { red: 10, green: 10, blue: 10 } },
            ]);
        }
        let background = self.draw_background();
        push_all_commands(&mut cmds, &background);
        let bullets = self.draw_bullets();
        push_all_commands(&mut cmds, &bullets);
        let aliens = self.draw_aliens();
        push_all_commands(&mut cmds, &aliens);
        let ship = self.draw_spaceship();
        push_all_commands(&mut cmds, &ship);
        let overlay = self.draw_text_overlay();
        push_all_commands(&mut cmds, &overlay);
        cmds
    }

    /// Request this scene's assets: its sprite textures in a fixed order
    /// (later referred to by index), its font, and its music track.
    pub fn on_load(&mut self, _previous_scene_payload: Option<i64>) -> (r: AssetRequest)
        ensures
            *final(self) == (SpaceScene {
                spaceship: Spaceship {
                    texture_index: 0,
                    bullet_data: BulletData {
                        texture_index: 1,
                        ..old(self).spaceship.bullet_data
                    },
                    ..old(self).spaceship
                },
                alien_data: AlienData {
                    texture_index: 2,
                    bullet_data: BulletData {
                        texture_index: 3,
                        ..old(self).alien_data.bullet_data
                    },
                    ..old(self).alien_data
                },
                background_texture_index: 4,
                font_index: 0,
                ..*old(self)
            }),
            r.textures@.len() == 5,
            r.textures@[0]@ == "ship.png"@,
            r.textures@[1]@ == "bullet.png"@,
            r.textures@[2]@ == "alien.png"@,
            r.textures@[3]@ == "alien_bullet.png"@,
            r.textures@[4]@ == "background.png"@,
            r.fonts@.len() == 1,
            r.fonts@[0]@ == "Recursive.ttf"@,
            r.music is Some,
            r.music.unwrap()@ == "Werq.mp3"@,
    {
        self.spaceship.texture_index = 0;
        self.spaceship.bullet_data = BulletData { texture_index: 1, ..self.spaceship.bullet_data };
        self.alien_data.texture_index = 2;
        self.alien_data.bullet_data = BulletData { texture_index: 3, ..self.alien_data.bullet_data };
        self.background_texture_index = 4;
        self.font_index = 0;

        let mut textures: Vec<&'static str> = Vec::new();
        textures.push("ship.png");
        textures.push("bullet.png");
        textures.push("alien.png");
        textures.push("alien_bullet.png");
        textures.push("background.png");
        let mut fonts: Vec<&'static str> = Vec::new();
        fonts.push("Recursive.ttf");
        AssetRequest { textures, fonts, music: Some("Werq.mp3") }
    }

    /// Take over the loaded textures' sizes (in subpixels, in request
    /// order), size the world from them, build it, and start the music.
    /// Sizes are clamped to the sprite bound, and the ship to the field
    /// height, so the world stays well-formed whatever was loaded.
    pub fn on_late_load(
        &mut self,
        viewport_w: i64,
        viewport_h: i64,
        texture_sizes: &Vec<(i64, i64)>,
    ) -> (music: Vec<MusicAction>)
        requires
            scene_wf(*old(self)),
            0 <= viewport_w <= COORD_LIMIT,
            0 <= viewport_h <= COORD_LIMIT,
            old(self).spaceship.texture_index < texture_sizes@.len(),
            old(self).spaceship.bullet_data.texture_index < texture_sizes@.len(),
            old(self).alien_data.texture_index < texture_sizes@.len(),
            old(self).alien_data.bullet_data.texture_index < texture_sizes@.len(),
            old(self).background_texture_index < texture_sizes@.len(),
        ensures
            final(self).spaceship_size.0 == clamp_size(
                texture_sizes@[old(self).spaceship.texture_index as int].0 as int,
                COORD_LIMIT as int,
            ),
            final(self).spaceship_size.1 == clamp_size(
                texture_sizes@[old(self).spaceship.texture_index as int].1 as int,
                viewport_h as int,
            ),
            final(self).spaceship.bullet_data.width == clamp_size(
                texture_sizes@[old(self).spaceship.bullet_data.texture_index as int].0 as int,
                MAX_SPRITE_SIZE as int,
            ),
            final(self).spaceship.bullet_data.height == clamp_size(
                texture_sizes@[old(self).spaceship.bullet_data.texture_index as int].1 as int,
                MAX_SPRITE_SIZE as int,
            ),
            final(self).alien_data.width == clamp_size(
                texture_sizes@[old(self).alien_data.texture_index as int].0 as int,
                MAX_SPRITE_SIZE as int,
            ),
            final(self).alien_data.height == clamp_size(
                texture_sizes@[old(self).alien_data.texture_index as int].1 as int,
                MAX_SPRITE_SIZE as int,
            ),
            final(self).alien_data.bullet_data.width == clamp_size(
                texture_sizes@[old(self).alien_data.bullet_data.texture_index as int].0 as int,
                MAX_SPRITE_SIZE as int,
            ),
            final(self).alien_data.bullet_data.height == clamp_size(
                texture_sizes@[old(self).alien_data.bullet_data.texture_index as int].1 as int,
                MAX_SPRITE_SIZE as int,
            ),
            final(self).background_size.0 == clamp_size(
                texture_sizes@[old(self).background_texture_index as int].0 as int,
                COORD_LIMIT as int,
            ),
            final(self).background_size.1 == clamp_size(
                texture_sizes@[old(self).background_texture_index as int].1 as int,
                COORD_LIMIT as int,
            ),
            ({
                let mid = SpaceScene {
                    spaceship: Spaceship {
                        bullet_data: final(self).spaceship.bullet_data,
                        ..old(self).spaceship
                    },
                    spaceship_size: final(self).spaceship_size,
                    alien_data: AlienData {
                        width: final(self).alien_data.width,
                        height: final(self).alien_data.height,
                        bullet_data: final(self).alien_data.bullet_data,
                        ..old(self).alien_data
                    },
                    background_size: final(self).background_size,
                    ..*old(self)
                };
                objects_are_reset(mid, *final(self), viewport_w as int, viewport_h as int)
            }),
            final(self).current_level == old(self).current_level,
            final(self).player_lives == old(self).player_lives,
            final(self).score == old(self).score,
            final(self).is_done == old(self).is_done,
            final(self).has_window_focus == old(self).has_window_focus,
            final(self).level_reset_timeout == old(self).level_reset_timeout,
            music@ == seq![MusicAction::Play],
            scene_wf(*final(self)),
    {
        let ship_sizes = texture_sizes[self.spaceship.texture_index];
        let bullet_sizes = texture_sizes[self.spaceship.bullet_data.texture_index];
        let alien_sizes = texture_sizes[self.alien_data.texture_index];
        let alien_bullet_sizes = texture_sizes[self.alien_data.bullet_data.texture_index];
        let background_sizes = texture_sizes[self.background_texture_index];

        self.spaceship_size = (
            clamp_size_exec(ship_sizes.0, COORD_LIMIT),
            clamp_size_exec(ship_sizes.1, viewport_h),
        );
        self.spaceship.bullet_data = BulletData {
            width: clamp_size_exec(bullet_sizes.0, MAX_SPRITE_SIZE),
            height: clamp_size_exec(bullet_sizes.1, MAX_SPRITE_SIZE),
            texture_index: self.spaceship.bullet_data.texture_index,
        };
        self.alien_data.width = clamp_size_exec(alien_sizes.0, MAX_SPRITE_SIZE);
        self.alien_data.height = clamp_size_exec(alien_sizes.1, MAX_SPRITE_SIZE);
        self.alien_data.bullet_data = BulletData {
            width: clamp_size_exec(alien_bullet_sizes.0, MAX_SPRITE_SIZE),
            height: clamp_size_exec(alien_bullet_sizes.1, MAX_SPRITE_SIZE),
            texture_index: self.alien_data.bullet_data.texture_index,
        };
        self.background_size = (
            clamp_size_exec(background_sizes.0, COORD_LIMIT),
            clamp_size_exec(background_sizes.1, COORD_LIMIT),
        );

        self.setup_objects(viewport_w, viewport_h);

        let mut music: Vec<MusicAction> = Vec::new();
        music.push(MusicAction::Play);
        proof {
            assert(music@ =~= seq![MusicAction::Play]);
        }
        music
    }

    /// Hand the final score to the next scene and stop the music.
    pub fn on_unload(&mut self) -> (r: (Option<i64>, Vec<MusicAction>))
        ensures
            *final(self) == *old(self),
            r.0 == Some(old(self).score as i64),
            r.1@ == seq![MusicAction::Halt],
    {
        let mut music: Vec<MusicAction> = Vec::new();
        music.push(MusicAction::Halt);
        proof {
            assert(music@ =~= seq![MusicAction::Halt]);
        }
        (Some(self.score as i64), music)
    }

    /// React to window events: losing focus pauses the simulation and
    /// the music, regaining it resumes both.
    pub fn poll_event(&mut self, event: EventKind) -> (music: Vec<MusicAction>)
        ensures
            combat_poll_rel(*old(self), *final(self), event, music@),
    {
        let mut music: Vec<MusicAction> = Vec::new();
        match event {
            EventKind::FocusGained | EventKind::Restored => {
                self.has_window_focus = true;
                music.push(MusicAction::ResumeIfPaused);
                proof {
                    assert(music@ =~= seq![MusicAction::ResumeIfPaused]);
                }
            },
            EventKind::FocusLost | EventKind::Minimised => {
                self.has_window_focus = false;
                music.push(MusicAction::PauseIfPlaying);
                proof {
                    assert(music@ =~= seq![MusicAction::PauseIfPlaying]);
                }
            },
            _ => {},
        }
        music
    }

    /// Escape ends the scene; the movement and fire keys become the
    /// ship's intent.
    pub fn process_input(&mut self, input_state: &InputState)
        ensures
            combat_input_rel(*old(self), *final(self), *input_state),
            scene_wf(*old(self)) ==> scene_wf(*final(self)),
    {
        if input_state.is_key_down(SCANCODE_ESCAPE) {
            self.is_done = true;
        }
        self.process_spaceship_input(input_state);
    }
}

/// The blit rectangle of a sprite given by centre and size.
pub open spec fn sprite_rect(cx: int, cy: int, w: int, h: int) -> Rect {
    Rect { x: (cx - w / 2) as i64, y: (cy - h / 2) as i64, w: w as i64, h: h as i64 }
}

/// One blit per bullet, in order, against the given texture; all bullets
/// are drawn at the spaceship bullet size, alien bullets included.
pub open spec fn bullet_blits(
    bs: Seq<Bullet>,
    texture_index: usize,
    bullet_w: int,
    bullet_h: int,
) -> Seq<DrawCommand> {
    Seq::new(
        bs.len(),
        |j: int|
            DrawCommand::Blit {
                texture_index,
                rect: sprite_rect(bs[j].x as int, bs[j].y as int, bullet_w, bullet_h),
            },
    )
}

/// One blit per alien, in order.
pub open spec fn alien_blits(
    aliens: Seq<Alien>,
    texture_index: usize,
    alien_w: int,
    alien_h: int,
) -> Seq<DrawCommand> {
    Seq::new(
        aliens.len(),
        |i: int|
            DrawCommand::Blit {
                texture_index,
                rect: sprite_rect(aliens[i].x as int, aliens[i].y as int, alien_w, alien_h),
            },
    )
}

/// Append a copy of every command of `src` to `dst`.
pub fn push_all_commands(dst: &mut Vec<DrawCommand>, src: &Vec<DrawCommand>)
    ensures
        final(dst)@ == old(dst)@ + src@,
{
    let ghost dst0 = dst@;
    proof {
        assert(dst0 + src@.take(0) =~= dst0);
    }
    let mut i: usize = 0;
    while i < src.len()
        invariant
            i <= src@.len(),
            dst@ == dst0 + src@.take(i as int),
        decreases src@.len() - i,
    {
        proof {
            assert(src@.take(i + 1) =~= src@.take(i as int).push(src@[i as int]));
            assert(dst0 + src@.take(i + 1) =~= (dst0 + src@.take(i as int)).push(src@[i as int]));
        }
        dst.push(src[i]);
        i += 1;
    }
    proof {
        assert(src@.take(src@.len() as int) =~= src@);
    }
}

/// Clamp a loaded sprite size into `[0, bound]`.
pub open spec fn clamp_size(v: int, bound: int) -> int {
    if v < 0 {
        0
    } else if v > bound {
        bound
    } else {
        v
    }
}

fn clamp_size_exec(v: i64, bound: i64) -> (r: i64)
    requires
        0 <= bound,
    ensures
        r == clamp_size(v as int, bound as int),
{
    if v < 0 {
        0
    } else if v > bound {
        bound
    } else {
        v
    }
}

/// The ship and fleet state `setup_objects` leaves behind, relative to
/// the sizes recorded in `s0` and the level recorded in `s1`.
pub open spec fn objects_are_reset(s0: SpaceScene, s1: SpaceScene, vw: int, vh: int) -> bool {
    &&& s1.spaceship.rect.x == vw / 2 - s0.spaceship_size.0 / 2
    &&& s1.spaceship.rect.y == (vh - s0.spaceship_size.1) - s0.spaceship_size.1 / 2
    &&& s1.spaceship.rect.w == s0.spaceship_size.0
    &&& s1.spaceship.rect.h == s0.spaceship_size.1
    &&& s1.spaceship.x_velocity == 0
    &&& !s1.spaceship.is_firing
    &&& s1.spaceship.shoot_delay == 0
    &&& !s1.spaceship.is_hit
    &&& s1.spaceship.bullets@.len() == 0
    &&& s1.spaceship.bullet_data == s0.spaceship.bullet_data
    &&& s1.alien_data.velocity == level_velocity(s1.current_level as int)
    &&& s1.alien_data.direction == AlienDirection::Right
    &&& s1.alien_data.next_direction is None
    &&& s1.alien_data.dropdown_distance == 0
    &&& !s1.alien_data.has_hit_bottom
    &&& s1.alien_data.bullets@.len() == 0
    &&& s1.alien_data.width == s0.alien_data.width
    &&& s1.alien_data.height == s0.alien_data.height
    &&& s1.alien_data.bullet_data == s0.alien_data.bullet_data
    &&& s1.aliens@.len() == ALIEN_ROW_COUNT * per_row_count(s0.alien_data.width as int, vw)
    &&& forall|idx: int|
        0 <= idx < s1.aliens@.len() ==> {
            let w = s0.alien_data.width as int;
            let h = s0.alien_data.height as int;
            let per = per_row_count(w, vw) as int;
            let a = #[trigger] s1.aliens@[idx];
            a.x == column_x(w, idx % per) && a.y == fleet_row_y(h, idx / per) && !a.is_hit && 0
                <= a.shoot_delay < ALIEN_SHOOT_INTERVAL
        }
    &&& s1.spaceship_size == s0.spaceship_size
    &&& s1.background_offset == s0.background_offset
    &&& s1.background_size == s0.background_size
}

/// The whole fleet carried one frame along the shared direction.
pub open spec fn moved_fleet(aliens: Seq<Alien>, direction: AlienDirection, mv: int) -> Seq<Alien> {
    Seq::new(aliens.len(), |i: int| alien_moved(aliens[i], direction, mv))
}

/// The whole fleet after one shoot-timer tick.
pub open spec fn ticked_fleet(aliens: Seq<Alien>, dt: int) -> Seq<Alien> {
    Seq::new(aliens.len(), |i: int| alien_after_shot_tick(aliens[i], dt))
}

/// Some alien of the moved fleet has reached its boundary this frame.
pub open spec fn fleet_hit_edge(
    aliens: Seq<Alien>,
    direction: AlienDirection,
    mv: int,
    half_w: int,
    right_bound: int,
) -> bool {
    exists|i: int|
        0 <= i < aliens.len() && alien_at_edge(
            alien_moved(aliens[i], direction, mv),
            direction,
            half_w,
            right_bound,
        )
}

/// Points one destroyed alien is worth on the given level.
pub open spec fn level_points(level: int) -> int {
    sat_u32(ALIEN_BASE_POINTS + (level - 1))
}

/// Law: for every time step and every starting position, however large,
/// the clamp keeps the ship inside `[0, field width - ship width]`, so
/// repeated position updates can never move it out of the visible field.
pub proof fn lemma_ship_clamp_invariant(x: int, hi: int)
    requires
        hi >= 0,
    ensures
        0 <= ship_clamped_x(x, hi) <= hi,
{
}

/// `min(max(0, x), hi)`: how the ship's x is clamped to the field.
pub open spec fn ship_clamped_x(x: int, hi: int) -> int {
    let lo_clamped = if x < 0 {
        0
    } else {
        x
    };
    if lo_clamped < hi {
        lo_clamped
    } else {
        hi
    }
}

} // verus!
