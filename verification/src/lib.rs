//! A Space-Invaders-style shooter, written as a verified library.
//!
//! The crate holds the scene lifecycle engine and the space-combat
//! simulation: spaceship movement, alien fleet formation movement with
//! synchronized direction reversal, bullet spawning and motion, collision
//! resolution, and the win/lose/level-progression state machine.
//!
//! All spatial quantities are integers in subpixel units (1 pixel = 1000
//! subpixels) and all times are integer milliseconds, so every update is
//! exact. Rendering, audio and event polling are left to the caller: the
//! scenes consume plain input snapshots and produce draw commands and
//! sound requests.

pub mod geom;
pub mod commands;
pub mod input;
pub mod bullet;
pub mod alien;
pub mod spaceship;
pub mod button;
pub mod space_scene;
pub mod main_menu_scene;
pub mod game_over_scene;
pub mod game;
