//! The requests the scenes hand to their host.
//!
//! The scenes never touch the platform layer themselves: they consume
//! plain input snapshots and produce draw commands, sound-effect requests,
//! music requests and asset requests, which the caller carries out.

use vstd::prelude::*;
use crate::geom::{Colour, Rect};

verus! {

/// A sound effect the host should play on the shared channel.
#[derive(Clone, Copy, PartialEq, Eq, Structural, Debug)]
pub enum SoundId {
    PlayerShoot,
    PlayerDeath,
    AlienShoot,
    AlienDeath,
    AlienPass,
    AlienShift,
    LevelWin,
    ButtonHover,
    ButtonSelect,
}

/// `n` copies of the same sound request.
pub open spec fn repeated_sound(n: nat, s: SoundId) -> Seq<SoundId> {
    Seq::new(n, |i: int| s)
}

/// A request about the looping music track.
#[derive(Clone, Copy, PartialEq, Eq, Structural, Debug)]
pub enum MusicAction {
    Play,
    Halt,
    PauseIfPlaying,
    ResumeIfPaused,
}

/// The text a draw command renders; numeric values are carried as data and
/// formatted by the host.
#[derive(Clone, Copy, PartialEq, Eq, Debug)]
pub enum TextContent {
    Title,
    GameOverHeader,
    Label(&'static str),
    Lives(u32),
    Level(u32),
    AlienCount(u32),
    Score(u32),
    FinalScore(u32),
}

/// Where a piece of text is placed; positions are in subpixel units.
/// Placements that depend on the rendered text size name the intent and
/// leave the pixel arithmetic to the renderer.
#[derive(Clone, Copy, PartialEq, Eq, Structural, Debug)]
pub enum TextAnchor {
    CentredAt { x: i64, y: i64 },
    OverlayTopLeftRow { row: u32 },
    OverlayTopCentre,
    OverlayTopRight,
}

/// One ordered drawing request against the caller-owned surface.
#[derive(Clone, Copy, PartialEq, Eq, Debug)]
pub enum DrawCommand {
    Clear { colour: Colour },
    FillRect { rect: Rect, colour: Colour },
    Blit { texture_index: usize, rect: Rect },
    Text { content: TextContent, colour: Colour, anchor: TextAnchor, scale_percent: u32 },
}

/// The kind of scene a running scene may enqueue as its successor; the
/// host constructs the concrete scene when it is popped.
#[derive(Clone, Copy, PartialEq, Eq, Structural, Debug)]
pub enum SceneKind {
    MainMenu,
    Combat,
    GameOver,
}

/// A platform event, reduced to the data the scenes act on.
#[derive(Clone, Copy, PartialEq, Eq, Structural, Debug)]
pub enum EventKind {
    Quit,
    WindowClose,
    FocusGained,
    FocusLost,
    Minimised,
    Restored,
    MouseWheel { y: i32 },
    KeyDown { scancode: i32 },
    Other,
}

/// The assets a scene asks for when it becomes active. The host loads
/// them and passes texture sizes back through `on_late_load`; textures are
/// later referred to by their index in this list.
pub struct AssetRequest {
    pub textures: Vec<&'static str>,
    pub fonts: Vec<&'static str>,
    pub music: Option<&'static str>,
}

} // verus!
