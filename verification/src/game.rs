//! The scene host: the per-frame driver and the scene queue.
//!
//! The host owns one active scene and a FIFO queue of scene kinds the
//! active scene appends to during `update`. Each frame the caller runs
//! the fixed sequence poll, input, update, late-update, draw, and then
//! `end_frame`: a finished scene is unloaded, its payload handed to the
//! next queued scene, and the loop stops when nothing is queued.

use vstd::prelude::*;
use crate::commands::{
    AssetRequest, DrawCommand, EventKind, MusicAction, SceneKind, SoundId,
};
use crate::game_over_scene::{
    GameOverScene, game_over_draw_list, game_over_input_rel, game_over_update_rel, game_over_wf,
    payload_score,
};
use crate::geom::{COORD_LIMIT, in_range};
use crate::input::{InputState, SCANCODE_F11};
use crate::main_menu_scene::{
    MainMenuScene, focus_music_actions, menu_draw_list, menu_input_rel, menu_update_rel, menu_wf,
};
use crate::space_scene::{
    SpaceScene, combat_draw_list, combat_input_rel, combat_late_rel, combat_poll_rel,
    combat_update_rel, scene_wf,
};

verus! {

/// The active scene: one concrete state machine of the three kinds.
pub enum Scene {
    MainMenu(MainMenuScene),
    Combat(SpaceScene),
    GameOver(GameOverScene),
}

pub open spec fn scene_ok(s: Scene) -> bool {
    match s {
        Scene::MainMenu(m) => menu_wf(m),
        Scene::Combat(c) => scene_wf(c),
        Scene::GameOver(g) => game_over_wf(g),
    }
}

pub open spec fn scene_done(s: Scene) -> bool {
    match s {
        Scene::MainMenu(m) => m.is_done,
        Scene::Combat(c) => c.is_done,
        Scene::GameOver(g) => g.is_done,
    }
}

/// The payload a scene hands to its successor when it is unloaded: the
/// combat scene hands over its score.
pub open spec fn scene_unload_payload(s: Scene) -> Option<i64> {
    match s {
        Scene::Combat(c) => Some(c.score as i64),
        _ => None,
    }
}

/// The music requests unloading a scene raises: scenes with music halt
/// it.
pub open spec fn scene_unload_music(s: Scene) -> Seq<MusicAction> {
    match s {
        Scene::GameOver(_) => Seq::empty(),
        _ => seq![MusicAction::Halt],
    }
}

/// Dispatch of the per-frame input relation over the scene kinds.
pub open spec fn scene_input_rel(s0: Scene, s1: Scene, input: InputState) -> bool {
    match (s0, s1) {
        (Scene::MainMenu(m0), Scene::MainMenu(m1)) => menu_input_rel(m0, m1, input),
        (Scene::Combat(c0), Scene::Combat(c1)) => combat_input_rel(c0, c1, input),
        (Scene::GameOver(g0), Scene::GameOver(g1)) => game_over_input_rel(g0, g1, input),
        _ => false,
    }
}

/// Dispatch of the per-frame update relation over the scene kinds.
pub open spec fn scene_update_rel(
    s0: Scene,
    s1: Scene,
    delta_time: u32,
    viewport_w: i64,
    viewport_h: i64,
    queue0: Seq<SceneKind>,
    queue1: Seq<SceneKind>,
    sounds: Seq<SoundId>,
) -> bool {
    match (s0, s1) {
        (Scene::MainMenu(m0), Scene::MainMenu(m1)) => menu_update_rel(
            m0,
            m1,
            queue0,
            queue1,
            sounds,
        ),
        (Scene::Combat(c0), Scene::Combat(c1)) => combat_update_rel(
            c0,
            c1,
            delta_time,
            viewport_w,
            viewport_h,
            queue0,
            queue1,
            sounds,
        ),
        (Scene::GameOver(g0), Scene::GameOver(g1)) => game_over_update_rel(
            g0,
            g1,
            queue0,
            queue1,
            sounds,
        ),
        _ => false,
    }
}

/// Dispatch of the end-of-frame decision relation: only the combat scene
/// has one; the others do nothing in this phase.
pub open spec fn scene_late_rel(
    s0: Scene,
    s1: Scene,
    viewport_w: i64,
    viewport_h: i64,
    queue0: Seq<SceneKind>,
    queue1: Seq<SceneKind>,
) -> bool {
    match (s0, s1) {
        (Scene::MainMenu(m0), Scene::MainMenu(m1)) => m1 == m0 && queue1 == queue0,
        (Scene::Combat(c0), Scene::Combat(c1)) => combat_late_rel(
            c0,
            c1,
            viewport_w,
            viewport_h,
            queue0,
            queue1,
        ),
        (Scene::GameOver(g0), Scene::GameOver(g1)) => g1 == g0 && queue1 == queue0,
        _ => false,
    }
}

/// Dispatch of a window event over the scene kinds.
pub open spec fn scene_poll_rel(
    s0: Scene,
    s1: Scene,
    event: EventKind,
    music: Seq<MusicAction>,
) -> bool {
    match (s0, s1) {
        (Scene::MainMenu(m0), Scene::MainMenu(m1)) => m1 == m0 && music == focus_music_actions(
            event,
        ),
        (Scene::Combat(c0), Scene::Combat(c1)) => combat_poll_rel(c0, c1, event, music),
        (Scene::GameOver(g0), Scene::GameOver(g1)) => g1 == g0 && music.len() == 0,
        _ => false,
    }
}

/// The active scene's full ordered draw list.
pub open spec fn scene_draw_list(s: Scene, viewport_w: i64) -> Seq<DrawCommand> {
    match s {
        Scene::MainMenu(m) => menu_draw_list(m, viewport_w),
        Scene::Combat(c) => combat_draw_list(c),
        Scene::GameOver(g) => game_over_draw_list(g, viewport_w),
    }
}

/// Per-variant preconditions the host passes through to `update`.
pub open spec fn scene_update_req(s: Scene, viewport_w: i64) -> bool {
    match s {
        Scene::Combat(c) => c.spaceship.rect.w <= viewport_w,
        _ => true,
    }
}

/// Per-variant preconditions the host passes through to `late_update`.
pub open spec fn scene_late_req(s: Scene, viewport_h: i64) -> bool {
    match s {
        Scene::Combat(c) => c.spaceship_size.1 <= viewport_h,
        _ => true,
    }
}

/// Per-variant preconditions the host passes through to `on_late_load`.
pub open spec fn scene_late_load_req(s: Scene, texture_sizes: Seq<(i64, i64)>) -> bool {
    match s {
        Scene::Combat(c) => {
            &&& c.spaceship.texture_index < texture_sizes.len()
            &&& c.spaceship.bullet_data.texture_index < texture_sizes.len()
            &&& c.alien_data.texture_index < texture_sizes.len()
            &&& c.alien_data.bullet_data.texture_index < texture_sizes.len()
            &&& c.background_texture_index < texture_sizes.len()
        },
        _ => true,
    }
}

/// What `end_frame` asks of the freshly loaded successor scene and the
/// assets it requested.
pub open spec fn fresh_scene_ok(s: Scene, kind: SceneKind, payload: Option<i64>) -> bool {
    match s {
        Scene::MainMenu(m) => {
            &&& kind == SceneKind::MainMenu
            &&& m.buttons@.len() == 0
            &&& !m.is_done
            &&& m.font_index == 0
        },
        Scene::Combat(c) => {
            &&& kind == SceneKind::Combat
            &&& c.current_level == 1
            &&& c.player_lives == crate::space_scene::INITIAL_PLAYER_LIVES
            &&& c.score == 0
            &&& !c.is_done
            &&& c.has_window_focus
            &&& c.level_reset_timeout == 0
            &&& c.aliens@.len() == 0
            &&& c.spaceship.texture_index == 0
            &&& c.spaceship.bullet_data.texture_index == 1
            &&& c.alien_data.texture_index == 2
            &&& c.alien_data.bullet_data.texture_index == 3
            &&& c.background_texture_index == 4
        },
        Scene::GameOver(g) => {
            &&& kind == SceneKind::GameOver
            &&& g.player_score == payload_score(payload)
            &&& g.buttons@.len() == 0
            &&& !g.is_done
            &&& g.font_index == 0
        },
    }
}

/// The scene host: the active scene, the pending-scene queue, the
/// running flag and this frame's recorded scroll delta.
pub struct GameHost {
    pub current_scene: Scene,
    pub scene_queue: Vec<SceneKind>,
    pub is_running: bool,
    pub mouse_y_scroll: i32,
}

pub open spec fn host_wf(h: GameHost) -> bool {
    scene_ok(h.current_scene)
}

/// The outcome of `end_frame`: keep going with the same scene, load the
/// assets of a freshly activated scene, or stop.
pub enum FrameOutcome {
    Continue,
    Load(AssetRequest),
    Stopped,
}

impl GameHost {
    pub fn new(initial_scene: Scene) -> (h: GameHost)
        requires
            scene_ok(initial_scene),
        ensures
            h.current_scene == initial_scene,
            h.scene_queue@.len() == 0,
            h.is_running,
            h.mouse_y_scroll == 0,
            host_wf(h),
    {
        GameHost {
            current_scene: initial_scene,
            scene_queue: Vec::new(),
            is_running: true,
            mouse_y_scroll: 0,
        }
    }

    /// React to one platform event: a quit or window-close stops the
    /// loop, a mouse wheel records this frame's scroll delta, and every
    /// event is forwarded to the active scene. The caller toggles
    /// fullscreen when asked.
    pub fn handle_event(&mut self, event: EventKind) -> (r: (Vec<MusicAction>, bool))
        requires
            host_wf(*old(self)),
        ensures
            final(self).is_running == (old(self).is_running && !(event == EventKind::Quit || event
                == EventKind::WindowClose)),
            final(self).mouse_y_scroll == (match event {
                EventKind::MouseWheel { y } => y,
                _ => old(self).mouse_y_scroll,
            }),
            r.1 == (event == (EventKind::KeyDown { scancode: SCANCODE_F11 })),
            scene_poll_rel(old(self).current_scene, final(self).current_scene, event, r.0@),
            final(self).scene_queue == old(self).scene_queue,
            host_wf(*final(self)),
    {
        let mut toggle_fullscreen = false;
        match event {
            EventKind::Quit | EventKind::WindowClose => {
                self.is_running = false;
            },
            EventKind::KeyDown { scancode } => {
                if scancode == SCANCODE_F11 {
                    toggle_fullscreen = true;
                }
            },
            EventKind::MouseWheel { y } => {
                self.mouse_y_scroll = y;
            },
            _ => {},
        }
        let music = match &mut self.current_scene {
            Scene::MainMenu(m) => m.poll_event(event),
            Scene::Combat(c) => c.poll_event(event),
            Scene::GameOver(g) => g.poll_event(event),
        };
        (music, toggle_fullscreen)
    }

    /// Clear the recorded scroll delta at the end of the frame.
    pub fn reset_scroll(&mut self)
        ensures
            *final(self) == (GameHost { mouse_y_scroll: 0, ..*old(self) }),
    {
        self.mouse_y_scroll = 0;
    }

    /// Hand the frame's input snapshot to the active scene.
    pub fn process_input(&mut self, input_state: &InputState)
        requires
            host_wf(*old(self)),
            in_range(input_state.mouse_x as int),
            in_range(input_state.mouse_y as int),
        ensures
            scene_input_rel(old(self).current_scene, final(self).current_scene, *input_state),
            final(self).scene_queue == old(self).scene_queue,
            final(self).is_running == old(self).is_running,
            final(self).mouse_y_scroll == old(self).mouse_y_scroll,
            host_wf(*final(self)),
    {
        match &mut self.current_scene {
            Scene::MainMenu(m) => m.process_input(input_state),
            Scene::Combat(c) => c.process_input(input_state),
            Scene::GameOver(g) => g.process_input(input_state),
        }
    }

    /// Run the active scene's update phase.
    pub fn update(&mut self, delta_time: u32, viewport_w: i64, viewport_h: i64) -> (sounds: Vec<
        SoundId,
    >)
        requires
            host_wf(*old(self)),
            0 <= viewport_w <= COORD_LIMIT,
            0 <= viewport_h <= COORD_LIMIT,
            scene_update_req(old(self).current_scene, viewport_w),
        ensures
            scene_update_rel(
                old(self).current_scene,
                final(self).current_scene,
                delta_time,
                viewport_w,
                viewport_h,
                old(self).scene_queue@,
                final(self).scene_queue@,
                sounds@,
            ),
            final(self).is_running == old(self).is_running,
            final(self).mouse_y_scroll == old(self).mouse_y_scroll,
            host_wf(*final(self)),
    {
        match &mut self.current_scene {
            Scene::MainMenu(m) => m.update(delta_time, &mut self.scene_queue),
            Scene::Combat(c) => c.update(delta_time, &mut self.scene_queue, viewport_w, viewport_h),
            Scene::GameOver(g) => g.update(delta_time, &mut self.scene_queue),
        }
    }

    /// Run the active scene's late-update phase.
    pub fn late_update(&mut self, _delta_time: u32, viewport_w: i64, viewport_h: i64)
        requires
            host_wf(*old(self)),
            0 <= viewport_w <= COORD_LIMIT,
            0 <= viewport_h <= COORD_LIMIT,
            scene_late_req(old(self).current_scene, viewport_h),
        ensures
            scene_late_rel(
                old(self).current_scene,
                final(self).current_scene,
                viewport_w,
                viewport_h,
                old(self).scene_queue@,
                final(self).scene_queue@,
            ),
            final(self).is_running == old(self).is_running,
            final(self).mouse_y_scroll == old(self).mouse_y_scroll,
            host_wf(*final(self)),
    {
        match &mut self.current_scene {
            Scene::MainMenu(_) => {},
            Scene::Combat(c) => c.late_update(
                _delta_time,
                &mut self.scene_queue,
                viewport_w,
                viewport_h,
            ),
            Scene::GameOver(_) => {},
        }
    }

    /// Collect the active scene's ordered draw list.
    pub fn draw(&self, viewport_w: i64) -> (cmds: Vec<DrawCommand>)
        requires
            host_wf(*self),
            0 <= viewport_w,
        ensures
            cmds@ == scene_draw_list(self.current_scene, viewport_w),
    {
        match &self.current_scene {
            Scene::MainMenu(m) => m.draw(viewport_w),
            Scene::Combat(c) => c.draw(),
            Scene::GameOver(g) => g.draw(viewport_w),
        }
    }

    /// Resolve the loaded textures for a freshly activated scene.
    pub fn on_late_load(
        &mut self,
        viewport_w: i64,
        viewport_h: i64,
        texture_sizes: &Vec<(i64, i64)>,
    ) -> (music: Vec<MusicAction>)
        requires
            host_wf(*old(self)),
            0 <= viewport_w <= COORD_LIMIT,
            0 <= viewport_h <= COORD_LIMIT,
            scene_late_load_req(old(self).current_scene, texture_sizes@),
        ensures
            final(self).scene_queue == old(self).scene_queue,
            final(self).is_running == old(self).is_running,
            final(self).mouse_y_scroll == old(self).mouse_y_scroll,
            final(self).current_scene is MainMenu <==> old(self).current_scene is MainMenu,
            final(self).current_scene is Combat <==> old(self).current_scene is Combat,
            final(self).current_scene is GameOver <==> old(self).current_scene is GameOver,
            host_wf(*final(self)),
    {
        match &mut self.current_scene {
            Scene::MainMenu(m) => m.on_late_load(viewport_w, viewport_h, texture_sizes),
            Scene::Combat(c) => c.on_late_load(viewport_w, viewport_h, texture_sizes),
            Scene::GameOver(g) => g.on_late_load(viewport_w, viewport_h, texture_sizes),
        }
    }

    pub fn is_running(&self) -> (r: bool)
        ensures
            r == self.is_running,
    {
        self.is_running
    }

    pub fn scroll_amount(&self) -> (r: i32)
        ensures
            r == self.mouse_y_scroll,
    {
        self.mouse_y_scroll
    }

    /// The frame-end scene swap. A scene that is not done stays active.
    /// A finished scene is unloaded; if the queue holds a successor it
    /// is popped, constructed, loaded with the unload payload, and its
    /// asset request returned; with an empty queue the loop stops.
    pub fn end_frame(&mut self) -> (r: (FrameOutcome, Vec<MusicAction>))
        requires
            host_wf(*old(self)),
        ensures
            !scene_done(old(self).current_scene) ==> *final(self) == *old(self) && r.0 is Continue
                && r.1@.len() == 0,
            scene_done(old(self).current_scene) && old(self).scene_queue@.len() > 0 ==> {
                &&& final(self).scene_queue@ == old(self).scene_queue@.subrange(
                    1,
                    old(self).scene_queue@.len() as int,
                )
                &&& fresh_scene_ok(
                    final(self).current_scene,
                    old(self).scene_queue@[0],
                    scene_unload_payload(old(self).current_scene),
                )
                &&& final(self).is_running == old(self).is_running
                &&& r.0 is Load
                &&& r.1@ == scene_unload_music(old(self).current_scene)
            },
            scene_done(old(self).current_scene) && old(self).scene_queue@.len() == 0 ==> {
                &&& !final(self).is_running
                &&& final(self).scene_queue == old(self).scene_queue
                &&& r.0 is Stopped
                &&& r.1@ == scene_unload_music(old(self).current_scene)
            },
            host_wf(*final(self)),
    {
        let done = match &self.current_scene {
            Scene::MainMenu(m) => m.is_done(),
            Scene::Combat(c) => c.is_done(),
            Scene::GameOver(g) => g.is_done(),
        };
        if !done {
            return (FrameOutcome::Continue, Vec::new());
        }

        let (payload, music) = match &mut self.current_scene {
            Scene::MainMenu(m) => m.on_unload(),
            Scene::Combat(c) => c.on_unload(),
            Scene::GameOver(g) => g.on_unload(),
        };

        if self.scene_queue.len() > 0 {
            let kind = self.scene_queue.remove(0);
            let request = match kind {
                SceneKind::MainMenu => {
                    let mut scene = MainMenuScene::new();
                    let request = scene.on_load(payload);
                    self.current_scene = Scene::MainMenu(scene);
                    request
                },
                SceneKind::Combat => {
                    let mut scene = SpaceScene::new();
                    let request = scene.on_load(payload);
                    self.current_scene = Scene::Combat(scene);
                    request
                },
                SceneKind::GameOver => {
                    let mut scene = GameOverScene::new();
                    let request = scene.on_load(payload);
                    self.current_scene = Scene::GameOver(scene);
                    request
                },
            };
            (FrameOutcome::Load(request), music)
        } else {
            self.is_running = false;
            (FrameOutcome::Stopped, music)
        }
    }
}

} // verus!
