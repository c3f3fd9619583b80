//! The game-over screen: the final score and two buttons, Play Again and
//! Back to Menu.

use vstd::prelude::*;
use crate::button::{
    Button, button_after_hover_pass, button_after_input, button_wf, buttons_draw_list,
    hover_sound_count,
};
use crate::commands::{
    AssetRequest, DrawCommand, EventKind, MusicAction, SceneKind, SoundId, TextAnchor, TextContent,
    repeated_sound,
};
use crate::geom::{COORD_LIMIT, Colour, in_range};
use crate::input::{InputState, MOUSE_BUTTON_LEFT, SCANCODE_ESCAPE};

verus! {

pub struct GameOverScene {
    pub player_score: u32,
    pub buttons: Vec<Button>,
    pub is_done: bool,
    pub font_index: usize,
}

pub open spec fn game_over_wf(s: GameOverScene) -> bool {
    forall|i: int| 0 <= i < s.buttons@.len() ==> button_wf(#[trigger] s.buttons@[i])
}

/// The score the scene shows, taken from the previous scene's payload;
/// a missing or out-of-range payload counts as zero.
pub open spec fn payload_score(payload: Option<i64>) -> int {
    match payload {
        Some(v) => if 0 <= v <= u32::MAX as int {
            v as int
        } else {
            0
        },
        None => 0,
    }
}

/// What one frame of game-over input does: Escape latches the done flag,
/// and every button's interaction state is recomputed from the cursor.
pub open spec fn game_over_input_rel(
    s0: GameOverScene,
    s1: GameOverScene,
    input: InputState,
) -> bool {
    &&& s1.is_done == (s0.is_done || input.key_down(SCANCODE_ESCAPE))
    &&& s1.buttons@.len() == s0.buttons@.len()
    &&& forall|i: int|
        0 <= i < s0.buttons@.len() ==> #[trigger] s1.buttons@[i] == button_after_input(
            s0.buttons@[i],
            input,
        )
    &&& s1.font_index == s0.font_index
    &&& s1.player_score == s0.player_score
}

/// What one frame of the game-over update does: a scene already done
/// queues the main menu and stops; otherwise first-hover sounds fire,
/// Play Again queues a combat scene and Back to Menu queues the menu.
pub open spec fn game_over_update_rel(
    s0: GameOverScene,
    s1: GameOverScene,
    queue0: Seq<SceneKind>,
    queue1: Seq<SceneKind>,
    sounds: Seq<SoundId>,
) -> bool {
    if s0.is_done {
        &&& s1 == s0
        &&& queue1 == queue0.push(SceneKind::MainMenu)
        &&& sounds == Seq::<SoundId>::empty()
    } else {
        let bs = s0.buttons@;
        let again_clicked = bs.len() > 0 && bs[0].is_clicked;
        let menu_clicked = bs.len() > 0 && bs[bs.len() - 1].is_clicked;
        &&& s1.buttons@.len() == bs.len()
        &&& forall|i: int|
            0 <= i < bs.len() ==> #[trigger] s1.buttons@[i] == button_after_hover_pass(bs[i])
        &&& s1.is_done == (s0.is_done || again_clicked || menu_clicked)
        &&& s1.font_index == s0.font_index
        &&& s1.player_score == s0.player_score
        &&& queue1 == ({
            let q1 = if again_clicked {
                queue0.push(SceneKind::Combat)
            } else {
                queue0
            };
            if menu_clicked {
                q1.push(SceneKind::MainMenu)
            } else {
                q1
            }
        })
        &&& sounds == repeated_sound(hover_sound_count(bs), SoundId::ButtonHover) + (
        if again_clicked {
            seq![SoundId::ButtonSelect]
        } else {
            Seq::empty()
        }) + (if menu_clicked {
            seq![SoundId::ButtonSelect]
        } else {
            Seq::empty()
        })
    }
}

/// The game-over screen's full ordered draw list: clear, header, final
/// score, buttons.
pub open spec fn game_over_draw_list(s: GameOverScene, viewport_w: i64) -> Seq<DrawCommand> {
    seq![
        DrawCommand::Clear { colour: Colour { red: 10, green: 10, blue: 10 } },
        DrawCommand::Text {
            content: TextContent::GameOverHeader,
            colour: Colour { red: 255, green: 255, blue: 255 },
            anchor: TextAnchor::CentredAt { x: (viewport_w / 2) as i64, y: 128_000 },
            scale_percent: 75,
        },
        DrawCommand::Text {
            content: TextContent::FinalScore(s.player_score),
            colour: Colour { red: 255, green: 255, blue: 0 },
            anchor: TextAnchor::CentredAt { x: (viewport_w / 2) as i64, y: 256_000 },
            scale_percent: 25,
        },
    ] + buttons_draw_list(s.buttons@)
}

impl GameOverScene {
    pub fn new() -> (s: GameOverScene)
        ensures
            s.player_score == 0,
            s.buttons@.len() == 0,
            !s.is_done,
            s.font_index == 0,
            game_over_wf(s),
    {
        GameOverScene { player_score: 0, buttons: Vec::new(), is_done: false, font_index: 0 }
    }

    pub fn is_done(&self) -> (r: bool)
        ensures
            r == self.is_done,
    {
        self.is_done
    }

    /// Take the final score from the previous scene and request the
    /// font; this screen has no textures and no music of its own.
    pub fn on_load(&mut self, previous_scene_payload: Option<i64>) -> (r: AssetRequest)
        ensures
            final(self).player_score == payload_score(previous_scene_payload),
            final(self).font_index == 0,
            final(self).buttons == old(self).buttons,
            final(self).is_done == old(self).is_done,
            r.textures@.len() == 0,
            r.fonts@.len() == 1,
            r.fonts@[0]@ == "Recursive.ttf"@,
            r.music is None,
    {
        self.player_score = match previous_scene_payload {
            Some(v) => if 0 <= v && v <= u32::MAX as i64 {
                v as u32
            } else {
                0
            },
            None => 0,
        };
        self.font_index = 0;
        let mut fonts: Vec<&'static str> = Vec::new();
        fonts.push("Recursive.ttf");
        AssetRequest { textures: Vec::new(), fonts, music: None }
    }

    /// Build the Play Again and Back to Menu buttons.
    pub fn on_late_load(
        &mut self,
        viewport_w: i64,
        viewport_h: i64,
        _texture_sizes: &Vec<(i64, i64)>,
    ) -> (music: Vec<MusicAction>)
        requires
            0 <= viewport_w <= COORD_LIMIT,
            0 <= viewport_h <= COORD_LIMIT,
        ensures
            final(self).buttons@.len() == 2,
            ({
                let again = final(self).buttons@[0];
                &&& again.midpoint.0 == viewport_w / 2 && again.midpoint.1 == viewport_h / 2
                &&& again.rect.w == 450_000
                &&& again.rect.h == 125_000
                &&& again.text@ == "Play Again"@
                &&& again.text_scale_percent == 50
                &&& !again.is_hovered && !again.is_clicked && !again.played_enter_sound
                &&& again.background_colour == (Colour { red: 255, green: 255, blue: 0 })
                &&& again.hovered_background_colour == (Colour { red: 0, green: 255, blue: 0 })
                &&& again.clicked_background_colour == (Colour { red: 255, green: 255, blue: 255 })
            }),
            ({
                let menu = final(self).buttons@[1];
                &&& menu.midpoint.0 == viewport_w / 2 && menu.midpoint.1 == viewport_h / 4 * 3
                &&& menu.rect.w == 450_000
                &&& menu.rect.h == 125_000
                &&& menu.text@ == "Back to Menu"@
                &&& menu.text_scale_percent == 50
                &&& !menu.is_hovered && !menu.is_clicked && !menu.played_enter_sound
                &&& menu.background_colour == (Colour { red: 255, green: 255, blue: 0 })
                &&& menu.hovered_background_colour == (Colour { red: 0, green: 255, blue: 0 })
                &&& menu.clicked_background_colour == (Colour { red: 255, green: 0, blue: 0 })
            }),
            final(self).font_index == old(self).font_index,
            final(self).is_done == old(self).is_done,
            final(self).player_score == old(self).player_score,
            music@.len() == 0,
            game_over_wf(*final(self)),
    {
        self.buttons = Vec::new();
        let mut again = Button::new(
            viewport_w / 2,
            viewport_h / 2,
            450_000,
            125_000,
            "Play Again",
            50,
        );
        again.set_colours(
            Colour { red: 0, green: 0, blue: 0 },
            Colour { red: 0, green: 0, blue: 0 },
            Colour { red: 0, green: 0, blue: 0 },
            Colour { red: 255, green: 255, blue: 0 },
            Colour { red: 0, green: 255, blue: 0 },
            Colour { red: 255, green: 255, blue: 255 },
        );
        self.buttons.push(again);
        let mut menu = Button::new(
            viewport_w / 2,
            viewport_h / 4 * 3,
            450_000,
            125_000,
            "Back to Menu",
            50,
        );
        menu.set_colours(
            Colour { red: 0, green: 0, blue: 0 },
            Colour { red: 0, green: 0, blue: 0 },
            Colour { red: 0, green: 0, blue: 0 },
            Colour { red: 255, green: 255, blue: 0 },
            Colour { red: 0, green: 255, blue: 0 },
            Colour { red: 255, green: 0, blue: 0 },
        );
        self.buttons.push(menu);
        Vec::new()
    }

    /// Nothing to hand on and no music to stop.
    pub fn on_unload(&mut self) -> (r: (Option<i64>, Vec<MusicAction>))
        ensures
            *final(self) == *old(self),
            r.0 is None,
            r.1@.len() == 0,
    {
        (None, Vec::new())
    }

    /// This screen has no music; window events pass by.
    pub fn poll_event(&mut self, _event: EventKind) -> (music: Vec<MusicAction>)
        ensures
            *final(self) == *old(self),
            music@.len() == 0,
    {
        Vec::new()
    }

    #[verifier::loop_isolation(false)]
    pub fn process_input(&mut self, input_state: &InputState)
        requires
            game_over_wf(*old(self)),
            in_range(input_state.mouse_x as int),
            in_range(input_state.mouse_y as int),
        ensures
            game_over_input_rel(*old(self), *final(self), *input_state),
            game_over_wf(*final(self)),
    {
        if input_state.is_key_down(SCANCODE_ESCAPE) {
            self.is_done = true;
        }
        let ghost bs0 = self.buttons@;
        let ghost done1 = self.is_done;
        let mut i: usize = 0;
        while i < self.buttons.len()
            invariant
                i <= bs0.len(),
                self.buttons@.len() == bs0.len(),
                forall|j: int|
                    0 <= j < i ==> #[trigger] self.buttons@[j] == button_after_input(
                        bs0[j],
                        *input_state,
                    ),
                forall|j: int| i <= j < bs0.len() ==> self.buttons@[j] == bs0[j],
                self.is_done == done1,
                self.font_index == old(self).font_index,
                self.player_score == old(self).player_score,
            decreases bs0.len() - i,
        {
            let mut b = self.buttons[i];
            proof {
                assert(self.buttons@[i as int] == bs0[i as int]);
            }
            b.is_hovered = false;
            b.is_clicked = false;
            proof {
                assert(button_wf(b));
            }
            if b.is_mouse_over(input_state) {
                b.is_hovered = true;
                if input_state.is_mouse_button_down(MOUSE_BUTTON_LEFT) {
                    b.is_clicked = true;
                }
            } else if b.played_enter_sound {
                b.played_enter_sound = false;
            }
            proof {
                assert(b == button_after_input(bs0[i as int], *input_state));
            }
            self.buttons[i] = b;
            i += 1;
        }
    }

    /// A finished screen queues the menu; otherwise hover sounds, then
    /// the Play Again and Back to Menu click decisions.
    #[verifier::loop_isolation(false)]
    pub fn update(&mut self, _delta_time: u32, scene_queue: &mut Vec<SceneKind>) -> (sounds: Vec<
        SoundId,
    >)
        requires
            game_over_wf(*old(self)),
        ensures
            game_over_update_rel(
                *old(self),
                *final(self),
                old(scene_queue)@,
                final(scene_queue)@,
                sounds@,
            ),
            game_over_wf(*final(self)),
    {
        let mut sounds: Vec<SoundId> = Vec::new();
        if self.is_done {
            scene_queue.push(SceneKind::MainMenu);
            return sounds;
        }

        let ghost bs0 = self.buttons@;
        proof {
            assert(bs0.take(0) =~= Seq::<Button>::empty());
        }
        let mut i: usize = 0;
        while i < self.buttons.len()
            invariant
                i <= bs0.len(),
                self.buttons@.len() == bs0.len(),
                forall|j: int|
                    0 <= j < i ==> #[trigger] self.buttons@[j] == button_after_hover_pass(bs0[j]),
                forall|j: int| i <= j < bs0.len() ==> self.buttons@[j] == bs0[j],
                self.is_done == old(self).is_done,
                self.font_index == old(self).font_index,
                self.player_score == old(self).player_score,
                sounds@ == repeated_sound(
                    hover_sound_count(bs0.take(i as int)),
                    SoundId::ButtonHover,
                ),
            decreases bs0.len() - i,
        {
            let mut b = self.buttons[i];
            let ghost done = hover_sound_count(bs0.take(i as int));
            proof {
                assert(bs0.take(i + 1).drop_last() =~= bs0.take(i as int));
                assert(bs0.take(i + 1).last() == bs0[i as int]);
            }
            if b.is_hovered && !b.played_enter_sound {
                sounds.push(SoundId::ButtonHover);
                b.played_enter_sound = true;
                proof {
                    assert(repeated_sound(done + 1, SoundId::ButtonHover) =~= repeated_sound(
                        done,
                        SoundId::ButtonHover,
                    ).push(SoundId::ButtonHover));
                }
            }
            proof {
                assert(b == button_after_hover_pass(bs0[i as int]));
            }
            self.buttons[i] = b;
            i += 1;
        }
        proof {
            assert(bs0.take(bs0.len() as int) =~= bs0);
        }
        let ghost hover_sounds = sounds@;

        if self.buttons.len() > 0 {
            let again_clicked = self.buttons[0].is_clicked;
            let menu_clicked = self.buttons[self.buttons.len() - 1].is_clicked;
            if again_clicked {
                self.is_done = true;
                scene_queue.push(SceneKind::Combat);
                sounds.push(SoundId::ButtonSelect);
            }
            if menu_clicked {
                self.is_done = true;
                scene_queue.push(SceneKind::MainMenu);
                sounds.push(SoundId::ButtonSelect);
            }
            proof {
                if again_clicked {
                    if menu_clicked {
                        assert(sounds@ =~= hover_sounds + seq![SoundId::ButtonSelect] + seq![
                            SoundId::ButtonSelect,
                        ]);
                    } else {
                        assert(sounds@ =~= hover_sounds + seq![SoundId::ButtonSelect]
                            + Seq::empty());
                    }
                } else {
                    if menu_clicked {
                        assert(sounds@ =~= hover_sounds + Seq::empty() + seq![
                            SoundId::ButtonSelect,
                        ]);
                    } else {
                        assert(sounds@ =~= hover_sounds + Seq::empty() + Seq::empty());
                    }
                }
            }
        } else {
            proof {
                assert(sounds@ =~= hover_sounds + Seq::empty() + Seq::empty());
            }
        }
        sounds
    }

    /// The game-over screen's full ordered draw list.
    pub fn draw(&self, viewport_w: i64) -> (cmds: Vec<DrawCommand>)
        requires
            0 <= viewport_w,
        ensures
            cmds@ == game_over_draw_list(*self, viewport_w),
    {
        let mut cmds: Vec<DrawCommand> = Vec::new();
        cmds.push(DrawCommand::Clear { colour: Colour { red: 10, green: 10, blue: 10 } });
        cmds.push(
            DrawCommand::Text {
                content: TextContent::GameOverHeader,
                colour: Colour { red: 255, green: 255, blue: 255 },
                anchor: TextAnchor::CentredAt { x: viewport_w / 2, y: 128_000 },
                scale_percent: 75,
            },
        );
        cmds.push(
            DrawCommand::Text {
                content: TextContent::FinalScore(self.player_score),
                colour: Colour { red: 255, green: 255, blue: 0 },
                anchor: TextAnchor::CentredAt { x: viewport_w / 2, y: 256_000 },
                scale_percent: 25,
            },
        );
        let ghost head = cmds@;
        let ghost bs = self.buttons@;
        proof {
            assert(head =~= game_over_draw_list(*self, viewport_w).take(3));
            assert(bs.take(0) =~= Seq::<Button>::empty());
            assert(head + buttons_draw_list(bs.take(0)) =~= head);
        }
        let mut i: usize = 0;
        while i < self.buttons.len()
            invariant
                i <= bs.len(),
                self.buttons@ == bs,
                cmds@ == head + buttons_draw_list(bs.take(i as int)),
            decreases bs.len() - i,
        {
            proof {
                assert(bs.take(i + 1).drop_last() =~= bs.take(i as int));
                assert(bs.take(i + 1).last() == bs[i as int]);
            }
            let button_cmds = self.buttons[i].draw();
            crate::space_scene::push_all_commands(&mut cmds, &button_cmds);
            proof {
                assert(cmds@ =~= head + buttons_draw_list(bs.take(i + 1)));
            }
            i += 1;
        }
        proof {
            assert(bs.take(bs.len() as int) =~= bs);
            assert(cmds@ =~= game_over_draw_list(*self, viewport_w));
        }
        cmds
    }
}

} // verus!
