//! The main menu: a title and two buttons, Play and Quit.

use vstd::prelude::*;
use crate::button::{
    Button, button_after_hover_pass, button_after_input, button_draw_list, button_wf,
    buttons_draw_list, hover_sound_count,
};
use crate::commands::{
    AssetRequest, DrawCommand, EventKind, MusicAction, SceneKind, SoundId, TextAnchor, TextContent,
    repeated_sound,
};
use crate::geom::{COORD_LIMIT, Colour, in_range};
use crate::input::{InputState, SCANCODE_ESCAPE};

verus! {

pub struct MainMenuScene {
    pub font_index: usize,
    pub buttons: Vec<Button>,
    pub is_done: bool,
}

pub open spec fn menu_wf(s: MainMenuScene) -> bool {
    forall|i: int| 0 <= i < s.buttons@.len() ==> button_wf(#[trigger] s.buttons@[i])
}

/// What one frame of menu input does: Escape latches the done flag, and
/// every button's interaction state is recomputed from the cursor.
pub open spec fn menu_input_rel(s0: MainMenuScene, s1: MainMenuScene, input: InputState) -> bool {
    &&& s1.is_done == (s0.is_done || input.key_down(SCANCODE_ESCAPE))
    &&& s1.buttons@.len() == s0.buttons@.len()
    &&& forall|i: int|
        0 <= i < s0.buttons@.len() ==> #[trigger] s1.buttons@[i] == button_after_input(
            s0.buttons@[i],
            input,
        )
    &&& s1.font_index == s0.font_index
}

/// What one frame of the menu's update does: first-hover sounds fire and
/// latch, a click on Play ends the scene with a combat scene queued, a
/// click on Quit ends the scene with nothing queued.
pub open spec fn menu_update_rel(
    s0: MainMenuScene,
    s1: MainMenuScene,
    queue0: Seq<SceneKind>,
    queue1: Seq<SceneKind>,
    sounds: Seq<SoundId>,
) -> bool {
    let bs = s0.buttons@;
    let play_clicked = bs.len() > 0 && bs[0].is_clicked;
    let quit_clicked = bs.len() > 0 && bs[bs.len() - 1].is_clicked;
    &&& s1.buttons@.len() == bs.len()
    &&& forall|i: int|
        0 <= i < bs.len() ==> #[trigger] s1.buttons@[i] == button_after_hover_pass(bs[i])
    &&& s1.is_done == (s0.is_done || play_clicked || quit_clicked)
    &&& s1.font_index == s0.font_index
    &&& queue1 == (if play_clicked {
        queue0.push(SceneKind::Combat)
    } else {
        queue0
    })
    &&& sounds == repeated_sound(hover_sound_count(bs), SoundId::ButtonHover) + (if play_clicked {
        seq![SoundId::ButtonSelect]
    } else {
        Seq::empty()
    }) + (if quit_clicked {
        seq![SoundId::ButtonSelect]
    } else {
        Seq::empty()
    })
}

/// The music requests a window event provokes.
pub open spec fn focus_music_actions(event: EventKind) -> Seq<MusicAction> {
    if event == EventKind::FocusGained || event == EventKind::Restored {
        seq![MusicAction::ResumeIfPaused]
    } else if event == EventKind::FocusLost || event == EventKind::Minimised {
        seq![MusicAction::PauseIfPlaying]
    } else {
        Seq::empty()
    }
}

/// The menu's full ordered draw list: clear, title, buttons.
pub open spec fn menu_draw_list(s: MainMenuScene, viewport_w: i64) -> Seq<DrawCommand> {
    seq![
        DrawCommand::Clear { colour: Colour { red: 10, green: 10, blue: 10 } },
        DrawCommand::Text {
            content: TextContent::Title,
            colour: Colour { red: 255, green: 255, blue: 255 },
            anchor: TextAnchor::CentredAt { x: (viewport_w / 2) as i64, y: 128_000 },
            scale_percent: 100,
        },
    ] + buttons_draw_list(s.buttons@)
}

impl MainMenuScene {
    pub fn new() -> (s: MainMenuScene)
        ensures
            s.font_index == 0,
            s.buttons@.len() == 0,
            !s.is_done,
            menu_wf(s),
    {
        MainMenuScene { font_index: 0, buttons: Vec::new(), is_done: false }
    }

    pub fn is_done(&self) -> (r: bool)
        ensures
            r == self.is_done,
    {
        self.is_done
    }

    /// Request the menu's assets: no textures, one font, its music.
    pub fn on_load(&mut self, _previous_scene_payload: Option<i64>) -> (r: AssetRequest)
        ensures
            *final(self) == (MainMenuScene { font_index: 0, ..*old(self) }),
            r.textures@.len() == 0,
            r.fonts@.len() == 1,
            r.fonts@[0]@ == "Recursive.ttf"@,
            r.music is Some,
            r.music.unwrap()@ == "Chill Wave.mp3"@,
    {
        self.font_index = 0;
        let mut fonts: Vec<&'static str> = Vec::new();
        fonts.push("Recursive.ttf");
        AssetRequest { textures: Vec::new(), fonts, music: Some("Chill Wave.mp3") }
    }

    /// Build the Play and Quit buttons in the middle of the field and
    /// start the music.
    pub fn on_late_load(
        &mut self,
        viewport_w: i64,
        viewport_h: i64,
        _texture_sizes: &Vec<(i64, i64)>,
    ) -> (music: Vec<MusicAction>)
        requires
            0 <= viewport_w <= COORD_LIMIT,
            0 <= viewport_h <= COORD_LIMIT,
        ensures
            final(self).buttons@.len() == 2,
            ({
                let play = final(self).buttons@[0];
                &&& play.midpoint.0 == viewport_w / 2 && play.midpoint.1 == viewport_h / 2
                &&& play.rect.w == 400_000
                &&& play.rect.h == 150_000
                &&& play.rect.x == viewport_w / 2 - 200_000
                &&& play.rect.y == viewport_h / 2 - 75_000
                &&& play.text@ == "Play"@
                &&& play.text_scale_percent == 75
                &&& !play.is_hovered && !play.is_clicked && !play.played_enter_sound
                &&& play.background_colour == (Colour { red: 255, green: 255, blue: 0 })
                &&& play.hovered_background_colour == (Colour { red: 0, green: 255, blue: 0 })
                &&& play.clicked_background_colour == (Colour { red: 255, green: 255, blue: 255 })
                &&& play.text_colour == (Colour { red: 0, green: 0, blue: 0 })
            }),
            ({
                let quit = final(self).buttons@[1];
                &&& quit.midpoint.0 == viewport_w / 2 && quit.midpoint.1 == viewport_h / 4 * 3
                &&& quit.rect.w == 400_000
                &&& quit.rect.h == 150_000
                &&& quit.text@ == "Quit"@
                &&& quit.text_scale_percent == 75
                &&& !quit.is_hovered && !quit.is_clicked && !quit.played_enter_sound
                &&& quit.background_colour == (Colour { red: 255, green: 255, blue: 0 })
                &&& quit.hovered_background_colour == (Colour { red: 0, green: 255, blue: 0 })
                &&& quit.clicked_background_colour == (Colour { red: 255, green: 0, blue: 0 })
                &&& quit.text_colour == (Colour { red: 0, green: 0, blue: 0 })
            }),
            final(self).font_index == old(self).font_index,
            final(self).is_done == old(self).is_done,
            music@ == seq![MusicAction::Play],
            menu_wf(*final(self)),
    {
        self.buttons = Vec::new();
        let mut play = Button::new(viewport_w / 2, viewport_h / 2, 400_000, 150_000, "Play", 75);
        play.set_colours(
            Colour { red: 0, green: 0, blue: 0 },
            Colour { red: 0, green: 0, blue: 0 },
            Colour { red: 0, green: 0, blue: 0 },
            Colour { red: 255, green: 255, blue: 0 },
            Colour { red: 0, green: 255, blue: 0 },
            Colour { red: 255, green: 255, blue: 255 },
        );
        self.buttons.push(play);
        let mut quit = Button::new(
            viewport_w / 2,
            viewport_h / 4 * 3,
            400_000,
            150_000,
            "Quit",
            75,
        );
        quit.set_colours(
            Colour { red: 0, green: 0, blue: 0 },
            Colour { red: 0, green: 0, blue: 0 },
            Colour { red: 0, green: 0, blue: 0 },
            Colour { red: 255, green: 255, blue: 0 },
            Colour { red: 0, green: 255, blue: 0 },
            Colour { red: 255, green: 0, blue: 0 },
        );
        self.buttons.push(quit);
        let mut music: Vec<MusicAction> = Vec::new();
        music.push(MusicAction::Play);
        proof {
            assert(music@ =~= seq![MusicAction::Play]);
        }
        music
    }

    /// Nothing to hand on; stop the music.
    pub fn on_unload(&mut self) -> (r: (Option<i64>, Vec<MusicAction>))
        ensures
            *final(self) == *old(self),
            r.0 is None,
            r.1@ == seq![MusicAction::Halt],
    {
        let mut music: Vec<MusicAction> = Vec::new();
        music.push(MusicAction::Halt);
        proof {
            assert(music@ =~= seq![MusicAction::Halt]);
        }
        (None, music)
    }

    /// Window focus only drives the music here.
    pub fn poll_event(&mut self, event: EventKind) -> (music: Vec<MusicAction>)
        ensures
            *final(self) == *old(self),
            music@ == focus_music_actions(event),
    {
        let mut music: Vec<MusicAction> = Vec::new();
        match event {
            EventKind::FocusGained | EventKind::Restored => {
                music.push(MusicAction::ResumeIfPaused);
                proof {
                    assert(music@ =~= seq![MusicAction::ResumeIfPaused]);
                }
            },
            EventKind::FocusLost | EventKind::Minimised => {
                music.push(MusicAction::PauseIfPlaying);
                proof {
                    assert(music@ =~= seq![MusicAction::PauseIfPlaying]);
                }
            },
            _ => {},
        }
        music
    }

    #[verifier::loop_isolation(false)]
    pub fn process_input(&mut self, input_state: &InputState)
        requires
            menu_wf(*old(self)),
            in_range(input_state.mouse_x as int),
            in_range(input_state.mouse_y as int),
        ensures
            menu_input_rel(*old(self), *final(self), *input_state),
            menu_wf(*final(self)),
    {
        if input_state.is_key_down(SCANCODE_ESCAPE) {
            self.is_done = true;
        }
        let ghost bs0 = self.buttons@;
        let ghost done1 = self.is_done;
        let ghost font1 = self.font_index;
        let mut i: usize = 0;
        while i < self.buttons.len()
            invariant
                i <= bs0.len(),
                self.buttons@.len() == bs0.len(),
                forall|j: int| 0 <= j < bs0.len() ==> button_wf(#[trigger] bs0[j]),
                forall|j: int|
                    0 <= j < i ==> #[trigger] self.buttons@[j] == button_after_input(
                        bs0[j],
                        *input_state,
                    ),
                forall|j: int| i <= j < bs0.len() ==> self.buttons@[j] == bs0[j],
                self.is_done == done1,
                self.font_index == font1,
            decreases bs0.len() - i,
        {
            let mut b = self.buttons[i];
            proof {
                assert(self.buttons@[i as int] == bs0[i as int]);
            }
            b.is_hovered = false;
            b.is_clicked = false;
            proof {
                assert(button_wf(b));
            }
            if b.is_mouse_over(input_state) {
                b.is_hovered = true;
                if input_state.is_mouse_button_down(crate::input::MOUSE_BUTTON_LEFT) {
                    b.is_clicked = true;
                }
            } else if b.played_enter_sound {
                b.played_enter_sound = false;
            }
            proof {
                assert(b == button_after_input(bs0[i as int], *input_state));
            }
            self.buttons[i] = b;
            i += 1;
        }
    }

    /// Hover sounds, then the Play and Quit click decisions.
    #[verifier::loop_isolation(false)]
    pub fn update(&mut self, _delta_time: u32, scene_queue: &mut Vec<SceneKind>) -> (sounds: Vec<
        SoundId,
    >)
        requires
            menu_wf(*old(self)),
        ensures
            menu_update_rel(
                *old(self),
                *final(self),
                old(scene_queue)@,
                final(scene_queue)@,
                sounds@,
            ),
            menu_wf(*final(self)),
    {
        let ghost bs0 = self.buttons@;
        let mut sounds: Vec<SoundId> = Vec::new();
        proof {
            assert(bs0.take(0) =~= Seq::<Button>::empty());
            assert(Seq::<SoundId>::empty() + repeated_sound(0, SoundId::ButtonHover)
                =~= sounds@);
        }
        let mut i: usize = 0;
        while i < self.buttons.len()
            invariant
                i <= bs0.len(),
                self.buttons@.len() == bs0.len(),
                forall|j: int| 0 <= j < bs0.len() ==> button_wf(#[trigger] bs0[j]),
                forall|j: int|
                    0 <= j < i ==> #[trigger] self.buttons@[j] == button_after_hover_pass(bs0[j]),
                forall|j: int| i <= j < bs0.len() ==> self.buttons@[j] == bs0[j],
                self.is_done == old(self).is_done,
                self.font_index == old(self).font_index,
                sounds@ == repeated_sound(
                    hover_sound_count(bs0.take(i as int)),
                    SoundId::ButtonHover,
                ),
            decreases bs0.len() - i,
        {
            let mut b = self.buttons[i];
            let ghost done = hover_sound_count(bs0.take(i as int));
            proof {
                assert(bs0.take(i + 1).drop_last() =~= bs0.take(i as int));
                assert(bs0.take(i + 1).last() == bs0[i as int]);
            }
            if b.is_hovered && !b.played_enter_sound {
                sounds.push(SoundId::ButtonHover);
                b.played_enter_sound = true;
                proof {
                    assert(repeated_sound(done + 1, SoundId::ButtonHover) =~= repeated_sound(
                        done,
                        SoundId::ButtonHover,
                    ).push(SoundId::ButtonHover));
                }
            }
            proof {
                assert(b == button_after_hover_pass(bs0[i as int]));
            }
            self.buttons[i] = b;
            i += 1;
        }
        proof {
            assert(bs0.take(bs0.len() as int) =~= bs0);
        }
        let ghost hover_sounds = sounds@;

        if self.buttons.len() > 0 {
            let play_clicked = self.buttons[0].is_clicked;
            let quit_clicked = self.buttons[self.buttons.len() - 1].is_clicked;
            if play_clicked {
                self.is_done = true;
                scene_queue.push(SceneKind::Combat);
                sounds.push(SoundId::ButtonSelect);
            }
            if quit_clicked {
                self.is_done = true;
                sounds.push(SoundId::ButtonSelect);
            }
            proof {
                if play_clicked {
                    if quit_clicked {
                        assert(sounds@ =~= hover_sounds + seq![SoundId::ButtonSelect] + seq![
                            SoundId::ButtonSelect,
                        ]);
                    } else {
                        assert(sounds@ =~= hover_sounds + seq![SoundId::ButtonSelect]
                            + Seq::empty());
                    }
                } else {
                    if quit_clicked {
                        assert(sounds@ =~= hover_sounds + Seq::empty() + seq![
                            SoundId::ButtonSelect,
                        ]);
                    } else {
                        assert(sounds@ =~= hover_sounds + Seq::empty() + Seq::empty());
                    }
                }
            }
        } else {
            proof {
                assert(sounds@ =~= hover_sounds + Seq::empty() + Seq::empty());
            }
        }
        sounds
    }

    /// The menu's full ordered draw list.
    pub fn draw(&self, viewport_w: i64) -> (cmds: Vec<DrawCommand>)
        requires
            0 <= viewport_w,
        ensures
            cmds@ == menu_draw_list(*self, viewport_w),
    {
        let mut cmds: Vec<DrawCommand> = Vec::new();
        cmds.push(DrawCommand::Clear { colour: Colour { red: 10, green: 10, blue: 10 } });
        cmds.push(
            DrawCommand::Text {
                content: TextContent::Title,
                colour: Colour { red: 255, green: 255, blue: 255 },
                anchor: TextAnchor::CentredAt { x: viewport_w / 2, y: 128_000 },
                scale_percent: 100,
            },
        );
        let ghost head = cmds@;
        let ghost bs = self.buttons@;
        proof {
            assert(head.len() == 2);
            assert(head[0] == (DrawCommand::Clear {
                colour: Colour { red: 10, green: 10, blue: 10 },
            }));
            assert(head[1] == (DrawCommand::Text {
                content: TextContent::Title,
                colour: Colour { red: 255, green: 255, blue: 255 },
                anchor: TextAnchor::CentredAt { x: (viewport_w / 2) as i64, y: 128_000 },
                scale_percent: 100,
            }));
            assert(head =~= seq![
                DrawCommand::Clear { colour: Colour { red: 10, green: 10, blue: 10 } },
                DrawCommand::Text {
                    content: TextContent::Title,
                    colour: Colour { red: 255, green: 255, blue: 255 },
                    anchor: TextAnchor::CentredAt { x: (viewport_w / 2) as i64, y: 128_000 },
                    scale_percent: 100,
                },
            ]);
            assert(bs.take(0) =~= Seq::<Button>::empty());
            assert(head + buttons_draw_list(bs.take(0)) =~= head);
        }
        let mut i: usize = 0;
        while i < self.buttons.len()
            invariant
                i <= bs.len(),
                self.buttons@ == bs,
                cmds@ == head + buttons_draw_list(bs.take(i as int)),
            decreases bs.len() - i,
        {
            proof {
                assert(bs.take(i + 1).drop_last() =~= bs.take(i as int));
                assert(bs.take(i + 1).last() == bs[i as int]);
            }
            let button_cmds = self.buttons[i].draw();
            crate::space_scene::push_all_commands(&mut cmds, &button_cmds);
            proof {
                assert(cmds@ =~= head + buttons_draw_list(bs.take(i + 1)));
            }
            i += 1;
        }
        proof {
            assert(bs.take(bs.len() as int) =~= bs);
            assert(cmds@ =~= menu_draw_list(*self, viewport_w));
        }
        cmds
    }
}

} // verus!
