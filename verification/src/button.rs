//! Clickable menu buttons.
//!
//! A button is a rectangle with a label and three mutually exclusive
//! visual states (normal, hovered, clicked), recomputed every frame from
//! cursor containment and the left-button edge query. Clicking is
//! edge-triggered, and the first frame of a continuous hover requests a
//! hover sound exactly once.

use vstd::prelude::*;
use crate::commands::{DrawCommand, TextAnchor, TextContent};
use crate::geom::{COORD_LIMIT, Colour, Rect, contains_point, in_range, rect_contains_point, rect_from_centre, rect_wf};
use crate::input::{InputState, MOUSE_BUTTON_LEFT};

verus! {

/// A menu button: its rectangle and midpoint in subpixel units, its
/// label and label scale, its interaction state, and its colours per
/// state.
#[derive(Clone, Copy, PartialEq, Eq, Debug)]
pub struct Button {
    pub rect: Rect,
    pub midpoint: (i64, i64),
    pub text: &'static str,
    pub text_scale_percent: u32,
    pub is_hovered: bool,
    pub is_clicked: bool,
    pub played_enter_sound: bool,
    pub text_colour: Colour,
    pub hovered_text_colour: Colour,
    pub clicked_text_colour: Colour,
    pub background_colour: Colour,
    pub hovered_background_colour: Colour,
    pub clicked_background_colour: Colour,
}

pub open spec fn button_wf(b: Button) -> bool {
    rect_wf(b.rect)
}

impl Button {
    pub fn new(
        x: i64,
        y: i64,
        width: i64,
        height: i64,
        text: &'static str,
        text_scale_percent: u32,
    ) -> (b: Button)
        requires
            in_range(x as int),
            in_range(y as int),
            0 <= width <= COORD_LIMIT,
            0 <= height <= COORD_LIMIT,
        ensures
            b.rect.x == x - width / 2,
            b.rect.y == y - height / 2,
            b.rect.w == width,
            b.rect.h == height,
            b.midpoint == (x, y),
            b.text == text,
            b.text_scale_percent == text_scale_percent,
            !b.is_hovered,
            !b.is_clicked,
            !b.played_enter_sound,
            b.text_colour == (Colour { red: 0, green: 0, blue: 0 }),
            b.hovered_text_colour == (Colour { red: 0, green: 0, blue: 0 }),
            b.clicked_text_colour == (Colour { red: 0, green: 0, blue: 0 }),
            b.background_colour == (Colour { red: 255, green: 255, blue: 255 }),
            b.hovered_background_colour == (Colour { red: 255, green: 255, blue: 255 }),
            b.clicked_background_colour == (Colour { red: 255, green: 255, blue: 255 }),
            button_wf(b),
    {
        Button {
            rect: rect_from_centre(x, y, width, height),
            midpoint: (x, y),
            text,
            text_scale_percent,
            is_hovered: false,
            is_clicked: false,
            played_enter_sound: false,
            text_colour: Colour { red: 0, green: 0, blue: 0 },
            hovered_text_colour: Colour { red: 0, green: 0, blue: 0 },
            clicked_text_colour: Colour { red: 0, green: 0, blue: 0 },
            background_colour: Colour { red: 255, green: 255, blue: 255 },
            hovered_background_colour: Colour { red: 255, green: 255, blue: 255 },
            clicked_background_colour: Colour { red: 255, green: 255, blue: 255 },
        }
    }

    /// Re-centre the button, keeping its size where no new one is given.
    pub fn set_position(&mut self, x: i64, y: i64, width: Option<i64>, height: Option<i64>)
        requires
            in_range(x as int),
            in_range(y as int),
            match width {
                Some(w) => 0 <= w <= COORD_LIMIT,
                None => button_wf(*old(self)),
            },
            match height {
                Some(h) => 0 <= h <= COORD_LIMIT,
                None => button_wf(*old(self)),
            },
        ensures
            ({
                let w = match width {
                    Some(w) => w as int,
                    None => old(self).rect.w as int,
                };
                let h = match height {
                    Some(h) => h as int,
                    None => old(self).rect.h as int,
                };
                &&& final(self).rect.x == x - w / 2
                &&& final(self).rect.y == y - h / 2
                &&& final(self).rect.w == w
                &&& final(self).rect.h == h
                &&& final(self).midpoint == (x, y)
            }),
            *final(self) == (Button {
                rect: final(self).rect,
                midpoint: final(self).midpoint,
                ..*old(self)
            }),
            button_wf(*final(self)),
    {
        let w = match width {
            Some(w) => w,
            None => self.rect.w,
        };
        let h = match height {
            Some(h) => h,
            None => self.rect.h,
        };
        self.rect = rect_from_centre(x, y, w, h);
        self.midpoint = (x, y);
    }

    pub fn set_colours(
        &mut self,
        text_colour: Colour,
        hovered_text_colour: Colour,
        clicked_text_colour: Colour,
        background_colour: Colour,
        hovered_background_colour: Colour,
        clicked_background_colour: Colour,
    )
        ensures
            *final(self) == (Button {
                text_colour,
                hovered_text_colour,
                clicked_text_colour,
                background_colour,
                hovered_background_colour,
                clicked_background_colour,
                ..*old(self)
            }),
    {
        self.text_colour = text_colour;
        self.hovered_text_colour = hovered_text_colour;
        self.clicked_text_colour = clicked_text_colour;
        self.background_colour = background_colour;
        self.hovered_background_colour = hovered_background_colour;
        self.clicked_background_colour = clicked_background_colour;
    }

    pub fn is_mouse_over(&self, input_state: &InputState) -> (r: bool)
        requires
            button_wf(*self),
            in_range(input_state.mouse_x as int),
            in_range(input_state.mouse_y as int),
        ensures
            r == rect_contains_point(
                self.rect,
                input_state.mouse_x as int,
                input_state.mouse_y as int,
            ),
    {
        contains_point(&self.rect, input_state.mouse_x, input_state.mouse_y)
    }

    /// The button's fill and label, coloured by its interaction state.
    pub fn draw(&self) -> (cmds: Vec<DrawCommand>)
        ensures
            cmds@ == button_draw_list(*self),
    {
        let (text_colour, background_colour) = if self.is_clicked {
            (self.clicked_text_colour, self.clicked_background_colour)
        } else if self.is_hovered {
            (self.hovered_text_colour, self.hovered_background_colour)
        } else {
            (self.text_colour, self.background_colour)
        };
        let mut cmds: Vec<DrawCommand> = Vec::new();
        cmds.push(DrawCommand::FillRect { rect: self.rect, colour: background_colour });
        cmds.push(
            DrawCommand::Text {
                content: TextContent::Label(self.text),
                colour: text_colour,
                anchor: TextAnchor::CentredAt { x: self.midpoint.0, y: self.midpoint.1 },
                scale_percent: self.text_scale_percent,
            },
        );
        proof {
            assert(cmds@ =~= button_draw_list(*self));
        }
        cmds
    }
}

/// The label colour the button's state selects.
pub open spec fn active_text_colour(b: Button) -> Colour {
    if b.is_clicked {
        b.clicked_text_colour
    } else if b.is_hovered {
        b.hovered_text_colour
    } else {
        b.text_colour
    }
}

/// The fill colour the button's state selects.
pub open spec fn active_background_colour(b: Button) -> Colour {
    if b.is_clicked {
        b.clicked_background_colour
    } else if b.is_hovered {
        b.hovered_background_colour
    } else {
        b.background_colour
    }
}

/// The two draw commands of one button.
pub open spec fn button_draw_list(b: Button) -> Seq<DrawCommand> {
    seq![
        DrawCommand::FillRect { rect: b.rect, colour: active_background_colour(b) },
        DrawCommand::Text {
            content: TextContent::Label(b.text),
            colour: active_text_colour(b),
            anchor: TextAnchor::CentredAt { x: b.midpoint.0, y: b.midpoint.1 },
            scale_percent: b.text_scale_percent,
        },
    ]
}

/// A button's interaction state after one frame of input: hovered while
/// the cursor is inside, clicked on the left-button down edge while
/// hovered, and the hover-sound latch cleared the moment the cursor
/// leaves.
pub open spec fn button_after_input(b: Button, input: InputState) -> Button {
    let over = rect_contains_point(b.rect, input.mouse_x as int, input.mouse_y as int);
    Button {
        is_hovered: over,
        is_clicked: over && input.mouse_button_down(MOUSE_BUTTON_LEFT),
        played_enter_sound: over && b.played_enter_sound,
        ..b
    }
}

/// The button after the hover-sound pass: the latch is set once it is
/// hovered.
pub open spec fn button_after_hover_pass(b: Button) -> Button {
    Button { played_enter_sound: b.played_enter_sound || b.is_hovered, ..b }
}

/// The draw commands of a row of buttons, in order.
pub open spec fn buttons_draw_list(bs: Seq<Button>) -> Seq<DrawCommand>
    decreases bs.len(),
{
    if bs.len() == 0 {
        Seq::empty()
    } else {
        buttons_draw_list(bs.drop_last()) + button_draw_list(bs.last())
    }
}

/// How many buttons request a hover sound this frame: those hovered with
/// the latch still clear.
pub open spec fn hover_sound_count(bs: Seq<Button>) -> nat
    decreases bs.len(),
{
    if bs.len() == 0 {
        0
    } else {
        hover_sound_count(bs.drop_last()) + (if bs.last().is_hovered
            && !bs.last().played_enter_sound {
            1nat
        } else {
            0nat
        })
    }
}

} // verus!
