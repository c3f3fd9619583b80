//! Per-frame input snapshots and edge-triggered queries.
//!
//! An `InputState` pairs the current raw pressed-key and pressed-button
//! samples with the previous frame's samples, so that "down" and "up"
//! queries are true exactly on the transition frame. Every query is a pure
//! function of the two snapshots.

use vstd::prelude::*;

verus! {

/// Keyboard scancodes (USB HID usage values) for the keys the game reads.
pub const SCANCODE_A: i32 = 4;

pub const SCANCODE_D: i32 = 7;

pub const SCANCODE_ESCAPE: i32 = 41;

pub const SCANCODE_SPACE: i32 = 44;

pub const SCANCODE_F11: i32 = 68;

pub const SCANCODE_RIGHT: i32 = 79;

pub const SCANCODE_LEFT: i32 = 80;

/// The platform's number for the left mouse button.
pub const MOUSE_BUTTON_LEFT: u8 = 1;

/// A one-frame input snapshot: current and previous pressed sets, cursor
/// position in subpixel units, and this frame's scroll delta.
#[derive(Debug)]
pub struct InputState {
    pub current_keys: Vec<i32>,
    pub previous_keys: Vec<i32>,
    pub current_mouse_buttons: Vec<u8>,
    pub previous_mouse_buttons: Vec<u8>,
    pub mouse_x: i64,
    pub mouse_y: i64,
    pub mouse_y_scroll: i32,
}

fn contains_i32(v: &Vec<i32>, x: i32) -> (r: bool)
    ensures
        r == v@.contains(x),
{
    let mut i: usize = 0;
    while i < v.len()
        invariant
            i <= v@.len(),
            forall|j: int| 0 <= j < i ==> v@[j] != x,
        decreases v@.len() - i,
    {
        if v[i] == x {
            return true;
        }
        i += 1;
    }
    false
}

fn contains_u8(v: &Vec<u8>, x: u8) -> (r: bool)
    ensures
        r == v@.contains(x),
{
    let mut i: usize = 0;
    while i < v.len()
        invariant
            i <= v@.len(),
            forall|j: int| 0 <= j < i ==> v@[j] != x,
        decreases v@.len() - i,
    {
        if v[i] == x {
            return true;
        }
        i += 1;
    }
    false
}

impl InputState {
    /// The key is held in the current snapshot.
    pub open spec fn key_pressed(self, scancode: i32) -> bool {
        self.current_keys@.contains(scancode)
    }

    /// The key is held now and was not held in the previous snapshot.
    pub open spec fn key_down(self, scancode: i32) -> bool {
        self.current_keys@.contains(scancode) && !self.previous_keys@.contains(scancode)
    }

    /// The key is not held now and was held in the previous snapshot.
    pub open spec fn key_up(self, scancode: i32) -> bool {
        !self.current_keys@.contains(scancode) && self.previous_keys@.contains(scancode)
    }

    /// The mouse button is held in the current snapshot.
    pub open spec fn mouse_button_pressed(self, button: u8) -> bool {
        self.current_mouse_buttons@.contains(button)
    }

    /// The mouse button is held now and was not held in the previous
    /// snapshot.
    pub open spec fn mouse_button_down(self, button: u8) -> bool {
        self.current_mouse_buttons@.contains(button) && !self.previous_mouse_buttons@.contains(
            button,
        )
    }

    /// The mouse button is not held now and was held in the previous
    /// snapshot.
    pub open spec fn mouse_button_up(self, button: u8) -> bool {
        !self.current_mouse_buttons@.contains(button) && self.previous_mouse_buttons@.contains(
            button,
        )
    }

    pub fn new(
        current_keys: Vec<i32>,
        previous_keys: Vec<i32>,
        current_mouse_buttons: Vec<u8>,
        previous_mouse_buttons: Vec<u8>,
        mouse_coordinates: (i64, i64),
        mouse_y_scroll: i32,
    ) -> (s: InputState)
        ensures
            s.current_keys == current_keys,
            s.previous_keys == previous_keys,
            s.current_mouse_buttons == current_mouse_buttons,
            s.previous_mouse_buttons == previous_mouse_buttons,
            s.mouse_x == mouse_coordinates.0,
            s.mouse_y == mouse_coordinates.1,
            s.mouse_y_scroll == mouse_y_scroll,
    {
        InputState {
            current_keys,
            previous_keys,
            current_mouse_buttons,
            previous_mouse_buttons,
            mouse_x: mouse_coordinates.0,
            mouse_y: mouse_coordinates.1,
            mouse_y_scroll,
        }
    }

    pub fn is_key_pressed(&self, scancode: i32) -> (r: bool)
        ensures
            r == self.key_pressed(scancode),
    {
        contains_i32(&self.current_keys, scancode)
    }

    pub fn is_any_key_pressed(&self, scancodes: &[i32]) -> (r: bool)
        ensures
            r == exists|i: int| 0 <= i < scancodes@.len() && self.key_pressed(scancodes@[i]),
    {
        let mut i: usize = 0;
        while i < scancodes.len()
            invariant
                i <= scancodes@.len(),
                forall|j: int| 0 <= j < i ==> !self.key_pressed(scancodes@[j]),
            decreases scancodes@.len() - i,
        {
            if self.is_key_pressed(scancodes[i]) {
                return true;
            }
            i += 1;
        }
        false
    }

    pub fn are_all_keys_pressed(&self, scancodes: &[i32]) -> (r: bool)
        ensures
            r == forall|i: int| 0 <= i < scancodes@.len() ==> self.key_pressed(scancodes@[i]),
    {
        let mut i: usize = 0;
        while i < scancodes.len()
            invariant
                i <= scancodes@.len(),
                forall|j: int| 0 <= j < i ==> self.key_pressed(scancodes@[j]),
            decreases scancodes@.len() - i,
        {
            if !self.is_key_pressed(scancodes[i]) {
                return false;
            }
            i += 1;
        }
        true
    }

    pub fn is_key_down(&self, scancode: i32) -> (r: bool)
        ensures
            r == self.key_down(scancode),
    {
        contains_i32(&self.current_keys, scancode) && !contains_i32(&self.previous_keys, scancode)
    }

    pub fn is_any_key_down(&self, scancodes: &[i32]) -> (r: bool)
        ensures
            r == exists|i: int| 0 <= i < scancodes@.len() && self.key_down(scancodes@[i]),
    {
        let mut i: usize = 0;
        while i < scancodes.len()
            invariant
                i <= scancodes@.len(),
                forall|j: int| 0 <= j < i ==> !self.key_down(scancodes@[j]),
            decreases scancodes@.len() - i,
        {
            if self.is_key_down(scancodes[i]) {
                return true;
            }
            i += 1;
        }
        false
    }

    pub fn are_all_keys_down(&self, scancodes: &[i32]) -> (r: bool)
        ensures
            r == forall|i: int| 0 <= i < scancodes@.len() ==> self.key_down(scancodes@[i]),
    {
        let mut i: usize = 0;
        while i < scancodes.len()
            invariant
                i <= scancodes@.len(),
                forall|j: int| 0 <= j < i ==> self.key_down(scancodes@[j]),
            decreases scancodes@.len() - i,
        {
            if !self.is_key_down(scancodes[i]) {
                return false;
            }
            i += 1;
        }
        true
    }

    pub fn is_key_up(&self, scancode: i32) -> (r: bool)
        ensures
            r == self.key_up(scancode),
    {
        !contains_i32(&self.current_keys, scancode) && contains_i32(&self.previous_keys, scancode)
    }

    pub fn is_any_key_up(&self, scancodes: &[i32]) -> (r: bool)
        ensures
            r == exists|i: int| 0 <= i < scancodes@.len() && self.key_up(scancodes@[i]),
    {
        let mut i: usize = 0;
        while i < scancodes.len()
            invariant
                i <= scancodes@.len(),
                forall|j: int| 0 <= j < i ==> !self.key_up(scancodes@[j]),
            decreases scancodes@.len() - i,
        {
            if self.is_key_up(scancodes[i]) {
                return true;
            }
            i += 1;
        }
        false
    }

    pub fn are_all_keys_up(&self, scancodes: &[i32]) -> (r: bool)
        ensures
            r == forall|i: int| 0 <= i < scancodes@.len() ==> self.key_up(scancodes@[i]),
    {
        let mut i: usize = 0;
        while i < scancodes.len()
            invariant
                i <= scancodes@.len(),
                forall|j: int| 0 <= j < i ==> self.key_up(scancodes@[j]),
            decreases scancodes@.len() - i,
        {
            if !self.is_key_up(scancodes[i]) {
                return false;
            }
            i += 1;
        }
        true
    }

    pub fn is_mouse_button_pressed(&self, button: u8) -> (r: bool)
        ensures
            r == self.mouse_button_pressed(button),
    {
        contains_u8(&self.current_mouse_buttons, button)
    }

    pub fn is_any_mouse_button_pressed(&self, buttons: &[u8]) -> (r: bool)
        ensures
            r == exists|i: int| 0 <= i < buttons@.len() && self.mouse_button_pressed(buttons@[i]),
    {
        let mut i: usize = 0;
        while i < buttons.len()
            invariant
                i <= buttons@.len(),
                forall|j: int| 0 <= j < i ==> !self.mouse_button_pressed(buttons@[j]),
            decreases buttons@.len() - i,
        {
            if self.is_mouse_button_pressed(buttons[i]) {
                return true;
            }
            i += 1;
        }
        false
    }

    pub fn are_all_mouse_buttons_pressed(&self, buttons: &[u8]) -> (r: bool)
        ensures
            r == forall|i: int| 0 <= i < buttons@.len() ==> self.mouse_button_pressed(buttons@[i]),
    {
        let mut i: usize = 0;
        while i < buttons.len()
            invariant
                i <= buttons@.len(),
                forall|j: int| 0 <= j < i ==> self.mouse_button_pressed(buttons@[j]),
            decreases buttons@.len() - i,
        {
            if !self.is_mouse_button_pressed(buttons[i]) {
                return false;
            }
            i += 1;
        }
        true
    }

    pub fn is_mouse_button_down(&self, button: u8) -> (r: bool)
        ensures
            r == self.mouse_button_down(button),
    {
        contains_u8(&self.current_mouse_buttons, button) && !contains_u8(
            &self.previous_mouse_buttons,
            button,
        )
    }

    pub fn is_any_mouse_button_down(&self, buttons: &[u8]) -> (r: bool)
        ensures
            r == exists|i: int| 0 <= i < buttons@.len() && self.mouse_button_down(buttons@[i]),
    {
        let mut i: usize = 0;
        while i < buttons.len()
            invariant
                i <= buttons@.len(),
                forall|j: int| 0 <= j < i ==> !self.mouse_button_down(buttons@[j]),
            decreases buttons@.len() - i,
        {
            if self.is_mouse_button_down(buttons[i]) {
                return true;
            }
            i += 1;
        }
        false
    }

    pub fn are_all_mouse_buttons_down(&self, buttons: &[u8]) -> (r: bool)
        ensures
            r == forall|i: int| 0 <= i < buttons@.len() ==> self.mouse_button_down(buttons@[i]),
    {
        let mut i: usize = 0;
        while i < buttons.len()
            invariant
                i <= buttons@.len(),
                forall|j: int| 0 <= j < i ==> self.mouse_button_down(buttons@[j]),
            decreases buttons@.len() - i,
        {
            if !self.is_mouse_button_down(buttons[i]) {
                return false;
            }
            i += 1;
        }
        true
    }

    pub fn is_mouse_button_up(&self, button: u8) -> (r: bool)
        ensures
            r == self.mouse_button_up(button),
    {
        !contains_u8(&self.current_mouse_buttons, button) && contains_u8(
            &self.previous_mouse_buttons,
            button,
        )
    }

    pub fn is_any_mouse_button_up(&self, buttons: &[u8]) -> (r: bool)
        ensures
            r == exists|i: int| 0 <= i < buttons@.len() && self.mouse_button_up(buttons@[i]),
    {
        let mut i: usize = 0;
        while i < buttons.len()
            invariant
                i <= buttons@.len(),
                forall|j: int| 0 <= j < i ==> !self.mouse_button_up(buttons@[j]),
            decreases buttons@.len() - i,
        {
            if self.is_mouse_button_up(buttons[i]) {
                return true;
            }
            i += 1;
        }
        false
    }

    pub fn are_all_mouse_buttons_up(&self, buttons: &[u8]) -> (r: bool)
        ensures
            r == forall|i: int| 0 <= i < buttons@.len() ==> self.mouse_button_up(buttons@[i]),
    {
        let mut i: usize = 0;
        while i < buttons.len()
            invariant
                i <= buttons@.len(),
                forall|j: int| 0 <= j < i ==> self.mouse_button_up(buttons@[j]),
            decreases buttons@.len() - i,
        {
            if !self.is_mouse_button_up(buttons[i]) {
                return false;
            }
            i += 1;
        }
        true
    }
}

/// Edge queries are pure functions of the two snapshots: any two results
/// of `is_key_down` for the same snapshots and the same key in the same
/// frame are equal.
pub proof fn lemma_key_down_idempotent(s: InputState, scancode: i32, first: bool, second: bool)
    requires
        first == s.key_down(scancode),
        second == s.key_down(scancode),
    ensures
        first == second,
{
}

} // verus!
