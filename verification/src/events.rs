//! Mouse and keyboard state as plain values.
//!
//! A mouse state is the 32-bit button mask that the windowing layer reports,
//! in which button `n` (counted from 1) owns bit `n - 1`. A keyboard state is
//! a table with one byte per key, non-zero while the key is held down.

use vstd::prelude::*;

verus! {

/// Number of the left mouse button.
pub const BUTTON_LEFT: u32 = 1;

/// Number of the middle mouse button.
pub const BUTTON_MIDDLE: u32 = 2;

/// Number of the right mouse button.
pub const BUTTON_RIGHT: u32 = 3;

/// Number of the first extra mouse button.
pub const BUTTON_X1: u32 = 4;

/// Number of the second extra mouse button.
pub const BUTTON_X2: u32 = 5;

/// A mouse button, or `Unknown` for a number that names none.
#[derive(Copy, Clone, Eq, PartialEq, Structural, Hash, Debug)]
pub enum MouseButton {
    Unknown,
    Left,
    Middle,
    Right,
    X1,
    X2,
}

impl MouseButton {
    /// The number of this button; `Unknown` has the number 0.
    pub open spec fn spec_number(self) -> u32 {
        match self {
            MouseButton::Unknown => 0,
            MouseButton::Left => BUTTON_LEFT,
            MouseButton::Middle => BUTTON_MIDDLE,
            MouseButton::Right => BUTTON_RIGHT,
            MouseButton::X1 => BUTTON_X1,
            MouseButton::X2 => BUTTON_X2,
        }
    }

    /// The button with the number `button`, `Unknown` if there is none.
    pub open spec fn spec_from_ll(button: u8) -> MouseButton {
        if button == BUTTON_LEFT {
            MouseButton::Left
        } else if button == BUTTON_MIDDLE {
            MouseButton::Middle
        } else if button == BUTTON_RIGHT {
            MouseButton::Right
        } else if button == BUTTON_X1 {
            MouseButton::X1
        } else if button == BUTTON_X2 {
            MouseButton::X2
        } else {
            MouseButton::Unknown
        }
    }

    /// Reads a button from its number as the windowing layer reports it.
    /// Numbers 1 to 5 name a button; every other number gives `Unknown`.
    pub fn from_ll(button: u8) -> (b: MouseButton)
        ensures
            b == Self::spec_from_ll(button),
            1 <= button <= 5 ==> b.spec_number() == button,
            !(1 <= button <= 5) ==> b == MouseButton::Unknown,
    {
        let n: u32 = button as u32;
        if n == BUTTON_LEFT {
            MouseButton::Left
        } else if n == BUTTON_MIDDLE {
            MouseButton::Middle
        } else if n == BUTTON_RIGHT {
            MouseButton::Right
        } else if n == BUTTON_X1 {
            MouseButton::X1
        } else if n == BUTTON_X2 {
            MouseButton::X2
        } else {
            MouseButton::Unknown
        }
    }

    /// The number of this button, 0 for `Unknown`.
    pub fn number(self) -> (n: u32)
        ensures
            n == self.spec_number(),
    {
        match self {
            MouseButton::Unknown => 0,
            MouseButton::Left => BUTTON_LEFT,
            MouseButton::Middle => BUTTON_MIDDLE,
            MouseButton::Right => BUTTON_RIGHT,
            MouseButton::X1 => BUTTON_X1,
            MouseButton::X2 => BUTTON_X2,
        }
    }
}

/// The mask with only the bit of button `button` set.
pub open spec fn spec_button_mask(button: u32) -> u32 {
    1u32 << ((button - 1) as u32)
}

/// Whether the bit of button `button` is set in `state`.
pub open spec fn spec_button_down(state: u32, button: u32) -> bool {
    state & spec_button_mask(button) != 0
}

/// The buttons that are held down, and the cursor position.
#[derive(Debug, Copy, Clone)]
pub struct MouseState {
    pub mouse_state: u32,
    pub x: i32,
    pub y: i32,
}

impl MouseState {
    /// A state with the button mask `state` and the cursor at the origin.
    pub fn from_sdl_state(state: u32) -> (m: MouseState)
        ensures
            m.mouse_state == state,
            m.x == 0,
            m.y == 0,
    {
        MouseState { mouse_state: state, x: 0, y: 0 }
    }

    /// The button mask of this state.
    pub fn to_sdl_state(&self) -> (state: u32)
        ensures
            state == self.mouse_state,
    {
        self.mouse_state
    }

    /// The mask with only the bit of button `button` set. Buttons are
    /// counted from 1 and a mask has room for 32 of them.
    pub fn button_mask(&self, button: u32) -> (mask: u32)
        requires
            1 <= button <= 32,
        ensures
            mask == spec_button_mask(button),
    {
        1u32 << (button - 1)
    }

    /// Whether the left button is held down.
    pub fn left(&self) -> (down: bool)
        ensures
            down == spec_button_down(self.mouse_state, BUTTON_LEFT),
            down == (self.mouse_state & 0x01 != 0),
    {
        proof {
            assert(1u32 << 0u32 == 0x01u32) by (bit_vector);
        }
        (self.mouse_state & self.button_mask(BUTTON_LEFT)) != 0
    }

    /// Whether the middle button is held down.
    pub fn middle(&self) -> (down: bool)
        ensures
            down == spec_button_down(self.mouse_state, BUTTON_MIDDLE),
            down == (self.mouse_state & 0x02 != 0),
    {
        proof {
            assert(1u32 << 1u32 == 0x02u32) by (bit_vector);
        }
        (self.mouse_state & self.button_mask(BUTTON_MIDDLE)) != 0
    }

    /// Whether the right button is held down.
    pub fn right(&self) -> (down: bool)
        ensures
            down == spec_button_down(self.mouse_state, BUTTON_RIGHT),
            down == (self.mouse_state & 0x04 != 0),
    {
        proof {
            assert(1u32 << 2u32 == 0x04u32) by (bit_vector);
        }
        (self.mouse_state & self.button_mask(BUTTON_RIGHT)) != 0
    }

    /// Whether the first extra button is held down.
    pub fn x1(&self) -> (down: bool)
        ensures
            down == spec_button_down(self.mouse_state, BUTTON_X1),
            down == (self.mouse_state & 0x08 != 0),
    {
        proof {
            assert(1u32 << 3u32 == 0x08u32) by (bit_vector);
        }
        (self.mouse_state & self.button_mask(BUTTON_X1)) != 0
    }

    /// Whether the second extra button is held down.
    pub fn x2(&self) -> (down: bool)
        ensures
            down == spec_button_down(self.mouse_state, BUTTON_X2),
            down == (self.mouse_state & 0x10 != 0),
    {
        proof {
            assert(1u32 << 4u32 == 0x10u32) by (bit_vector);
        }
        (self.mouse_state & self.button_mask(BUTTON_X2)) != 0
    }

    /// Whether `mouse_button` is held down. `Unknown` owns no bit of the
    /// mask, so it cannot be asked for.
    pub fn is_mouse_button_pressed(&self, mouse_button: MouseButton) -> (down: bool)
        requires
            mouse_button != MouseButton::Unknown,
        ensures
            down == spec_button_down(self.mouse_state, mouse_button.spec_number()),
    {
        let mask: u32 = 1u32 << (mouse_button.number() - 1);
        self.mouse_state & mask != 0
    }
}

/// A borrowed table of key states, indexed by key code.
pub struct KeyboardState<'a> {
    keyboard_state: &'a [u8],
}

impl<'a> View for KeyboardState<'a> {
    type V = Seq<u8>;

    closed spec fn view(&self) -> Seq<u8> {
        self.keyboard_state@
    }
}

impl<'a> KeyboardState<'a> {
    /// Wraps a table that holds one byte per key.
    pub fn from_slice(keys: &'a [u8]) -> (state: KeyboardState<'a>)
        ensures
            state@ == keys@,
    {
        KeyboardState { keyboard_state: keys }
    }

    /// Number of keys in the table.
    pub fn len(&self) -> (n: usize)
        ensures
            n == self@.len(),
    {
        self.keyboard_state.len()
    }

    /// Whether the key with code `scancode` is held down, that is, whether
    /// its byte in the table is not zero.
    pub fn is_scancode_pressed(&self, scancode: usize) -> (down: bool)
        requires
            scancode < self@.len(),
        ensures
            down == (self@[scancode as int] != 0),
    {
        self.keyboard_state[scancode] != 0
    }
}

} // verus!
