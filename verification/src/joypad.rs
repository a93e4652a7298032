//! The eight buttons, held as two active-low nibbles.

use vstd::prelude::*;

verus! {

#[derive(Debug, Copy, Clone, PartialEq, Eq, Structural)]
pub enum JoypadButton {
    Right,
    Left,
    Up,
    Down,
    A,
    B,
    Select,
    Start,
}

impl JoypadButton {
    /// Whether the button belongs to the directional nibble.
    pub open spec fn is_directional(self) -> bool {
        match self {
            JoypadButton::Right
            | JoypadButton::Left
            | JoypadButton::Up
            | JoypadButton::Down => true,
            _ => false,
        }
    }

    /// The bit of the button within its nibble.
    pub open spec fn mask(self) -> u8 {
        match self {
            JoypadButton::Right | JoypadButton::A => 0x01,
            JoypadButton::Left | JoypadButton::B => 0x02,
            JoypadButton::Up | JoypadButton::Select => 0x04,
            JoypadButton::Down | JoypadButton::Start => 0x08,
        }
    }
}

/// The state of the buttons. A clear bit means that the button is held down.
#[derive(Debug, Copy, Clone, PartialEq, Eq, Structural)]
pub struct Joypad {
    pub directional_keys: u8,
    pub standard_buttons: u8,
}

impl Joypad {
    /// The nibble that holds the button.
    pub open spec fn nibble(self, button: JoypadButton) -> u8 {
        if button.is_directional() {
            self.directional_keys
        } else {
            self.standard_buttons
        }
    }

    /// Whether the button is held down.
    pub open spec fn pressed(self, button: JoypadButton) -> bool {
        self.nibble(button) & button.mask() == 0
    }

    /// The state in which the nibble of the button has the given value.
    pub open spec fn with_nibble(self, button: JoypadButton, value: u8) -> Joypad {
        if button.is_directional() {
            Joypad { directional_keys: value, ..self }
        } else {
            Joypad { standard_buttons: value, ..self }
        }
    }

    /// The state after the button is pressed or released: its bit is
    /// cleared or set, every other bit stays.
    pub open spec fn with_button(self, button: JoypadButton, state: bool) -> Joypad {
        if state {
            self.with_nibble(button, self.nibble(button) & (0x0F ^ button.mask()))
        } else {
            self.with_nibble(button, self.nibble(button) | button.mask())
        }
    }

    /// No button is held down.
    pub fn new() -> (joypad: Joypad)
        ensures
            joypad == (Joypad { directional_keys: 0x0F, standard_buttons: 0x0F }),
            forall|button: JoypadButton| !joypad.pressed(button),
    {
        assert(0x0Fu8 & 0x01 != 0 && 0x0Fu8 & 0x02 != 0 && 0x0Fu8 & 0x04 != 0 && 0x0Fu8 & 0x08
            != 0) by (bit_vector);
        Joypad { directional_keys: 0x0F, standard_buttons: 0x0F }
    }

    /// Tells whether a button is held down.
    pub fn get_button_state(&self, button: &JoypadButton) -> (state: bool)
        ensures
            state == self.pressed(*button),
    {
        match button {
            JoypadButton::Right => self.directional_keys & 0x01 == 0,
            JoypadButton::Left => self.directional_keys & 0x02 == 0,
            JoypadButton::Up => self.directional_keys & 0x04 == 0,
            JoypadButton::Down => self.directional_keys & 0x08 == 0,
            JoypadButton::A => self.standard_buttons & 0x01 == 0,
            JoypadButton::B => self.standard_buttons & 0x02 == 0,
            JoypadButton::Select => self.standard_buttons & 0x04 == 0,
            JoypadButton::Start => self.standard_buttons & 0x08 == 0,
        }
    }

    /// Presses or releases a button and tells whether that changed its state.
    pub fn set_button_state(&mut self, button: &JoypadButton, state: bool) -> (changed: bool)
        ensures
            *final(self) == old(self).with_button(*button, state),
            changed == (old(self).pressed(*button) != state),
            final(self).pressed(*button) == state,
    {
        let current_state = self.get_button_state(button);
        if state {
            self.press_button(button)
        } else {
            self.release_button(button)
        };
        proof {
            lemma_with_button(*old(self), *button, state);
        }
        current_state != state
    }

    fn press_button(&mut self, button: &JoypadButton)
        ensures
            *final(self) == old(self).with_button(*button, true),
    {
        assert(0x0Fu8 ^ 0x01 == 0x0E && 0x0Fu8 ^ 0x02 == 0x0D && 0x0Fu8 ^ 0x04 == 0x0B && 0x0Fu8
            ^ 0x08 == 0x07) by (bit_vector);
        match button {
            JoypadButton::Right => self.directional_keys = self.directional_keys & 0x0E,
            JoypadButton::Left => self.directional_keys = self.directional_keys & 0x0D,
            JoypadButton::Up => self.directional_keys = self.directional_keys & 0x0B,
            JoypadButton::Down => self.directional_keys = self.directional_keys & 0x07,
            JoypadButton::A => self.standard_buttons = self.standard_buttons & 0x0E,
            JoypadButton::B => self.standard_buttons = self.standard_buttons & 0x0D,
            JoypadButton::Select => self.standard_buttons = self.standard_buttons & 0x0B,
            JoypadButton::Start => self.standard_buttons = self.standard_buttons & 0x07,
        }
    }

    fn release_button(&mut self, button: &JoypadButton)
        ensures
            *final(self) == old(self).with_button(*button, false),
    {
        match button {
            JoypadButton::Right => self.directional_keys = self.directional_keys | 0x01,
            JoypadButton::Left => self.directional_keys = self.directional_keys | 0x02,
            JoypadButton::Up => self.directional_keys = self.directional_keys | 0x04,
            JoypadButton::Down => self.directional_keys = self.directional_keys | 0x08,
            JoypadButton::A => self.standard_buttons = self.standard_buttons | 0x01,
            JoypadButton::B => self.standard_buttons = self.standard_buttons | 0x02,
            JoypadButton::Select => self.standard_buttons = self.standard_buttons | 0x04,
            JoypadButton::Start => self.standard_buttons = self.standard_buttons | 0x08,
        }
    }
}

/// Clearing a bit of a nibble clears that bit and setting it sets it, and
/// neither touches another bit of the low nibble.
proof fn lemma_nibble_bits(keys: u8, mask: u8, other: u8)
    by (bit_vector)
    requires
        mask == 1 || mask == 2 || mask == 4 || mask == 8,
        other == 1 || other == 2 || other == 4 || other == 8,
    ensures
        (keys & (0x0F ^ mask)) & mask == 0,
        (keys | mask) & mask != 0,
        other != mask ==> (keys & (0x0F ^ mask)) & other == keys & other,
        other != mask ==> (keys | mask) & other == keys & other,
{
}

/// After a button is pressed or released it reads as pressed or released.
pub proof fn lemma_with_button(joypad: Joypad, button: JoypadButton, state: bool)
    ensures
        joypad.with_button(button, state).pressed(button) == state,
{
    lemma_nibble_bits(joypad.nibble(button), button.mask(), button.mask());
}

/// Pressing or releasing one button leaves the state of every other button
/// as it was.
pub proof fn lemma_with_button_others(
    joypad: Joypad,
    button: JoypadButton,
    state: bool,
    other: JoypadButton,
)
    requires
        other != button,
    ensures
        joypad.with_button(button, state).pressed(other) == joypad.pressed(other),
{
    if other.is_directional() == button.is_directional() {
        lemma_nibble_bits(joypad.nibble(button), button.mask(), other.mask());
    }
}

} // verus!
