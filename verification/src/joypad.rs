//! The joypad: eight keys in two groups, read through the `JOYP` register.

use vstd::prelude::*;
use crate::helper::{Bit, MemoryRegister};
use crate::interrupt::{InterruptFlag, InterruptHandler};

verus! {

pub const BUTTON_A: u8 = 0x01;

pub const BUTTON_B: u8 = 0x02;

pub const BUTTON_SELECT: u8 = 0x04;

pub const BUTTON_START: u8 = 0x08;

pub const PAD_RIGHT: u8 = 0x01;

pub const PAD_LEFT: u8 = 0x02;

pub const PAD_UP: u8 = 0x04;

pub const PAD_DOWN: u8 = 0x08;

/// The keys held down, and the group selection last written to `JOYP`.
#[derive(Clone, Copy, Debug, PartialEq, Eq, Structural)]
pub struct Joypad {
    /// One bit per button, 1 while it is held down.
    pub button_state: u8,
    /// One bit per direction, 1 while it is held down.
    pub directional_state: u8,
    /// The byte last written to `JOYP`.
    pub register: MemoryRegister,
}

/// The key state `state` after the keys in `input` were pressed or released.
pub open spec fn keys_after(state: u8, input: u8, is_pressed: bool) -> u8 {
    if is_pressed {
        state | input
    } else {
        state & !input
    }
}

/// Whether pressing the keys in `input` takes a key down that was up before.
pub open spec fn newly_pressed(state: u8, input: u8, is_pressed: bool) -> bool {
    is_pressed && state & input != input
}

impl Joypad {
    pub open spec fn spec_new() -> Joypad {
        Joypad {
            button_state: 0x00,
            directional_state: 0x00,
            register: MemoryRegister { value: 0x30 },
        }
    }

    /// No key is down and neither group is selected.
    pub fn new() -> (joypad: Joypad)
        ensures
            joypad == Joypad::spec_new(),
    {
        Joypad {
            button_state: 0x00,
            directional_state: 0x00,
            register: MemoryRegister::new(0x30),
        }
    }

    /// Presses or releases the buttons in `input`. A joypad interrupt is
    /// requested when a button goes down that was up before.
    pub fn set_button_pressed(
        &mut self,
        interrupt: &mut InterruptHandler,
        input: u8,
        is_pressed: bool,
    )
        ensures
            *final(self) == (Joypad {
                button_state: keys_after(old(self).button_state, input, is_pressed),
                ..*old(self)
            }),
            *final(interrupt) == if newly_pressed(old(self).button_state, input, is_pressed) {
                old(interrupt).with_request(InterruptFlag::Joypad)
            } else {
                *old(interrupt)
            },
    {
        if is_pressed {
            if self.button_state & input != input {
                interrupt.request_interrupt(InterruptFlag::Joypad);
            }
            self.button_state = self.button_state | input;
        } else {
            self.button_state = self.button_state & !input;
        }
    }

    /// Presses or releases the directions in `input`. A joypad interrupt is
    /// requested when a direction goes down that was up before.
    pub fn set_direction_pressed(
        &mut self,
        interrupt: &mut InterruptHandler,
        input: u8,
        is_pressed: bool,
    )
        ensures
            *final(self) == (Joypad {
                directional_state: keys_after(old(self).directional_state, input, is_pressed),
                ..*old(self)
            }),
            *final(interrupt) == if newly_pressed(old(self).directional_state, input, is_pressed) {
                old(interrupt).with_request(InterruptFlag::Joypad)
            } else {
                *old(interrupt)
            },
    {
        if is_pressed {
            if self.directional_state & input != input {
                interrupt.request_interrupt(InterruptFlag::Joypad);
            }
            self.directional_state = self.directional_state | input;
        } else {
            self.directional_state = self.directional_state & !input;
        }
    }

    /// The keys of the selected groups that are down. A group is selected
    /// while its select bit (4 for directions, 5 for buttons) is 0.
    pub open spec fn selected_keys(&self) -> u8 {
        (if self.register.is_set(Bit::Bit4) {
            0u8
        } else {
            self.directional_state
        }) | (if self.register.is_set(Bit::Bit5) {
            0u8
        } else {
            self.button_state
        })
    }

    /// `JOYP` as the processor sees it: the two select bits as written, and in
    /// the low nibble a 0 for every selected key that is down.
    pub open spec fn spec_read(&self) -> u8 {
        (self.register.value & 0x30) | (!self.selected_keys() & 0x0F)
    }

    #[verifier::when_used_as_spec(spec_read)]
    pub fn read(&self) -> (data: u8)
        ensures
            data == self.spec_read(),
    {
        let directions: u8 = if self.register.is_set(Bit::Bit4) {
            0
        } else {
            self.directional_state
        };
        let buttons: u8 = if self.register.is_set(Bit::Bit5) {
            0
        } else {
            self.button_state
        };
        let keys: u8 = directions | buttons;
        (self.register.get() & 0x30) | (!keys & 0x0F)
    }

    /// Stores the group selection.
    pub fn write(&mut self, data: u8)
        ensures
            *final(self) == (Joypad { register: MemoryRegister { value: data }, ..*old(self) }),
    {
        self.register.set(data);
    }
}

} // verus!
