//! Joypad: two rows of four keys behind an active-low select register.

use vstd::prelude::*;
use crate::int_controller::{IntController, Interrupt};

verus! {

/// A key of the console.
#[derive(Copy, Clone, Debug, PartialEq, Eq, Structural)]
pub enum Key {
    Right,
    Left,
    Up,
    Down,
    A,
    B,
    Select,
    Start,
}

impl Key {
    /// The row of the key: 0 for the direction pad, 1 for the buttons.
    pub open spec fn spec_column(self) -> int {
        match self {
            Key::Right | Key::Left | Key::Up | Key::Down => 0,
            _ => 1,
        }
    }

    /// The bit of the key within its row.
    pub open spec fn mask(self) -> u8 {
        match self {
            Key::Right | Key::A => 0x01,
            Key::Left | Key::B => 0x02,
            Key::Up | Key::Select => 0x04,
            Key::Down | Key::Start => 0x08,
        }
    }

    pub fn column(&self) -> (r: usize)
        ensures
            r == self.spec_column(),
    {
        match *self {
            Key::Right | Key::Left | Key::Up | Key::Down => 0,
            _ => 1,
        }
    }

    /// The bit of the key within its row.
    pub fn from_key(&self) -> (r: u8)
        ensures
            r == self.mask(),
    {
        match *self {
            Key::Right | Key::A => 0x01,
            Key::Left | Key::B => 0x02,
            Key::Up | Key::Select => 0x04,
            Key::Down | Key::Start => 0x08,
        }
    }
}

/// Pressed keys of each row (a set bit is a pressed key) and the selected
/// rows: 0 the direction pad, 1 the buttons, 2 both, 3 none.
#[derive(Copy, Clone, Debug, PartialEq, Eq, Structural)]
pub struct Joypad {
    pub dpad: u8,
    pub buttons: u8,
    pub active_column: u8,
}

impl Joypad {
    pub open spec fn wf(self) -> bool {
        self.active_column < 4
    }

    /// What a read of the joypad register returns: the selected rows with
    /// pressed keys reading 0, and the select bits.
    pub open spec fn spec_read(self) -> u8 {
        if self.active_column == 0 {
            0x20 | (!self.dpad & 0x0F)
        } else if self.active_column == 1 {
            0x10 | (!self.buttons & 0x0F)
        } else if self.active_column == 2 {
            !(self.dpad | self.buttons) & 0x0F
        } else {
            0x3F
        }
    }

    pub fn new() -> (r: Joypad)
        ensures
            r.wf(),
            r == (Joypad { dpad: 0, buttons: 0, active_column: 2 }),
    {
        Joypad { dpad: 0, buttons: 0, active_column: 2 }
    }

    /// Marks the key pressed and raises the Joypad interrupt.
    pub fn key_pressed(&mut self, key: Key, int_controller: &mut IntController)
        ensures
            key.spec_column() == 0 ==> *final(self) == (Joypad { dpad: old(self).dpad | key.mask(), ..*old(self) }),
            key.spec_column() == 1 ==> *final(self) == (Joypad { buttons: old(self).buttons | key.mask(), ..*old(self) }),
            *final(int_controller) == old(int_controller).spec_set_pending(Interrupt::Joypad),
    {
        let m = key.from_key();
        if key.column() == 0 {
            self.dpad = self.dpad | m;
        } else {
            self.buttons = self.buttons | m;
        }
        int_controller.set_int_pending(Interrupt::Joypad);
    }

    /// Marks the key released; raises nothing.
    pub fn key_released(&mut self, key: Key)
        ensures
            key.spec_column() == 0 ==> *final(self) == (Joypad { dpad: old(self).dpad & !key.mask(), ..*old(self) }),
            key.spec_column() == 1 ==> *final(self) == (Joypad { buttons: old(self).buttons & !key.mask(), ..*old(self) }),
    {
        let m = key.from_key();
        if key.column() == 0 {
            self.dpad = self.dpad & !m;
        } else {
            self.buttons = self.buttons & !m;
        }
    }

    pub fn read_joypad_reg(&self) -> (r: u8)
        ensures
            r == self.spec_read(),
    {
        if self.active_column == 0 {
            0x20 | (!self.dpad & 0x0F)
        } else if self.active_column == 1 {
            0x10 | (!self.buttons & 0x0F)
        } else if self.active_column == 2 {
            !(self.dpad | self.buttons) & 0x0F
        } else {
            0x3F
        }
    }

    /// Bits 4 and 5 select the rows, active low: bit 4 clear selects the
    /// direction pad, bit 5 clear the buttons.
    pub fn write_joypad_reg(&mut self, value: u8)
        ensures
            final(self).wf(),
            *final(self) == (Joypad {
                active_column: (if value & 0x30 == 0 {
                    2u8
                } else if value & 0x30 == 0x20 {
                    0u8
                } else if value & 0x30 == 0x10 {
                    1u8
                } else {
                    3u8
                }),
                ..*old(self)
            }),
    {
        let sel = value & 0x30;
        self.active_column = if sel == 0 {
            2
        } else if sel == 0x20 {
            0
        } else if sel == 0x10 {
            1
        } else {
            3
        };
    }
}

} // verus!
