//! The standard controller: a strobe-driven serial shift register.
//!
//! Eight button states sit in one byte.  While the strobe's low bit is
//! set, reads keep returning the first button; once it is cleared, each
//! read shifts out the next button, and reads past the eighth return 0.

use vstd::prelude::*;

use crate::status::{flag_on, flag_put};

verus! {

/// One bit per button.
pub struct Buttons {
    pub bits: u8,
}

pub const BTN_A: u8 = 0x01;
pub const BTN_B: u8 = 0x02;
pub const BTN_SELECT: u8 = 0x04;
pub const BTN_START: u8 = 0x08;
pub const BTN_UP: u8 = 0x10;
pub const BTN_DOWN: u8 = 0x20;
pub const BTN_LEFT: u8 = 0x40;
pub const BTN_RIGHT: u8 = 0x80;

impl Buttons {
    pub fn new(bits: u8) -> (r: Buttons)
        ensures
            r.bits == bits,
    {
        Buttons { bits }
    }

    pub fn get(&self, mask: u8) -> (r: bool)
        ensures
            r == flag_on(self.bits, mask),
    {
        self.bits & mask == mask
    }

    pub fn set(&mut self, mask: u8, on: bool)
        ensures
            final(self).bits == flag_put(old(self).bits, mask, on),
    {
        if on {
            self.bits = self.bits | mask;
        } else {
            self.bits = self.bits & !mask;
        }
    }

    pub fn set_a(&mut self, on: bool)
        ensures
            final(self).bits == flag_put(old(self).bits, BTN_A, on),
    {
        self.set(BTN_A, on)
    }

    pub fn set_b(&mut self, on: bool)
        ensures
            final(self).bits == flag_put(old(self).bits, BTN_B, on),
    {
        self.set(BTN_B, on)
    }

    pub fn set_select(&mut self, on: bool)
        ensures
            final(self).bits == flag_put(old(self).bits, BTN_SELECT, on),
    {
        self.set(BTN_SELECT, on)
    }

    pub fn set_start(&mut self, on: bool)
        ensures
            final(self).bits == flag_put(old(self).bits, BTN_START, on),
    {
        self.set(BTN_START, on)
    }

    pub fn set_up(&mut self, on: bool)
        ensures
            final(self).bits == flag_put(old(self).bits, BTN_UP, on),
    {
        self.set(BTN_UP, on)
    }

    pub fn set_down(&mut self, on: bool)
        ensures
            final(self).bits == flag_put(old(self).bits, BTN_DOWN, on),
    {
        self.set(BTN_DOWN, on)
    }

    pub fn set_left(&mut self, on: bool)
        ensures
            final(self).bits == flag_put(old(self).bits, BTN_LEFT, on),
    {
        self.set(BTN_LEFT, on)
    }

    pub fn set_right(&mut self, on: bool)
        ensures
            final(self).bits == flag_put(old(self).bits, BTN_RIGHT, on),
    {
        self.set(BTN_RIGHT, on)
    }
}

/// The mathematical content of a controller.
pub ghost struct ControllerView {
    /// The button byte.
    pub buttons: u8,
    /// The index of the next button bit a read will report.
    pub index: u8,
    /// The last strobe byte written.
    pub strobe: u8,
}

/// The main controller structure.
pub struct Controller {
    /// The current status of the buttons.
    pub buttons: Buttons,
    /// The index of the next bit (button) to be read.
    index: u8,
    /// The last value written to the strobe port.
    strobe: u8,
}

impl View for Controller {
    type V = ControllerView;

    closed spec fn view(&self) -> ControllerView {
        ControllerView { buttons: self.buttons.bits, index: self.index, strobe: self.strobe }
    }
}

/// What a serial read returns and leaves behind: bit `index` of the
/// buttons (0 once the first eight bits are exhausted), with the index
/// advanced, or pinned back to 0 while the strobe's low bit is set.
pub open spec fn spec_controller_read(c: ControllerView) -> (ControllerView, u8) {
    let val: u8 = if c.index < 8 && (c.buttons >> c.index) & 1 == 1 {
        1
    } else {
        0
    };
    let bumped: u8 = ((c.index + 1) % 256) as u8;
    let next: u8 = if c.strobe & 1 == 1 {
        0
    } else {
        bumped
    };
    (ControllerView { index: next, ..c }, val)
}

/// What a strobe write leaves behind: the strobe byte replaced, and the
/// read index pinned back to 0 when the new strobe's low bit is set.
pub open spec fn spec_controller_write(c: ControllerView, val: u8) -> ControllerView {
    let next: u8 = if val & 1 == 1 {
        0
    } else {
        c.index
    };
    ControllerView { strobe: val, index: next, ..c }
}

impl Controller {
    pub fn new() -> (r: Controller)
        ensures
            r@ == (ControllerView { buttons: 0, index: 0, strobe: 0 }),
    {
        Controller { buttons: Buttons { bits: 0 }, index: 0, strobe: 0 }
    }

    /// Replace the button byte wholesale.
    pub fn set_buttons(&mut self, bits: u8)
        ensures
            final(self)@ == (ControllerView { buttons: bits, ..old(self)@ }),
    {
        self.buttons.bits = bits;
    }

    /// The raw button byte.
    pub fn raw_buttons(&self) -> (r: u8)
        ensures
            r == self@.buttons,
    {
        self.buttons.bits
    }

    pub fn read(&mut self) -> (r: u8)
        ensures
            (final(self)@, r) == spec_controller_read(old(self)@),
    {
        let val: u8 = if self.index < 8 && (self.buttons.bits >> self.index) & 1 == 1 {
            1
        } else {
            0
        };
        self.index = ((self.index as u16 + 1) % 256) as u8;
        if self.strobe & 1 == 1 {
            self.index = 0;
        }
        val
    }

    pub fn write(&mut self, val: u8)
        ensures
            final(self)@ == spec_controller_write(old(self)@, val),
    {
        self.strobe = val;
        if self.strobe & 1 == 1 {
            self.index = 0;
        }
    }
}

impl Default for Controller {
    fn default() -> (r: Controller)
        ensures
            r@ == (ControllerView { buttons: 0, index: 0, strobe: 0 }),
    {
        Controller::new()
    }
}

} // verus!
