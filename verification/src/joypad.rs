//! The eight-button joypad: a direction nibble (p14) and an action nibble
//! (p15). A press raises the Joypad interrupt; a release only clears the
//! button's bit.

use vstd::prelude::*;

use crate::bus::Bus;
use crate::interrupt;
use crate::interrupt::Interrupt;
use crate::interrupt::IF_REG_ADDR;
use crate::interrupt::int_mask;

verus! {

#[derive(Debug, Copy, Clone)]
pub enum Button {
    A,
    B,
    Start,
    Select,
    Up,
    Down,
    Left,
    Right,
}

/// The bit a button owns within its nibble.
pub open spec fn button_bit(b: Button) -> u8 {
    match b {
        Button::Right | Button::A => 0x01,
        Button::Left | Button::B => 0x02,
        Button::Up | Button::Select => 0x04,
        Button::Down | Button::Start => 0x08,
    }
}

/// Whether the button sits in the direction nibble (p14); otherwise it is an
/// action button (p15).
pub open spec fn is_direction(b: Button) -> bool {
    match b {
        Button::Up | Button::Down | Button::Left | Button::Right => true,
        Button::A | Button::B | Button::Start | Button::Select => false,
    }
}

pub struct Joypad {
    p14: u8,
    p15: u8,
}

impl Joypad {
    /// The (direction, action) nibble pair.
    pub closed spec fn view(&self) -> (u8, u8) {
        (self.p14, self.p15)
    }

    pub fn new() -> (r: Joypad)
        ensures
            r@ == (0u8, 0u8),
    {
        Joypad { p14: 0x00, p15: 0x00 }
    }

    fn bit(button: &Button) -> (r: u8)
        ensures
            r == button_bit(*button),
    {
        match *button {
            Button::Right | Button::A => 0x01,
            Button::Left | Button::B => 0x02,
            Button::Up | Button::Select => 0x04,
            Button::Down | Button::Start => 0x08,
        }
    }

    /// Sets the button's bit in its nibble and requests the Joypad
    /// interrupt.
    pub fn press<B: Bus>(&mut self, bus: &mut B, button: Button)
        ensures
            final(self)@ == if is_direction(button) {
                (old(self)@.0 | button_bit(button), old(self)@.1)
            } else {
                (old(self)@.0, old(self)@.1 | button_bit(button))
            },
            final(bus).model() == B::upd8(
                old(bus).model(),
                IF_REG_ADDR,
                B::view8(old(bus).model(), IF_REG_ADDR) | int_mask(Interrupt::Joypad),
            ),
    {
        match button {
            Button::Up | Button::Down | Button::Left | Button::Right => {
                self.p14 = self.p14 | Self::bit(&button);
            },
            Button::A | Button::B | Button::Start | Button::Select => {
                self.p15 = self.p15 | Self::bit(&button);
            },
        }
        interrupt::request(bus, Interrupt::Joypad);
    }

    /// Clears the button's bit in its nibble.
    pub fn release(&mut self, button: Button)
        ensures
            final(self)@ == if is_direction(button) {
                (old(self)@.0 & !button_bit(button), old(self)@.1)
            } else {
                (old(self)@.0, old(self)@.1 & !button_bit(button))
            },
    {
        match button {
            Button::Up | Button::Down | Button::Left | Button::Right => {
                self.p14 = self.p14 & !Self::bit(&button);
            },
            Button::A | Button::B | Button::Start | Button::Select => {
                self.p15 = self.p15 & !Self::bit(&button);
            },
        }
    }

    /// The (p14, p15) pair the memory unit's register handshake wants.
    pub fn transfer_state(&self) -> (r: (u8, u8))
        ensures
            r == self@,
    {
        (self.p14, self.p15)
    }
}

} // verus!
