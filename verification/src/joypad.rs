//! The joypad port at `0xFF00`: two selector bits choose whether the low
//! nibble reports the buttons or the directions; keys read active low; a
//! press posts a pad interrupt on the next step.

use vstd::prelude::*;

verus! {

use crate::interrupts::{Interrupts, InterruptType};
use crate::memory_region::MemoryRegion;
use crate::registers::{Register, spec_bit8, spec_set_bit8};

pub const JOYPAD_ADDR: u16 = 0xFF00;

pub const B_SELECT_BUTTON: u8 = 5;
pub const B_SELECT_DIRECTION: u8 = 4;
pub const B_DOWN_OR_START: u8 = 3;
pub const B_UP_OR_SELECT: u8 = 2;
pub const B_LEFT_OR_B: u8 = 1;
pub const B_RIGHT_OR_A: u8 = 0;

/// One physical key of the pad.
#[derive(Clone, Copy, PartialEq, Eq, Structural, Debug)]
pub enum Button {
    A,
    B,
    Up,
    Down,
    Left,
    Right,
    Start,
    Select,
}

/// Debounced key state plus the selector register.
pub struct Joypad {
    pub state: Register<u8>,
    pub pressed_a: bool,
    pub pressed_b: bool,
    pub pressed_up: bool,
    pub pressed_down: bool,
    pub pressed_left: bool,
    pub pressed_right: bool,
    pub pressed_select: bool,
    pub pressed_start: bool,
    pub interrupt_generated: bool,
}

impl Joypad {
    /// Whether the named key is down.
    pub open spec fn spec_pressed(&self, button: Button) -> bool {
        match button {
            Button::A => self.pressed_a,
            Button::B => self.pressed_b,
            Button::Up => self.pressed_up,
            Button::Down => self.pressed_down,
            Button::Left => self.pressed_left,
            Button::Right => self.pressed_right,
            Button::Start => self.pressed_start,
            Button::Select => self.pressed_select,
        }
    }

    /// The state after forcing one key to `on`, leaving the rest alone.
    pub open spec fn press_rel(pre: Self, button: Button, on: bool, post: Self) -> bool {
        &&& post.spec_pressed(button) == on

        &&& forall|b: Button| b != button ==> post.spec_pressed(b) == pre.spec_pressed(b)
        &&& post.state == pre.state
        &&& post.interrupt_generated == (pre.interrupt_generated || on)
    }

    /// True when the selector reports the direction keys.
    pub open spec fn spec_reading_direction(&self) -> bool {
        self.state.val & (1u8 << B_SELECT_DIRECTION) == 0
    }

    /// True when the selector reports the buttons.
    pub open spec fn spec_reading_buttons(&self) -> bool {
        self.state.val & (1u8 << B_SELECT_BUTTON) == 0
    }

    /// The byte served at the port: the selector bits as written, and the
    /// selected nibble active low.
    pub open spec fn spec_port_value(&self) -> u8 {
        if self.spec_reading_direction() {
            spec_set_bit8(
                spec_set_bit8(
                    spec_set_bit8(
                        spec_set_bit8(self.state.val, B_RIGHT_OR_A, !self.pressed_right),
                        B_LEFT_OR_B,
                        !self.pressed_left,
                    ),
                    B_DOWN_OR_START,
                    !self.pressed_down,
                ),
                B_UP_OR_SELECT,
                !self.pressed_up,
            )
        } else if self.spec_reading_buttons() {
            spec_set_bit8(
                spec_set_bit8(
                    spec_set_bit8(
                        spec_set_bit8(self.state.val, B_RIGHT_OR_A, !self.pressed_a),
                        B_LEFT_OR_B,
                        !self.pressed_b,
                    ),
                    B_DOWN_OR_START,
                    !self.pressed_start,
                ),
                B_UP_OR_SELECT,
                !self.pressed_select,
            )
        } else {
            self.state.val
        }
    }

    /// All keys up, nothing selected, no interrupt owed.
    pub fn new() -> (r: Self)
        ensures
            r.state.val == 0,
            r.pressed_a == false,
            r.pressed_b == false,
            r.pressed_up == false,
            r.pressed_down == false,
            r.pressed_left == false,
            r.pressed_right == false,
            r.pressed_select == false,
            r.pressed_start == false,
            r.interrupt_generated == false,
    {
        Joypad {
            state: Register::new(0),
            pressed_a: false,
            pressed_b: false,
            pressed_up: false,
            pressed_down: false,
            pressed_left: false,
            pressed_right: false,
            pressed_select: false,
            pressed_start: false,
            interrupt_generated: false,
        }
    }

    /// Records a key going down.
    pub fn process_press(&mut self, button: Button)
        ensures
            Self::press_rel(*old(self), button, true, *final(self)),
    {
        self.set_key_press(button, true);
    }

    /// Records a key coming back up.
    pub fn process_release(&mut self, button: Button)
        ensures
            Self::press_rel(*old(self), button, false, *final(self)),
    {
        self.set_key_press(button, false);
    }

    /// Hands the owed pad interrupt to the controller, if one is due.
    pub fn step(&mut self, cycles: u32, interrupt_handler: &mut Interrupts)
        ensures
            final(self).interrupt_generated == false,
            final(self).state == old(self).state,
            forall|b: Button| final(self).spec_pressed(b) == old(self).spec_pressed(b),
            final(interrupt_handler).interrupt_flags.val == if old(self).interrupt_generated {
                Interrupts::spec_flags_after_set(
                    old(interrupt_handler).interrupt_flags.val,
                    InterruptType::Pad,
                )
            } else {
                old(interrupt_handler).interrupt_flags.val
            },
            final(interrupt_handler).are_enabled == old(interrupt_handler).are_enabled,
            final(interrupt_handler).interrupt_enable == old(interrupt_handler).interrupt_enable,
            final(interrupt_handler).steps_before_change == old(
                interrupt_handler,
            ).steps_before_change,
            final(interrupt_handler).target_enable_state == old(
                interrupt_handler,
            ).target_enable_state,
    {
        if self.interrupt_generated {
            interrupt_handler.set_interrupt(InterruptType::Pad);
            self.interrupt_generated = false;
        }
    }

    fn set_key_press(&mut self, button: Button, on: bool)
        ensures
            Self::press_rel(*old(self), button, on, *final(self)),
    {
        match button {
            Button::A => { self.pressed_a = on },
            Button::B => { self.pressed_b = on },
            Button::Up => { self.pressed_up = on },
            Button::Down => { self.pressed_down = on },
            Button::Left => { self.pressed_left = on },
            Button::Right => { self.pressed_right = on },
            Button::Start => { self.pressed_start = on },
            Button::Select => { self.pressed_select = on },
        }
        if on {
            self.interrupt_generated = true;
        }
    }
}

impl MemoryRegion for Joypad {
    open spec fn region_wf(&self) -> bool {
        true
    }

    open spec fn spec_contains(&self, addr: u16) -> bool {
        addr == JOYPAD_ADDR
    }

    open spec fn spec_read(&self, addr: u16) -> u8 {
        self.spec_port_value()
    }

    /// A port write keeps only the two selector bits; key state and the
    /// owed interrupt are untouched.
    open spec fn write_rel(pre: Self, addr: u16, val: u8, post: Self) -> bool {
        &&& post.state.val == spec_set_bit8(
            spec_set_bit8(pre.state.val, B_SELECT_BUTTON, val & (1u8 << B_SELECT_BUTTON) > 0),
            B_SELECT_DIRECTION,
            val & (1u8 << B_SELECT_DIRECTION) > 0,
        )
        &&& forall|b: Button| post.spec_pressed(b) == pre.spec_pressed(b)
        &&& post.interrupt_generated == pre.interrupt_generated
    }

    fn in_region(&self, addr: u16) -> (r: bool) {
        addr == JOYPAD_ADDR
    }

    fn read_byte(&self, addr: u16) -> (r: u8) {
        let mut ret = Register::new(self.state.r());
        if self.state.r() & (1u8 << B_SELECT_DIRECTION) == 0 {
            ret.set_bit(B_RIGHT_OR_A, !self.pressed_right);
            ret.set_bit(B_LEFT_OR_B, !self.pressed_left);
            ret.set_bit(B_DOWN_OR_START, !self.pressed_down);
            ret.set_bit(B_UP_OR_SELECT, !self.pressed_up);
        } else if self.state.r() & (1u8 << B_SELECT_BUTTON) == 0 {
            ret.set_bit(B_RIGHT_OR_A, !self.pressed_a);
            ret.set_bit(B_LEFT_OR_B, !self.pressed_b);
            ret.set_bit(B_DOWN_OR_START, !self.pressed_start);
            ret.set_bit(B_UP_OR_SELECT, !self.pressed_select);
        }
        ret.r()
    }

    fn write_byte(&mut self, addr: u16, val: u8) {
        self.state.set_bit(B_SELECT_BUTTON, val & (1u8 << B_SELECT_BUTTON) > 0);
        self.state.set_bit(B_SELECT_DIRECTION, val & (1u8 << B_SELECT_DIRECTION) > 0);
    }
}

} // verus!
