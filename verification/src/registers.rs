//! Hardware register cells: a plain value wrapper plus bit helpers for the
//! 8-bit and 16-bit register widths.

use vstd::prelude::*;

verus! {

use crate::bits::{hi_byte, lo_byte};

/// One hardware register holding a value of the given width.
#[derive(Clone, Copy)]
pub struct Register<T: Copy> {
    pub val: T,
}

impl<T: Copy> Register<T> {
    /// Makes a register holding `value`.
    pub fn new(value: T) -> (r: Self)
        ensures
            r.val == value,
    {
        Register { val: value }
    }

    /// Reads the register.
    pub fn r(&self) -> (r: T)
        ensures
            r == self.val,
    {
        self.val
    }

    /// Overwrites the register with `data`.
    pub fn w(&mut self, data: T)
        ensures
            final(self).val == data,
    {
        self.val = data;
    }
}

/// True when bit `bit` (0 = least significant) of `v` is set.
pub open spec fn spec_bit8(v: u8, bit: u8) -> bool {
    v & (1u8 << bit) != 0
}

/// True when bit `bit` of the 16-bit value `v` is set.
pub open spec fn spec_bit16(v: u16, bit: u8) -> bool {
    v & (1u16 << bit) != 0
}

/// `v` with bit `bit` forced to `on`.
pub open spec fn spec_set_bit8(v: u8, bit: u8, on: bool) -> u8 {
    if on {
        v | (1u8 << bit)
    } else {
        v & !(1u8 << bit)
    }
}

/// The 16-bit value `v` with bit `bit` forced to `on`.
pub open spec fn spec_set_bit16(v: u16, bit: u8, on: bool) -> u16 {
    if on {
        v | (1u16 << bit)
    } else {
        v & !(1u16 << bit)
    }
}

impl Register<u8> {
    /// True when the given bit of the register is set.
    pub fn is_bit_set(&self, bit: u8) -> (r: bool)
        requires
            bit < 8,
        ensures
            r == spec_bit8(self.val, bit),
    {
        (self.val & (1u8 << bit)) > 0
    }

    /// Forces the given bit of the register to `val`.
    pub fn set_bit(&mut self, bit: u8, val: bool)
        requires
            bit < 8,
        ensures
            final(self).val == spec_set_bit8(old(self).val, bit, val),
    {
        match val {
            true => { self.val = self.val | (1u8 << bit) }
            false => { self.val = self.val & !(1u8 << bit) }
        }
    }
}

impl Register<u16> {
    /// True when the given bit of the register is set.
    pub fn is_bit_set(&self, bit: u8) -> (r: bool)
        requires
            bit < 16,
        ensures
            r == spec_bit16(self.val, bit),
    {
        (self.val & (1u16 << bit)) > 0
    }

    /// Forces the given bit of the register to `val`.
    pub fn set_bit(&mut self, bit: u8, val: bool)
        requires
            bit < 16,
        ensures
            final(self).val == spec_set_bit16(old(self).val, bit, val),
    {
        match val {
            true => { self.val = self.val | (1u16 << bit) }
            false => { self.val = self.val & !(1u16 << bit) }
        }
    }

    /// The full 16-bit value.
    pub fn value(&self) -> (r: u16)
        ensures
            r == self.val,
    {
        self.val
    }

    /// The high byte of the pair.
    pub fn r_hi(&self) -> (r: u8)
        ensures
            r == hi_byte(self.val),
    {
        ((self.val & 0xFF00) >> 8) as u8
    }

    /// The low byte of the pair.
    pub fn r_lo(&self) -> (r: u8)
        ensures
            r == lo_byte(self.val),
    {
        (self.val & 0x00FF) as u8
    }

    /// Replaces the low byte, keeping the high byte.
    pub fn w_lo(&mut self, data: u8)
        ensures
            final(self).val == (old(self).val & 0xFF00) | data as u16,
    {
        self.val = (self.val & 0xFF00) | data as u16;
    }

    /// Replaces the high byte, keeping the low byte.
    pub fn w_hi(&mut self, data: u8)
        ensures
            final(self).val == (old(self).val & 0x00FF) | ((data as u16) << 8),
    {
        self.val = (self.val & 0x00FF) | ((data as u16) << 8);
    }

    /// Adds `amount` to the register; the sum must fit in 16 bits.
    pub fn increase_by(&mut self, amount: u16)
        requires
            old(self).val + amount <= u16::MAX,
        ensures
            final(self).val == old(self).val + amount,
    {
        self.val = self.val + amount;
    }
}

} // verus!
