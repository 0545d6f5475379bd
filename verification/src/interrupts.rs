//! The interrupt controller: the enable and pending registers, the master
//! enable flag with its one-step delayed arm/disarm, and the service
//! vectors.

use vstd::prelude::*;

verus! {

use crate::memory_region::MemoryRegion;
use crate::registers::{Register, spec_bit8, spec_set_bit8};

pub const INTERRUPT_ENABLE_ADDR: u16 = 0xFFFF;
pub const INTERRUPT_FLAG_ADDR: u16 = 0xFF0F;

pub const VBLANK_ISR_START: u16 = 0x0040;
pub const LCDC_ISR_START: u16 = 0x0048;
pub const TIMER_ISR_START: u16 = 0x0050;
pub const SERIAL_ISR_START: u16 = 0x0058;
pub const JOYPAD_ISR_START: u16 = 0x0060;

/// The five interrupt sources, in priority order (V-blank highest).
#[derive(Clone, Copy, PartialEq, Eq, Structural, Debug)]
pub enum InterruptType {
    VBlank,
    LCDC,
    Timer,
    Serial,
    Pad,
}

impl InterruptType {
    /// The bit this source occupies in the enable and pending registers.
    pub open spec fn spec_bit(self) -> u8 {
        match self {
            InterruptType::VBlank => 0,
            InterruptType::LCDC => 1,
            InterruptType::Timer => 2,
            InterruptType::Serial => 3,
            InterruptType::Pad => 4,
        }
    }

    /// The bit this source occupies in the enable and pending registers.
    pub fn bit(self) -> (r: u8)
        ensures
            r == self.spec_bit(),
    {
        match self {
            InterruptType::VBlank => 0,
            InterruptType::LCDC => 1,
            InterruptType::Timer => 2,
            InterruptType::Serial => 3,
            InterruptType::Pad => 4,
        }
    }

    /// The fixed service vector of this source.
    pub fn isr_start(self) -> (r: u16)
        ensures
            r == 0x40 + 8 * self.spec_bit(),
    {
        match self {
            InterruptType::VBlank => VBLANK_ISR_START,
            InterruptType::LCDC => LCDC_ISR_START,
            InterruptType::Timer => TIMER_ISR_START,
            InterruptType::Serial => SERIAL_ISR_START,
            InterruptType::Pad => JOYPAD_ISR_START,
        }
    }
}

/// Interrupt state: master enable, the two 8-bit registers, and the
/// one-step delay used by the enable/disable instructions.
pub struct Interrupts {
    pub are_enabled: bool,
    pub interrupt_enable: Register<u8>,
    pub interrupt_flags: Register<u8>,
    /// Steps left before the delayed change lands; -1 means none is due.
    pub steps_before_change: i8,
    pub target_enable_state: bool,
}

impl Interrupts {
    /// Everything cleared, no delayed change due.
    pub fn new() -> (r: Self)
        ensures
            r.are_enabled == false,
            r.interrupt_enable.val == 0,
            r.interrupt_flags.val == 0,
            r.steps_before_change == -1,
            r.target_enable_state == false,
    {
        Interrupts {
            are_enabled: false,
            interrupt_enable: Register::new(0),
            interrupt_flags: Register::new(0),
            steps_before_change: -1,
            target_enable_state: false,
        }
    }

    /// The master enable flag.
    pub fn are_enabled(&self) -> (r: bool)
        ensures
            r == self.are_enabled,
    {
        self.are_enabled
    }

    /// Reads and clears the pending bit of one source.
    pub fn read_and_clear(&mut self, interrupt: InterruptType) -> (r: bool)
        ensures
            r == spec_bit8(old(self).interrupt_flags.val, interrupt.spec_bit()),
            final(self).interrupt_flags.val == spec_set_bit8(
                old(self).interrupt_flags.val,
                interrupt.spec_bit(),
                false,
            ),
            final(self).are_enabled == old(self).are_enabled,
            final(self).interrupt_enable == old(self).interrupt_enable,
            final(self).steps_before_change == old(self).steps_before_change,
            final(self).target_enable_state == old(self).target_enable_state,
    {
        let it = interrupt.bit();
        let is_set = self.interrupt_flags.is_bit_set(it);
        self.interrupt_flags.set_bit(it, false);
        is_set
    }

    /// The pending register after posting one source: its bit is raised
    /// unconditionally. Only servicing is gated by the enable mask and
    /// the master enable; posting merely records the event.
    pub open spec fn spec_flags_after_set(flags: u8, it: InterruptType) -> u8 {
        spec_set_bit8(flags, it.spec_bit(), true)
    }

    /// Posts one source: its pending bit is raised; the enable mask and
    /// the master enable gate servicing, not posting.
    pub fn set_interrupt(&mut self, interrupt: InterruptType)
        ensures
            final(self).interrupt_flags.val == Self::spec_flags_after_set(
                old(self).interrupt_flags.val,
                interrupt,
            ),
            final(self).are_enabled == old(self).are_enabled,
            final(self).interrupt_enable == old(self).interrupt_enable,
            final(self).steps_before_change == old(self).steps_before_change,
            final(self).target_enable_state == old(self).target_enable_state,
    {
        let it = interrupt.bit();
        self.interrupt_flags.set_bit(it, true);
    }

    /// Advances the delayed master-enable change by one step.
    pub fn step(&mut self, cycles: u32)
        requires
            old(self).steps_before_change >= -1,
        ensures
            final(self).steps_before_change as int == if old(self).steps_before_change > 0 {
                old(self).steps_before_change - 1
            } else if old(self).steps_before_change == 0 {
                -1
            } else {
                old(self).steps_before_change as int
            },
            final(self).are_enabled == if old(self).steps_before_change == 0 {
                old(self).target_enable_state
            } else {
                old(self).are_enabled
            },
            final(self).interrupt_enable == old(self).interrupt_enable,
            final(self).interrupt_flags == old(self).interrupt_flags,
            final(self).target_enable_state == old(self).target_enable_state,
    {
        if self.steps_before_change > 0 {
            self.steps_before_change = self.steps_before_change - 1;
        } else if self.steps_before_change == 0 {
            self.are_enabled = self.target_enable_state;
            self.steps_before_change = -1;
        }
    }

    /// Clears the master enable at once, cancelling any delayed change.
    pub fn disable(&mut self)
        ensures
            final(self).are_enabled == false,
            final(self).steps_before_change == -1,
            final(self).interrupt_enable == old(self).interrupt_enable,
            final(self).interrupt_flags == old(self).interrupt_flags,
            final(self).target_enable_state == old(self).target_enable_state,
    {
        self.are_enabled = false;
        self.steps_before_change = -1;
    }

    /// Sets the master enable at once, cancelling any delayed change.
    pub fn enable(&mut self)
        ensures
            final(self).are_enabled == true,
            final(self).steps_before_change == -1,
            final(self).interrupt_enable == old(self).interrupt_enable,
            final(self).interrupt_flags == old(self).interrupt_flags,
            final(self).target_enable_state == old(self).target_enable_state,
    {
        self.are_enabled = true;
        self.steps_before_change = -1;
    }

    /// Schedules the master enable to clear one step from now.
    pub fn disable_in_next_step(&mut self)
        ensures
            final(self).steps_before_change == 1,
            final(self).target_enable_state == false,
            final(self).are_enabled == old(self).are_enabled,
            final(self).interrupt_enable == old(self).interrupt_enable,
            final(self).interrupt_flags == old(self).interrupt_flags,
    {
        self.steps_before_change = 1;
        self.target_enable_state = false;
    }

    /// Schedules the master enable to set one step from now.
    pub fn enable_in_next_step(&mut self)
        ensures
            final(self).steps_before_change == 1,
            final(self).target_enable_state == true,
            final(self).are_enabled == old(self).are_enabled,
            final(self).interrupt_enable == old(self).interrupt_enable,
            final(self).interrupt_flags == old(self).interrupt_flags,
    {
        self.steps_before_change = 1;
        self.target_enable_state = true;
    }

    /// The pending sources whose enable bits are also set, as a mask.
    pub open spec fn spec_ready_mask(&self) -> u8 {
        (self.interrupt_flags.val & self.interrupt_enable.val) & 0x1F
    }

    /// The highest-priority source in the ready mask, when one is due
    /// and the master enable is set.
    pub open spec fn spec_next_pending(&self) -> Option<InterruptType> {
        if !self.are_enabled {
            Option::None
        } else {
            let m = self.spec_ready_mask();
            if m & 0x01 != 0 {
                Option::Some(InterruptType::VBlank)
            } else if m & 0x02 != 0 {
                Option::Some(InterruptType::LCDC)
            } else if m & 0x04 != 0 {
                Option::Some(InterruptType::Timer)
            } else if m & 0x08 != 0 {
                Option::Some(InterruptType::Serial)
            } else if m & 0x10 != 0 {
                Option::Some(InterruptType::Pad)
            } else {
                Option::None
            }
        }
    }

    /// The highest-priority source due for service, if any.
    pub fn next_pending(&self) -> (r: Option<InterruptType>)
        ensures
            r == self.spec_next_pending(),
    {
        if !self.are_enabled {
            return Option::None;
        }
        let m = (self.interrupt_flags.r() & self.interrupt_enable.r()) & 0x1F;
        if m & 0x01 != 0 {
            Option::Some(InterruptType::VBlank)
        } else if m & 0x02 != 0 {
            Option::Some(InterruptType::LCDC)
        } else if m & 0x04 != 0 {
            Option::Some(InterruptType::Timer)
        } else if m & 0x08 != 0 {
            Option::Some(InterruptType::Serial)
        } else if m & 0x10 != 0 {
            Option::Some(InterruptType::Pad)
        } else {
            Option::None
        }
    }
}

impl MemoryRegion for Interrupts {
    open spec fn region_wf(&self) -> bool {
        self.steps_before_change >= -1
    }

    open spec fn spec_contains(&self, addr: u16) -> bool {
        addr == INTERRUPT_ENABLE_ADDR || addr == INTERRUPT_FLAG_ADDR
    }

    open spec fn spec_read(&self, addr: u16) -> u8 {
        if addr == INTERRUPT_ENABLE_ADDR {
            self.interrupt_enable.val
        } else {
            self.interrupt_flags.val
        }
    }

    open spec fn write_rel(pre: Self, addr: u16, val: u8, post: Self) -> bool {
        &&& post.interrupt_enable.val == if addr == INTERRUPT_ENABLE_ADDR {
            val
        } else {
            pre.interrupt_enable.val
        }
        &&& post.interrupt_flags.val == if addr == INTERRUPT_FLAG_ADDR {
            val
        } else {
            pre.interrupt_flags.val
        }
        &&& post.are_enabled == pre.are_enabled
        &&& post.steps_before_change == pre.steps_before_change
        &&& post.target_enable_state == pre.target_enable_state
    }

    fn in_region(&self, addr: u16) -> (r: bool) {
        addr == INTERRUPT_ENABLE_ADDR || addr == INTERRUPT_FLAG_ADDR
    }

    fn read_byte(&self, addr: u16) -> (r: u8) {
        if addr == INTERRUPT_ENABLE_ADDR {
            self.interrupt_enable.r()
        } else {
            self.interrupt_flags.r()
        }
    }

    fn write_byte(&mut self, addr: u16, val: u8) {
        if addr == INTERRUPT_ENABLE_ADDR {
            self.interrupt_enable.w(val)
        } else {
            self.interrupt_flags.w(val)
        }
    }
}

} // verus!
