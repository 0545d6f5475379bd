//! The miscellaneous I/O register file at `0xFF01 ..= 0xFF3F`, plus the
//! boot-ROM latch at `0xFF50`.

use vstd::prelude::*;

verus! {

use crate::memory_region::{MemoryRegion, BitAccess};
use crate::registers::{Register, spec_bit8, spec_set_bit8};

pub const IO_MEMORY_START: u16 = 0xFF01;
pub const IO_MEMORY_END: u16 = 0xFF3F;
pub const BOOT_ROM_ENABLE: u16 = 0xFF50;

/// Byte-wide registers the core stores but does not interpret, and the
/// boot-ROM enable latch.
pub struct IORegs {
    pub contents: Vec<u8>,
    pub boot_rom_enable: Register<u8>,
}

impl IORegs {
    /// All registers cleared; the boot overlay starts enabled.
    pub fn new() -> (r: Self)
        ensures
            r.region_wf(),
            r.boot_rom_enable.val == 0,
            forall|a: u16| r.spec_contains(a) ==> r.spec_read(a) == 0u8,
    {
        let mut contents: Vec<u8> = Vec::new();
        let mut k: usize = 0;
        while k < 0x3F
            invariant
                k <= 0x3F,
                contents@.len() == k,
                forall|i: int| 0 <= i < k ==> contents@[i] == 0u8,
            decreases 0x3F - k,
        {
            contents.push(0u8);
            k = k + 1;
        }
        IORegs { contents, boot_rom_enable: Register::new(0) }
    }

    /// The boot overlay stays mapped until something nonzero is written
    /// to the latch.
    pub fn boot_rom_enabled(&self) -> (r: bool)
        ensures
            r == (self.boot_rom_enable.val == 0),
    {
        self.boot_rom_enable.r() == 0
    }

    /// The first address of the plain register range.
    pub fn start(&self) -> (r: u16)
        ensures
            r == IO_MEMORY_START,
    {
        IO_MEMORY_START
    }

    /// The last address of the plain register range.
    pub fn end(&self) -> (r: u16)
        ensures
            r == IO_MEMORY_END,
    {
        IO_MEMORY_END
    }
}

impl MemoryRegion for IORegs {
    open spec fn region_wf(&self) -> bool {
        self.contents@.len() == 0x3F
    }

    open spec fn spec_contains(&self, addr: u16) -> bool {
        (IO_MEMORY_START <= addr <= IO_MEMORY_END && addr
            != crate::interrupts::INTERRUPT_FLAG_ADDR) || addr == BOOT_ROM_ENABLE
    }

    open spec fn spec_read(&self, addr: u16) -> u8 {
        if addr == BOOT_ROM_ENABLE {
            self.boot_rom_enable.val
        } else {
            self.contents@[addr - IO_MEMORY_START]
        }
    }

    /// The boot latch is permanent: once a nonzero byte disabled the
    /// overlay, later writes to the latch are ignored.
    open spec fn write_rel(pre: Self, addr: u16, val: u8, post: Self) -> bool {
        &&& post.boot_rom_enable.val == if addr == BOOT_ROM_ENABLE && pre.boot_rom_enable.val
            == 0 {
            val
        } else {
            pre.boot_rom_enable.val
        }
        &&& post.contents@ == if addr == BOOT_ROM_ENABLE {
            pre.contents@
        } else {
            pre.contents@.update(addr - IO_MEMORY_START, val)
        }
    }

    fn in_region(&self, addr: u16) -> (r: bool) {
        (addr >= IO_MEMORY_START && addr <= IO_MEMORY_END && addr
            != crate::interrupts::INTERRUPT_FLAG_ADDR) || addr == BOOT_ROM_ENABLE
    }

    fn read_byte(&self, addr: u16) -> (r: u8) {
        if addr == BOOT_ROM_ENABLE {
            self.boot_rom_enable.r()
        } else {
            self.contents[(addr - IO_MEMORY_START) as usize]
        }
    }

    fn write_byte(&mut self, addr: u16, val: u8) {
        if addr == BOOT_ROM_ENABLE {
            if self.boot_rom_enable.r() == 0 {
                self.boot_rom_enable.w(val)
            }
        } else {
            let i: usize = (addr - IO_MEMORY_START) as usize;
            self.contents.set(i, val);
        }
    }
}

impl BitAccess for IORegs {
    fn read_bit(&self, addr: u16, bit: u8) -> (r: bool) {
        let val = self.read_byte(addr);
        val & (1u8 << bit) > 0
    }

    fn set_bit(&mut self, addr: u16, bit: u8, val: bool) {
        let cur_val = self.read_byte(addr);
        let new_val = if val {
            cur_val | (1u8 << bit)
        } else {
            cur_val & !(1u8 << bit)
        };
        self.write_byte(addr, new_val);
    }
}

} // verus!
