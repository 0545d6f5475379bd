//! The memory bus: dispatches every address to the subsystem that owns it,
//! serves the boot overlay, aliases echo RAM onto work RAM, runs the OAM
//! DMA copy, and advances the clocked subsystems.

use vstd::prelude::*;

verus! {

use crate::bits::{hi_byte, lo_byte, word_of, word_inc, word_inc_of, word_from};
use crate::cartridge::Cartridge;
use crate::gpu::GPU;
use crate::gpu_constants::{DMA_START_ADDR, SPRITE_OAM_START};
use crate::interrupts::{Interrupts, InterruptType};
use crate::ioregs::IORegs;
use crate::joypad::Joypad;
use crate::memory_region::MemoryRegion;
use crate::plain_ram::PLAIN_RAM;
use crate::sprites::Sprite;

pub const BIOS_START: u16 = 0x0000;
pub const BIOS_END: u16 = 0x00FF;

pub const INTERNAL_RAM_START: u16 = 0xC000;
pub const INTERNAL_RAM_END: u16 = 0xDFFF;

pub const INTERNAL_RAM_ECHO_START: u16 = 0xE000;
pub const INTERNAL_RAM_ECHO_END: u16 = 0xFDFF;

pub const ZERO_PAGE_RAM_START: u16 = 0xFF80;
pub const ZERO_PAGE_RAM_END: u16 = 0xFFFE;

pub const DMA_LENGTH: u16 = 160;

/// The sprite record parsed from its four OAM bytes.
pub open spec fn spec_sprite_of(b0: u8, b1: u8, b2: u8, b3: u8) -> Sprite {
    Sprite {
        coord_y: b0,
        coord_x: b1,
        data_tile: b2,
        priority: b3 & 0x80 != 0,
        flip_y: b3 & 0x40 != 0,
        flip_x: b3 & 0x20 != 0,
        palette_0: b3 & 0x10 != 0,
        attr_low: b3 & 0x0F,
    }
}

/// The dispatcher owning every addressable subsystem.
#[allow(non_camel_case_types)]
pub struct BUS {
    pub cartridge: Cartridge,
    pub boot_rom: PLAIN_RAM,
    pub gpu: GPU,
    pub storage_ram: PLAIN_RAM,
    pub storage_zero_ram: PLAIN_RAM,
    pub interrupt_handler: Interrupts,
    pub joypad: Joypad,
    pub io_registers: IORegs,
}

impl BUS {
    /// Every subsystem holds its invariant and covers its fixed range.
    pub open spec fn bus_wf(&self) -> bool {
        &&& self.cartridge.region_wf()
        &&& self.boot_rom.region_wf()
        &&& self.boot_rom.start == BIOS_START
        &&& self.boot_rom.end == BIOS_END
        &&& self.gpu.gpu_wf()
        &&& self.storage_ram.region_wf()
        &&& self.storage_ram.start == INTERNAL_RAM_START
        &&& self.storage_ram.end == INTERNAL_RAM_END
        &&& self.storage_zero_ram.region_wf()
        &&& self.storage_zero_ram.start == ZERO_PAGE_RAM_START
        &&& self.storage_zero_ram.end == ZERO_PAGE_RAM_END
        &&& self.interrupt_handler.region_wf()
        &&& self.io_registers.region_wf()
    }

    /// Builds the bus around a boot image and a cartridge.
    pub fn new(boot_rom: Vec<u8>, cartridge: Cartridge) -> (r: Self)
        requires
            boot_rom@.len() == 0x100,
            cartridge.region_wf(),
        ensures
            r.bus_wf(),
            r.cartridge == cartridge,
            r.boot_rom.storage@ == boot_rom@,
            r.io_registers.boot_rom_enable.val == 0,
            r.interrupt_handler.are_enabled == false,
            r.interrupt_handler.interrupt_enable.val == 0,
            r.interrupt_handler.interrupt_flags.val == 0,
            r.interrupt_handler.steps_before_change == -1,
            r.gpu.lcdc_mode == crate::gpu::LCDCMode::OAM,
            r.gpu.mode_cycles == 0,
            r.gpu.ly_coord.val == 0,
            r.gpu.lcd_status.val == 0,
            r.joypad.state.val == 0,
            r.joypad.interrupt_generated == false,
            forall|a: u16|
                INTERNAL_RAM_START <= a <= INTERNAL_RAM_END ==> r.storage_ram.spec_read(a) == 0u8,
            forall|a: u16|
                ZERO_PAGE_RAM_START <= a <= ZERO_PAGE_RAM_END ==> r.storage_zero_ram.spec_read(a)
                    == 0u8,
            forall|i: int| 0 <= i < 0x1800 ==> r.gpu.tile_data.data@[i] == 0u8,
            forall|a: u16| r.gpu.tile_maps.spec_contains(a) ==> r.gpu.tile_maps.spec_read(a) == 0u8,
            forall|i: int|
                0 <= i < 40 ==> r.gpu.sprite_oam.sprites@[i] == crate::sprites::spec_sprite_zero(),
            forall|i: int| 0 <= i < 160 * 144 ==> r.gpu.framebuffer@[i] == 0u8,
    {
        BUS {
            cartridge,
            boot_rom: PLAIN_RAM::from_data(BIOS_START, BIOS_END, boot_rom),
            gpu: GPU::new(),
            storage_ram: PLAIN_RAM::new(INTERNAL_RAM_START, INTERNAL_RAM_END),
            storage_zero_ram: PLAIN_RAM::new(ZERO_PAGE_RAM_START, ZERO_PAGE_RAM_END),
            interrupt_handler: Interrupts::new(),
            joypad: Joypad::new(),
            io_registers: IORegs::new(),
        }
    }

    /// True while the boot overlay still answers for the low page.
    pub open spec fn spec_boot_enabled(&self) -> bool {
        self.io_registers.boot_rom_enable.val == 0
    }

    /// The byte served at `addr`: the boot overlay first, then the owner
    /// of the address. Addresses no subsystem claims - absent cartridge
    /// RAM and the unused I/O ranges - deliberately read as open-bus 0xFF
    /// and swallow writes, the same behaviour the unused region gives the
    /// specified 0xFEA0..=0xFEFF window; the one fatal access kept is a
    /// read of the write-only DMA trigger.
    pub open spec fn spec_read(&self, addr: u16) -> u8 {
        if self.spec_boot_enabled() && addr <= BIOS_END {
            self.boot_rom.spec_read(addr)
        } else if addr < 0x8000 {
            self.cartridge.spec_read(addr)
        } else if self.gpu.spec_contains(addr) {
            self.gpu.spec_read(addr)
        } else if INTERNAL_RAM_START <= addr <= INTERNAL_RAM_END {
            self.storage_ram.spec_read(addr)
        } else if INTERNAL_RAM_ECHO_START <= addr <= INTERNAL_RAM_ECHO_END {
            self.storage_ram.spec_read((addr - 0x2000) as u16)
        } else if self.interrupt_handler.spec_contains(addr) {
            self.interrupt_handler.spec_read(addr)
        } else if ZERO_PAGE_RAM_START <= addr <= ZERO_PAGE_RAM_END {
            self.storage_zero_ram.spec_read(addr)
        } else if self.joypad.spec_contains(addr) {
            self.joypad.spec_read(addr)
        } else if self.io_registers.spec_contains(addr) {
            self.io_registers.spec_read(addr)
        } else {
            0xFF
        }
    }

    /// Reads one byte; the DMA trigger register is write-only.
    pub fn read_byte(&self, addr: u16) -> (r: u8)
        requires
            self.bus_wf(),
            addr != DMA_START_ADDR,
        ensures
            r == self.spec_read(addr),
    {
        if self.io_registers.boot_rom_enabled() && self.boot_rom.in_region(addr) {
            self.boot_rom.read_byte(addr)
        } else if self.cartridge.in_region(addr) {
            self.cartridge.read_byte(addr)
        } else if self.gpu.in_region(addr) {
            self.gpu.read_byte(addr)
        } else if addr >= INTERNAL_RAM_START && addr <= INTERNAL_RAM_END {
            self.storage_ram.read_byte(addr)
        } else if addr >= INTERNAL_RAM_ECHO_START && addr <= INTERNAL_RAM_ECHO_END {
            self.storage_ram.read_byte(addr - 0x2000)
        } else if self.interrupt_handler.in_region(addr) {
            self.interrupt_handler.read_byte(addr)
        } else if self.storage_zero_ram.in_region(addr) {
            self.storage_zero_ram.read_byte(addr)
        } else if self.joypad.in_region(addr) {
            self.joypad.read_byte(addr)
        } else if self.io_registers.in_region(addr) {
            self.io_registers.read_byte(addr)
        } else {
            0xFF
        }
    }

    /// Reads the little-endian word at `[addr, addr + 1]`, the second
    /// address wrapping at the top of the address space.
    pub fn read_word(&self, addr: u16) -> (r: u16)
        requires
            self.bus_wf(),
            addr != DMA_START_ADDR,
            word_inc(addr) != DMA_START_ADDR,
        ensures
            r == word_of(self.spec_read(word_inc(addr)), self.spec_read(addr)),
    {
        let lo = self.read_byte(addr);
        let hi = self.read_byte(word_inc_of(addr));
        word_from(hi, lo)
    }

    /// Exactly how a write of `val` at `addr` changes the machine. A DMA
    /// trigger fills the sprite table from the source page; all other
    /// writes land in (or bounce off) the owner of the address.
    pub open spec fn write_rel(pre: Self, addr: u16, val: u8, post: Self) -> bool {
        &&& post.cartridge == pre.cartridge
        &&& post.boot_rom == pre.boot_rom
        &&& if addr == DMA_START_ADDR {
            &&& post.gpu.sprite_oam.sprites@ == Seq::new(
                40,
                |j: int|
                    spec_sprite_of(
                        pre.spec_read((val * 256 + 4 * j) as u16),
                        pre.spec_read((val * 256 + 4 * j + 1) as u16),
                        pre.spec_read((val * 256 + 4 * j + 2) as u16),
                        pre.spec_read((val * 256 + 4 * j + 3) as u16),
                    ),
            )
            &&& post.gpu.tile_data == pre.gpu.tile_data
            &&& post.gpu.tile_maps == pre.gpu.tile_maps
            &&& post.gpu.lcdc_mode == pre.gpu.lcdc_mode
            &&& post.gpu.mode_cycles == pre.gpu.mode_cycles
            &&& post.gpu.lcd_control == pre.gpu.lcd_control
            &&& post.gpu.lcd_status == pre.gpu.lcd_status
            &&& post.gpu.scroll_y == pre.gpu.scroll_y
            &&& post.gpu.scroll_x == pre.gpu.scroll_x
            &&& post.gpu.ly_coord == pre.gpu.ly_coord
            &&& post.gpu.lyc_compare == pre.gpu.lyc_compare
            &&& post.gpu.bg_palette == pre.gpu.bg_palette
            &&& post.gpu.obj_palette_1 == pre.gpu.obj_palette_1
            &&& post.gpu.obj_palette_2 == pre.gpu.obj_palette_2
            &&& post.gpu.window_y == pre.gpu.window_y
            &&& post.gpu.window_x == pre.gpu.window_x
            &&& post.gpu.framebuffer == pre.gpu.framebuffer
            &&& post.storage_ram == pre.storage_ram
            &&& post.storage_zero_ram == pre.storage_zero_ram
            &&& post.interrupt_handler == pre.interrupt_handler
            &&& post.joypad == pre.joypad
            &&& post.io_registers == pre.io_registers
        } else {
            &&& if pre.gpu.spec_contains(addr) {
                GPU::write_rel(pre.gpu, addr, val, post.gpu)
            } else {
                post.gpu == pre.gpu
            }
            &&& post.storage_ram.start == pre.storage_ram.start
            &&& post.storage_ram.end == pre.storage_ram.end
            &&& post.storage_ram.storage@ == if INTERNAL_RAM_START <= addr <= INTERNAL_RAM_END {
                pre.storage_ram.storage@.update(addr - INTERNAL_RAM_START, val)
            } else if INTERNAL_RAM_ECHO_START <= addr <= INTERNAL_RAM_ECHO_END {
                pre.storage_ram.storage@.update(addr - 0x2000 - INTERNAL_RAM_START, val)
            } else {
                pre.storage_ram.storage@
            }
            &&& post.storage_zero_ram.start == pre.storage_zero_ram.start
            &&& post.storage_zero_ram.end == pre.storage_zero_ram.end
            &&& post.storage_zero_ram.storage@ == if ZERO_PAGE_RAM_START <= addr
                <= ZERO_PAGE_RAM_END {
                pre.storage_zero_ram.storage@.update(addr - ZERO_PAGE_RAM_START, val)
            } else {
                pre.storage_zero_ram.storage@
            }
            &&& if pre.interrupt_handler.spec_contains(addr) {
                Interrupts::write_rel(pre.interrupt_handler, addr, val, post.interrupt_handler)
            } else {
                post.interrupt_handler == pre.interrupt_handler
            }
            &&& if addr == crate::joypad::JOYPAD_ADDR {
                Joypad::write_rel(pre.joypad, addr, val, post.joypad)
            } else {
                post.joypad == pre.joypad
            }
            &&& if pre.io_registers.spec_contains(addr) {
                IORegs::write_rel(pre.io_registers, addr, val, post.io_registers)
            } else {
                post.io_registers == pre.io_registers
            }
        }
    }

    /// Writes one byte. A DMA trigger naming the page of its own register
    /// is refused up front, so the copy never reads the write-only slot.
    pub fn write_byte(&mut self, addr: u16, val: u8)
        requires
            old(self).bus_wf(),
            addr == DMA_START_ADDR ==> val != 0xFF,
        ensures
            final(self).bus_wf(),
            Self::write_rel(*old(self), addr, val, *final(self)),
    {
        if addr == DMA_START_ADDR {
            self.perform_dma(val);
        } else if self.cartridge.in_region(addr) {
            self.cartridge.write_byte(addr, val);
        } else if self.gpu.in_region(addr) {
            self.gpu.write_byte(addr, val);
        } else if addr >= INTERNAL_RAM_START && addr <= INTERNAL_RAM_END {
            self.storage_ram.write_byte(addr, val);
        } else if addr >= INTERNAL_RAM_ECHO_START && addr <= INTERNAL_RAM_ECHO_END {
            self.storage_ram.write_byte(addr - 0x2000, val);
        } else if self.interrupt_handler.in_region(addr) {
            self.interrupt_handler.write_byte(addr, val);
        } else if self.storage_zero_ram.in_region(addr) {
            self.storage_zero_ram.write_byte(addr, val);
        } else if self.joypad.in_region(addr) {
            self.joypad.write_byte(addr, val);
        } else if self.io_registers.in_region(addr) {
            self.io_registers.write_byte(addr, val);
        }
    }

    /// Writes the little-endian word at `[addr, addr + 1]`, the second
    /// address wrapping at the top of the address space.
    pub fn write_word(&mut self, addr: u16, val: u16)
        requires
            old(self).bus_wf(),
            addr == DMA_START_ADDR ==> lo_byte(val) != 0xFF,
            word_inc(addr) == DMA_START_ADDR ==> hi_byte(val) != 0xFF,
        ensures
            final(self).bus_wf(),
            exists|mid: Self|
                #[trigger] Self::write_rel(*old(self), addr, lo_byte(val), mid) && Self::write_rel(
                    mid,
                    word_inc(addr),
                    hi_byte(val),
                    *final(self),
                ),
    {
        let lo = crate::bits::lo_of(val);
        let hi = crate::bits::hi_of(val);
        self.write_byte(addr, lo);
        let ghost mid = *self;
        self.write_byte(word_inc_of(addr), hi);
        proof {
            assert(Self::write_rel(*old(self), addr, lo_byte(val), mid) && Self::write_rel(
                mid,
                word_inc(addr),
                hi_byte(val),
                *self,
            ));
        }
    }

    /// The DMA copy: 160 bytes from `val << 8` into the sprite table.
    fn perform_dma(&mut self, val: u8)
        requires
            old(self).bus_wf(),
            val != 0xFF,
        ensures
            final(self).bus_wf(),
            Self::write_rel(*old(self), DMA_START_ADDR, val, *final(self)),
    {
        let src: u16 = (val as u16) << 8;
        proof {
            let v = val;
            assert(v != 0xFF ==> (v as u16) << 8 == v as u16 * 256 && v as u16 * 256 + 160
                <= 0xFF00) by (bit_vector);
        }

        // Collect the source page first, so a source overlapping the
        // sprite table still reads its pre-copy bytes.
        let mut buf: Vec<u8> = Vec::new();
        let mut i: usize = 0;
        while i < 160
            invariant
                self == old(self),
                self.bus_wf(),
                src == val * 256,
                src + 160 <= 0xFF00,
                i <= 160,
                buf@.len() == i,
                forall|k: int| 0 <= k < i ==> buf@[k] == self.spec_read((src + k) as u16),
            decreases 160 - i,
        {
            buf.push(self.read_byte(src + i as u16));
            i = i + 1;
        }

        let ghost pre = *old(self);
        let mut j: usize = 0;
        while j < 40
            invariant
                pre.bus_wf(),
                self.bus_wf(),
                self.cartridge == pre.cartridge,
                self.boot_rom == pre.boot_rom,
                self.gpu.tile_data == pre.gpu.tile_data,
                self.gpu.tile_maps == pre.gpu.tile_maps,
                self.gpu.lcdc_mode == pre.gpu.lcdc_mode,
                self.gpu.mode_cycles == pre.gpu.mode_cycles,
                self.gpu.lcd_control == pre.gpu.lcd_control,
                self.gpu.lcd_status == pre.gpu.lcd_status,
                self.gpu.scroll_y == pre.gpu.scroll_y,
                self.gpu.scroll_x == pre.gpu.scroll_x,
                self.gpu.ly_coord == pre.gpu.ly_coord,
                self.gpu.lyc_compare == pre.gpu.lyc_compare,
                self.gpu.bg_palette == pre.gpu.bg_palette,
                self.gpu.obj_palette_1 == pre.gpu.obj_palette_1,
                self.gpu.obj_palette_2 == pre.gpu.obj_palette_2,
                self.gpu.window_y == pre.gpu.window_y,
                self.gpu.window_x == pre.gpu.window_x,
                self.gpu.framebuffer == pre.gpu.framebuffer,
                self.storage_ram == pre.storage_ram,
                self.storage_zero_ram == pre.storage_zero_ram,
                self.interrupt_handler == pre.interrupt_handler,
                self.joypad == pre.joypad,
                self.io_registers == pre.io_registers,
                buf@.len() == 160,
                forall|k: int| 0 <= k < 160 ==> buf@[k] == pre.spec_read((src + k) as u16),
                src == val * 256,
                src + 160 <= 0xFF00,
                j <= 40,
                self.gpu.sprite_oam.sprites@.len() == 40,
                forall|t: int|
                    0 <= t < j ==> self.gpu.sprite_oam.sprites@[t] == spec_sprite_of(
                        buf@[4 * t],
                        buf@[4 * t + 1],
                        buf@[4 * t + 2],
                        buf@[4 * t + 3],
                    ),
                forall|t: int|
                    j <= t < 40 ==> self.gpu.sprite_oam.sprites@[t]
                        == pre.gpu.sprite_oam.sprites@[t],
            decreases 40 - j,
        {
            let base = SPRITE_OAM_START + 4 * j as u16;
            self.gpu.sprite_oam.write_byte(base, buf[4 * j]);
            self.gpu.sprite_oam.write_byte(base + 1, buf[4 * j + 1]);
            self.gpu.sprite_oam.write_byte(base + 2, buf[4 * j + 2]);
            self.gpu.sprite_oam.write_byte(base + 3, buf[4 * j + 3]);
            j = j + 1;
        }
        proof {
            assert(self.gpu.sprite_oam.sprites@ =~= Seq::new(
                40,
                |t: int|
                    spec_sprite_of(
                        pre.spec_read((val * 256 + 4 * t) as u16),
                        pre.spec_read((val * 256 + 4 * t + 1) as u16),
                        pre.spec_read((val * 256 + 4 * t + 2) as u16),
                        pre.spec_read((val * 256 + 4 * t + 3) as u16),
                    ),
            ));
        }
    }

    /// Exactly how one clock advance changes the machine: the pixel
    /// pipeline outcome, the joypad post, and the interrupt delay step.
    pub open spec fn step_rel(pre: Self, post: Self, cycles: u32) -> bool {
        &&& (post.bus_wf())
        &&& (post.cartridge == pre.cartridge)
        &&& (post.boot_rom == pre.boot_rom)
        &&& (post.storage_ram == pre.storage_ram)
        &&& (post.storage_zero_ram == pre.storage_zero_ram)
        &&& (post.io_registers == pre.io_registers)
        &&& (GPU::step_frame_rel(pre.gpu, post.gpu))
        &&& (post.gpu.lcdc_mode == pre.gpu.spec_outcome(cycles).mode)
        &&& (post.gpu.mode_cycles == pre.gpu.spec_outcome(cycles).mode_cycles)
        &&& (post.gpu.ly_coord.val == pre.gpu.spec_outcome(cycles).ly)
        &&& (post.gpu.lcd_status.val == pre.gpu.spec_outcome(cycles).stat)
        &&& (post.gpu.framebuffer@.len() == pre.gpu.framebuffer@.len())
        &&& (
            forall|j: int|
                0 <= j < 160 * 144 ==> post.gpu.framebuffer@[j] == if pre.gpu.spec_outcome(cycles).rendered && pre.gpu.ly_coord.val * 160 <= j < pre.gpu.ly_coord.val * 160 + 160 {
                    pre.gpu.spec_scanline(pre.gpu.ly_coord.val)[j - pre.gpu.ly_coord.val * 160]
                } else {
                    pre.gpu.framebuffer@[j]
                }
        )
        &&& (post.joypad.interrupt_generated == false)
        &&& (post.joypad.state == pre.joypad.state)
        &&& (
            forall|b: crate::joypad::Button|
                post.joypad.spec_pressed(b) == pre.joypad.spec_pressed(b)
        )
        &&& (
            post.interrupt_handler.interrupt_flags.val == ({
                let f1 = pre.gpu.spec_flags_outcome(pre.interrupt_handler, cycles);
                if pre.joypad.interrupt_generated {
                    Interrupts::spec_flags_after_set(f1, InterruptType::Pad)
                } else {
                    f1
                }
            })
        )
        &&& (post.interrupt_handler.interrupt_enable == pre.interrupt_handler.interrupt_enable)
        &&& (post.interrupt_handler.target_enable_state == pre.interrupt_handler.target_enable_state)
        &&& (
            post.interrupt_handler.steps_before_change as int == if pre.interrupt_handler.steps_before_change > 0 {
                pre.interrupt_handler.steps_before_change - 1
            } else if pre.interrupt_handler.steps_before_change == 0 {
                -1
            } else {
                pre.interrupt_handler.steps_before_change as int
            }
        )
        &&& (
            post.interrupt_handler.are_enabled == if pre.interrupt_handler.steps_before_change == 0 {
                pre.interrupt_handler.target_enable_state
            } else {
                pre.interrupt_handler.are_enabled
            }
        )
    }

    /// Advances the clocked subsystems by `cycles`: the pixel pipeline,
    /// then the joypad, then the interrupt delay counter.
    pub fn step(&mut self, cycles: u32)
        requires
            old(self).bus_wf(),
            cycles <= 63,
        ensures
            final(self).bus_wf(),
            Self::step_rel(*old(self), *final(self), cycles),
    {
        self.gpu.step(cycles, &mut self.interrupt_handler);
        self.joypad.step(cycles, &mut self.interrupt_handler);
        self.interrupt_handler.step(cycles);
    }

    /// Schedules the master interrupt enable to clear one step from now.
    pub fn disable_in_next_step(&mut self)
        ensures
            final(self).interrupt_handler.steps_before_change == 1,
            final(self).interrupt_handler.target_enable_state == false,
            final(self).interrupt_handler.are_enabled == old(self).interrupt_handler.are_enabled,
            final(self).interrupt_handler.interrupt_enable == old(
                self,
            ).interrupt_handler.interrupt_enable,
            final(self).interrupt_handler.interrupt_flags == old(
                self,
            ).interrupt_handler.interrupt_flags,
            final(self).cartridge == old(self).cartridge,
            final(self).boot_rom == old(self).boot_rom,
            final(self).gpu == old(self).gpu,
            final(self).storage_ram == old(self).storage_ram,
            final(self).storage_zero_ram == old(self).storage_zero_ram,
            final(self).joypad == old(self).joypad,
            final(self).io_registers == old(self).io_registers,
    {
        self.interrupt_handler.disable_in_next_step();
    }

    /// Schedules the master interrupt enable to set one step from now.
    pub fn enable_in_next_step(&mut self)
        ensures
            final(self).interrupt_handler.steps_before_change == 1,
            final(self).interrupt_handler.target_enable_state == true,
            final(self).interrupt_handler.are_enabled == old(self).interrupt_handler.are_enabled,
            final(self).interrupt_handler.interrupt_enable == old(
                self,
            ).interrupt_handler.interrupt_enable,
            final(self).interrupt_handler.interrupt_flags == old(
                self,
            ).interrupt_handler.interrupt_flags,
            final(self).cartridge == old(self).cartridge,
            final(self).boot_rom == old(self).boot_rom,
            final(self).gpu == old(self).gpu,
            final(self).storage_ram == old(self).storage_ram,
            final(self).storage_zero_ram == old(self).storage_zero_ram,
            final(self).joypad == old(self).joypad,
            final(self).io_registers == old(self).io_registers,
    {
        self.interrupt_handler.enable_in_next_step();
    }
}

/// An address backed by plain writable RAM: work RAM, its echo window,
/// or high RAM.
pub open spec fn spec_plain_ram_addr(a: u16) -> bool {
    ||| INTERNAL_RAM_START <= a <= INTERNAL_RAM_END
    ||| INTERNAL_RAM_ECHO_START <= a <= INTERNAL_RAM_ECHO_END
    ||| ZERO_PAGE_RAM_START <= a <= ZERO_PAGE_RAM_END
}

/// The backing address of a plain-RAM address: echo addresses map one
/// page down onto work RAM.
pub open spec fn spec_ram_canon(a: u16) -> u16 {
    if INTERNAL_RAM_ECHO_START <= a <= INTERNAL_RAM_ECHO_END {
        ((a - 0x2000) as u16)
    } else {
        a
    }
}

/// A write keeps the machine invariant.
pub proof fn lemma_write_preserves_wf(pre: BUS, post: BUS, a: u16, v: u8)
    requires
        pre.bus_wf(),
        spec_plain_ram_addr(a),
        BUS::write_rel(pre, a, v, post),
    ensures
        post.bus_wf(),
{
}

/// A plain-RAM write leaves every address with a different backing slot
/// reading as before.
pub proof fn lemma_plain_ram_frame(pre: BUS, post: BUS, a: u16, v: u8, b: u16)
    requires
        pre.bus_wf(),
        spec_plain_ram_addr(a),
        BUS::write_rel(pre, a, v, post),
        spec_ram_canon(b) != spec_ram_canon(a),
    ensures
        post.spec_read(b) == pre.spec_read(b),
{
}

/// A write to plain RAM is read back at the same address.
pub proof fn lemma_plain_ram_roundtrip(pre: BUS, post: BUS, a: u16, v: u8)
    requires
        pre.bus_wf(),
        spec_plain_ram_addr(a),
        BUS::write_rel(pre, a, v, post),
    ensures
        post.spec_read(a) == v,
{
}

/// Echo RAM: a write anywhere in work RAM is read back through the echo
/// window one page above, byte for byte.
pub proof fn lemma_echo_roundtrip(pre: BUS, post: BUS, a: u16, v: u8)
    requires
        pre.bus_wf(),
        0xC000 <= a <= 0xDDFF,
        BUS::write_rel(pre, a, v, post),
    ensures
        post.spec_read((a + 0x2000) as u16) == v,
{
}

/// Unclaimed addresses below the high page always read as 0xFF.
pub proof fn lemma_unused_reads(b: BUS, a: u16)
    requires
        b.bus_wf(),
        0xFEA0 <= a <= 0xFEFF,
    ensures
        b.spec_read(a) == 0xFF,
{
}

/// The DMA trigger fills exactly the 160 sprite-table bytes from the
/// source page, and every address outside the table reads as before.
pub proof fn lemma_dma_copies(pre: BUS, post: BUS, v: u8, i: u16)
    requires
        pre.bus_wf(),
        post.bus_wf(),
        v != 0xFF,
        BUS::write_rel(pre, DMA_START_ADDR, v, post),
        i < 160,
    ensures
        post.spec_read((SPRITE_OAM_START + i) as u16) == pre.spec_read((v * 256 + i) as u16),
        forall|a: u16|
            !(SPRITE_OAM_START <= a <= crate::gpu_constants::SPRITE_OAM_END) && a != DMA_START_ADDR
                ==> post.spec_read(a) == pre.spec_read(a),
{
    let addr = (SPRITE_OAM_START + i) as u16;
    let t = i as int / 4;
    let off = i as int % 4;
    let s = post.gpu.sprite_oam.sprites@[t];
    if off == 3 {
        let b3 = pre.spec_read((v * 256 + 4 * t + 3) as u16);
        crate::sprites::lemma_attr_roundtrip(pre.gpu.sprite_oam.sprites@[t], b3);
        let parsed = spec_sprite_of(
            pre.spec_read((v * 256 + 4 * t) as u16),
            pre.spec_read((v * 256 + 4 * t + 1) as u16),
            pre.spec_read((v * 256 + 4 * t + 2) as u16),
            b3,
        );
        assert(((if b3 & 0x80 != 0 {
            0x80u8
        } else {
            0u8
        }) + (if b3 & 0x40 != 0 {
            0x40u8
        } else {
            0u8
        }) + (if b3 & 0x20 != 0 {
            0x20u8
        } else {
            0u8
        }) + (if b3 & 0x10 != 0 {
            0x10u8
        } else {
            0u8
        }) + ((b3 & 0x0F) & 0x0F)) as u8 == b3) by (bit_vector);
    }
}

} // verus!
