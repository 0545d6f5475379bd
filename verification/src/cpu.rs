//! The processor state: the register file with its paired views, the flag
//! helpers, stack access, instruction fetch, and the per-frame run loop.

use vstd::prelude::*;

verus! {

use crate::bits::{hi_byte, lo_byte, word_of, word_inc, word_dec, word_inc_of, word_dec_of, word_from, hi_of, lo_of};
use crate::bus::BUS;
use crate::gpu_constants::DMA_START_ADDR;
use crate::Fault;

/// Clock cycles in one video frame.
pub const CYCLES_PER_FRAME: u32 = 70224;

/// The four flag bits in the high nibble of F.
#[derive(Clone, Copy, PartialEq, Eq, Structural, Debug)]
pub enum CPUFlags {
    Z,
    N,
    H,
    C,
}

impl CPUFlags {
    /// The mask of this flag in the F register.
    pub open spec fn spec_mask(self) -> u8 {
        match self {
            CPUFlags::Z => 0x80,
            CPUFlags::N => 0x40,
            CPUFlags::H => 0x20,
            CPUFlags::C => 0x10,
        }
    }

    /// The mask of this flag in the F register.
    pub fn mask(self) -> (r: u8)
        ensures
            r == self.spec_mask(),
    {
        match self {
            CPUFlags::Z => 0x80,
            CPUFlags::N => 0x40,
            CPUFlags::H => 0x20,
            CPUFlags::C => 0x10,
        }
    }
}

/// The F register after forcing one flag; the low nibble is always
/// masked off.
pub open spec fn spec_flag_update(f: u8, mask: u8, on: bool) -> u8 {
    if on {
        (f | mask) & 0xF0
    } else {
        (f & !mask) & 0xF0
    }
}

use crate::registers::Register;

/// The eight 8-bit registers.
pub struct RegBank {
    pub a: Register<u8>,
    pub f: Register<u8>,
    pub b: Register<u8>,
    pub c: Register<u8>,
    pub d: Register<u8>,
    pub e: Register<u8>,
    pub h: Register<u8>,
    pub l: Register<u8>,
}

impl Default for RegBank {
    /// All registers cleared, as at cold reset.
    fn default() -> (r: Self)
        ensures
            r.a.val == 0 && r.f.val == 0 && r.b.val == 0 && r.c.val == 0,
            r.d.val == 0 && r.e.val == 0 && r.h.val == 0 && r.l.val == 0,
    {
        RegBank {
            a: Register::new(0x00),
            f: Register::new(0x00),
            b: Register::new(0x00),
            c: Register::new(0x00),
            d: Register::new(0x00),
            e: Register::new(0x00),
            h: Register::new(0x00),
            l: Register::new(0x00),
        }
    }
}

impl RegBank {
    /// The AF pair.
    pub fn af(&self) -> (r: u16)
        ensures
            r == word_of(self.a.val, self.f.val),
    {
        word_from(self.a.r(), self.f.r())
    }

    /// The BC pair.
    pub fn bc(&self) -> (r: u16)
        ensures
            r == word_of(self.b.val, self.c.val),
    {
        word_from(self.b.r(), self.c.r())
    }

    /// The DE pair.
    pub fn de(&self) -> (r: u16)
        ensures
            r == word_of(self.d.val, self.e.val),
    {
        word_from(self.d.r(), self.e.r())
    }

    /// The HL pair.
    pub fn hl(&self) -> (r: u16)
        ensures
            r == word_of(self.h.val, self.l.val),
    {
        word_from(self.h.r(), self.l.r())
    }

    /// Writes the AF pair; the low nibble of F is masked off.
    pub fn af_w(&mut self, word: u16)
        ensures
            final(self).a.val == hi_byte(word),
            final(self).f.val == lo_byte(word) & 0xF0,
            final(self).b == old(self).b && final(self).c == old(self).c,
            final(self).d == old(self).d && final(self).e == old(self).e,
            final(self).h == old(self).h && final(self).l == old(self).l,
    {
        self.a.w(hi_of(word));
        self.f.w(lo_of(word) & 0xF0);
    }

    /// Writes the BC pair.
    pub fn bc_w(&mut self, word: u16)
        ensures
            final(self).b.val == hi_byte(word),
            final(self).c.val == lo_byte(word),
            final(self).a == old(self).a && final(self).f == old(self).f,
            final(self).d == old(self).d && final(self).e == old(self).e,
            final(self).h == old(self).h && final(self).l == old(self).l,
    {
        self.b.w(hi_of(word));
        self.c.w(lo_of(word));
    }

    /// Writes the DE pair.
    pub fn de_w(&mut self, word: u16)
        ensures
            final(self).d.val == hi_byte(word),
            final(self).e.val == lo_byte(word),
            final(self).a == old(self).a && final(self).f == old(self).f,
            final(self).b == old(self).b && final(self).c == old(self).c,
            final(self).h == old(self).h && final(self).l == old(self).l,
    {
        self.d.w(hi_of(word));
        self.e.w(lo_of(word));
    }

    /// Writes the HL pair.
    pub fn hl_w(&mut self, word: u16)
        ensures
            final(self).h.val == hi_byte(word),
            final(self).l.val == lo_byte(word),
            final(self).a == old(self).a && final(self).f == old(self).f,
            final(self).b == old(self).b && final(self).c == old(self).c,
            final(self).d == old(self).d && final(self).e == old(self).e,
    {
        self.h.w(hi_of(word));
        self.l.w(lo_of(word));
    }
}

/// Every register pair reads as its high register shifted over its low
/// register.
pub proof fn lemma_pair_views(bank: RegBank)
    ensures
        word_of(bank.a.val, bank.f.val) == ((bank.a.val as u16) << 8) | (bank.f.val as u16),
        word_of(bank.b.val, bank.c.val) == ((bank.b.val as u16) << 8) | (bank.c.val as u16),
        word_of(bank.d.val, bank.e.val) == ((bank.d.val as u16) << 8) | (bank.e.val as u16),
        word_of(bank.h.val, bank.l.val) == ((bank.h.val as u16) << 8) | (bank.l.val as u16),
{
}

/// The processor: the bus it owns, the register file, the two 16-bit
/// registers, and the cycle budget of the running frame.
pub struct CPU {
    pub bus: BUS,
    pub regs: RegBank,
    pub sp: Register<u16>,
    pub pc: Register<u16>,
    pub cycles: u32,
}

impl CPU {
    /// The machine invariant: the bus holds its own.
    pub open spec fn cpu_wf(&self) -> bool {
        self.bus.bus_wf()
    }

    /// The low nibble of F is clear.
    pub open spec fn flags_ok(&self) -> bool {
        self.regs.f.val & 0x0F == 0
    }

    /// A cold machine around the given bus: every register zero.
    pub fn new(bus: BUS) -> (r: Self)
        requires
            bus.bus_wf(),
        ensures
            r.cpu_wf(),
            r.flags_ok(),
            r.bus == bus,
            r.regs.a.val == 0 && r.regs.f.val == 0 && r.regs.b.val == 0 && r.regs.c.val == 0,
            r.regs.d.val == 0 && r.regs.e.val == 0 && r.regs.h.val == 0 && r.regs.l.val == 0,
            r.sp.val == 0 && r.pc.val == 0 && r.cycles == 0,
    {
        proof {
            assert(0u8 & 0x0F == 0) by (bit_vector);
        }
        CPU {
            bus,
            regs: Default::default(),
            sp: Register::new(0x0000),
            pc: Register::new(0x0000),
            cycles: 0,
        }
    }

    /// True when the given flag bit of F is set.
    pub fn is_flag_set(&self, flag: CPUFlags) -> (r: bool)
        ensures
            r == (self.regs.f.val & flag.spec_mask() != 0),
    {
        self.regs.f.r() & flag.mask() > 0
    }

    /// Forces one flag bit of F; the low nibble of F is masked off.
    pub fn set_flag(&mut self, flag: CPUFlags, val: bool)
        ensures
            final(self).regs.f.val == spec_flag_update(
                old(self).regs.f.val,
                flag.spec_mask(),
                val,
            ),
            final(self).flags_ok(),
            final(self).regs.a == old(self).regs.a,
            final(self).regs.b == old(self).regs.b,
            final(self).regs.c == old(self).regs.c,
            final(self).regs.d == old(self).regs.d,
            final(self).regs.e == old(self).regs.e,
            final(self).regs.h == old(self).regs.h,
            final(self).regs.l == old(self).regs.l,
            final(self).bus == old(self).bus,
            final(self).sp == old(self).sp,
            final(self).pc == old(self).pc,
            final(self).cycles == old(self).cycles,
    {
        let m = flag.mask();
        if val {
            let new_f = self.regs.f.r() | m;
            self.regs.f.w(new_f & 0xF0);
        } else {
            let new_f = self.regs.f.r() & !m;
            self.regs.f.w(new_f & 0xF0);
        }
        proof {
            let x = self.regs.f.val;
            assert(x & 0xF0 == x ==> x & 0x0F == 0) by (bit_vector);
            let fo = old(self).regs.f.val;
            assert(((fo | m) & 0xF0) & 0xF0 == (fo | m) & 0xF0) by (bit_vector);
            assert(((fo & !m) & 0xF0) & 0xF0 == (fo & !m) & 0xF0) by (bit_vector);
        }
    }

    /// Reads the byte at `addr`; the DMA trigger register is write-only.
    pub fn read_byte(&self, addr: u16) -> (r: u8)
        requires
            self.cpu_wf(),
            addr != DMA_START_ADDR,
        ensures
            r == self.bus.spec_read(addr),
    {
        self.bus.read_byte(addr)
    }

    /// Writes the byte at `addr`.
    pub fn write_byte(&mut self, addr: u16, val: u8)
        requires
            old(self).cpu_wf(),
            addr == DMA_START_ADDR ==> val != 0xFF,
        ensures
            final(self).cpu_wf(),
            BUS::write_rel(old(self).bus, addr, val, final(self).bus),
            final(self).regs == old(self).regs,
            final(self).sp == old(self).sp,
            final(self).pc == old(self).pc,
            final(self).cycles == old(self).cycles,
    {
        self.bus.write_byte(addr, val)
    }

    /// Reads the little-endian word at `[addr, addr + 1]`, wrapping.
    pub fn read_word(&self, addr: u16) -> (r: u16)
        requires
            self.cpu_wf(),
            addr != DMA_START_ADDR,
            word_inc(addr) != DMA_START_ADDR,
        ensures
            r == word_of(self.bus.spec_read(word_inc(addr)), self.bus.spec_read(addr)),
    {
        self.bus.read_word(addr)
    }

    /// Writes the little-endian word at `[addr, addr + 1]`, wrapping.
    pub fn write_word(&mut self, addr: u16, val: u16)
        requires
            old(self).cpu_wf(),
            addr == DMA_START_ADDR ==> lo_byte(val) != 0xFF,
            word_inc(addr) == DMA_START_ADDR ==> hi_byte(val) != 0xFF,
        ensures
            final(self).cpu_wf(),
            exists|mid: BUS|
                #[trigger] BUS::write_rel(old(self).bus, addr, lo_byte(val), mid)
                    && BUS::write_rel(mid, word_inc(addr), hi_byte(val), final(self).bus),
            final(self).regs == old(self).regs,
            final(self).sp == old(self).sp,
            final(self).pc == old(self).pc,
            final(self).cycles == old(self).cycles,
    {
        self.bus.write_word(addr, val)
    }

    /// Fetches the byte at PC and advances PC, wrapping at the top of
    /// the address space.
    pub fn fetch_byte_immediate(&mut self) -> (r: u8)
        requires
            old(self).cpu_wf(),
            old(self).pc.val != DMA_START_ADDR,
        ensures
            final(self).cpu_wf(),
            r == old(self).bus.spec_read(old(self).pc.val),
            final(self).pc.val == word_inc(old(self).pc.val),
            final(self).bus == old(self).bus,
            final(self).regs == old(self).regs,
            final(self).sp == old(self).sp,
            final(self).cycles == old(self).cycles,
    {
        let res = self.bus.read_byte(self.pc.r());
        let oldpc = self.pc.r();
        self.pc.w(word_inc_of(oldpc));
        res
    }

    /// Fetches the little-endian word at PC and advances PC by two,
    /// wrapping at the top of the address space.
    pub fn fetch_word_immediate(&mut self) -> (r: u16)
        requires
            old(self).cpu_wf(),
            old(self).pc.val != DMA_START_ADDR,
            word_inc(old(self).pc.val) != DMA_START_ADDR,
        ensures
            final(self).cpu_wf(),
            r == word_of(
                old(self).bus.spec_read(word_inc(old(self).pc.val)),
                old(self).bus.spec_read(old(self).pc.val),
            ),
            final(self).pc.val == word_inc(word_inc(old(self).pc.val)),
            final(self).bus == old(self).bus,
            final(self).regs == old(self).regs,
            final(self).sp == old(self).sp,
            final(self).cycles == old(self).cycles,
    {
        let res = self.bus.read_word(self.pc.r());
        let oldpc = self.pc.r();
        self.pc.w(word_inc_of(word_inc_of(oldpc)));
        res
    }

    /// Schedules the master interrupt enable to clear one step from now.
    pub fn disable_interrupts_delayed(&mut self)
        ensures
            final(self).bus.interrupt_handler.steps_before_change == 1,
            final(self).bus.interrupt_handler.target_enable_state == false,
            final(self).bus.interrupt_handler.are_enabled == old(
                self,
            ).bus.interrupt_handler.are_enabled,
            final(self).bus.interrupt_handler.interrupt_enable == old(
                self,
            ).bus.interrupt_handler.interrupt_enable,
            final(self).bus.interrupt_handler.interrupt_flags == old(
                self,
            ).bus.interrupt_handler.interrupt_flags,
            final(self).bus.cartridge == old(self).bus.cartridge,
            final(self).bus.boot_rom == old(self).bus.boot_rom,
            final(self).bus.gpu == old(self).bus.gpu,
            final(self).bus.storage_ram == old(self).bus.storage_ram,
            final(self).bus.storage_zero_ram == old(self).bus.storage_zero_ram,
            final(self).bus.joypad == old(self).bus.joypad,
            final(self).bus.io_registers == old(self).bus.io_registers,
            final(self).regs == old(self).regs,
            final(self).sp == old(self).sp,
            final(self).pc == old(self).pc,
            final(self).cycles == old(self).cycles,
    {
        self.bus.disable_in_next_step();
    }

    /// Schedules the master interrupt enable to set one step from now.
    pub fn enable_interrupts_delayed(&mut self)
        ensures
            final(self).bus.interrupt_handler.steps_before_change == 1,
            final(self).bus.interrupt_handler.target_enable_state == true,
            final(self).bus.interrupt_handler.are_enabled == old(
                self,
            ).bus.interrupt_handler.are_enabled,
            final(self).bus.interrupt_handler.interrupt_enable == old(
                self,
            ).bus.interrupt_handler.interrupt_enable,
            final(self).bus.interrupt_handler.interrupt_flags == old(
                self,
            ).bus.interrupt_handler.interrupt_flags,
            final(self).bus.cartridge == old(self).bus.cartridge,
            final(self).bus.boot_rom == old(self).bus.boot_rom,
            final(self).bus.gpu == old(self).bus.gpu,
            final(self).bus.storage_ram == old(self).bus.storage_ram,
            final(self).bus.storage_zero_ram == old(self).bus.storage_zero_ram,
            final(self).bus.joypad == old(self).bus.joypad,
            final(self).bus.io_registers == old(self).bus.io_registers,
            final(self).regs == old(self).regs,
            final(self).sp == old(self).sp,
            final(self).pc == old(self).pc,
            final(self).cycles == old(self).cycles,
    {
        self.bus.enable_in_next_step();
    }

    /// Pushes one byte: SP falls by one (wrapping) and the byte lands at
    /// the new SP.
    pub fn push(&mut self, val: u8)
        requires
            old(self).cpu_wf(),
            word_dec(old(self).sp.val) == DMA_START_ADDR ==> val != 0xFF,
        ensures
            final(self).cpu_wf(),
            final(self).sp.val == word_dec(old(self).sp.val),
            BUS::write_rel(old(self).bus, word_dec(old(self).sp.val), val, final(self).bus),
            final(self).regs == old(self).regs,
            final(self).pc == old(self).pc,
            final(self).cycles == old(self).cycles,
    {
        let new_sp = word_dec_of(self.sp.r());
        self.sp.w(new_sp);
        self.bus.write_byte(new_sp, val);
    }

    /// Pops one byte: the byte at SP is read and SP rises by one,
    /// wrapping.
    pub fn pop(&mut self) -> (r: u8)
        requires
            old(self).cpu_wf(),
            old(self).sp.val != DMA_START_ADDR,
        ensures
            final(self).cpu_wf(),
            r == old(self).bus.spec_read(old(self).sp.val),
            final(self).sp.val == word_inc(old(self).sp.val),
            final(self).bus == old(self).bus,
            final(self).regs == old(self).regs,
            final(self).pc == old(self).pc,
            final(self).cycles == old(self).cycles,
    {
        let sp = self.sp.r();
        let res = self.bus.read_byte(sp);
        self.sp.w(word_inc_of(sp));
        res
    }

    /// Pushes a word: high byte first, then the low byte below it; SP
    /// falls by two, wrapping.
    pub fn push_word(&mut self, val: u16)
        requires
            old(self).cpu_wf(),
            word_dec(old(self).sp.val) == DMA_START_ADDR ==> hi_byte(val) != 0xFF,
            word_dec(word_dec(old(self).sp.val)) == DMA_START_ADDR ==> lo_byte(val) != 0xFF,
        ensures
            final(self).cpu_wf(),
            final(self).sp.val == word_dec(word_dec(old(self).sp.val)),
            exists|mid: BUS|
                #[trigger] BUS::write_rel(
                    old(self).bus,
                    word_dec(old(self).sp.val),
                    hi_byte(val),
                    mid,
                ) && BUS::write_rel(
                    mid,
                    word_dec(word_dec(old(self).sp.val)),
                    lo_byte(val),
                    final(self).bus,
                ),
            final(self).regs == old(self).regs,
            final(self).pc == old(self).pc,
            final(self).cycles == old(self).cycles,
    {
        self.push(hi_of(val));
        let ghost mid = self.bus;
        self.push(lo_of(val));
        proof {
            assert(BUS::write_rel(old(self).bus, word_dec(old(self).sp.val), hi_byte(val), mid)
                && BUS::write_rel(
                mid,
                word_dec(word_dec(old(self).sp.val)),
                lo_byte(val),
                self.bus,
            ));
        }
    }

    /// Pops a word: the low byte from SP, the high byte above it; SP
    /// rises by two, wrapping.
    pub fn pop_word(&mut self) -> (r: u16)
        requires
            old(self).cpu_wf(),
            old(self).sp.val != DMA_START_ADDR,
            word_inc(old(self).sp.val) != DMA_START_ADDR,
        ensures
            final(self).cpu_wf(),
            r == word_of(
                old(self).bus.spec_read(word_inc(old(self).sp.val)),
                old(self).bus.spec_read(old(self).sp.val),
            ),
            final(self).sp.val == word_inc(word_inc(old(self).sp.val)),
            final(self).bus == old(self).bus,
            final(self).regs == old(self).regs,
            final(self).pc == old(self).pc,
            final(self).cycles == old(self).cycles,
    {
        let lo = self.pop();
        let hi = self.pop();
        word_from(hi, lo)
    }
}

/// A pushed word popped at once reads back unchanged and SP returns to
/// its prior value, whenever the two stack bytes land in work RAM, its
/// echo, or high RAM.
pub proof fn lemma_push_pop_roundtrip(pre: BUS, mid: BUS, post: BUS, sp: u16, val: u16)
    requires
        pre.bus_wf(),
        BUS::write_rel(pre, word_dec(sp), hi_byte(val), mid),
        BUS::write_rel(mid, word_dec(word_dec(sp)), lo_byte(val), post),
        crate::bus::spec_plain_ram_addr(word_dec(sp)),
        crate::bus::spec_plain_ram_addr(word_dec(word_dec(sp))),
    ensures
        word_of(
            post.spec_read(word_inc(word_dec(word_dec(sp)))),
            post.spec_read(word_dec(word_dec(sp))),
        ) == val,
        word_inc(word_inc(word_dec(word_dec(sp)))) == sp,
{
    let a1 = word_dec(sp);
    let a2 = word_dec(a1);
    crate::bus::lemma_write_preserves_wf(pre, mid, a1, hi_byte(val));
    crate::bus::lemma_plain_ram_roundtrip(pre, mid, a1, hi_byte(val));
    crate::bus::lemma_plain_ram_roundtrip(mid, post, a2, lo_byte(val));
    crate::bus::lemma_plain_ram_frame(mid, post, a2, lo_byte(val), a1);
    crate::bits::lemma_word_bytes();
    assert(word_inc(a2) == a1);
    assert(word_inc(word_inc(word_dec(word_dec(sp)))) == sp);
}

/// The bus with only the interrupt controller changed: master enable
/// cleared and one pending bit dropped, as interrupt service begins.
pub open spec fn ih_cleared_rel(preb: BUS, postb: BUS, it: crate::interrupts::InterruptType) -> bool {
    &&& postb.cartridge == preb.cartridge
    &&& postb.boot_rom == preb.boot_rom
    &&& postb.gpu == preb.gpu
    &&& postb.storage_ram == preb.storage_ram
    &&& postb.storage_zero_ram == preb.storage_zero_ram
    &&& postb.joypad == preb.joypad
    &&& postb.io_registers == preb.io_registers
    &&& postb.interrupt_handler.are_enabled == false
    &&& postb.interrupt_handler.steps_before_change == -1
    &&& postb.interrupt_handler.interrupt_flags.val == crate::registers::spec_set_bit8(
        preb.interrupt_handler.interrupt_flags.val,
        it.spec_bit(),
        false,
    )
    &&& postb.interrupt_handler.interrupt_enable == preb.interrupt_handler.interrupt_enable
    &&& postb.interrupt_handler.target_enable_state == preb.interrupt_handler.target_enable_state
}

/// Exactly what servicing one interrupt does: the controller cleared,
/// PC pushed, and control at the fixed vector.
pub open spec fn service_rel(pre: CPU, it: crate::interrupts::InterruptType, post: CPU) -> bool {
    &&& post.pc.val == 0x40 + 8 * it.spec_bit()
    &&& post.sp.val == word_dec(word_dec(pre.sp.val))
    &&& post.regs == pre.regs
    &&& post.cycles == pre.cycles
    &&& exists|mid: BUS|
        #[trigger] ih_cleared_rel(pre.bus, mid, it) && crate::instructions::push2_rel(
            mid,
            pre.sp.val,
            pre.pc.val,
            post.bus,
        )
}

/// The machine `m` after the clocked subsystems advanced by `cyc` and
/// the frame counter absorbed it.
pub open spec fn after_bus_step(m: CPU, post: CPU, cyc: u32) -> bool {
    &&& BUS::step_rel(m.bus, post.bus, cyc)
    &&& post.regs == m.regs
    &&& post.pc == m.pc
    &&& post.sp == m.sp
    &&& post.cycles == m.cycles + cyc
}

/// The machine with PC advanced past fetched bytes and nothing else
/// touched.
pub open spec fn fetched1(pre: CPU) -> CPU {
    CPU { pc: Register { val: word_inc(pre.pc.val) }, ..pre }
}

/// The machine with PC advanced past two fetched bytes.
pub open spec fn fetched2(pre: CPU) -> CPU {
    CPU { pc: Register { val: word_inc(word_inc(pre.pc.val)) }, ..pre }
}

/// Exactly what retiring one step does: either the highest-priority
/// pending interrupt is serviced, or the opcode at PC (with a second
/// byte after the bit prefix) is executed; either way the clocked
/// subsystems then advance by the retired machine cycles.
pub open spec fn step_instr_rel(pre: CPU, post: CPU, c: u32) -> bool {
    match pre.bus.interrupt_handler.spec_next_pending() {
        Option::Some(it) => {
            &&& c == 5
            &&& exists|m: CPU| #[trigger] service_rel(pre, it, m) && after_bus_step(m, post, 20)
        },
        Option::None => {
            let pc = pre.pc.val;
            let op = pre.bus.spec_read(pc);
            &&& pc != DMA_START_ADDR
            &&& if op == 0xCB {
                let op2 = pre.bus.spec_read(word_inc(pc));
                &&& word_inc(pc) != DMA_START_ADDR
                &&& exists|m: CPU|
                    #[trigger] crate::instructions::exec_rel_cb(
                        fetched2(pre),
                        op2,
                        m,
                        Result::<u32, Fault>::Ok(c),
                    ) && after_bus_step(m, post, (4 * c) as u32)
            } else {
                exists|m: CPU|
                    #[trigger] crate::instructions::exec_rel(
                        fetched1(pre),
                        op,
                        m,
                        Result::<u32, Fault>::Ok(c),
                    ) && after_bus_step(m, post, (4 * c) as u32)
            }
        },
    }
}

/// Exactly when one step stops the machine, and the state it leaves:
/// either the service push, the opcode fetch, or the executed
/// instruction named the write-only register, or the opcode has no
/// table entry.
pub open spec fn step_err_rel(pre: CPU, post: CPU, f: Fault) -> bool {
    match pre.bus.interrupt_handler.spec_next_pending() {
        Option::Some(it) => {
            &&& f == Fault::ReadWriteOnly
            &&& post == pre
            &&& crate::instructions::spec_push_fault(pre.sp.val, pre.pc.val)
        },
        Option::None => {
            let pc = pre.pc.val;
            let op = pre.bus.spec_read(pc);
            if pc == DMA_START_ADDR {
                f == Fault::ReadWriteOnly && post == pre
            } else if op == 0xCB {
                if word_inc(pc) == DMA_START_ADDR {
                    f == Fault::ReadWriteOnly && post == fetched1(pre)
                } else {
                    crate::instructions::exec_rel_cb(
                        fetched2(pre),
                        pre.bus.spec_read(word_inc(pc)),
                        post,
                        Result::<u32, Fault>::Err(f),
                    )
                }
            } else {
                crate::instructions::exec_rel(
                    fetched1(pre),
                    op,
                    post,
                    Result::<u32, Fault>::Err(f),
                )
            }
        },
    }
}

/// Zero or more retired steps linking two machine states; each link is
/// one `step_instr_rel` advance.
pub open spec fn steps_chain(pre: CPU, post: CPU, k: nat) -> bool
    decreases k,
{
    if k == 0 {
        post == pre
    } else {
        exists|mid: CPU, c: u32|
            #[trigger] step_instr_rel(pre, mid, c) && steps_chain(mid, post, (k - 1) as nat)
    }
}

/// A chain extends by one retired step at its end.
pub proof fn lemma_chain_snoc(pre: CPU, mid: CPU, post: CPU, k: nat, c: u32)
    requires
        steps_chain(pre, mid, k),
        step_instr_rel(mid, post, c),
    ensures
        steps_chain(pre, post, (k + 1) as nat),
    decreases k,
{
    if k == 0 {
        assert(mid == pre);
        assert(steps_chain(post, post, 0));
        assert(step_instr_rel(pre, post, c) && steps_chain(post, post, 0));
    } else {
        let (m2, c2) = choose|m2: CPU, c2: u32|
            #[trigger] step_instr_rel(pre, m2, c2) && steps_chain(m2, mid, (k - 1) as nat);
        lemma_chain_snoc(m2, mid, post, (k - 1) as nat, c);
        assert(step_instr_rel(pre, m2, c2) && steps_chain(m2, post, k));
    }
}

impl CPU {
    /// Services one interrupt: clears the master enable and the pending
    /// bit, pushes PC, jumps to the fixed vector, and retires five
    /// machine cycles. A service whose stack push would touch the DMA
    /// trigger with its own page stops the machine instead.
    pub fn service_interrupt(&mut self, interrupt: crate::interrupts::InterruptType) -> (r:
        Result<u32, Fault>)
        requires
            old(self).cpu_wf(),
        ensures
            final(self).cpu_wf(),
            final(self).flags_ok() == old(self).flags_ok(),
            match r {
                Result::Ok(c) => c == 5 && service_rel(*old(self), interrupt, *final(self)),
                Result::Err(f) => *final(self) == *old(self) && f == Fault::ReadWriteOnly
                    && crate::instructions::spec_push_fault(old(self).sp.val, old(self).pc.val),
            },
    {
        let sp0 = self.sp.r();
        let pc0 = self.pc.r();
        if (word_dec_of(sp0) == DMA_START_ADDR && hi_of(pc0) == 0xFF) || (word_dec_of(
            word_dec_of(sp0),
        ) == DMA_START_ADDR && lo_of(pc0) == 0xFF) {
            return Result::Err(Fault::ReadWriteOnly);
        }
        self.bus.interrupt_handler.disable();
        self.bus.interrupt_handler.read_and_clear(interrupt);
        let ghost mid = self.bus;
        self.push_word(pc0);
        self.pc.w(interrupt.isr_start());
        proof {
            assert(ih_cleared_rel(old(self).bus, mid, interrupt));
        }
        Result::Ok(5)
    }

    /// Retires one instruction, or services one pending interrupt:
    /// the interrupt controller is polled first; otherwise the opcode at
    /// PC is fetched (a second byte for the bit-prefixed table), decoded
    /// and executed. The clocked subsystems then advance by the retired
    /// machine cycles, and the frame counter absorbs them.
    pub fn step_instruction(&mut self, instr_set: &crate::instructions::InstructionSet) -> (r:
        Result<u32, Fault>)
        requires
            old(self).cpu_wf(),
            old(self).cycles < CYCLES_PER_FRAME,
        ensures
            final(self).cpu_wf(),
            old(self).flags_ok() ==> final(self).flags_ok(),
            match r {
                Result::Ok(c) => 1 <= c <= 8 && final(self).cycles == old(self).cycles + 4 * c
                    && step_instr_rel(*old(self), *final(self), c),
                Result::Err(f) => step_err_rel(*old(self), *final(self), f),
            },
    {
        let pending = self.bus.interrupt_handler.next_pending();
        match pending {
            Option::Some(it) => {
                let c = match self.service_interrupt(it) {
                    Result::Ok(c) => c,
                    Result::Err(f) => {
                        return Result::Err(f);
                    },
                };
                let ghost m = *self;
                self.bus.step(c * 4);
                self.cycles = self.cycles + c * 4;
                proof {
                    assert(service_rel(*old(self), it, m) && after_bus_step(m, *self, 20));
                }
                Result::Ok(c)
            },
            Option::None => {
                if self.pc.r() == DMA_START_ADDR {
                    return Result::Err(Fault::ReadWriteOnly);
                }
                let mut opcode = self.fetch_byte_immediate();
                let mut bitwise = false;
                if opcode == 0xCB {
                    if self.pc.r() == DMA_START_ADDR {
                        proof {
                            assert(*self =~~= fetched1(*old(self)));
                        }
                        return Result::Err(Fault::ReadWriteOnly);
                    }
                    opcode = self.fetch_byte_immediate();
                    bitwise = true;
                }
                proof {
                    if bitwise {
                        assert(*self =~~= fetched2(*old(self)));
                    } else {
                        assert(*self =~~= fetched1(*old(self)));
                    }
                }
                let ghost pre_exec = *self;
                let res = if bitwise {
                    instr_set.exec_bit(self, opcode)
                } else {
                    instr_set.exec(self, opcode)
                };
                let c = match res {
                    Result::Ok(c) => c,
                    Result::Err(f) => {
                        return Result::Err(f);
                    },
                };
                let ghost m = *self;
                self.bus.step(c * 4);
                self.cycles = self.cycles + c * 4;
                proof {
                    if bitwise {
                        assert(crate::instructions::exec_rel_cb(
                            fetched2(*old(self)),
                            opcode,
                            m,
                            Result::<u32, Fault>::Ok(c),
                        ));
                    } else {
                        assert(crate::instructions::exec_rel(
                            fetched1(*old(self)),
                            opcode,
                            m,
                            Result::<u32, Fault>::Ok(c),
                        ));
                    }
                    assert(after_bus_step(m, *self, (4 * c) as u32));
                }
                Result::Ok(c)
            },
        }
    }

    /// Runs instructions until the frame budget of clock cycles is
    /// reached, then carries the overshoot into the next frame. Returns
    /// the machine cycles retired: one frame within the granularity of a
    /// single instruction.
    pub fn run_frame(&mut self, instr_set: &crate::instructions::InstructionSet) -> (r: Result<
        u32,
        Fault,
    >)
        requires
            old(self).cpu_wf(),
            old(self).cycles < 32,
        ensures
            final(self).cpu_wf(),
            old(self).flags_ok() ==> final(self).flags_ok(),
            match r {
                Result::Ok(n) => {
                    &&& CYCLES_PER_FRAME <= old(self).cycles + 4 * n < CYCLES_PER_FRAME + 32
                    &&& final(self).cycles == old(self).cycles + 4 * n - CYCLES_PER_FRAME
                    &&& final(self).cycles < 32
                    &&& exists|m: CPU, k: nat|
                        #[trigger] steps_chain(*old(self), m, k) && m.cycles == old(self).cycles
                            + 4 * n && *final(self) == (CPU {
                            cycles: (m.cycles - CYCLES_PER_FRAME) as u32,
                            ..m
                        })
                },
                Result::Err(f) => exists|m: CPU, k: nat|
                    #[trigger] steps_chain(*old(self), m, k) && step_err_rel(
                        m,
                        *final(self),
                        f,
                    ),
            },
    {
        let ghost c0 = self.cycles;
        let mut retired: u32 = 0;
        let ghost mut k: nat = 0nat;
        proof {
            assert(steps_chain(*old(self), *self, 0));
        }
        while self.cycles < CYCLES_PER_FRAME
            invariant
                self.cpu_wf(),
                old(self).flags_ok() ==> self.flags_ok(),
                self.cycles == c0 + 4 * retired,
                self.cycles < CYCLES_PER_FRAME + 32,
                c0 == old(self).cycles,
                steps_chain(*old(self), *self, k),
            decreases CYCLES_PER_FRAME + 32 - self.cycles,
        {
            let ghost before = *self;
            let c = match self.step_instruction(instr_set) {
                Result::Ok(c) => c,
                Result::Err(f) => {
                    proof {
                        assert(steps_chain(*old(self), before, k) && step_err_rel(
                            before,
                            *self,
                            f,
                        ));
                    }
                    return Result::Err(f);
                },
            };
            proof {
                lemma_chain_snoc(*old(self), before, *self, k, c);
                k = (k + 1) as nat;
            }
            retired = retired + c;
        }
        let ghost m = *self;
        self.cycles = self.cycles - CYCLES_PER_FRAME;
        proof {
            assert(*self =~~= (CPU { cycles: (m.cycles - CYCLES_PER_FRAME) as u32, ..m }));
            assert(steps_chain(*old(self), m, k) && m.cycles == old(self).cycles + 4 * retired
                && *self == (CPU { cycles: (m.cycles - CYCLES_PER_FRAME) as u32, ..m }));
        }
        Result::Ok(retired)
    }
}

} // verus!
