//! A verified core for the original handheld console built around the
//! LR35902 processor: register file, memory bus, cartridge, pixel pipeline,
//! joypad and interrupt controller, together with the instruction
//! decoder/executor and the per-frame CPU loop.
//!
//! The host shell (window, input events, image dumps, console front-end)
//! lives outside this crate; the core exchanges plain values with it.

use vstd::prelude::*;

pub mod bits;
pub mod bus;
pub mod cartridge;
pub mod cpu;
pub mod debugger;
pub mod gpu;
pub mod gpu_constants;
pub mod instructions;
pub mod interrupts;
pub mod ioregs;
pub mod joypad;
pub mod memory_region;
pub mod plain_ram;
pub mod registers;
pub mod sprites;
pub mod tile_set;

verus! {

/// A fatal condition of the emulated machine, reported to the host instead
/// of unwinding: the machine either retires a full frame or stops here.
#[derive(Clone, Copy, PartialEq, Eq, Structural, Debug)]
pub enum Fault {
    /// The dispatch table holds no entry for the fetched opcode.
    UnimplementedOpcode,
    /// A read touched the write-only DMA trigger register.
    ReadWriteOnly,
}

} // verus!
