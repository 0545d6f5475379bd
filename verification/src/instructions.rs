//! The instruction decoder and executor: the primary dispatch table and
//! the bit-prefixed table, decoded into a structured instruction form and
//! executed against the exact per-instruction relations.

use vstd::prelude::*;

verus! {

use crate::bits::{
    hi_byte, lo_byte, word_of, word_inc, word_dec, word_add, byte_inc, byte_dec, word_inc_of,
    word_dec_of, word_add_of, byte_inc_of, byte_dec_of, word_from, hi_of, lo_of,
};
use crate::bus::BUS;
use crate::cpu::{CPU, CPUFlags, RegBank, spec_flag_update};
use crate::gpu_constants::DMA_START_ADDR;
use crate::registers::Register;
use crate::Fault;

/// An 8-bit register operand.
#[derive(Clone, Copy, PartialEq, Eq, Structural, Debug)]
pub enum Reg8 {
    A,
    B,
    C,
    D,
    E,
    H,
    L,
}

/// A 16-bit register operand.
#[derive(Clone, Copy, PartialEq, Eq, Structural, Debug)]
pub enum Reg16 {
    BC,
    DE,
    HL,
    SP,
}

/// A 16-bit pair as pushed to or popped from the stack.
#[derive(Clone, Copy, PartialEq, Eq, Structural, Debug)]
pub enum Reg16Stk {
    AF,
    BC,
    DE,
    HL,
}

/// The condition of a conditional control transfer.
#[derive(Clone, Copy, PartialEq, Eq, Structural, Debug)]
pub enum JumpCond {
    NZ,
    Z,
    NC,
    C,
    Always,
}

/// An arithmetic or logic operation against the accumulator.
#[derive(Clone, Copy, PartialEq, Eq, Structural, Debug)]
pub enum AluOp {
    Add,
    Adc,
    Sub,
    Sbc,
    Cp,
    And,
    Or,
    Xor,
}

/// The operand of an accumulator operation.
#[derive(Clone, Copy, PartialEq, Eq, Structural, Debug)]
pub enum Src8 {
    R(Reg8),
    HlInd,
    Imm,
}

/// The target of a bit-prefixed rotate or swap.
#[derive(Clone, Copy, PartialEq, Eq, Structural, Debug)]
pub enum Loc8 {
    R(Reg8),
    HlInd,
}

/// One decoded instruction of the implemented instruction set.
#[derive(Clone, Copy, PartialEq, Eq, Structural, Debug)]
pub enum Instruction {
    Nop,
    LdRR(Reg8, Reg8),
    LdRImm(Reg8),
    LdRHl(Reg8),
    LdHlR(Reg8),
    LdHlImm,
    LdABc,
    LdADe,
    LdBcA,
    LdDeA,
    LdAImmInd,
    LdImmIndA,
    LdhNA,
    LdhAN,
    LdhCA,
    LdhAC,
    LdiHlA,
    LdiAHl,
    LddHlA,
    LddAHl,
    Ld16Imm(Reg16),
    Alu(AluOp, Src8),
    IncR(Reg8),
    DecR(Reg8),
    IncHlInd,
    DecHlInd,
    Inc16(Reg16),
    Dec16(Reg16),
    Rla,
    Rlca,
    Rra,
    Rrca,
    Daa,
    Cpl,
    Scf,
    Ccf,
    AddHl(Reg16),
    LdSpHl,
    LdIndImmSp,
    AddSpImm,
    LdHlSpImm,
    Halt,
    JpImm,
    JpCond(JumpCond),
    JpHl,
    Jr(JumpCond),
    Call(JumpCond),
    Ret,
    RetCond(JumpCond),
    Reti,
    Rst(u8),
    Push(Reg16Stk),
    Pop(Reg16Stk),
    Di,
    Ei,
    Rl(Loc8),
    Rlc(Loc8),
    Rr(Loc8),
    Rrc(Loc8),
    Sla(Loc8),
    Sra(Loc8),
    Srl(Loc8),
    Swap(Loc8),
    Bit(u8, Reg8),
    BitHl(u8),
    ResBit(u8, Loc8),
    SetBit(u8, Loc8),
}

/// The register operand in the low three opcode bits, where 6 names the
/// memory operand instead.
pub open spec fn spec_src_of_bits(b: u8) -> Src8 {
    if b == 0 {
        Src8::R(Reg8::B)
    } else if b == 1 {
        Src8::R(Reg8::C)
    } else if b == 2 {
        Src8::R(Reg8::D)
    } else if b == 3 {
        Src8::R(Reg8::E)
    } else if b == 4 {
        Src8::R(Reg8::H)
    } else if b == 5 {
        Src8::R(Reg8::L)
    } else if b == 6 {
        Src8::HlInd
    } else {
        Src8::R(Reg8::A)
    }
}

/// What the primary table holds for each opcode.
pub open spec fn spec_decode(op: u8) -> Option<Instruction> {
    if op == 0x00 {
        Option::Some(Instruction::Nop)
    } else if op == 0x01 {
        Option::Some(Instruction::Ld16Imm(Reg16::BC))
    } else if op == 0x02 {
        Option::Some(Instruction::LdBcA)
    } else if op == 0x03 {
        Option::Some(Instruction::Inc16(Reg16::BC))
    } else if op == 0x04 {
        Option::Some(Instruction::IncR(Reg8::B))
    } else if op == 0x05 {
        Option::Some(Instruction::DecR(Reg8::B))
    } else if op == 0x06 {
        Option::Some(Instruction::LdRImm(Reg8::B))
    } else if op == 0x07 {
        Option::Some(Instruction::Rlca)
    } else if op == 0x08 {
        Option::Some(Instruction::LdIndImmSp)
    } else if op == 0x09 {
        Option::Some(Instruction::AddHl(Reg16::BC))
    } else if op == 0x0A {
        Option::Some(Instruction::LdABc)
    } else if op == 0x0B {
        Option::Some(Instruction::Dec16(Reg16::BC))
    } else if op == 0x0C {
        Option::Some(Instruction::IncR(Reg8::C))
    } else if op == 0x0D {
        Option::Some(Instruction::DecR(Reg8::C))
    } else if op == 0x0E {
        Option::Some(Instruction::LdRImm(Reg8::C))
    } else if op == 0x0F {
        Option::Some(Instruction::Rrca)
    } else if op == 0x11 {
        Option::Some(Instruction::Ld16Imm(Reg16::DE))
    } else if op == 0x12 {
        Option::Some(Instruction::LdDeA)
    } else if op == 0x13 {
        Option::Some(Instruction::Inc16(Reg16::DE))
    } else if op == 0x14 {
        Option::Some(Instruction::IncR(Reg8::D))
    } else if op == 0x15 {
        Option::Some(Instruction::DecR(Reg8::D))
    } else if op == 0x16 {
        Option::Some(Instruction::LdRImm(Reg8::D))
    } else if op == 0x17 {
        Option::Some(Instruction::Rla)
    } else if op == 0x18 {
        Option::Some(Instruction::Jr(JumpCond::Always))
    } else if op == 0x19 {
        Option::Some(Instruction::AddHl(Reg16::DE))
    } else if op == 0x1A {
        Option::Some(Instruction::LdADe)
    } else if op == 0x1B {
        Option::Some(Instruction::Dec16(Reg16::DE))
    } else if op == 0x1C {
        Option::Some(Instruction::IncR(Reg8::E))
    } else if op == 0x1D {
        Option::Some(Instruction::DecR(Reg8::E))
    } else if op == 0x1E {
        Option::Some(Instruction::LdRImm(Reg8::E))
    } else if op == 0x1F {
        Option::Some(Instruction::Rra)
    } else if op == 0x20 {
        Option::Some(Instruction::Jr(JumpCond::NZ))
    } else if op == 0x21 {
        Option::Some(Instruction::Ld16Imm(Reg16::HL))
    } else if op == 0x22 {
        Option::Some(Instruction::LdiHlA)
    } else if op == 0x23 {
        Option::Some(Instruction::Inc16(Reg16::HL))
    } else if op == 0x24 {
        Option::Some(Instruction::IncR(Reg8::H))
    } else if op == 0x25 {
        Option::Some(Instruction::DecR(Reg8::H))
    } else if op == 0x26 {
        Option::Some(Instruction::LdRImm(Reg8::H))
    } else if op == 0x27 {
        Option::Some(Instruction::Daa)
    } else if op == 0x28 {
        Option::Some(Instruction::Jr(JumpCond::Z))
    } else if op == 0x29 {
        Option::Some(Instruction::AddHl(Reg16::HL))
    } else if op == 0x2A {
        Option::Some(Instruction::LdiAHl)
    } else if op == 0x2B {
        Option::Some(Instruction::Dec16(Reg16::HL))
    } else if op == 0x2C {
        Option::Some(Instruction::IncR(Reg8::L))
    } else if op == 0x2D {
        Option::Some(Instruction::DecR(Reg8::L))
    } else if op == 0x2E {
        Option::Some(Instruction::LdRImm(Reg8::L))
    } else if op == 0x2F {
        Option::Some(Instruction::Cpl)
    } else if op == 0x30 {
        Option::Some(Instruction::Jr(JumpCond::NC))
    } else if op == 0x31 {
        Option::Some(Instruction::Ld16Imm(Reg16::SP))
    } else if op == 0x32 {
        Option::Some(Instruction::LddHlA)
    } else if op == 0x33 {
        Option::Some(Instruction::Inc16(Reg16::SP))
    } else if op == 0x34 {
        Option::Some(Instruction::IncHlInd)
    } else if op == 0x35 {
        Option::Some(Instruction::DecHlInd)
    } else if op == 0x36 {
        Option::Some(Instruction::LdHlImm)
    } else if op == 0x37 {
        Option::Some(Instruction::Scf)
    } else if op == 0x38 {
        Option::Some(Instruction::Jr(JumpCond::C))
    } else if op == 0x39 {
        Option::Some(Instruction::AddHl(Reg16::SP))
    } else if op == 0x3A {
        Option::Some(Instruction::LddAHl)
    } else if op == 0x3B {
        Option::Some(Instruction::Dec16(Reg16::SP))
    } else if op == 0x3C {
        Option::Some(Instruction::IncR(Reg8::A))
    } else if op == 0x3D {
        Option::Some(Instruction::DecR(Reg8::A))
    } else if op == 0x3E {
        Option::Some(Instruction::LdRImm(Reg8::A))
    } else if 0x40 <= op <= 0x7F {
        if op == 0x76 {
            Option::Some(Instruction::Halt)
        } else {
            let src = spec_src_of_bits(op & 7);
            let dst = spec_src_of_bits((op >> 3) & 7);
            match (dst, src) {
                (Src8::R(d), Src8::R(s2)) => Option::Some(Instruction::LdRR(d, s2)),
                (Src8::R(d), Src8::HlInd) => Option::Some(Instruction::LdRHl(d)),
                (Src8::HlInd, Src8::R(s2)) => Option::Some(Instruction::LdHlR(s2)),
                _ => Option::None,
            }
        }
    } else if 0x80 <= op <= 0xBF {
        let kind = (op >> 3) & 7;
        let alu = if kind == 0 {
            Option::Some(AluOp::Add)
        } else if kind == 1 {
            Option::Some(AluOp::Adc)
        } else if kind == 2 {
            Option::Some(AluOp::Sub)
        } else if kind == 3 {
            Option::Some(AluOp::Sbc)
        } else if kind == 4 {
            Option::Some(AluOp::And)
        } else if kind == 5 {
            Option::Some(AluOp::Xor)
        } else if kind == 6 {
            Option::Some(AluOp::Or)
        } else if kind == 7 {
            Option::Some(AluOp::Cp)
        } else {
            Option::None
        };
        match alu {
            Option::Some(a) => Option::Some(Instruction::Alu(a, spec_src_of_bits(op & 7))),
            Option::None => Option::None,
        }
    } else if op == 0x3F {
        Option::Some(Instruction::Ccf)
    } else if op == 0xC0 {
        Option::Some(Instruction::RetCond(JumpCond::NZ))
    } else if op == 0xC1 {
        Option::Some(Instruction::Pop(Reg16Stk::BC))
    } else if op == 0xC2 {
        Option::Some(Instruction::JpCond(JumpCond::NZ))
    } else if op == 0xC3 {
        Option::Some(Instruction::JpImm)
    } else if op == 0xC4 {
        Option::Some(Instruction::Call(JumpCond::NZ))
    } else if op == 0xC5 {
        Option::Some(Instruction::Push(Reg16Stk::BC))
    } else if op == 0xC6 {
        Option::Some(Instruction::Alu(AluOp::Add, Src8::Imm))
    } else if op == 0xC7 {
        Option::Some(Instruction::Rst(0x00))
    } else if op == 0xC8 {
        Option::Some(Instruction::RetCond(JumpCond::Z))
    } else if op == 0xC9 {
        Option::Some(Instruction::Ret)
    } else if op == 0xCA {
        Option::Some(Instruction::JpCond(JumpCond::Z))
    } else if op == 0xCC {
        Option::Some(Instruction::Call(JumpCond::Z))
    } else if op == 0xCD {
        Option::Some(Instruction::Call(JumpCond::Always))
    } else if op == 0xCE {
        Option::Some(Instruction::Alu(AluOp::Adc, Src8::Imm))
    } else if op == 0xCF {
        Option::Some(Instruction::Rst(0x08))
    } else if op == 0xD0 {
        Option::Some(Instruction::RetCond(JumpCond::NC))
    } else if op == 0xD1 {
        Option::Some(Instruction::Pop(Reg16Stk::DE))
    } else if op == 0xD2 {
        Option::Some(Instruction::JpCond(JumpCond::NC))
    } else if op == 0xD4 {
        Option::Some(Instruction::Call(JumpCond::NC))
    } else if op == 0xD5 {
        Option::Some(Instruction::Push(Reg16Stk::DE))
    } else if op == 0xD6 {
        Option::Some(Instruction::Alu(AluOp::Sub, Src8::Imm))
    } else if op == 0xD7 {
        Option::Some(Instruction::Rst(0x10))
    } else if op == 0xD8 {
        Option::Some(Instruction::RetCond(JumpCond::C))
    } else if op == 0xD9 {
        Option::Some(Instruction::Reti)
    } else if op == 0xDA {
        Option::Some(Instruction::JpCond(JumpCond::C))
    } else if op == 0xDC {
        Option::Some(Instruction::Call(JumpCond::C))
    } else if op == 0xDE {
        Option::Some(Instruction::Alu(AluOp::Sbc, Src8::Imm))
    } else if op == 0xDF {
        Option::Some(Instruction::Rst(0x18))
    } else if op == 0xE0 {
        Option::Some(Instruction::LdhNA)
    } else if op == 0xE1 {
        Option::Some(Instruction::Pop(Reg16Stk::HL))
    } else if op == 0xE2 {
        Option::Some(Instruction::LdhCA)
    } else if op == 0xE5 {
        Option::Some(Instruction::Push(Reg16Stk::HL))
    } else if op == 0xE6 {
        Option::Some(Instruction::Alu(AluOp::And, Src8::Imm))
    } else if op == 0xE7 {
        Option::Some(Instruction::Rst(0x20))
    } else if op == 0xE8 {
        Option::Some(Instruction::AddSpImm)
    } else if op == 0xE9 {
        Option::Some(Instruction::JpHl)
    } else if op == 0xEA {
        Option::Some(Instruction::LdImmIndA)
    } else if op == 0xEE {
        Option::Some(Instruction::Alu(AluOp::Xor, Src8::Imm))
    } else if op == 0xEF {
        Option::Some(Instruction::Rst(0x28))
    } else if op == 0xF0 {
        Option::Some(Instruction::LdhAN)
    } else if op == 0xF1 {
        Option::Some(Instruction::Pop(Reg16Stk::AF))
    } else if op == 0xF2 {
        Option::Some(Instruction::LdhAC)
    } else if op == 0xF3 {
        Option::Some(Instruction::Di)
    } else if op == 0xF5 {
        Option::Some(Instruction::Push(Reg16Stk::AF))
    } else if op == 0xF6 {
        Option::Some(Instruction::Alu(AluOp::Or, Src8::Imm))
    } else if op == 0xF7 {
        Option::Some(Instruction::Rst(0x30))
    } else if op == 0xF8 {
        Option::Some(Instruction::LdHlSpImm)
    } else if op == 0xF9 {
        Option::Some(Instruction::LdSpHl)
    } else if op == 0xFA {
        Option::Some(Instruction::LdAImmInd)
    } else if op == 0xFB {
        Option::Some(Instruction::Ei)
    } else if op == 0xFE {
        Option::Some(Instruction::Alu(AluOp::Cp, Src8::Imm))
    } else if op == 0xFF {
        Option::Some(Instruction::Rst(0x38))
    } else {
        Option::None
    }
}

/// What the bit-prefixed table holds for each opcode.
pub open spec fn spec_decode_cb(op: u8) -> Option<Instruction> {
    let loc = match spec_src_of_bits(op & 7) {
        Src8::R(s) => Loc8::R(s),
        _ => Loc8::HlInd,
    };
    let sel = (op >> 3) & 7;
    if op < 0x40 {
        if sel == 0 {
            Option::Some(Instruction::Rlc(loc))
        } else if sel == 1 {
            Option::Some(Instruction::Rrc(loc))
        } else if sel == 2 {
            Option::Some(Instruction::Rl(loc))
        } else if sel == 3 {
            Option::Some(Instruction::Rr(loc))
        } else if sel == 4 {
            Option::Some(Instruction::Sla(loc))
        } else if sel == 5 {
            Option::Some(Instruction::Sra(loc))
        } else if sel == 6 {
            Option::Some(Instruction::Swap(loc))
        } else {
            Option::Some(Instruction::Srl(loc))
        }
    } else if op < 0x80 {
        match loc {
            Loc8::R(s) => Option::Some(Instruction::Bit(sel, s)),
            Loc8::HlInd => Option::Some(Instruction::BitHl(sel)),
        }
    } else if op < 0xC0 {
        Option::Some(Instruction::ResBit(sel, loc))
    } else {
        Option::Some(Instruction::SetBit(sel, loc))
    }
}

/// Executable register-operand decode.
pub fn src_of_bits(b: u8) -> (r: Src8)
    ensures
        r == spec_src_of_bits(b),
{
    if b == 0 {
        Src8::R(Reg8::B)
    } else if b == 1 {
        Src8::R(Reg8::C)
    } else if b == 2 {
        Src8::R(Reg8::D)
    } else if b == 3 {
        Src8::R(Reg8::E)
    } else if b == 4 {
        Src8::R(Reg8::H)
    } else if b == 5 {
        Src8::R(Reg8::L)
    } else if b == 6 {
        Src8::HlInd
    } else {
        Src8::R(Reg8::A)
    }
}

/// Executable primary decode.
pub fn decode(op: u8) -> (r: Option<Instruction>)
    ensures
        r == spec_decode(op),
{
    if op == 0x00 {
        Option::Some(Instruction::Nop)
    } else if op == 0x01 {
        Option::Some(Instruction::Ld16Imm(Reg16::BC))
    } else if op == 0x02 {
        Option::Some(Instruction::LdBcA)
    } else if op == 0x03 {
        Option::Some(Instruction::Inc16(Reg16::BC))
    } else if op == 0x04 {
        Option::Some(Instruction::IncR(Reg8::B))
    } else if op == 0x05 {
        Option::Some(Instruction::DecR(Reg8::B))
    } else if op == 0x06 {
        Option::Some(Instruction::LdRImm(Reg8::B))
    } else if op == 0x07 {
        Option::Some(Instruction::Rlca)
    } else if op == 0x08 {
        Option::Some(Instruction::LdIndImmSp)
    } else if op == 0x09 {
        Option::Some(Instruction::AddHl(Reg16::BC))
    } else if op == 0x0A {
        Option::Some(Instruction::LdABc)
    } else if op == 0x0B {
        Option::Some(Instruction::Dec16(Reg16::BC))
    } else if op == 0x0C {
        Option::Some(Instruction::IncR(Reg8::C))
    } else if op == 0x0D {
        Option::Some(Instruction::DecR(Reg8::C))
    } else if op == 0x0E {
        Option::Some(Instruction::LdRImm(Reg8::C))
    } else if op == 0x0F {
        Option::Some(Instruction::Rrca)
    } else if op == 0x11 {
        Option::Some(Instruction::Ld16Imm(Reg16::DE))
    } else if op == 0x12 {
        Option::Some(Instruction::LdDeA)
    } else if op == 0x13 {
        Option::Some(Instruction::Inc16(Reg16::DE))
    } else if op == 0x14 {
        Option::Some(Instruction::IncR(Reg8::D))
    } else if op == 0x15 {
        Option::Some(Instruction::DecR(Reg8::D))
    } else if op == 0x16 {
        Option::Some(Instruction::LdRImm(Reg8::D))
    } else if op == 0x17 {
        Option::Some(Instruction::Rla)
    } else if op == 0x18 {
        Option::Some(Instruction::Jr(JumpCond::Always))
    } else if op == 0x19 {
        Option::Some(Instruction::AddHl(Reg16::DE))
    } else if op == 0x1A {
        Option::Some(Instruction::LdADe)
    } else if op == 0x1B {
        Option::Some(Instruction::Dec16(Reg16::DE))
    } else if op == 0x1C {
        Option::Some(Instruction::IncR(Reg8::E))
    } else if op == 0x1D {
        Option::Some(Instruction::DecR(Reg8::E))
    } else if op == 0x1E {
        Option::Some(Instruction::LdRImm(Reg8::E))
    } else if op == 0x1F {
        Option::Some(Instruction::Rra)
    } else if op == 0x20 {
        Option::Some(Instruction::Jr(JumpCond::NZ))
    } else if op == 0x21 {
        Option::Some(Instruction::Ld16Imm(Reg16::HL))
    } else if op == 0x22 {
        Option::Some(Instruction::LdiHlA)
    } else if op == 0x23 {
        Option::Some(Instruction::Inc16(Reg16::HL))
    } else if op == 0x24 {
        Option::Some(Instruction::IncR(Reg8::H))
    } else if op == 0x25 {
        Option::Some(Instruction::DecR(Reg8::H))
    } else if op == 0x26 {
        Option::Some(Instruction::LdRImm(Reg8::H))
    } else if op == 0x27 {
        Option::Some(Instruction::Daa)
    } else if op == 0x28 {
        Option::Some(Instruction::Jr(JumpCond::Z))
    } else if op == 0x29 {
        Option::Some(Instruction::AddHl(Reg16::HL))
    } else if op == 0x2A {
        Option::Some(Instruction::LdiAHl)
    } else if op == 0x2B {
        Option::Some(Instruction::Dec16(Reg16::HL))
    } else if op == 0x2C {
        Option::Some(Instruction::IncR(Reg8::L))
    } else if op == 0x2D {
        Option::Some(Instruction::DecR(Reg8::L))
    } else if op == 0x2E {
        Option::Some(Instruction::LdRImm(Reg8::L))
    } else if op == 0x2F {
        Option::Some(Instruction::Cpl)
    } else if op == 0x30 {
        Option::Some(Instruction::Jr(JumpCond::NC))
    } else if op == 0x31 {
        Option::Some(Instruction::Ld16Imm(Reg16::SP))
    } else if op == 0x32 {
        Option::Some(Instruction::LddHlA)
    } else if op == 0x33 {
        Option::Some(Instruction::Inc16(Reg16::SP))
    } else if op == 0x34 {
        Option::Some(Instruction::IncHlInd)
    } else if op == 0x35 {
        Option::Some(Instruction::DecHlInd)
    } else if op == 0x36 {
        Option::Some(Instruction::LdHlImm)
    } else if op == 0x37 {
        Option::Some(Instruction::Scf)
    } else if op == 0x38 {
        Option::Some(Instruction::Jr(JumpCond::C))
    } else if op == 0x39 {
        Option::Some(Instruction::AddHl(Reg16::SP))
    } else if op == 0x3A {
        Option::Some(Instruction::LddAHl)
    } else if op == 0x3B {
        Option::Some(Instruction::Dec16(Reg16::SP))
    } else if op == 0x3C {
        Option::Some(Instruction::IncR(Reg8::A))
    } else if op == 0x3D {
        Option::Some(Instruction::DecR(Reg8::A))
    } else if op == 0x3E {
        Option::Some(Instruction::LdRImm(Reg8::A))
    } else if 0x40 <= op && op <= 0x7F {
        if op == 0x76 {
            Option::Some(Instruction::Halt)
        } else {
            let src = src_of_bits(op & 7);
            let dst = src_of_bits((op >> 3) & 7);
            match (dst, src) {
                (Src8::R(d), Src8::R(s2)) => Option::Some(Instruction::LdRR(d, s2)),
                (Src8::R(d), Src8::HlInd) => Option::Some(Instruction::LdRHl(d)),
                (Src8::HlInd, Src8::R(s2)) => Option::Some(Instruction::LdHlR(s2)),
                _ => Option::None,
            }
        }
    } else if 0x80 <= op && op <= 0xBF {
        let kind = (op >> 3) & 7;
        let alu = if kind == 0 {
            Option::Some(AluOp::Add)
        } else if kind == 1 {
            Option::Some(AluOp::Adc)
        } else if kind == 2 {
            Option::Some(AluOp::Sub)
        } else if kind == 3 {
            Option::Some(AluOp::Sbc)
        } else if kind == 4 {
            Option::Some(AluOp::And)
        } else if kind == 5 {
            Option::Some(AluOp::Xor)
        } else if kind == 6 {
            Option::Some(AluOp::Or)
        } else if kind == 7 {
            Option::Some(AluOp::Cp)
        } else {
            Option::None
        };
        match alu {
            Option::Some(a) => Option::Some(Instruction::Alu(a, src_of_bits(op & 7))),
            Option::None => Option::None,
        }
    } else if op == 0x3F {
        Option::Some(Instruction::Ccf)
    } else if op == 0xC0 {
        Option::Some(Instruction::RetCond(JumpCond::NZ))
    } else if op == 0xC1 {
        Option::Some(Instruction::Pop(Reg16Stk::BC))
    } else if op == 0xC2 {
        Option::Some(Instruction::JpCond(JumpCond::NZ))
    } else if op == 0xC3 {
        Option::Some(Instruction::JpImm)
    } else if op == 0xC4 {
        Option::Some(Instruction::Call(JumpCond::NZ))
    } else if op == 0xC5 {
        Option::Some(Instruction::Push(Reg16Stk::BC))
    } else if op == 0xC6 {
        Option::Some(Instruction::Alu(AluOp::Add, Src8::Imm))
    } else if op == 0xC7 {
        Option::Some(Instruction::Rst(0x00))
    } else if op == 0xC8 {
        Option::Some(Instruction::RetCond(JumpCond::Z))
    } else if op == 0xC9 {
        Option::Some(Instruction::Ret)
    } else if op == 0xCA {
        Option::Some(Instruction::JpCond(JumpCond::Z))
    } else if op == 0xCC {
        Option::Some(Instruction::Call(JumpCond::Z))
    } else if op == 0xCD {
        Option::Some(Instruction::Call(JumpCond::Always))
    } else if op == 0xCE {
        Option::Some(Instruction::Alu(AluOp::Adc, Src8::Imm))
    } else if op == 0xCF {
        Option::Some(Instruction::Rst(0x08))
    } else if op == 0xD0 {
        Option::Some(Instruction::RetCond(JumpCond::NC))
    } else if op == 0xD1 {
        Option::Some(Instruction::Pop(Reg16Stk::DE))
    } else if op == 0xD2 {
        Option::Some(Instruction::JpCond(JumpCond::NC))
    } else if op == 0xD4 {
        Option::Some(Instruction::Call(JumpCond::NC))
    } else if op == 0xD5 {
        Option::Some(Instruction::Push(Reg16Stk::DE))
    } else if op == 0xD6 {
        Option::Some(Instruction::Alu(AluOp::Sub, Src8::Imm))
    } else if op == 0xD7 {
        Option::Some(Instruction::Rst(0x10))
    } else if op == 0xD8 {
        Option::Some(Instruction::RetCond(JumpCond::C))
    } else if op == 0xD9 {
        Option::Some(Instruction::Reti)
    } else if op == 0xDA {
        Option::Some(Instruction::JpCond(JumpCond::C))
    } else if op == 0xDC {
        Option::Some(Instruction::Call(JumpCond::C))
    } else if op == 0xDE {
        Option::Some(Instruction::Alu(AluOp::Sbc, Src8::Imm))
    } else if op == 0xDF {
        Option::Some(Instruction::Rst(0x18))
    } else if op == 0xE0 {
        Option::Some(Instruction::LdhNA)
    } else if op == 0xE1 {
        Option::Some(Instruction::Pop(Reg16Stk::HL))
    } else if op == 0xE2 {
        Option::Some(Instruction::LdhCA)
    } else if op == 0xE5 {
        Option::Some(Instruction::Push(Reg16Stk::HL))
    } else if op == 0xE6 {
        Option::Some(Instruction::Alu(AluOp::And, Src8::Imm))
    } else if op == 0xE7 {
        Option::Some(Instruction::Rst(0x20))
    } else if op == 0xE8 {
        Option::Some(Instruction::AddSpImm)
    } else if op == 0xE9 {
        Option::Some(Instruction::JpHl)
    } else if op == 0xEA {
        Option::Some(Instruction::LdImmIndA)
    } else if op == 0xEE {
        Option::Some(Instruction::Alu(AluOp::Xor, Src8::Imm))
    } else if op == 0xEF {
        Option::Some(Instruction::Rst(0x28))
    } else if op == 0xF0 {
        Option::Some(Instruction::LdhAN)
    } else if op == 0xF1 {
        Option::Some(Instruction::Pop(Reg16Stk::AF))
    } else if op == 0xF2 {
        Option::Some(Instruction::LdhAC)
    } else if op == 0xF3 {
        Option::Some(Instruction::Di)
    } else if op == 0xF5 {
        Option::Some(Instruction::Push(Reg16Stk::AF))
    } else if op == 0xF6 {
        Option::Some(Instruction::Alu(AluOp::Or, Src8::Imm))
    } else if op == 0xF7 {
        Option::Some(Instruction::Rst(0x30))
    } else if op == 0xF8 {
        Option::Some(Instruction::LdHlSpImm)
    } else if op == 0xF9 {
        Option::Some(Instruction::LdSpHl)
    } else if op == 0xFA {
        Option::Some(Instruction::LdAImmInd)
    } else if op == 0xFB {
        Option::Some(Instruction::Ei)
    } else if op == 0xFE {
        Option::Some(Instruction::Alu(AluOp::Cp, Src8::Imm))
    } else if op == 0xFF {
        Option::Some(Instruction::Rst(0x38))
    } else {
        Option::None
    }
}

/// Executable bit-prefixed decode.
pub fn decode_cb(op: u8) -> (r: Option<Instruction>)
    ensures
        r == spec_decode_cb(op),
{
    let loc = match src_of_bits(op & 7) {
        Src8::R(s) => Loc8::R(s),
        _ => Loc8::HlInd,
    };
    let sel = (op >> 3) & 7;
    if op < 0x40 {
        if sel == 0 {
            Option::Some(Instruction::Rlc(loc))
        } else if sel == 1 {
            Option::Some(Instruction::Rrc(loc))
        } else if sel == 2 {
            Option::Some(Instruction::Rl(loc))
        } else if sel == 3 {
            Option::Some(Instruction::Rr(loc))
        } else if sel == 4 {
            Option::Some(Instruction::Sla(loc))
        } else if sel == 5 {
            Option::Some(Instruction::Sra(loc))
        } else if sel == 6 {
            Option::Some(Instruction::Swap(loc))
        } else {
            Option::Some(Instruction::Srl(loc))
        }
    } else if op < 0x80 {
        match loc {
            Loc8::R(s) => Option::Some(Instruction::Bit(sel, s)),
            Loc8::HlInd => Option::Some(Instruction::BitHl(sel)),
        }
    } else if op < 0xC0 {
        Option::Some(Instruction::ResBit(sel, loc))
    } else {
        Option::Some(Instruction::SetBit(sel, loc))
    }
}

/// The F register built from the four flag bits.
pub open spec fn flags_of(z: bool, n: bool, h: bool, c: bool) -> u8 {
    (if z {
        0x80u8
    } else {
        0u8
    }) | (if n {
        0x40u8
    } else {
        0u8
    }) | (if h {
        0x20u8
    } else {
        0u8
    }) | (if c {
        0x10u8
    } else {
        0u8
    })
}

/// The F register with Z, N and H rebuilt and the carry bit kept.
pub open spec fn flags_keepc(f_old: u8, z: bool, n: bool, h: bool) -> u8 {
    flags_of(z, n, h, f_old & 0x10 != 0)
}

/// Setting the four flags in order leaves exactly their four bits.
proof fn lemma_flag_chain4(f0: u8, z: bool, n: bool, h: bool, c: bool)
    by (bit_vector)
    ensures
        spec_flag_update(
            spec_flag_update(spec_flag_update(spec_flag_update(f0, 0x80, z), 0x40, n), 0x20, h),
            0x10,
            c,
        ) == flags_of(z, n, h, c),
{
}

/// Setting Z, N and H in order keeps the carry bit and clears the low
/// nibble.
proof fn lemma_flag_chain3(f0: u8, z: bool, n: bool, h: bool)
    by (bit_vector)
    ensures
        spec_flag_update(spec_flag_update(spec_flag_update(f0, 0x80, z), 0x40, n), 0x20, h)
            == flags_keepc(f0, z, n, h),
{
}

/// True when the condition holds of the flag register.
pub open spec fn spec_cond_taken(cond: JumpCond, f: u8) -> bool {
    match cond {
        JumpCond::NZ => f & 0x80 == 0,
        JumpCond::Z => f & 0x80 != 0,
        JumpCond::NC => f & 0x10 == 0,
        JumpCond::C => f & 0x10 != 0,
        JumpCond::Always => true,
    }
}

/// The accumulator after an arithmetic or logic operation; a compare
/// leaves it alone.
pub open spec fn spec_alu_res(op: AluOp, a: u8, v: u8, cin: bool) -> u8 {
    let ci: u16 = if cin {
        1
    } else {
        0
    };
    match op {
        AluOp::Add => (((a as u16 + v as u16) % 256) as u8),
        AluOp::Adc => (((a as u16 + v as u16 + ci) % 256) as u8),
        AluOp::Sub => (((a as u16 + 256 - v as u16) % 256) as u8),
        AluOp::Sbc => (((a as u16 + 256 - v as u16 - ci) % 256) as u8),
        AluOp::Cp => a,
        AluOp::And => a & v,
        AluOp::Or => a | v,
        AluOp::Xor => a ^ v,
    }
}

/// The flag register after an arithmetic or logic operation, exactly as
/// the flag table prescribes.
pub open spec fn spec_alu_flags(op: AluOp, a: u8, v: u8, cin: bool) -> u8 {
    let ci: u16 = if cin {
        1
    } else {
        0
    };
    match op {
        AluOp::Add => flags_of(
            spec_alu_res(op, a, v, cin) == 0,
            false,
            (a as u16 & 0xF) + (v as u16 & 0xF) > 0xF,
            a as u16 + v as u16 > 0xFF,
        ),
        AluOp::Adc => flags_of(
            spec_alu_res(op, a, v, cin) == 0,
            false,
            (a as u16 & 0xF) + (v as u16 & 0xF) + ci > 0xF,
            a as u16 + v as u16 + ci > 0xFF,
        ),
        AluOp::Sub => flags_of(a == v, true, (a & 0xF) < (v & 0xF), a < v),
        AluOp::Sbc => flags_of(
            spec_alu_res(op, a, v, cin) == 0,
            true,
            (a as u16 & 0xF) < (v as u16 & 0xF) + ci,
            (a as u16) < v as u16 + ci,
        ),
        AluOp::Cp => flags_of(a == v, true, (a & 0xF) < (v & 0xF), a < v),
        AluOp::And => flags_of((a & v) == 0, false, true, false),
        AluOp::Or => flags_of((a | v) == 0, false, false, false),
        AluOp::Xor => flags_of((a ^ v) == 0, false, false, false),
    }
}

/// The byte after a rotate left through carry.
pub open spec fn spec_rl_res(v: u8, cin: bool) -> u8 {
    let ci: u16 = if cin {
        1
    } else {
        0
    };
    (((2 * (v as u16) + ci) % 256) as u8)
}

/// The byte with its nibbles exchanged.
pub open spec fn spec_swap_res(v: u8) -> u8 {
    ((((v as u16) & 0xF0) >> 4) + (((v as u16) & 0x0F) << 4)) as u8
}

/// Exchanging the nibbles twice restores the byte.
pub proof fn lemma_swap_involution(v: u8)
    by (bit_vector)
    ensures
        spec_swap_res(spec_swap_res(v)) == v,
{
}

/// Complementing the accumulator twice restores it.
pub proof fn lemma_complement_involution(v: u8)
    by (bit_vector)
    ensures
        (v ^ 0xFF) ^ 0xFF == v,
{
}

/// Setting a clear bit and then clearing it restores the byte. A byte
/// whose bit is already set keeps it cleared instead.
pub proof fn lemma_set_clear_bit(v: u8, b: u8)
    by (bit_vector)
    requires
        b < 8,
        !crate::registers::spec_bit8(v, b),
    ensures
        crate::registers::spec_set_bit8(crate::registers::spec_set_bit8(v, b, true), b, false)
            == v,
{
}

/// The byte after a circular rotate left; bit 7 re-enters at bit 0.
pub open spec fn spec_rlc_res(v: u8) -> u8 {
    (((2 * (v as u16) + (v as u16 >> 7)) % 256) as u8)
}

/// The byte after a circular rotate right; bit 0 re-enters at bit 7.
pub open spec fn spec_rrc_res(v: u8) -> u8 {
    (v >> 1) | ((v & 1) << 7)
}

/// The byte after a rotate right through carry.
pub open spec fn spec_rr_res(v: u8, cin: bool) -> u8 {
    (v >> 1) | (if cin {
        0x80u8
    } else {
        0u8
    })
}

/// The byte after an arithmetic shift left.
pub open spec fn spec_sla_res(v: u8) -> u8 {
    (((2 * (v as u16)) % 256) as u8)
}

/// The byte after an arithmetic shift right; bit 7 is kept.
pub open spec fn spec_sra_res(v: u8) -> u8 {
    (v >> 1) | (v & 0x80)
}

/// The byte after a logical shift right.
pub open spec fn spec_srl_res(v: u8) -> u8 {
    v >> 1
}

/// The decimal-adjust correction of the accumulator after an addition
/// or subtraction, following the N, H and C flags.
pub open spec fn spec_daa_res(a: u8, f: u8) -> u8 {
    let n = f & 0x40 != 0;
    let h = f & 0x20 != 0;
    let c = f & 0x10 != 0;
    if !n {
        let adj = (if h || (a & 0xF) > 9 {
            0x06int
        } else {
            0int
        }) + (if c || a > 0x99 {
            0x60int
        } else {
            0int
        });
        (((a + adj) % 256) as u8)
    } else {
        let adj = (if h {
            0x06int
        } else {
            0int
        }) + (if c {
            0x60int
        } else {
            0int
        });
        (((a + 256 - adj) % 256) as u8)
    }
}

/// The flags after a decimal adjust: Z from the result, N kept, H
/// cleared, C set when the high correction applied (and kept on the
/// subtraction path).
pub open spec fn spec_daa_flags(a: u8, f: u8) -> u8 {
    let n = f & 0x40 != 0;
    let c = f & 0x10 != 0;
    let carry = if !n {
        c || a > 0x99
    } else {
        c
    };
    flags_of(spec_daa_res(a, f) == 0, n, false, carry)
}

/// The flags after a 16-bit add into HL: Z kept, N cleared, H from
/// bit 11, C from bit 15.
pub open spec fn spec_addhl_flags(f: u8, hl: u16, w: u16) -> u8 {
    flags_of(
        f & 0x80 != 0,
        false,
        (hl as u32 & 0xFFF) + (w as u32 & 0xFFF) > 0xFFF,
        hl as u32 + w as u32 > 0xFFFF,
    )
}

/// The signed immediate as a 16-bit two's-complement addend.
pub open spec fn spec_signed_word(off: u8) -> u16 {
    if off < 0x80 {
        off as u16
    } else {
        ((off as u16 + 0xFF00) as u16)
    }
}

/// The flags after adding a signed immediate to SP: Z and N cleared,
/// H and C from the low-byte add.
pub open spec fn spec_spofs_flags(sp: u16, off: u8) -> u8 {
    flags_of(
        false,
        false,
        (sp as u32 & 0xF) + (off as u32 & 0xF) > 0xF,
        (sp as u32 & 0xFF) + off as u32 > 0xFF,
    )
}

/// The PC-relative target: the signed offset added to the address after
/// the operand, wrapping.
pub open spec fn spec_rel_target(pc: u16, off: u8) -> u16 {
    word_add(
        pc,
        if off < 0x80 {
            off as u16
        } else {
            ((off as u16 + 0xFF00) as u16)
        },
    )
}

/// The value of one 8-bit register.
pub open spec fn reg8_val(bank: RegBank, r: Reg8) -> u8 {
    match r {
        Reg8::A => bank.a.val,
        Reg8::B => bank.b.val,
        Reg8::C => bank.c.val,
        Reg8::D => bank.d.val,
        Reg8::E => bank.e.val,
        Reg8::H => bank.h.val,
        Reg8::L => bank.l.val,
    }
}

/// The register file with one 8-bit register replaced.
pub open spec fn bank_with(bank: RegBank, r: Reg8, v: u8) -> RegBank {
    match r {
        Reg8::A => RegBank { a: Register { val: v }, ..bank },
        Reg8::B => RegBank { b: Register { val: v }, ..bank },
        Reg8::C => RegBank { c: Register { val: v }, ..bank },
        Reg8::D => RegBank { d: Register { val: v }, ..bank },
        Reg8::E => RegBank { e: Register { val: v }, ..bank },
        Reg8::H => RegBank { h: Register { val: v }, ..bank },
        Reg8::L => RegBank { l: Register { val: v }, ..bank },
    }
}

/// The register file with A and F replaced.
pub open spec fn bank_af(bank: RegBank, a: u8, f: u8) -> RegBank {
    RegBank { a: Register { val: a }, f: Register { val: f }, ..bank }
}

/// The register file with the BC pair replaced.
pub open spec fn bank_bc(bank: RegBank, w: u16) -> RegBank {
    RegBank { b: Register { val: hi_byte(w) }, c: Register { val: lo_byte(w) }, ..bank }
}

/// The register file with the DE pair replaced.
pub open spec fn bank_de(bank: RegBank, w: u16) -> RegBank {
    RegBank { d: Register { val: hi_byte(w) }, e: Register { val: lo_byte(w) }, ..bank }
}

/// The register file with the HL pair replaced.
pub open spec fn bank_hl(bank: RegBank, w: u16) -> RegBank {
    RegBank { h: Register { val: hi_byte(w) }, l: Register { val: lo_byte(w) }, ..bank }
}

/// The HL pair of a register file.
pub open spec fn hl_val(bank: RegBank) -> u16 {
    word_of(bank.h.val, bank.l.val)
}

/// One result value of the executor.
pub open spec fn is_ok(r: Result<u32, Fault>, c: u32) -> bool {
    r == Result::<u32, Fault>::Ok(c)
}

/// The executor stopped on a fault and left the machine as it was.
pub open spec fn fault_stop(pre: CPU, post: CPU, r: Result<u32, Fault>) -> bool {
    post == pre && r == Result::<u32, Fault>::Err(Fault::ReadWriteOnly)
}

/// Only the register file and PC changed, as given.
pub open spec fn ok_regs(pre: CPU, post: CPU, regs2: RegBank, pc2: u16) -> bool {
    &&& post.regs == regs2
    &&& post.pc.val == pc2
    &&& post.sp == pre.sp
    &&& post.bus == pre.bus
}

/// The register file and PC changed as given, and one byte was written.
pub open spec fn ok_mem(pre: CPU, post: CPU, regs2: RegBank, pc2: u16, addr: u16, v: u8) -> bool {
    &&& post.regs == regs2
    &&& post.pc.val == pc2
    &&& post.sp == pre.sp
    &&& BUS::write_rel(pre.bus, addr, v, post.bus)
}

/// Two stacked byte writes of a pushed word.
pub open spec fn push2_rel(preb: BUS, sp: u16, w: u16, postb: BUS) -> bool {
    exists|mid: BUS|
        #[trigger] BUS::write_rel(preb, word_dec(sp), hi_byte(w), mid) && BUS::write_rel(
            mid,
            word_dec(word_dec(sp)),
            lo_byte(w),
            postb,
        )
}

/// A push would write the DMA trigger with the page it cannot copy.
pub open spec fn spec_push_fault(sp: u16, w: u16) -> bool {
    ||| (word_dec(sp) == DMA_START_ADDR && hi_byte(w) == 0xFF)
    ||| (word_dec(word_dec(sp)) == DMA_START_ADDR && lo_byte(w) == 0xFF)
}

/// Only the interrupt delay counter was armed.
pub open spec fn delay_rel(preb: BUS, postb: BUS, t: bool) -> bool {
    &&& postb.cartridge == preb.cartridge
    &&& postb.boot_rom == preb.boot_rom
    &&& postb.gpu == preb.gpu
    &&& postb.storage_ram == preb.storage_ram
    &&& postb.storage_zero_ram == preb.storage_zero_ram
    &&& postb.joypad == preb.joypad
    &&& postb.io_registers == preb.io_registers
    &&& postb.interrupt_handler.steps_before_change == 1
    &&& postb.interrupt_handler.target_enable_state == t
    &&& postb.interrupt_handler.are_enabled == preb.interrupt_handler.are_enabled
    &&& postb.interrupt_handler.interrupt_enable == preb.interrupt_handler.interrupt_enable
    &&& postb.interrupt_handler.interrupt_flags == preb.interrupt_handler.interrupt_flags
}

/// Only the master interrupt enable was set, at once.
pub open spec fn enable_now_rel(preb: BUS, postb: BUS) -> bool {
    &&& postb.cartridge == preb.cartridge
    &&& postb.boot_rom == preb.boot_rom
    &&& postb.gpu == preb.gpu
    &&& postb.storage_ram == preb.storage_ram
    &&& postb.storage_zero_ram == preb.storage_zero_ram
    &&& postb.joypad == preb.joypad
    &&& postb.io_registers == preb.io_registers
    &&& postb.interrupt_handler.are_enabled == true
    &&& postb.interrupt_handler.steps_before_change == -1
    &&& postb.interrupt_handler.target_enable_state == preb.interrupt_handler.target_enable_state
    &&& postb.interrupt_handler.interrupt_enable == preb.interrupt_handler.interrupt_enable
    &&& postb.interrupt_handler.interrupt_flags == preb.interrupt_handler.interrupt_flags
}

/// A structurally valid instruction: a bit test names one of the eight
/// bit positions.
pub open spec fn instr_ok(i: Instruction) -> bool {
    match i {
        Instruction::Bit(n, _) => n < 8,
        Instruction::BitHl(n) => n < 8,
        Instruction::ResBit(n, _) => n < 8,
        Instruction::SetBit(n, _) => n < 8,
        _ => true,
    }
}

/// Exactly what executing one decoded instruction does, or on which
/// machine states it faults instead. The executor is entered with PC
/// already past the opcode.
pub open spec fn instr_rel(pre: CPU, i: Instruction, post: CPU, r: Result<u32, Fault>) -> bool {
    let pc = pre.pc.val;
    let sp = pre.sp.val;
    let f = pre.regs.f.val;
    let a = pre.regs.a.val;
    let hl = hl_val(pre.regs);
    let cin = (f & 0x10 != 0);
    &&& post.cycles == pre.cycles
    &&& match i {
        Instruction::Nop => ok_regs(pre, post, pre.regs, pc) && is_ok(r, 1),
        Instruction::LdRR(d, s) => ok_regs(pre, post, bank_with(pre.regs, d, reg8_val(pre.regs, s)), pc)
            && is_ok(r, 1),
        Instruction::LdRImm(d) => {
            if pc == DMA_START_ADDR {
                fault_stop(pre, post, r)
            } else {
                ok_regs(pre, post, bank_with(pre.regs, d, pre.bus.spec_read(pc)), word_inc(pc))
                    && is_ok(r, 2)
            }
        },
        Instruction::LdRHl(d) => {
            if hl == DMA_START_ADDR {
                fault_stop(pre, post, r)
            } else {
                ok_regs(pre, post, bank_with(pre.regs, d, pre.bus.spec_read(hl)), pc) && is_ok(
                    r,
                    2,
                )
            }
        },
        Instruction::LdHlR(s) => {
            let v = reg8_val(pre.regs, s);
            if hl == DMA_START_ADDR && v == 0xFF {
                fault_stop(pre, post, r)
            } else {
                ok_mem(pre, post, pre.regs, pc, hl, v) && is_ok(r, 2)
            }
        },
        Instruction::LdHlImm => {
            let v = pre.bus.spec_read(pc);
            if pc == DMA_START_ADDR || (hl == DMA_START_ADDR && v == 0xFF) {
                fault_stop(pre, post, r)
            } else {
                ok_mem(pre, post, pre.regs, word_inc(pc), hl, v) && is_ok(r, 3)
            }
        },
        Instruction::LdABc => {
            let addr = word_of(pre.regs.b.val, pre.regs.c.val);
            if addr == DMA_START_ADDR {
                fault_stop(pre, post, r)
            } else {
                ok_regs(pre, post, bank_with(pre.regs, Reg8::A, pre.bus.spec_read(addr)), pc)
                    && is_ok(r, 2)
            }
        },
        Instruction::LdADe => {
            let addr = word_of(pre.regs.d.val, pre.regs.e.val);
            if addr == DMA_START_ADDR {
                fault_stop(pre, post, r)
            } else {
                ok_regs(pre, post, bank_with(pre.regs, Reg8::A, pre.bus.spec_read(addr)), pc)
                    && is_ok(r, 2)
            }
        },
        Instruction::LdBcA => {
            let addr = word_of(pre.regs.b.val, pre.regs.c.val);
            if addr == DMA_START_ADDR && a == 0xFF {
                fault_stop(pre, post, r)
            } else {
                ok_mem(pre, post, pre.regs, pc, addr, a) && is_ok(r, 2)
            }
        },
        Instruction::LdDeA => {
            let addr = word_of(pre.regs.d.val, pre.regs.e.val);
            if addr == DMA_START_ADDR && a == 0xFF {
                fault_stop(pre, post, r)
            } else {
                ok_mem(pre, post, pre.regs, pc, addr, a) && is_ok(r, 2)
            }
        },
        Instruction::LdAImmInd => {
            let nn = word_of(pre.bus.spec_read(word_inc(pc)), pre.bus.spec_read(pc));
            if pc == DMA_START_ADDR || word_inc(pc) == DMA_START_ADDR || nn == DMA_START_ADDR {
                fault_stop(pre, post, r)
            } else {
                ok_regs(
                    pre,
                    post,
                    bank_with(pre.regs, Reg8::A, pre.bus.spec_read(nn)),
                    word_inc(word_inc(pc)),
                ) && is_ok(r, 4)
            }
        },
        Instruction::LdImmIndA => {
            let nn = word_of(pre.bus.spec_read(word_inc(pc)), pre.bus.spec_read(pc));
            if pc == DMA_START_ADDR || word_inc(pc) == DMA_START_ADDR || (nn == DMA_START_ADDR
                && a == 0xFF) {
                fault_stop(pre, post, r)
            } else {
                ok_mem(pre, post, pre.regs, word_inc(word_inc(pc)), nn, a) && is_ok(r, 4)
            }
        },
        Instruction::LdhNA => {
            let addr = ((0xFF00 + pre.bus.spec_read(pc)) as u16);
            if pc == DMA_START_ADDR || (addr == DMA_START_ADDR && a == 0xFF) {
                fault_stop(pre, post, r)
            } else {
                ok_mem(pre, post, pre.regs, word_inc(pc), addr, a) && is_ok(r, 3)
            }
        },
        Instruction::LdhAN => {
            let addr = ((0xFF00 + pre.bus.spec_read(pc)) as u16);
            if pc == DMA_START_ADDR || addr == DMA_START_ADDR {
                fault_stop(pre, post, r)
            } else {
                ok_regs(pre, post, bank_with(pre.regs, Reg8::A, pre.bus.spec_read(addr)), word_inc(pc))
                    && is_ok(r, 3)
            }
        },
        Instruction::LdhCA => {
            let addr = ((0xFF00 + pre.regs.c.val) as u16);
            if addr == DMA_START_ADDR && a == 0xFF {
                fault_stop(pre, post, r)
            } else {
                ok_mem(pre, post, pre.regs, pc, addr, a) && is_ok(r, 3)
            }
        },
        Instruction::LdhAC => {
            let addr = ((0xFF00 + pre.regs.c.val) as u16);
            if addr == DMA_START_ADDR {
                fault_stop(pre, post, r)
            } else {
                ok_regs(pre, post, bank_with(pre.regs, Reg8::A, pre.bus.spec_read(addr)), pc)
                    && is_ok(r, 3)
            }
        },
        Instruction::LdiHlA => {
            if hl == DMA_START_ADDR && a == 0xFF {
                fault_stop(pre, post, r)
            } else {
                ok_mem(pre, post, bank_hl(pre.regs, word_inc(hl)), pc, hl, a) && is_ok(r, 3)
            }
        },
        Instruction::LdiAHl => {
            if hl == DMA_START_ADDR {
                fault_stop(pre, post, r)
            } else {
                ok_regs(
                    pre,
                    post,
                    bank_hl(bank_with(pre.regs, Reg8::A, pre.bus.spec_read(hl)), word_inc(hl)),
                    pc,
                ) && is_ok(r, 3)
            }
        },
        Instruction::LddHlA => {
            if hl == DMA_START_ADDR && a == 0xFF {
                fault_stop(pre, post, r)
            } else {
                ok_mem(pre, post, bank_hl(pre.regs, word_dec(hl)), pc, hl, a) && is_ok(r, 3)
            }
        },
        Instruction::LddAHl => {
            if hl == DMA_START_ADDR {
                fault_stop(pre, post, r)
            } else {
                ok_regs(
                    pre,
                    post,
                    bank_hl(bank_with(pre.regs, Reg8::A, pre.bus.spec_read(hl)), word_dec(hl)),
                    pc,
                ) && is_ok(r, 3)
            }
        },
        Instruction::Ld16Imm(rr) => {
            if pc == DMA_START_ADDR || word_inc(pc) == DMA_START_ADDR {
                fault_stop(pre, post, r)
            } else {
                let w = word_of(pre.bus.spec_read(word_inc(pc)), pre.bus.spec_read(pc));
                let pc2 = word_inc(word_inc(pc));
                is_ok(r, 3) && match rr {
                    Reg16::BC => ok_regs(pre, post, bank_bc(pre.regs, w), pc2),
                    Reg16::DE => ok_regs(pre, post, bank_de(pre.regs, w), pc2),
                    Reg16::HL => ok_regs(pre, post, bank_hl(pre.regs, w), pc2),
                    Reg16::SP => post.regs == pre.regs && post.pc.val == pc2 && post.sp.val == w
                        && post.bus == pre.bus,
                }
            }
        },
        Instruction::Alu(op, src) => {
            match src {
                Src8::R(s) => {
                    let v = reg8_val(pre.regs, s);
                    ok_regs(
                        pre,
                        post,
                        bank_af(pre.regs, spec_alu_res(op, a, v, cin), spec_alu_flags(op, a, v, cin)),
                        pc,
                    ) && is_ok(r, 1)
                },
                Src8::HlInd => {
                    if hl == DMA_START_ADDR {
                        fault_stop(pre, post, r)
                    } else {
                        let v = pre.bus.spec_read(hl);
                        ok_regs(
                            pre,
                            post,
                            bank_af(
                                pre.regs,
                                spec_alu_res(op, a, v, cin),
                                spec_alu_flags(op, a, v, cin),
                            ),
                            pc,
                        ) && is_ok(r, 2)
                    }
                },
                Src8::Imm => {
                    if pc == DMA_START_ADDR {
                        fault_stop(pre, post, r)
                    } else {
                        let v = pre.bus.spec_read(pc);
                        ok_regs(
                            pre,
                            post,
                            bank_af(
                                pre.regs,
                                spec_alu_res(op, a, v, cin),
                                spec_alu_flags(op, a, v, cin),
                            ),
                            word_inc(pc),
                        ) && is_ok(r, 2)
                    }
                },
            }
        },
        Instruction::IncR(d) => {
            let v = reg8_val(pre.regs, d);
            ok_regs(
                pre,
                post,
                (RegBank {
                    f: Register { val: flags_keepc(f, byte_inc(v) == 0, false, (v & 0xF) + 1 > 0xF) },
                    ..bank_with(pre.regs, d, byte_inc(v))
                }),
                pc,
            ) && is_ok(r, 1)
        },
        Instruction::DecR(d) => {
            let v = reg8_val(pre.regs, d);
            ok_regs(
                pre,
                post,
                (RegBank {
                    f: Register { val: flags_keepc(f, byte_dec(v) == 0, true, (v & 0xF) == 0) },
                    ..bank_with(pre.regs, d, byte_dec(v))
                }),
                pc,
            ) && is_ok(r, 1)
        },
        Instruction::IncHlInd => {
            if hl == DMA_START_ADDR {
                fault_stop(pre, post, r)
            } else {
                let v = pre.bus.spec_read(hl);
                ok_mem(
                    pre,
                    post,
                    (RegBank {
                        f: Register {
                            val: flags_keepc(f, byte_inc(v) == 0, false, (v & 0xF) + 1 > 0xF),
                        },
                        ..pre.regs
                    }),
                    pc,
                    hl,
                    byte_inc(v),
                ) && is_ok(r, 3)
            }
        },
        Instruction::DecHlInd => {
            if hl == DMA_START_ADDR {
                fault_stop(pre, post, r)
            } else {
                let v = pre.bus.spec_read(hl);
                ok_mem(
                    pre,
                    post,
                    (RegBank {
                        f: Register { val: flags_keepc(f, byte_dec(v) == 0, true, (v & 0xF) == 0) },
                        ..pre.regs
                    }),
                    pc,
                    hl,
                    byte_dec(v),
                ) && is_ok(r, 3)
            }
        },
        Instruction::Inc16(rr) => {
            is_ok(r, 2) && match rr {
                Reg16::BC => ok_regs(
                    pre,
                    post,
                    bank_bc(pre.regs, word_inc(word_of(pre.regs.b.val, pre.regs.c.val))),
                    pc,
                ),
                Reg16::DE => ok_regs(
                    pre,
                    post,
                    bank_de(pre.regs, word_inc(word_of(pre.regs.d.val, pre.regs.e.val))),
                    pc,
                ),
                Reg16::HL => ok_regs(pre, post, bank_hl(pre.regs, word_inc(hl)), pc),
                Reg16::SP => post.regs == pre.regs && post.pc.val == pc && post.sp.val == word_inc(
                    sp,
                ) && post.bus == pre.bus,
            }
        },
        Instruction::Dec16(rr) => {
            is_ok(r, 2) && match rr {
                Reg16::BC => ok_regs(
                    pre,
                    post,
                    bank_bc(pre.regs, word_dec(word_of(pre.regs.b.val, pre.regs.c.val))),
                    pc,
                ),
                Reg16::DE => ok_regs(
                    pre,
                    post,
                    bank_de(pre.regs, word_dec(word_of(pre.regs.d.val, pre.regs.e.val))),
                    pc,
                ),
                Reg16::HL => ok_regs(pre, post, bank_hl(pre.regs, word_dec(hl)), pc),
                Reg16::SP => post.regs == pre.regs && post.pc.val == pc && post.sp.val == word_dec(
                    sp,
                ) && post.bus == pre.bus,
            }
        },
        Instruction::Rla => {
            let res = spec_rl_res(a, cin);
            ok_regs(
                pre,
                post,
                bank_af(pre.regs, res, flags_of(res == 0, false, false, a & 0x80 != 0)),
                pc,
            ) && is_ok(r, 1)
        },
        Instruction::Cpl => ok_regs(
            pre,
            post,
            bank_af(
                pre.regs,
                a ^ 0xFF,
                spec_flag_update(spec_flag_update(f, 0x40, true), 0x20, true),
            ),
            pc,
        ) && is_ok(r, 1),
        Instruction::JpImm => {
            if pc == DMA_START_ADDR || word_inc(pc) == DMA_START_ADDR {
                fault_stop(pre, post, r)
            } else {
                let w = word_of(pre.bus.spec_read(word_inc(pc)), pre.bus.spec_read(pc));
                ok_regs(pre, post, pre.regs, w) && is_ok(r, 3)
            }
        },
        Instruction::JpHl => ok_regs(pre, post, pre.regs, hl) && is_ok(r, 1),
        Instruction::Jr(cond) => {
            if pc == DMA_START_ADDR {
                fault_stop(pre, post, r)
            } else {
                let off = pre.bus.spec_read(pc);
                let taken = spec_cond_taken(cond, f);
                let pc2 = if taken {
                    spec_rel_target(word_inc(pc), off)
                } else {
                    word_inc(pc)
                };
                ok_regs(pre, post, pre.regs, pc2) && is_ok(
                    r,
                    if cond == JumpCond::Always {
                        2
                    } else if taken {
                        3
                    } else {
                        2
                    },
                )
            }
        },
        Instruction::Call(cond) => {
            if pc == DMA_START_ADDR || word_inc(pc) == DMA_START_ADDR {
                fault_stop(pre, post, r)
            } else {
                let target = word_of(pre.bus.spec_read(word_inc(pc)), pre.bus.spec_read(pc));
                let ret = word_inc(word_inc(pc));
                let taken = spec_cond_taken(cond, f);
                if taken {
                    if spec_push_fault(sp, ret) {
                        fault_stop(pre, post, r)
                    } else {
                        post.regs == pre.regs && post.pc.val == target && post.sp.val == word_dec(
                            word_dec(sp),
                        ) && push2_rel(pre.bus, sp, ret, post.bus) && is_ok(r, 3)
                    }
                } else {
                    ok_regs(pre, post, pre.regs, ret) && is_ok(r, 3)
                }
            }
        },
        Instruction::Ret => {
            if sp == DMA_START_ADDR || word_inc(sp) == DMA_START_ADDR {
                fault_stop(pre, post, r)
            } else {
                post.regs == pre.regs && post.pc.val == word_of(
                    pre.bus.spec_read(word_inc(sp)),
                    pre.bus.spec_read(sp),
                ) && post.sp.val == word_inc(word_inc(sp)) && post.bus == pre.bus && is_ok(r, 2)
            }
        },
        Instruction::Rst(t) => {
            if spec_push_fault(sp, pc) {
                fault_stop(pre, post, r)
            } else {
                post.regs == pre.regs && post.pc.val == t as u16 && post.sp.val == word_dec(
                    word_dec(sp),
                ) && push2_rel(pre.bus, sp, pc, post.bus) && is_ok(r, 8)
            }
        },
        Instruction::Push(p) => {
            let w = match p {
                Reg16Stk::AF => word_of(a, f),
                Reg16Stk::BC => word_of(pre.regs.b.val, pre.regs.c.val),
                Reg16Stk::DE => word_of(pre.regs.d.val, pre.regs.e.val),
                Reg16Stk::HL => hl,
            };
            if spec_push_fault(sp, w) {
                fault_stop(pre, post, r)
            } else {
                post.regs == pre.regs && post.pc.val == pc && post.sp.val == word_dec(word_dec(sp))
                    && push2_rel(pre.bus, sp, w, post.bus) && is_ok(r, 4)
            }
        },
        Instruction::Pop(p) => {
            if sp == DMA_START_ADDR || word_inc(sp) == DMA_START_ADDR {
                fault_stop(pre, post, r)
            } else {
                let w = word_of(pre.bus.spec_read(word_inc(sp)), pre.bus.spec_read(sp));
                let regs2 = match p {
                    Reg16Stk::AF => bank_af(pre.regs, hi_byte(w), lo_byte(w) & 0xF0),
                    Reg16Stk::BC => bank_bc(pre.regs, w),
                    Reg16Stk::DE => bank_de(pre.regs, w),
                    Reg16Stk::HL => bank_hl(pre.regs, w),
                };
                post.regs == regs2 && post.pc.val == pc && post.sp.val == word_inc(word_inc(sp))
                    && post.bus == pre.bus && is_ok(r, 3)
            }
        },
        Instruction::Di => post.regs == pre.regs && post.pc.val == pc && post.sp == pre.sp && delay_rel(
            pre.bus,
            post.bus,
            false,
        ) && is_ok(r, 1),
        Instruction::Ei => post.regs == pre.regs && post.pc.val == pc && post.sp == pre.sp && delay_rel(
            pre.bus,
            post.bus,
            true,
        ) && is_ok(r, 1),
        Instruction::Rl(loc) => {
            match loc {
                Loc8::R(s) => {
                    let v = reg8_val(pre.regs, s);
                    let res = spec_rl_res(v, cin);
                    ok_regs(
                        pre,
                        post,
                        (RegBank {
                            f: Register { val: flags_of(res == 0, false, false, v & 0x80 != 0) },
                            ..bank_with(pre.regs, s, res)
                        }),
                        pc,
                    ) && is_ok(r, 2)
                },
                Loc8::HlInd => {
                    if hl == DMA_START_ADDR {
                        fault_stop(pre, post, r)
                    } else {
                        let v = pre.bus.spec_read(hl);
                        let res = spec_rl_res(v, cin);
                        ok_mem(
                            pre,
                            post,
                            (RegBank {
                                f: Register {
                                    val: flags_of(res == 0, false, false, v & 0x80 != 0),
                                },
                                ..pre.regs
                            }),
                            pc,
                            hl,
                            res,
                        ) && is_ok(r, 4)
                    }
                },
            }
        },
        Instruction::Swap(loc) => {
            match loc {
                Loc8::R(s) => {
                    let v = reg8_val(pre.regs, s);
                    let res = spec_swap_res(v);
                    ok_regs(
                        pre,
                        post,
                        (RegBank {
                            f: Register { val: flags_of(res == 0, false, false, false) },
                            ..bank_with(pre.regs, s, res)
                        }),
                        pc,
                    ) && is_ok(r, 2)
                },
                Loc8::HlInd => {
                    if hl == DMA_START_ADDR {
                        fault_stop(pre, post, r)
                    } else {
                        let v = pre.bus.spec_read(hl);
                        let res = spec_swap_res(v);
                        ok_mem(
                            pre,
                            post,
                            (RegBank {
                                f: Register { val: flags_of(res == 0, false, false, false) },
                                ..pre.regs
                            }),
                            pc,
                            hl,
                            res,
                        ) && is_ok(r, 4)
                    }
                },
            }
        },
        Instruction::Bit(n, s) => {
            let v = reg8_val(pre.regs, s);
            let z = v & (1u8 << n) == 0;
            ok_regs(
                pre,
                post,
                (RegBank { f: Register { val: flags_keepc(f, z, false, true) }, ..pre.regs }),
                pc,
            ) && is_ok(r, 2)
        },
        Instruction::BitHl(n) => {
            if hl == DMA_START_ADDR {
                fault_stop(pre, post, r)
            } else {
                let v = pre.bus.spec_read(hl);
                let z = v & (1u8 << n) == 0;
                ok_regs(
                    pre,
                    post,
                    (RegBank { f: Register { val: flags_keepc(f, z, false, true) }, ..pre.regs }),
                    pc,
                ) && is_ok(r, 3)
            }
        },
        Instruction::ResBit(n, loc) => {
            match loc {
                Loc8::R(s) => ok_regs(
                    pre,
                    post,
                    bank_with(pre.regs, s, reg8_val(pre.regs, s) & !(1u8 << n)),
                    pc,
                ) && is_ok(r, 2),
                Loc8::HlInd => {
                    if hl == DMA_START_ADDR {
                        fault_stop(pre, post, r)
                    } else {
                        ok_mem(
                            pre,
                            post,
                            pre.regs,
                            pc,
                            hl,
                            pre.bus.spec_read(hl) & !(1u8 << n),
                        ) && is_ok(r, 4)
                    }
                },
            }
        },
        Instruction::SetBit(n, loc) => {
            match loc {
                Loc8::R(s) => ok_regs(
                    pre,
                    post,
                    bank_with(pre.regs, s, reg8_val(pre.regs, s) | (1u8 << n)),
                    pc,
                ) && is_ok(r, 2),
                Loc8::HlInd => {
                    if hl == DMA_START_ADDR {
                        fault_stop(pre, post, r)
                    } else {
                        ok_mem(
                            pre,
                            post,
                            pre.regs,
                            pc,
                            hl,
                            pre.bus.spec_read(hl) | (1u8 << n),
                        ) && is_ok(r, 4)
                    }
                },
            }
        },
        Instruction::Rlc(loc) => shift_rel(pre, post, r, loc, ShiftKind::RlcK),
        Instruction::Rrc(loc) => shift_rel(pre, post, r, loc, ShiftKind::RrcK),
        Instruction::Rr(loc) => shift_rel(pre, post, r, loc, ShiftKind::RrK),
        Instruction::Sla(loc) => shift_rel(pre, post, r, loc, ShiftKind::SlaK),
        Instruction::Sra(loc) => shift_rel(pre, post, r, loc, ShiftKind::SraK),
        Instruction::Srl(loc) => shift_rel(pre, post, r, loc, ShiftKind::SrlK),
        Instruction::Rlca => {
            let res = spec_rlc_res(a);
            ok_regs(
                pre,
                post,
                bank_af(pre.regs, res, flags_of(res == 0, false, false, a & 0x80 != 0)),
                pc,
            ) && is_ok(r, 1)
        },
        Instruction::Rrca => {
            let res = spec_rrc_res(a);
            ok_regs(
                pre,
                post,
                bank_af(pre.regs, res, flags_of(res == 0, false, false, a & 1 != 0)),
                pc,
            ) && is_ok(r, 1)
        },
        Instruction::Rra => {
            let res = spec_rr_res(a, cin);
            ok_regs(
                pre,
                post,
                bank_af(pre.regs, res, flags_of(res == 0, false, false, a & 1 != 0)),
                pc,
            ) && is_ok(r, 1)
        },
        Instruction::Daa => ok_regs(
            pre,
            post,
            bank_af(pre.regs, spec_daa_res(a, f), spec_daa_flags(a, f)),
            pc,
        ) && is_ok(r, 1),
        Instruction::Scf => ok_regs(
            pre,
            post,
            bank_af(pre.regs, a, flags_of(f & 0x80 != 0, false, false, true)),
            pc,
        ) && is_ok(r, 1),
        Instruction::Ccf => ok_regs(
            pre,
            post,
            bank_af(pre.regs, a, flags_of(f & 0x80 != 0, false, false, f & 0x10 == 0)),
            pc,
        ) && is_ok(r, 1),
        Instruction::AddHl(rr) => {
            let w = match rr {
                Reg16::BC => word_of(pre.regs.b.val, pre.regs.c.val),
                Reg16::DE => word_of(pre.regs.d.val, pre.regs.e.val),
                Reg16::HL => hl,
                Reg16::SP => sp,
            };
            ok_regs(
                pre,
                post,
                (RegBank {
                    f: Register { val: spec_addhl_flags(f, hl, w) },
                    ..bank_hl(pre.regs, word_add(hl, w))
                }),
                pc,
            ) && is_ok(r, 2)
        },
        Instruction::LdSpHl => post.regs == pre.regs && post.pc.val == pc && post.sp.val == hl
            && post.bus == pre.bus && is_ok(r, 2),
        Instruction::LdIndImmSp => {
            let nn = word_of(pre.bus.spec_read(word_inc(pc)), pre.bus.spec_read(pc));
            if pc == DMA_START_ADDR || word_inc(pc) == DMA_START_ADDR || (nn == DMA_START_ADDR
                && lo_byte(sp) == 0xFF) || (word_inc(nn) == DMA_START_ADDR && hi_byte(sp)
                == 0xFF) {
                fault_stop(pre, post, r)
            } else {
                &&& post.regs == pre.regs
                &&& post.pc.val == word_inc(word_inc(pc))
                &&& post.sp == pre.sp
                &&& exists|mid: BUS|
                    #[trigger] BUS::write_rel(pre.bus, nn, lo_byte(sp), mid) && BUS::write_rel(
                        mid,
                        word_inc(nn),
                        hi_byte(sp),
                        post.bus,
                    )
                &&& is_ok(r, 5)
            }
        },
        Instruction::AddSpImm => {
            if pc == DMA_START_ADDR {
                fault_stop(pre, post, r)
            } else {
                let off = pre.bus.spec_read(pc);
                &&& post.regs == (RegBank {
                    f: Register { val: spec_spofs_flags(sp, off) },
                    ..pre.regs
                })
                &&& post.pc.val == word_inc(pc)
                &&& post.sp.val == word_add(sp, spec_signed_word(off))
                &&& post.bus == pre.bus
                &&& is_ok(r, 4)
            }
        },
        Instruction::LdHlSpImm => {
            if pc == DMA_START_ADDR {
                fault_stop(pre, post, r)
            } else {
                let off = pre.bus.spec_read(pc);
                ok_regs(
                    pre,
                    post,
                    (RegBank {
                        f: Register { val: spec_spofs_flags(sp, off) },
                        ..bank_hl(pre.regs, word_add(sp, spec_signed_word(off)))
                    }),
                    word_inc(pc),
                ) && is_ok(r, 3)
            }
        },
        Instruction::Halt => {
            let ready = pre.bus.interrupt_handler.spec_ready_mask();
            ok_regs(
                pre,
                post,
                pre.regs,
                if ready == 0 {
                    word_dec(pc)
                } else {
                    pc
                },
            ) && is_ok(r, 1)
        },
        Instruction::JpCond(cond) => {
            if pc == DMA_START_ADDR || word_inc(pc) == DMA_START_ADDR {
                fault_stop(pre, post, r)
            } else {
                let target = word_of(pre.bus.spec_read(word_inc(pc)), pre.bus.spec_read(pc));
                let taken = spec_cond_taken(cond, f);
                ok_regs(
                    pre,
                    post,
                    pre.regs,
                    if taken {
                        target
                    } else {
                        word_inc(word_inc(pc))
                    },
                ) && is_ok(
                    r,
                    if taken {
                        4
                    } else {
                        3
                    },
                )
            }
        },
        Instruction::RetCond(cond) => {
            let taken = spec_cond_taken(cond, f);
            if !taken {
                ok_regs(pre, post, pre.regs, pc) && is_ok(r, 2)
            } else if sp == DMA_START_ADDR || word_inc(sp) == DMA_START_ADDR {
                fault_stop(pre, post, r)
            } else {
                post.regs == pre.regs && post.pc.val == word_of(
                    pre.bus.spec_read(word_inc(sp)),
                    pre.bus.spec_read(sp),
                ) && post.sp.val == word_inc(word_inc(sp)) && post.bus == pre.bus && is_ok(r, 5)
            }
        },
        Instruction::Reti => {
            if sp == DMA_START_ADDR || word_inc(sp) == DMA_START_ADDR {
                fault_stop(pre, post, r)
            } else {
                post.regs == pre.regs && post.pc.val == word_of(
                    pre.bus.spec_read(word_inc(sp)),
                    pre.bus.spec_read(sp),
                ) && post.sp.val == word_inc(word_inc(sp)) && enable_now_rel(pre.bus, post.bus)
                    && is_ok(r, 2)
            }
        },
    }
}

/// The bit-prefixed rotate and shift family.
#[derive(Clone, Copy, PartialEq, Eq, Structural, Debug)]
pub enum ShiftKind {
    RlcK,
    RrcK,
    RrK,
    SlaK,
    SraK,
    SrlK,
}

/// The shifted byte of one rotate or shift kind.
pub open spec fn spec_shift_res(kind: ShiftKind, v: u8, cin: bool) -> u8 {
    match kind {
        ShiftKind::RlcK => spec_rlc_res(v),
        ShiftKind::RrcK => spec_rrc_res(v),
        ShiftKind::RrK => spec_rr_res(v, cin),
        ShiftKind::SlaK => spec_sla_res(v),
        ShiftKind::SraK => spec_sra_res(v),
        ShiftKind::SrlK => spec_srl_res(v),
    }
}

/// The bit a rotate or shift pushes into the carry flag.
pub open spec fn spec_shift_carry(kind: ShiftKind, v: u8) -> bool {
    match kind {
        ShiftKind::RlcK => v & 0x80 != 0,
        ShiftKind::RrcK => v & 1 != 0,
        ShiftKind::RrK => v & 1 != 0,
        ShiftKind::SlaK => v & 0x80 != 0,
        ShiftKind::SraK => v & 1 != 0,
        ShiftKind::SrlK => v & 1 != 0,
    }
}

/// Exactly what one bit-prefixed rotate or shift does to a register or
/// to the byte behind HL.
pub open spec fn shift_rel(
    pre: CPU,
    post: CPU,
    r: Result<u32, Fault>,
    loc: Loc8,
    kind: ShiftKind,
) -> bool {
    let f = pre.regs.f.val;
    let cin = (f & 0x10 != 0);
    let hl = hl_val(pre.regs);
    match loc {
        Loc8::R(s) => {
            let v = reg8_val(pre.regs, s);
            let res = spec_shift_res(kind, v, cin);
            ok_regs(
                pre,
                post,
                (RegBank {
                    f: Register {
                        val: flags_of(res == 0, false, false, spec_shift_carry(kind, v)),
                    },
                    ..bank_with(pre.regs, s, res)
                }),
                pre.pc.val,
            ) && is_ok(r, 2)
        },
        Loc8::HlInd => {
            if hl == DMA_START_ADDR {
                fault_stop(pre, post, r)
            } else {
                let v = pre.bus.spec_read(hl);
                let res = spec_shift_res(kind, v, cin);
                ok_mem(
                    pre,
                    post,
                    (RegBank {
                        f: Register {
                            val: flags_of(res == 0, false, false, spec_shift_carry(kind, v)),
                        },
                        ..pre.regs
                    }),
                    pre.pc.val,
                    hl,
                    res,
                ) && is_ok(r, 4)
            }
        },
    }
}

/// What the primary executor does for each opcode.
pub open spec fn exec_rel(pre: CPU, opcode: u8, post: CPU, r: Result<u32, Fault>) -> bool {
    match spec_decode(opcode) {
        Option::Some(i) => instr_rel(pre, i, post, r),
        Option::None => post == pre && r == Result::<u32, Fault>::Err(Fault::UnimplementedOpcode),
    }
}

/// What the bit-prefixed executor does for each opcode.
pub open spec fn exec_rel_cb(pre: CPU, opcode: u8, post: CPU, r: Result<u32, Fault>) -> bool {
    match spec_decode_cb(opcode) {
        Option::Some(i) => instr_rel(pre, i, post, r),
        Option::None => post == pre && r == Result::<u32, Fault>::Err(Fault::UnimplementedOpcode),
    }
}

/// The low nibble of a byte, with its bound.
fn nib(x: u8) -> (r: u8)
    ensures
        r == x & 0xF,
        r <= 0xF,
{
    proof {
        assert(x & 0xF <= 0xF) by (bit_vector);
    }
    x & 0xF
}

/// The byte with its nibbles exchanged.
fn swap_byte(v: u8) -> (r: u8)
    ensures
        r == spec_swap_res(v),
{
    proof {
        let w = v as u16;
        assert(((w & 0xF0) >> 4) + ((w & 0x0F) << 4) <= 0xFF) by (bit_vector);
    }
    ((((v as u16) & 0xF0) >> 4) + (((v as u16) & 0x0F) << 4)) as u8
}

/// Reads one 8-bit register.
fn reg_get(cpu: &CPU, r: Reg8) -> (v: u8)
    ensures
        v == reg8_val(cpu.regs, r),
{
    match r {
        Reg8::A => cpu.regs.a.r(),
        Reg8::B => cpu.regs.b.r(),
        Reg8::C => cpu.regs.c.r(),
        Reg8::D => cpu.regs.d.r(),
        Reg8::E => cpu.regs.e.r(),
        Reg8::H => cpu.regs.h.r(),
        Reg8::L => cpu.regs.l.r(),
    }
}

/// Writes one 8-bit register.
fn reg_set(cpu: &mut CPU, r: Reg8, v: u8)
    ensures
        final(cpu).regs == bank_with(old(cpu).regs, r, v),
        final(cpu).bus == old(cpu).bus,
        final(cpu).sp == old(cpu).sp,
        final(cpu).pc == old(cpu).pc,
        final(cpu).cycles == old(cpu).cycles,
{
    match r {
        Reg8::A => cpu.regs.a.w(v),
        Reg8::B => cpu.regs.b.w(v),
        Reg8::C => cpu.regs.c.w(v),
        Reg8::D => cpu.regs.d.w(v),
        Reg8::E => cpu.regs.e.w(v),
        Reg8::H => cpu.regs.h.w(v),
        Reg8::L => cpu.regs.l.w(v),
    }
    proof {
        assert(cpu.regs =~= bank_with(old(cpu).regs, r, v));
    }
}

/// Rebuilds all four flags in the table order.
fn set_flags4(cpu: &mut CPU, z: bool, n: bool, h: bool, c: bool)
    ensures
        final(cpu).regs.f.val == flags_of(z, n, h, c),
        final(cpu).flags_ok(),
        final(cpu).regs.a == old(cpu).regs.a,
        final(cpu).regs.b == old(cpu).regs.b,
        final(cpu).regs.c == old(cpu).regs.c,
        final(cpu).regs.d == old(cpu).regs.d,
        final(cpu).regs.e == old(cpu).regs.e,
        final(cpu).regs.h == old(cpu).regs.h,
        final(cpu).regs.l == old(cpu).regs.l,
        final(cpu).bus == old(cpu).bus,
        final(cpu).sp == old(cpu).sp,
        final(cpu).pc == old(cpu).pc,
        final(cpu).cycles == old(cpu).cycles,
{
    cpu.set_flag(CPUFlags::Z, z);
    cpu.set_flag(CPUFlags::N, n);
    cpu.set_flag(CPUFlags::H, h);
    cpu.set_flag(CPUFlags::C, c);
    proof {
        lemma_flag_chain4(old(cpu).regs.f.val, z, n, h, c);
    }
}

/// Rebuilds Z, N and H, keeping the carry flag.
fn set_flags_znh(cpu: &mut CPU, z: bool, n: bool, h: bool)
    ensures
        final(cpu).regs.f.val == flags_keepc(old(cpu).regs.f.val, z, n, h),
        final(cpu).flags_ok(),
        final(cpu).regs.a == old(cpu).regs.a,
        final(cpu).regs.b == old(cpu).regs.b,
        final(cpu).regs.c == old(cpu).regs.c,
        final(cpu).regs.d == old(cpu).regs.d,
        final(cpu).regs.e == old(cpu).regs.e,
        final(cpu).regs.h == old(cpu).regs.h,
        final(cpu).regs.l == old(cpu).regs.l,
        final(cpu).bus == old(cpu).bus,
        final(cpu).sp == old(cpu).sp,
        final(cpu).pc == old(cpu).pc,
        final(cpu).cycles == old(cpu).cycles,
{
    cpu.set_flag(CPUFlags::Z, z);
    cpu.set_flag(CPUFlags::N, n);
    cpu.set_flag(CPUFlags::H, h);
    proof {
        lemma_flag_chain3(old(cpu).regs.f.val, z, n, h);
    }
}

/// Whether the condition holds of the current flags.
fn cond_check(cpu: &CPU, cond: JumpCond) -> (r: bool)
    ensures
        r == spec_cond_taken(cond, cpu.regs.f.val),
{
    match cond {
        JumpCond::NZ => !cpu.is_flag_set(CPUFlags::Z),
        JumpCond::Z => cpu.is_flag_set(CPUFlags::Z),
        JumpCond::NC => !cpu.is_flag_set(CPUFlags::C),
        JumpCond::C => cpu.is_flag_set(CPUFlags::C),
        JumpCond::Always => true,
    }
}

/// Applies one accumulator operation to an already fetched operand.
#[verifier::rlimit(60)]
fn alu_apply(cpu: &mut CPU, op: AluOp, v: u8)
    ensures
        final(cpu).regs == bank_af(
            old(cpu).regs,
            spec_alu_res(op, old(cpu).regs.a.val, v, old(cpu).regs.f.val & 0x10 != 0),
            spec_alu_flags(op, old(cpu).regs.a.val, v, old(cpu).regs.f.val & 0x10 != 0),
        ),
        final(cpu).flags_ok(),
        final(cpu).bus == old(cpu).bus,
        final(cpu).sp == old(cpu).sp,
        final(cpu).pc == old(cpu).pc,
        final(cpu).cycles == old(cpu).cycles,
{
    let a = cpu.regs.a.r();
    let cin = cpu.is_flag_set(CPUFlags::C);
    let ci: u16 = if cin {
        1
    } else {
        0
    };
    match op {
        AluOp::Add => {
            let res = ((a as u16 + v as u16) % 256) as u8;
            cpu.regs.a.w(res);
            set_flags4(
                cpu,
                res == 0,
                false,
                nib(a) as u16 + nib(v) as u16 > 0xF,
                a as u16 + v as u16 > 0xFF,
            );
        },
        AluOp::Adc => {
            let res = ((a as u16 + v as u16 + ci) % 256) as u8;
            cpu.regs.a.w(res);
            set_flags4(
                cpu,
                res == 0,
                false,
                nib(a) as u16 + nib(v) as u16 + ci > 0xF,
                a as u16 + v as u16 + ci > 0xFF,
            );
        },
        AluOp::Sub => {
            let res = ((a as u16 + 256 - v as u16) % 256) as u8;
            cpu.regs.a.w(res);
            set_flags4(cpu, a == v, true, (a & 0xF) < (v & 0xF), a < v);
        },
        AluOp::Sbc => {
            let res = ((a as u16 + 256 - v as u16 - ci) % 256) as u8;
            cpu.regs.a.w(res);
            set_flags4(
                cpu,
                res == 0,
                true,
                (nib(a) as u16) < nib(v) as u16 + ci,
                (a as u16) < v as u16 + ci,
            );
        },
        AluOp::Cp => {
            set_flags4(cpu, a == v, true, (a & 0xF) < (v & 0xF), a < v);
        },
        AluOp::And => {
            let res = a & v;
            cpu.regs.a.w(res);
            set_flags4(cpu, res == 0, false, true, false);
        },
        AluOp::Or => {
            let res = a | v;
            cpu.regs.a.w(res);
            set_flags4(cpu, res == 0, false, false, false);
        },
        AluOp::Xor => {
            let res = a ^ v;
            cpu.regs.a.w(res);
            set_flags4(cpu, res == 0, false, false, false);
        },
    }
    proof {
        let fo = old(cpu).regs.f.val;
        assert(fo & 0x10 != 0 ==> cin);
        assert(cpu.regs =~= bank_af(
            old(cpu).regs,
            spec_alu_res(op, old(cpu).regs.a.val, v, fo & 0x10 != 0),
            spec_alu_flags(op, old(cpu).regs.a.val, v, fo & 0x10 != 0),
        ));
    }
}

/// Executes one decoded instruction.
/// The shifted byte of one rotate or shift kind.
fn shift_res_of(v: u8, cin: bool, kind: ShiftKind) -> (r: u8)
    ensures
        r == spec_shift_res(kind, v, cin),
{
    proof {
        assert(2 * (v as u16) + ((v as u16) >> 7) <= 0x1FF) by (bit_vector);
    }
    match kind {
        ShiftKind::RlcK => ((2 * (v as u16) + (v as u16 >> 7)) % 256) as u8,
        ShiftKind::RrcK => (v >> 1) | ((v & 1) << 7),
        ShiftKind::RrK => (v >> 1) | (if cin {
            0x80
        } else {
            0
        }),
        ShiftKind::SlaK => ((2 * (v as u16)) % 256) as u8,
        ShiftKind::SraK => (v >> 1) | (v & 0x80),
        ShiftKind::SrlK => v >> 1,
    }
}

/// The bit a rotate or shift pushes into the carry flag.
fn shift_carry_of(v: u8, kind: ShiftKind) -> (r: bool)
    ensures
        r == spec_shift_carry(kind, v),
{
    match kind {
        ShiftKind::RlcK => v & 0x80 != 0,
        ShiftKind::RrcK => v & 1 != 0,
        ShiftKind::RrK => v & 1 != 0,
        ShiftKind::SlaK => v & 0x80 != 0,
        ShiftKind::SraK => v & 1 != 0,
        ShiftKind::SrlK => v & 1 != 0,
    }
}

/// Applies one bit-prefixed rotate or shift to its register or memory
/// operand.
#[verifier::rlimit(100)]
#[verifier::spinoff_prover]
fn shift_apply(cpu: &mut CPU, loc: Loc8, kind: ShiftKind) -> (r: Result<u32, Fault>)
    requires
        old(cpu).cpu_wf(),
    ensures
        final(cpu).cpu_wf(),
        shift_rel(*old(cpu), *final(cpu), r, loc, kind),
        final(cpu).cycles == old(cpu).cycles,
        old(cpu).flags_ok() ==> final(cpu).flags_ok(),
        r matches Result::Ok(c) ==> 1 <= c <= 8,
{
    let cin = cpu.is_flag_set(CPUFlags::C);
    match loc {
        Loc8::R(s) => {
            let v = reg_get(cpu, s);
            let res = shift_res_of(v, cin, kind);
            let carry = shift_carry_of(v, kind);
            reg_set(cpu, s, res);
            set_flags4(cpu, res == 0, false, false, carry);
            proof {
                assert(cpu.regs =~= (RegBank {
                    f: Register {
                        val: flags_of(
                            spec_shift_res(kind, reg8_val(old(cpu).regs, s), cin) == 0,
                            false,
                            false,
                            spec_shift_carry(kind, reg8_val(old(cpu).regs, s)),
                        ),
                    },
                    ..bank_with(
                        old(cpu).regs,
                        s,
                        spec_shift_res(kind, reg8_val(old(cpu).regs, s), cin),
                    )
                }));
            }
            Result::Ok(2)
        },
        Loc8::HlInd => {
            let hl = cpu.regs.hl();
            if hl == DMA_START_ADDR {
                return Result::Err(Fault::ReadWriteOnly);
            }
            let v = cpu.read_byte(hl);
            let res = shift_res_of(v, cin, kind);
            let carry = shift_carry_of(v, kind);
            cpu.write_byte(hl, res);
            set_flags4(cpu, res == 0, false, false, carry);
            proof {
                assert(cpu.regs =~= (RegBank {
                    f: Register {
                        val: flags_of(
                            spec_shift_res(
                                kind,
                                old(cpu).bus.spec_read(hl_val(old(cpu).regs)),
                                cin,
                            ) == 0,
                            false,
                            false,
                            spec_shift_carry(
                                kind,
                                old(cpu).bus.spec_read(hl_val(old(cpu).regs)),
                            ),
                        ),
                    },
                    ..old(cpu).regs
                }));
            }
            Result::Ok(4)
        },
    }
}

pub open spec fn in_exec_ld8(i: Instruction) -> bool {
    match i {
        Instruction::LdRR(..) => true,
        Instruction::LdRImm(..) => true,
        Instruction::LdRHl(..) => true,
        Instruction::LdHlR(..) => true,
        Instruction::LdHlImm => true,
        Instruction::LdABc => true,
        Instruction::LdADe => true,
        Instruction::LdBcA => true,
        Instruction::LdDeA => true,
        Instruction::LdAImmInd => true,
        Instruction::LdImmIndA => true,
        _ => false,
    }
}

/// Executes 8-bit loads between registers, immediates and plain addresses.
#[verifier::rlimit(100)]
#[verifier::spinoff_prover]
fn exec_ld8(cpu: &mut CPU, i: Instruction) -> (r: Result<u32, Fault>)
    requires
        old(cpu).cpu_wf(),
        instr_ok(i),
        in_exec_ld8(i),
    ensures
        final(cpu).cpu_wf(),
        instr_rel(*old(cpu), i, *final(cpu), r),
        old(cpu).flags_ok() ==> final(cpu).flags_ok(),
        r matches Result::Ok(c) ==> 1 <= c <= 8,
{
    match i {
        Instruction::LdRR(d, s) => {
            let v = reg_get(cpu, s);
            reg_set(cpu, d, v);
            Result::Ok(1)
        },
        Instruction::LdRImm(d) => {
            if cpu.pc.r() == DMA_START_ADDR {
                return Result::Err(Fault::ReadWriteOnly);
            }
            let v = cpu.fetch_byte_immediate();
            reg_set(cpu, d, v);
            Result::Ok(2)
        },
        Instruction::LdRHl(d) => {
            let hl = cpu.regs.hl();
            if hl == DMA_START_ADDR {
                return Result::Err(Fault::ReadWriteOnly);
            }
            let v = cpu.read_byte(hl);
            reg_set(cpu, d, v);
            Result::Ok(2)
        },
        Instruction::LdHlR(s) => {
            let hl = cpu.regs.hl();
            let v = reg_get(cpu, s);
            if hl == DMA_START_ADDR && v == 0xFF {
                return Result::Err(Fault::ReadWriteOnly);
            }
            cpu.write_byte(hl, v);
            Result::Ok(2)
        },
        Instruction::LdHlImm => {
            let hl = cpu.regs.hl();
            if cpu.pc.r() == DMA_START_ADDR {
                return Result::Err(Fault::ReadWriteOnly);
            }
            let v = cpu.read_byte(cpu.pc.r());
            if hl == DMA_START_ADDR && v == 0xFF {
                return Result::Err(Fault::ReadWriteOnly);
            }
            let v2 = cpu.fetch_byte_immediate();
            cpu.write_byte(hl, v2);
            Result::Ok(3)
        },
        Instruction::LdABc => {
            let addr = cpu.regs.bc();
            if addr == DMA_START_ADDR {
                return Result::Err(Fault::ReadWriteOnly);
            }
            let v = cpu.read_byte(addr);
            reg_set(cpu, Reg8::A, v);
            Result::Ok(2)
        },
        Instruction::LdADe => {
            let addr = cpu.regs.de();
            if addr == DMA_START_ADDR {
                return Result::Err(Fault::ReadWriteOnly);
            }
            let v = cpu.read_byte(addr);
            reg_set(cpu, Reg8::A, v);
            Result::Ok(2)
        },
        Instruction::LdBcA => {
            let addr = cpu.regs.bc();
            let v = cpu.regs.a.r();
            if addr == DMA_START_ADDR && v == 0xFF {
                return Result::Err(Fault::ReadWriteOnly);
            }
            cpu.write_byte(addr, v);
            Result::Ok(2)
        },
        Instruction::LdDeA => {
            let addr = cpu.regs.de();
            let v = cpu.regs.a.r();
            if addr == DMA_START_ADDR && v == 0xFF {
                return Result::Err(Fault::ReadWriteOnly);
            }
            cpu.write_byte(addr, v);
            Result::Ok(2)
        },
        Instruction::LdAImmInd => {
            let pc0 = cpu.pc.r();
            if pc0 == DMA_START_ADDR || word_inc_of(pc0) == DMA_START_ADDR {
                return Result::Err(Fault::ReadWriteOnly);
            }
            let nn = cpu.read_word(pc0);
            if nn == DMA_START_ADDR {
                return Result::Err(Fault::ReadWriteOnly);
            }
            let v = cpu.read_byte(nn);
            cpu.pc.w(word_inc_of(word_inc_of(pc0)));
            reg_set(cpu, Reg8::A, v);
            Result::Ok(4)
        },
        Instruction::LdImmIndA => {
            let pc0 = cpu.pc.r();
            if pc0 == DMA_START_ADDR || word_inc_of(pc0) == DMA_START_ADDR {
                return Result::Err(Fault::ReadWriteOnly);
            }
            let nn = cpu.read_word(pc0);
            let v = cpu.regs.a.r();
            if nn == DMA_START_ADDR && v == 0xFF {
                return Result::Err(Fault::ReadWriteOnly);
            }
            cpu.pc.w(word_inc_of(word_inc_of(pc0)));
            cpu.write_byte(nn, v);
            Result::Ok(4)
        },
        _ => {
            proof {
                assert(false);
            }
            Result::Err(Fault::UnimplementedOpcode)
        },
    }
}

pub open spec fn in_exec_ldh16(i: Instruction) -> bool {
    match i {
        Instruction::LdhNA => true,
        Instruction::LdhAN => true,
        Instruction::LdhCA => true,
        Instruction::LdhAC => true,
        Instruction::LdiHlA => true,
        Instruction::LdiAHl => true,
        Instruction::LddHlA => true,
        Instruction::LddAHl => true,
        Instruction::Ld16Imm(..) => true,
        _ => false,
    }
}

/// Executes high-page loads, the post-increment loads, and 16-bit immediates.
#[verifier::rlimit(100)]
#[verifier::spinoff_prover]
fn exec_ldh16(cpu: &mut CPU, i: Instruction) -> (r: Result<u32, Fault>)
    requires
        old(cpu).cpu_wf(),
        instr_ok(i),
        in_exec_ldh16(i),
    ensures
        final(cpu).cpu_wf(),
        instr_rel(*old(cpu), i, *final(cpu), r),
        old(cpu).flags_ok() ==> final(cpu).flags_ok(),
        r matches Result::Ok(c) ==> 1 <= c <= 8,
{
    match i {
        Instruction::LdhNA => {
            let pc0 = cpu.pc.r();
            if pc0 == DMA_START_ADDR {
                return Result::Err(Fault::ReadWriteOnly);
            }
            let n = cpu.read_byte(pc0);
            let addr = 0xFF00u16 + n as u16;
            let v = cpu.regs.a.r();
            if addr == DMA_START_ADDR && v == 0xFF {
                return Result::Err(Fault::ReadWriteOnly);
            }
            cpu.pc.w(word_inc_of(pc0));
            cpu.write_byte(addr, v);
            Result::Ok(3)
        },
        Instruction::LdhAN => {
            let pc0 = cpu.pc.r();
            if pc0 == DMA_START_ADDR {
                return Result::Err(Fault::ReadWriteOnly);
            }
            let n = cpu.read_byte(pc0);
            let addr = 0xFF00u16 + n as u16;
            if addr == DMA_START_ADDR {
                return Result::Err(Fault::ReadWriteOnly);
            }
            let v = cpu.read_byte(addr);
            cpu.pc.w(word_inc_of(pc0));
            reg_set(cpu, Reg8::A, v);
            Result::Ok(3)
        },
        Instruction::LdhCA => {
            let addr = 0xFF00u16 + cpu.regs.c.r() as u16;
            let v = cpu.regs.a.r();
            if addr == DMA_START_ADDR && v == 0xFF {
                return Result::Err(Fault::ReadWriteOnly);
            }
            cpu.write_byte(addr, v);
            Result::Ok(3)
        },
        Instruction::LdhAC => {
            let addr = 0xFF00u16 + cpu.regs.c.r() as u16;
            if addr == DMA_START_ADDR {
                return Result::Err(Fault::ReadWriteOnly);
            }
            let v = cpu.read_byte(addr);
            reg_set(cpu, Reg8::A, v);
            Result::Ok(3)
        },
        Instruction::LdiHlA => {
            let hl = cpu.regs.hl();
            let v = cpu.regs.a.r();
            if hl == DMA_START_ADDR && v == 0xFF {
                return Result::Err(Fault::ReadWriteOnly);
            }
            cpu.write_byte(hl, v);
            cpu.regs.hl_w(word_inc_of(hl));
            proof {
                assert(cpu.regs =~= bank_hl(old(cpu).regs, word_inc(hl_val(old(cpu).regs))));
            }
            Result::Ok(3)
        },
        Instruction::LdiAHl => {
            let hl = cpu.regs.hl();
            if hl == DMA_START_ADDR {
                return Result::Err(Fault::ReadWriteOnly);
            }
            let v = cpu.read_byte(hl);
            reg_set(cpu, Reg8::A, v);
            cpu.regs.hl_w(word_inc_of(hl));
            proof {
                assert(cpu.regs =~= bank_hl(
                    bank_with(old(cpu).regs, Reg8::A, v),
                    word_inc(hl_val(old(cpu).regs)),
                ));
            }
            Result::Ok(3)
        },
        Instruction::LddHlA => {
            let hl = cpu.regs.hl();
            let v = cpu.regs.a.r();
            if hl == DMA_START_ADDR && v == 0xFF {
                return Result::Err(Fault::ReadWriteOnly);
            }
            cpu.write_byte(hl, v);
            cpu.regs.hl_w(word_dec_of(hl));
            proof {
                assert(cpu.regs =~= bank_hl(old(cpu).regs, word_dec(hl_val(old(cpu).regs))));
            }
            Result::Ok(3)
        },
        Instruction::LddAHl => {
            let hl = cpu.regs.hl();
            if hl == DMA_START_ADDR {
                return Result::Err(Fault::ReadWriteOnly);
            }
            let v = cpu.read_byte(hl);
            reg_set(cpu, Reg8::A, v);
            cpu.regs.hl_w(word_dec_of(hl));
            proof {
                assert(cpu.regs =~= bank_hl(
                    bank_with(old(cpu).regs, Reg8::A, v),
                    word_dec(hl_val(old(cpu).regs)),
                ));
            }
            Result::Ok(3)
        },
        Instruction::Ld16Imm(rr) => {
            let pc0 = cpu.pc.r();
            if pc0 == DMA_START_ADDR || word_inc_of(pc0) == DMA_START_ADDR {
                return Result::Err(Fault::ReadWriteOnly);
            }
            let w = cpu.read_word(pc0);
            cpu.pc.w(word_inc_of(word_inc_of(pc0)));
            match rr {
                Reg16::BC => {
                    cpu.regs.bc_w(w);
                    proof {
                        assert(cpu.regs =~= bank_bc(old(cpu).regs, w));
                    }
                },
                Reg16::DE => {
                    cpu.regs.de_w(w);
                    proof {
                        assert(cpu.regs =~= bank_de(old(cpu).regs, w));
                    }
                },
                Reg16::HL => {
                    cpu.regs.hl_w(w);
                    proof {
                        assert(cpu.regs =~= bank_hl(old(cpu).regs, w));
                    }
                },
                Reg16::SP => {
                    cpu.sp.w(w);
                },
            }
            Result::Ok(3)
        },
        _ => {
            proof {
                assert(false);
            }
            Result::Err(Fault::UnimplementedOpcode)
        },
    }
}

pub open spec fn in_exec_arith(i: Instruction) -> bool {
    match i {
        Instruction::Alu(..) => true,
        Instruction::IncR(..) => true,
        Instruction::DecR(..) => true,
        Instruction::IncHlInd => true,
        Instruction::DecHlInd => true,
        Instruction::Inc16(..) => true,
        Instruction::Dec16(..) => true,
        Instruction::Rla => true,
        Instruction::Cpl => true,
        _ => false,
    }
}

/// Executes accumulator arithmetic, increments, decrements and rotates.
#[verifier::rlimit(100)]
#[verifier::spinoff_prover]
fn exec_arith(cpu: &mut CPU, i: Instruction) -> (r: Result<u32, Fault>)
    requires
        old(cpu).cpu_wf(),
        instr_ok(i),
        in_exec_arith(i),
    ensures
        final(cpu).cpu_wf(),
        instr_rel(*old(cpu), i, *final(cpu), r),
        old(cpu).flags_ok() ==> final(cpu).flags_ok(),
        r matches Result::Ok(c) ==> 1 <= c <= 8,
{
    match i {
        Instruction::Alu(op, src) => {
            match src {
                Src8::R(s) => {
                    let v = reg_get(cpu, s);
                    alu_apply(cpu, op, v);
                    Result::Ok(1)
                },
                Src8::HlInd => {
                    let hl = cpu.regs.hl();
                    if hl == DMA_START_ADDR {
                        return Result::Err(Fault::ReadWriteOnly);
                    }
                    let v = cpu.read_byte(hl);
                    alu_apply(cpu, op, v);
                    Result::Ok(2)
                },
                Src8::Imm => {
                    if cpu.pc.r() == DMA_START_ADDR {
                        return Result::Err(Fault::ReadWriteOnly);
                    }
                    let v = cpu.fetch_byte_immediate();
                    alu_apply(cpu, op, v);
                    Result::Ok(2)
                },
            }
        },
        Instruction::IncR(d) => {
            let v = reg_get(cpu, d);
            let res = byte_inc_of(v);
            reg_set(cpu, d, res);
            set_flags_znh(cpu, res == 0, false, nib(v) + 1 > 0xF);
            proof {
                assert(cpu.regs =~= (RegBank {
                    f: Register {
                        val: flags_keepc(
                            old(cpu).regs.f.val,
                            byte_inc(v) == 0,
                            false,
                            (v & 0xF) + 1 > 0xF,
                        ),
                    },
                    ..bank_with(old(cpu).regs, d, byte_inc(v))
                }));
            }
            Result::Ok(1)
        },
        Instruction::DecR(d) => {
            let v = reg_get(cpu, d);
            let res = byte_dec_of(v);
            reg_set(cpu, d, res);
            set_flags_znh(cpu, res == 0, true, (v & 0xF) == 0);
            proof {
                assert(cpu.regs =~= (RegBank {
                    f: Register {
                        val: flags_keepc(
                            old(cpu).regs.f.val,
                            byte_dec(v) == 0,
                            true,
                            (v & 0xF) == 0,
                        ),
                    },
                    ..bank_with(old(cpu).regs, d, byte_dec(v))
                }));
            }
            Result::Ok(1)
        },
        Instruction::IncHlInd => {
            let hl = cpu.regs.hl();
            if hl == DMA_START_ADDR {
                return Result::Err(Fault::ReadWriteOnly);
            }
            let v = cpu.read_byte(hl);
            let res = byte_inc_of(v);
            cpu.write_byte(hl, res);
            set_flags_znh(cpu, res == 0, false, nib(v) + 1 > 0xF);
            proof {
                assert(cpu.regs =~= (RegBank {
                    f: Register {
                        val: flags_keepc(
                            old(cpu).regs.f.val,
                            byte_inc(v) == 0,
                            false,
                            (v & 0xF) + 1 > 0xF,
                        ),
                    },
                    ..old(cpu).regs
                }));
            }
            Result::Ok(3)
        },
        Instruction::DecHlInd => {
            let hl = cpu.regs.hl();
            if hl == DMA_START_ADDR {
                return Result::Err(Fault::ReadWriteOnly);
            }
            let v = cpu.read_byte(hl);
            let res = byte_dec_of(v);
            cpu.write_byte(hl, res);
            set_flags_znh(cpu, res == 0, true, (v & 0xF) == 0);
            proof {
                assert(cpu.regs =~= (RegBank {
                    f: Register {
                        val: flags_keepc(
                            old(cpu).regs.f.val,
                            byte_dec(v) == 0,
                            true,
                            (v & 0xF) == 0,
                        ),
                    },
                    ..old(cpu).regs
                }));
            }
            Result::Ok(3)
        },
        Instruction::Inc16(rr) => {
            match rr {
                Reg16::BC => {
                    let w = word_inc_of(cpu.regs.bc());
                    cpu.regs.bc_w(w);
                    proof {
                        assert(cpu.regs =~= bank_bc(
                            old(cpu).regs,
                            word_inc(word_of(old(cpu).regs.b.val, old(cpu).regs.c.val)),
                        ));
                    }
                },
                Reg16::DE => {
                    let w = word_inc_of(cpu.regs.de());
                    cpu.regs.de_w(w);
                    proof {
                        assert(cpu.regs =~= bank_de(
                            old(cpu).regs,
                            word_inc(word_of(old(cpu).regs.d.val, old(cpu).regs.e.val)),
                        ));
                    }
                },
                Reg16::HL => {
                    let w = word_inc_of(cpu.regs.hl());
                    cpu.regs.hl_w(w);
                    proof {
                        assert(cpu.regs =~= bank_hl(
                            old(cpu).regs,
                            word_inc(hl_val(old(cpu).regs)),
                        ));
                    }
                },
                Reg16::SP => {
                    let w = word_inc_of(cpu.sp.r());
                    cpu.sp.w(w);
                },
            }
            Result::Ok(2)
        },
        Instruction::Dec16(rr) => {
            match rr {
                Reg16::BC => {
                    let w = word_dec_of(cpu.regs.bc());
                    cpu.regs.bc_w(w);
                    proof {
                        assert(cpu.regs =~= bank_bc(
                            old(cpu).regs,
                            word_dec(word_of(old(cpu).regs.b.val, old(cpu).regs.c.val)),
                        ));
                    }
                },
                Reg16::DE => {
                    let w = word_dec_of(cpu.regs.de());
                    cpu.regs.de_w(w);
                    proof {
                        assert(cpu.regs =~= bank_de(
                            old(cpu).regs,
                            word_dec(word_of(old(cpu).regs.d.val, old(cpu).regs.e.val)),
                        ));
                    }
                },
                Reg16::HL => {
                    let w = word_dec_of(cpu.regs.hl());
                    cpu.regs.hl_w(w);
                    proof {
                        assert(cpu.regs =~= bank_hl(
                            old(cpu).regs,
                            word_dec(hl_val(old(cpu).regs)),
                        ));
                    }
                },
                Reg16::SP => {
                    let w = word_dec_of(cpu.sp.r());
                    cpu.sp.w(w);
                },
            }
            Result::Ok(2)
        },
        Instruction::Rla => {
            let a = cpu.regs.a.r();
            let ci: u16 = if cpu.is_flag_set(CPUFlags::C) {
                1
            } else {
                0
            };
            let res = ((2 * (a as u16) + ci) % 256) as u8;
            cpu.regs.a.w(res);
            set_flags4(cpu, res == 0, false, false, a & 0x80 != 0);
            proof {
                assert(cpu.regs =~= bank_af(
                    old(cpu).regs,
                    spec_rl_res(a, old(cpu).regs.f.val & 0x10 != 0),
                    flags_of(
                        spec_rl_res(a, old(cpu).regs.f.val & 0x10 != 0) == 0,
                        false,
                        false,
                        a & 0x80 != 0,
                    ),
                ));
            }
            Result::Ok(1)
        },
        Instruction::Cpl => {
            let a = cpu.regs.a.r();
            cpu.regs.a.w(a ^ 0xFF);
            cpu.set_flag(CPUFlags::N, true);
            cpu.set_flag(CPUFlags::H, true);
            proof {
                assert(cpu.regs =~= bank_af(
                    old(cpu).regs,
                    old(cpu).regs.a.val ^ 0xFF,
                    spec_flag_update(
                        spec_flag_update(old(cpu).regs.f.val, 0x40, true),
                        0x20,
                        true,
                    ),
                ));
            }
            Result::Ok(1)
        },
        _ => {
            proof {
                assert(false);
            }
            Result::Err(Fault::UnimplementedOpcode)
        },
    }
}

pub open spec fn in_exec_ctrl(i: Instruction) -> bool {
    match i {
        Instruction::Nop => true,
        Instruction::JpImm => true,
        Instruction::JpHl => true,
        Instruction::Jr(..) => true,
        Instruction::Call(..) => true,
        Instruction::Ret => true,
        Instruction::Rst(..) => true,
        Instruction::Push(..) => true,
        Instruction::Pop(..) => true,
        Instruction::Di => true,
        Instruction::Ei => true,
        _ => false,
    }
}

/// Executes control transfer, the stack, and the interrupt enables.
#[verifier::rlimit(100)]
#[verifier::spinoff_prover]
fn exec_ctrl(cpu: &mut CPU, i: Instruction) -> (r: Result<u32, Fault>)
    requires
        old(cpu).cpu_wf(),
        instr_ok(i),
        in_exec_ctrl(i),
    ensures
        final(cpu).cpu_wf(),
        instr_rel(*old(cpu), i, *final(cpu), r),
        old(cpu).flags_ok() ==> final(cpu).flags_ok(),
        r matches Result::Ok(c) ==> 1 <= c <= 8,
{
    match i {
        Instruction::Nop => Result::Ok(1),
        Instruction::JpImm => {
            let pc0 = cpu.pc.r();
            if pc0 == DMA_START_ADDR || word_inc_of(pc0) == DMA_START_ADDR {
                return Result::Err(Fault::ReadWriteOnly);
            }
            let w = cpu.read_word(pc0);
            cpu.pc.w(w);
            Result::Ok(3)
        },
        Instruction::JpHl => {
            let hl = cpu.regs.hl();
            cpu.pc.w(hl);
            Result::Ok(1)
        },
        Instruction::Jr(cond) => {
            let pc0 = cpu.pc.r();
            if pc0 == DMA_START_ADDR {
                return Result::Err(Fault::ReadWriteOnly);
            }
            let off = cpu.read_byte(pc0);
            let pc1 = word_inc_of(pc0);
            let taken = cond_check(cpu, cond);
            let off16: u16 = if off < 0x80 {
                off as u16
            } else {
                off as u16 + 0xFF00
            };
            if taken {
                cpu.pc.w(word_add_of(pc1, off16));
            } else {
                cpu.pc.w(pc1);
            }
            match cond {
                JumpCond::Always => Result::Ok(2),
                _ => if taken {
                    Result::Ok(3)
                } else {
                    Result::Ok(2)
                },
            }
        },
        Instruction::Call(cond) => {
            let pc0 = cpu.pc.r();
            if pc0 == DMA_START_ADDR || word_inc_of(pc0) == DMA_START_ADDR {
                return Result::Err(Fault::ReadWriteOnly);
            }
            let target = cpu.read_word(pc0);
            let ret = word_inc_of(word_inc_of(pc0));
            let taken = cond_check(cpu, cond);
            if taken {
                let sp0 = cpu.sp.r();
                if (word_dec_of(sp0) == DMA_START_ADDR && hi_of(ret) == 0xFF) || (word_dec_of(
                    word_dec_of(sp0),
                ) == DMA_START_ADDR && lo_of(ret) == 0xFF) {
                    return Result::Err(Fault::ReadWriteOnly);
                }
                cpu.pc.w(target);
                cpu.push_word(ret);
                Result::Ok(3)
            } else {
                cpu.pc.w(ret);
                Result::Ok(3)
            }
        },
        Instruction::Ret => {
            let sp0 = cpu.sp.r();
            if sp0 == DMA_START_ADDR || word_inc_of(sp0) == DMA_START_ADDR {
                return Result::Err(Fault::ReadWriteOnly);
            }
            let target = cpu.pop_word();
            cpu.pc.w(target);
            Result::Ok(2)
        },
        Instruction::Rst(t) => {
            let sp0 = cpu.sp.r();
            let pc0 = cpu.pc.r();
            if (word_dec_of(sp0) == DMA_START_ADDR && hi_of(pc0) == 0xFF) || (word_dec_of(
                word_dec_of(sp0),
            ) == DMA_START_ADDR && lo_of(pc0) == 0xFF) {
                return Result::Err(Fault::ReadWriteOnly);
            }
            cpu.push_word(pc0);
            cpu.pc.w(t as u16);
            Result::Ok(8)
        },
        Instruction::Push(p) => {
            let w = match p {
                Reg16Stk::AF => cpu.regs.af(),
                Reg16Stk::BC => cpu.regs.bc(),
                Reg16Stk::DE => cpu.regs.de(),
                Reg16Stk::HL => cpu.regs.hl(),
            };
            let sp0 = cpu.sp.r();
            if (word_dec_of(sp0) == DMA_START_ADDR && hi_of(w) == 0xFF) || (word_dec_of(
                word_dec_of(sp0),
            ) == DMA_START_ADDR && lo_of(w) == 0xFF) {
                return Result::Err(Fault::ReadWriteOnly);
            }
            cpu.push_word(w);
            Result::Ok(4)
        },
        Instruction::Pop(p) => {
            let sp0 = cpu.sp.r();
            if sp0 == DMA_START_ADDR || word_inc_of(sp0) == DMA_START_ADDR {
                return Result::Err(Fault::ReadWriteOnly);
            }
            let w = cpu.pop_word();
            match p {
                Reg16Stk::AF => {
                    cpu.regs.af_w(w);
                    proof {
                        assert(cpu.regs =~= bank_af(old(cpu).regs, hi_byte(w), lo_byte(w) & 0xF0));
                        let x = lo_byte(w);
                        assert((x & 0xF0) & 0x0F == 0) by (bit_vector);
                    }
                },
                Reg16Stk::BC => {
                    cpu.regs.bc_w(w);
                    proof {
                        assert(cpu.regs =~= bank_bc(old(cpu).regs, w));
                    }
                },
                Reg16Stk::DE => {
                    cpu.regs.de_w(w);
                    proof {
                        assert(cpu.regs =~= bank_de(old(cpu).regs, w));
                    }
                },
                Reg16Stk::HL => {
                    cpu.regs.hl_w(w);
                    proof {
                        assert(cpu.regs =~= bank_hl(old(cpu).regs, w));
                    }
                },
            }
            Result::Ok(3)
        },
        Instruction::Di => {
            cpu.disable_interrupts_delayed();
            Result::Ok(1)
        },
        Instruction::Ei => {
            cpu.enable_interrupts_delayed();
            Result::Ok(1)
        },
        _ => {
            proof {
                assert(false);
            }
            Result::Err(Fault::UnimplementedOpcode)
        },
    }
}

pub open spec fn in_exec_cbops(i: Instruction) -> bool {
    match i {
        Instruction::Rl(..) => true,
        Instruction::Swap(..) => true,
        Instruction::Bit(..) => true,
        Instruction::BitHl(..) => true,
        Instruction::ResBit(..) => true,
        Instruction::SetBit(..) => true,
        _ => false,
    }
}

/// Executes the bit-prefixed rotates, swaps and bit tests.
#[verifier::rlimit(100)]
#[verifier::spinoff_prover]
fn exec_cbops(cpu: &mut CPU, i: Instruction) -> (r: Result<u32, Fault>)
    requires
        old(cpu).cpu_wf(),
        instr_ok(i),
        in_exec_cbops(i),
    ensures
        final(cpu).cpu_wf(),
        instr_rel(*old(cpu), i, *final(cpu), r),
        old(cpu).flags_ok() ==> final(cpu).flags_ok(),
        r matches Result::Ok(c) ==> 1 <= c <= 8,
{
    match i {
        Instruction::Rl(loc) => {
            let ci: u16 = if cpu.is_flag_set(CPUFlags::C) {
                1
            } else {
                0
            };
            match loc {
                Loc8::R(s) => {
                    let v = reg_get(cpu, s);
                    let res = ((2 * (v as u16) + ci) % 256) as u8;
                    reg_set(cpu, s, res);
                    set_flags4(cpu, res == 0, false, false, v & 0x80 != 0);
                    proof {
                        assert(cpu.regs =~= (RegBank {
                            f: Register {
                                val: flags_of(
                                    spec_rl_res(
                                        reg8_val(old(cpu).regs, s),
                                        old(cpu).regs.f.val & 0x10 != 0,
                                    ) == 0,
                                    false,
                                    false,
                                    reg8_val(old(cpu).regs, s) & 0x80 != 0,
                                ),
                            },
                            ..bank_with(
                                old(cpu).regs,
                                s,
                                spec_rl_res(
                                    reg8_val(old(cpu).regs, s),
                                    old(cpu).regs.f.val & 0x10 != 0,
                                ),
                            )
                        }));
                    }
                    Result::Ok(2)
                },
                Loc8::HlInd => {
                    let hl = cpu.regs.hl();
                    if hl == DMA_START_ADDR {
                        return Result::Err(Fault::ReadWriteOnly);
                    }
                    let v = cpu.read_byte(hl);
                    let res = ((2 * (v as u16) + ci) % 256) as u8;
                    cpu.write_byte(hl, res);
                    set_flags4(cpu, res == 0, false, false, v & 0x80 != 0);
                    proof {
                        assert(cpu.regs =~= (RegBank {
                            f: Register {
                                val: flags_of(
                                    spec_rl_res(
                                        old(cpu).bus.spec_read(hl_val(old(cpu).regs)),
                                        old(cpu).regs.f.val & 0x10 != 0,
                                    ) == 0,
                                    false,
                                    false,
                                    old(cpu).bus.spec_read(hl_val(old(cpu).regs)) & 0x80 != 0,
                                ),
                            },
                            ..old(cpu).regs
                        }));
                    }
                    Result::Ok(4)
                },
            }
        },
        Instruction::Swap(loc) => {
            match loc {
                Loc8::R(s) => {
                    let v = reg_get(cpu, s);
                    let res = swap_byte(v);
                    reg_set(cpu, s, res);
                    set_flags4(cpu, res == 0, false, false, false);
                    proof {
                        assert(cpu.regs =~= (RegBank {
                            f: Register {
                                val: flags_of(
                                    spec_swap_res(reg8_val(old(cpu).regs, s)) == 0,
                                    false,
                                    false,
                                    false,
                                ),
                            },
                            ..bank_with(
                                old(cpu).regs,
                                s,
                                spec_swap_res(reg8_val(old(cpu).regs, s)),
                            )
                        }));
                    }
                    Result::Ok(2)
                },
                Loc8::HlInd => {
                    let hl = cpu.regs.hl();
                    if hl == DMA_START_ADDR {
                        return Result::Err(Fault::ReadWriteOnly);
                    }
                    let v = cpu.read_byte(hl);
                    let res = swap_byte(v);
                    cpu.write_byte(hl, res);
                    set_flags4(cpu, res == 0, false, false, false);
                    proof {
                        assert(cpu.regs =~= (RegBank {
                            f: Register {
                                val: flags_of(
                                    spec_swap_res(old(cpu).bus.spec_read(hl_val(old(cpu).regs)))
                                        == 0,
                                    false,
                                    false,
                                    false,
                                ),
                            },
                            ..old(cpu).regs
                        }));
                    }
                    Result::Ok(4)
                },
            }
        },
        Instruction::Bit(n, s) => {
            let v = reg_get(cpu, s);
            let z = v & (1u8 << n) == 0;
            set_flags_znh(cpu, z, false, true);
            proof {
                assert(cpu.regs =~= (RegBank {
                    f: Register {
                        val: flags_keepc(
                            old(cpu).regs.f.val,
                            reg8_val(old(cpu).regs, s) & (1u8 << n) == 0,
                            false,
                            true,
                        ),
                    },
                    ..old(cpu).regs
                }));
            }
            Result::Ok(2)
        },
        Instruction::BitHl(n) => {
            let hl = cpu.regs.hl();
            if hl == DMA_START_ADDR {
                return Result::Err(Fault::ReadWriteOnly);
            }
            let v = cpu.read_byte(hl);
            let z = v & (1u8 << n) == 0;
            set_flags_znh(cpu, z, false, true);
            proof {
                assert(cpu.regs =~= (RegBank {
                    f: Register {
                        val: flags_keepc(
                            old(cpu).regs.f.val,
                            old(cpu).bus.spec_read(hl_val(old(cpu).regs)) & (1u8 << n) == 0,
                            false,
                            true,
                        ),
                    },
                    ..old(cpu).regs
                }));
            }
            Result::Ok(3)
        },
        Instruction::ResBit(n, loc) => {
            match loc {
                Loc8::R(s) => {
                    let v = reg_get(cpu, s);
                    reg_set(cpu, s, v & !(1u8 << n));
                    Result::Ok(2)
                },
                Loc8::HlInd => {
                    let hl = cpu.regs.hl();
                    if hl == DMA_START_ADDR {
                        return Result::Err(Fault::ReadWriteOnly);
                    }
                    let v = cpu.read_byte(hl);
                    cpu.write_byte(hl, v & !(1u8 << n));
                    Result::Ok(4)
                },
            }
        },
        Instruction::SetBit(n, loc) => {
            match loc {
                Loc8::R(s) => {
                    let v = reg_get(cpu, s);
                    reg_set(cpu, s, v | (1u8 << n));
                    Result::Ok(2)
                },
                Loc8::HlInd => {
                    let hl = cpu.regs.hl();
                    if hl == DMA_START_ADDR {
                        return Result::Err(Fault::ReadWriteOnly);
                    }
                    let v = cpu.read_byte(hl);
                    cpu.write_byte(hl, v | (1u8 << n));
                    Result::Ok(4)
                },
            }
        },
        _ => {
            proof {
                assert(false);
            }
            Result::Err(Fault::UnimplementedOpcode)
        },
    }
}

/// The opcodes of the miscellaneous arithmetic family.
pub open spec fn in_exec_misc(i: Instruction) -> bool {
    match i {
        Instruction::Rlca => true,
        Instruction::Rrca => true,
        Instruction::Rra => true,
        Instruction::Daa => true,
        Instruction::Scf => true,
        Instruction::Ccf => true,
        Instruction::AddHl(..) => true,
        Instruction::LdSpHl => true,
        Instruction::LdIndImmSp => true,
        Instruction::AddSpImm => true,
        Instruction::LdHlSpImm => true,
        Instruction::Halt => true,
        _ => false,
    }
}

/// Executes the accumulator rotates, decimal adjust, carry-flag ops,
/// 16-bit adds, stack-pointer transfers and the halt wait.
#[verifier::rlimit(100)]
#[verifier::spinoff_prover]
fn exec_misc(cpu: &mut CPU, i: Instruction) -> (r: Result<u32, Fault>)
    requires
        old(cpu).cpu_wf(),
        instr_ok(i),
        in_exec_misc(i),
    ensures
        final(cpu).cpu_wf(),
        instr_rel(*old(cpu), i, *final(cpu), r),
        old(cpu).flags_ok() ==> final(cpu).flags_ok(),
        r matches Result::Ok(c) ==> 1 <= c <= 8,
{
    match i {
        Instruction::Rlca => {
            let a = cpu.regs.a.r();
            proof {
                assert(2 * (a as u16) + ((a as u16) >> 7) <= 0x1FF) by (bit_vector);
            }
            let res = ((2 * (a as u16) + (a as u16 >> 7)) % 256) as u8;
            cpu.regs.a.w(res);
            set_flags4(cpu, res == 0, false, false, a & 0x80 != 0);
            proof {
                assert(cpu.regs =~= bank_af(
                    old(cpu).regs,
                    spec_rlc_res(a),
                    flags_of(spec_rlc_res(a) == 0, false, false, a & 0x80 != 0),
                ));
            }
            Result::Ok(1)
        },
        Instruction::Rrca => {
            let a = cpu.regs.a.r();
            let res = (a >> 1) | ((a & 1) << 7);
            cpu.regs.a.w(res);
            set_flags4(cpu, res == 0, false, false, a & 1 != 0);
            proof {
                assert(cpu.regs =~= bank_af(
                    old(cpu).regs,
                    spec_rrc_res(a),
                    flags_of(spec_rrc_res(a) == 0, false, false, a & 1 != 0),
                ));
            }
            Result::Ok(1)
        },
        Instruction::Rra => {
            let a = cpu.regs.a.r();
            let cin = cpu.is_flag_set(CPUFlags::C);
            let res = (a >> 1) | (if cin {
                0x80
            } else {
                0
            });
            cpu.regs.a.w(res);
            set_flags4(cpu, res == 0, false, false, a & 1 != 0);
            proof {
                assert(cpu.regs =~= bank_af(
                    old(cpu).regs,
                    spec_rr_res(a, old(cpu).regs.f.val & 0x10 != 0),
                    flags_of(
                        spec_rr_res(a, old(cpu).regs.f.val & 0x10 != 0) == 0,
                        false,
                        false,
                        a & 1 != 0,
                    ),
                ));
            }
            Result::Ok(1)
        },
        Instruction::Daa => {
            let a = cpu.regs.a.r();
            let n = cpu.is_flag_set(CPUFlags::N);
            let h = cpu.is_flag_set(CPUFlags::H);
            let c = cpu.is_flag_set(CPUFlags::C);
            let res: u8;
            let carry: bool;
            if !n {
                let adj: u16 = (if h || (a & 0xF) > 9 {
                    0x06u16
                } else {
                    0u16
                }) + (if c || a > 0x99 {
                    0x60u16
                } else {
                    0u16
                });
                res = ((a as u16 + adj) % 256) as u8;
                carry = c || a > 0x99;
            } else {
                let adj: u16 = (if h {
                    0x06u16
                } else {
                    0u16
                }) + (if c {
                    0x60u16
                } else {
                    0u16
                });
                res = ((a as u16 + 256 - adj) % 256) as u8;
                carry = c;
            }
            cpu.regs.a.w(res);
            set_flags4(cpu, res == 0, n, false, carry);
            proof {
                assert(cpu.regs =~= bank_af(
                    old(cpu).regs,
                    spec_daa_res(a, old(cpu).regs.f.val),
                    spec_daa_flags(a, old(cpu).regs.f.val),
                ));
            }
            Result::Ok(1)
        },
        Instruction::Scf => {
            let z = cpu.is_flag_set(CPUFlags::Z);
            set_flags4(cpu, z, false, false, true);
            proof {
                assert(cpu.regs =~= bank_af(
                    old(cpu).regs,
                    old(cpu).regs.a.val,
                    flags_of(old(cpu).regs.f.val & 0x80 != 0, false, false, true),
                ));
            }
            Result::Ok(1)
        },
        Instruction::Ccf => {
            let z = cpu.is_flag_set(CPUFlags::Z);
            let c = cpu.is_flag_set(CPUFlags::C);
            set_flags4(cpu, z, false, false, !c);
            proof {
                assert(cpu.regs =~= bank_af(
                    old(cpu).regs,
                    old(cpu).regs.a.val,
                    flags_of(
                        old(cpu).regs.f.val & 0x80 != 0,
                        false,
                        false,
                        old(cpu).regs.f.val & 0x10 == 0,
                    ),
                ));
            }
            Result::Ok(1)
        },
        Instruction::AddHl(rr) => {
            let hl = cpu.regs.hl();
            let w = match rr {
                Reg16::BC => cpu.regs.bc(),
                Reg16::DE => cpu.regs.de(),
                Reg16::HL => hl,
                Reg16::SP => cpu.sp.r(),
            };
            let z = cpu.is_flag_set(CPUFlags::Z);
            proof {
                let x = hl as u32;
                let y = w as u32;
                assert(x & 0xFFF <= 0xFFF && y & 0xFFF <= 0xFFF) by (bit_vector);
            }
            cpu.regs.hl_w(word_add_of(hl, w));
            set_flags4(
                cpu,
                z,
                false,
                (hl as u32 & 0xFFF) + (w as u32 & 0xFFF) > 0xFFF,
                hl as u32 + w as u32 > 0xFFFF,
            );
            proof {
                assert(cpu.regs =~= (RegBank {
                    f: Register {
                        val: spec_addhl_flags(old(cpu).regs.f.val, hl_val(old(cpu).regs), w),
                    },
                    ..bank_hl(old(cpu).regs, word_add(hl_val(old(cpu).regs), w))
                }));
            }
            Result::Ok(2)
        },
        Instruction::LdSpHl => {
            let hl = cpu.regs.hl();
            cpu.sp.w(hl);
            Result::Ok(2)
        },
        Instruction::LdIndImmSp => {
            let pc0 = cpu.pc.r();
            if pc0 == DMA_START_ADDR || word_inc_of(pc0) == DMA_START_ADDR {
                return Result::Err(Fault::ReadWriteOnly);
            }
            let nn = cpu.read_word(pc0);
            let sp0 = cpu.sp.r();
            if (nn == DMA_START_ADDR && lo_of(sp0) == 0xFF) || (word_inc_of(nn) == DMA_START_ADDR
                && hi_of(sp0) == 0xFF) {
                return Result::Err(Fault::ReadWriteOnly);
            }
            cpu.pc.w(word_inc_of(word_inc_of(pc0)));
            cpu.write_byte(nn, lo_of(sp0));
            let ghost mid = cpu.bus;
            cpu.write_byte(word_inc_of(nn), hi_of(sp0));
            proof {
                assert(BUS::write_rel(old(cpu).bus, nn, lo_byte(sp0), mid) && BUS::write_rel(
                    mid,
                    word_inc(nn),
                    hi_byte(sp0),
                    cpu.bus,
                ));
            }
            Result::Ok(5)
        },
        Instruction::AddSpImm => {
            let pc0 = cpu.pc.r();
            if pc0 == DMA_START_ADDR {
                return Result::Err(Fault::ReadWriteOnly);
            }
            let off = cpu.fetch_byte_immediate();
            let sp0 = cpu.sp.r();
            let off16: u16 = if off < 0x80 {
                off as u16
            } else {
                off as u16 + 0xFF00
            };
            cpu.sp.w(word_add_of(sp0, off16));
            proof {
                let x = sp0 as u32;
                let y = off as u32;
                assert(x & 0xF <= 0xF && y & 0xF <= 0xF && x & 0xFF <= 0xFF) by (bit_vector);
            }
            set_flags4(
                cpu,
                false,
                false,
                (sp0 as u32 & 0xF) + (off as u32 & 0xF) > 0xF,
                (sp0 as u32 & 0xFF) + off as u32 > 0xFF,
            );
            proof {
                assert(cpu.regs =~= (RegBank {
                    f: Register { val: spec_spofs_flags(sp0, off) },
                    ..old(cpu).regs
                }));
            }
            Result::Ok(4)
        },
        Instruction::LdHlSpImm => {
            let pc0 = cpu.pc.r();
            if pc0 == DMA_START_ADDR {
                return Result::Err(Fault::ReadWriteOnly);
            }
            let off = cpu.fetch_byte_immediate();
            let sp0 = cpu.sp.r();
            let off16: u16 = if off < 0x80 {
                off as u16
            } else {
                off as u16 + 0xFF00
            };
            cpu.regs.hl_w(word_add_of(sp0, off16));
            proof {
                let x = sp0 as u32;
                let y = off as u32;
                assert(x & 0xF <= 0xF && y & 0xF <= 0xF && x & 0xFF <= 0xFF) by (bit_vector);
            }
            set_flags4(
                cpu,
                false,
                false,
                (sp0 as u32 & 0xF) + (off as u32 & 0xF) > 0xF,
                (sp0 as u32 & 0xFF) + off as u32 > 0xFF,
            );
            proof {
                assert(cpu.regs =~= (RegBank {
                    f: Register { val: spec_spofs_flags(sp0, off) },
                    ..bank_hl(old(cpu).regs, word_add(sp0, spec_signed_word(off)))
                }));
            }
            Result::Ok(3)
        },
        Instruction::Halt => {
            // The halt wait is modelled by re-executing the halt opcode
            // until an enabled interrupt becomes pending, so the frame
            // loop keeps advancing the clocked subsystems meanwhile.
            let mask = (cpu.bus.interrupt_handler.interrupt_flags.r()
                & cpu.bus.interrupt_handler.interrupt_enable.r()) & 0x1F;
            if mask == 0 {
                let pc0 = cpu.pc.r();
                cpu.pc.w(word_dec_of(pc0));
            }
            Result::Ok(1)
        },
        _ => {
            proof {
                assert(false);
            }
            Result::Err(Fault::UnimplementedOpcode)
        },
    }
}

/// The conditional absolute jumps and returns, and the interrupt
/// return.
pub open spec fn in_exec_ctrl2(i: Instruction) -> bool {
    match i {
        Instruction::JpCond(..) => true,
        Instruction::RetCond(..) => true,
        Instruction::Reti => true,
        _ => false,
    }
}

/// Executes the conditional absolute jumps and returns, and the
/// interrupt return.
#[verifier::rlimit(100)]
#[verifier::spinoff_prover]
fn exec_ctrl2(cpu: &mut CPU, i: Instruction) -> (r: Result<u32, Fault>)
    requires
        old(cpu).cpu_wf(),
        instr_ok(i),
        in_exec_ctrl2(i),
    ensures
        final(cpu).cpu_wf(),
        instr_rel(*old(cpu), i, *final(cpu), r),
        old(cpu).flags_ok() ==> final(cpu).flags_ok(),
        r matches Result::Ok(c) ==> 1 <= c <= 8,
{
    match i {
        Instruction::JpCond(cond) => {
            let pc0 = cpu.pc.r();
            if pc0 == DMA_START_ADDR || word_inc_of(pc0) == DMA_START_ADDR {
                return Result::Err(Fault::ReadWriteOnly);
            }
            let target = cpu.read_word(pc0);
            let taken = cond_check(cpu, cond);
            if taken {
                cpu.pc.w(target);
                Result::Ok(4)
            } else {
                cpu.pc.w(word_inc_of(word_inc_of(pc0)));
                Result::Ok(3)
            }
        },
        Instruction::RetCond(cond) => {
            let taken = cond_check(cpu, cond);
            if !taken {
                Result::Ok(2)
            } else {
                let sp0 = cpu.sp.r();
                if sp0 == DMA_START_ADDR || word_inc_of(sp0) == DMA_START_ADDR {
                    return Result::Err(Fault::ReadWriteOnly);
                }
                let target = cpu.pop_word();
                cpu.pc.w(target);
                Result::Ok(5)
            }
        },
        Instruction::Reti => {
            let sp0 = cpu.sp.r();
            if sp0 == DMA_START_ADDR || word_inc_of(sp0) == DMA_START_ADDR {
                return Result::Err(Fault::ReadWriteOnly);
            }
            let target = cpu.pop_word();
            cpu.pc.w(target);
            cpu.bus.interrupt_handler.enable();
            Result::Ok(2)
        },
        _ => {
            proof {
                assert(false);
            }
            Result::Err(Fault::UnimplementedOpcode)
        },
    }
}

/// Executes one decoded instruction.
fn exec_instr(cpu: &mut CPU, i: Instruction) -> (r: Result<u32, Fault>)
    requires
        old(cpu).cpu_wf(),
        instr_ok(i),
    ensures
        final(cpu).cpu_wf(),
        instr_rel(*old(cpu), i, *final(cpu), r),
        old(cpu).flags_ok() ==> final(cpu).flags_ok(),
        r matches Result::Ok(c) ==> 1 <= c <= 8,
{
    match i {
        Instruction::LdRR(..) => exec_ld8(cpu, i),
        Instruction::LdRImm(..) => exec_ld8(cpu, i),
        Instruction::LdRHl(..) => exec_ld8(cpu, i),
        Instruction::LdHlR(..) => exec_ld8(cpu, i),
        Instruction::LdHlImm => exec_ld8(cpu, i),
        Instruction::LdABc => exec_ld8(cpu, i),
        Instruction::LdADe => exec_ld8(cpu, i),
        Instruction::LdBcA => exec_ld8(cpu, i),
        Instruction::LdDeA => exec_ld8(cpu, i),
        Instruction::LdAImmInd => exec_ld8(cpu, i),
        Instruction::LdImmIndA => exec_ld8(cpu, i),
        Instruction::LdhNA => exec_ldh16(cpu, i),
        Instruction::LdhAN => exec_ldh16(cpu, i),
        Instruction::LdhCA => exec_ldh16(cpu, i),
        Instruction::LdhAC => exec_ldh16(cpu, i),
        Instruction::LdiHlA => exec_ldh16(cpu, i),
        Instruction::LdiAHl => exec_ldh16(cpu, i),
        Instruction::LddHlA => exec_ldh16(cpu, i),
        Instruction::LddAHl => exec_ldh16(cpu, i),
        Instruction::Ld16Imm(..) => exec_ldh16(cpu, i),
        Instruction::Alu(..) => exec_arith(cpu, i),
        Instruction::IncR(..) => exec_arith(cpu, i),
        Instruction::DecR(..) => exec_arith(cpu, i),
        Instruction::IncHlInd => exec_arith(cpu, i),
        Instruction::DecHlInd => exec_arith(cpu, i),
        Instruction::Inc16(..) => exec_arith(cpu, i),
        Instruction::Dec16(..) => exec_arith(cpu, i),
        Instruction::Rla => exec_arith(cpu, i),
        Instruction::Cpl => exec_arith(cpu, i),
        Instruction::Nop => exec_ctrl(cpu, i),
        Instruction::JpImm => exec_ctrl(cpu, i),
        Instruction::JpHl => exec_ctrl(cpu, i),
        Instruction::Jr(..) => exec_ctrl(cpu, i),
        Instruction::Call(..) => exec_ctrl(cpu, i),
        Instruction::Ret => exec_ctrl(cpu, i),
        Instruction::Rst(..) => exec_ctrl(cpu, i),
        Instruction::Push(..) => exec_ctrl(cpu, i),
        Instruction::Pop(..) => exec_ctrl(cpu, i),
        Instruction::Di => exec_ctrl(cpu, i),
        Instruction::Ei => exec_ctrl(cpu, i),
        Instruction::Rl(..) => exec_cbops(cpu, i),
        Instruction::Swap(..) => exec_cbops(cpu, i),
        Instruction::Bit(..) => exec_cbops(cpu, i),
        Instruction::BitHl(..) => exec_cbops(cpu, i),
        Instruction::ResBit(..) => exec_cbops(cpu, i),
        Instruction::SetBit(..) => exec_cbops(cpu, i),
        Instruction::Rlc(loc) => shift_apply(cpu, loc, ShiftKind::RlcK),
        Instruction::Rrc(loc) => shift_apply(cpu, loc, ShiftKind::RrcK),
        Instruction::Rr(loc) => shift_apply(cpu, loc, ShiftKind::RrK),
        Instruction::Sla(loc) => shift_apply(cpu, loc, ShiftKind::SlaK),
        Instruction::Sra(loc) => shift_apply(cpu, loc, ShiftKind::SraK),
        Instruction::Srl(loc) => shift_apply(cpu, loc, ShiftKind::SrlK),
        Instruction::Rlca => exec_misc(cpu, i),
        Instruction::Rrca => exec_misc(cpu, i),
        Instruction::Rra => exec_misc(cpu, i),
        Instruction::Daa => exec_misc(cpu, i),
        Instruction::Scf => exec_misc(cpu, i),
        Instruction::Ccf => exec_misc(cpu, i),
        Instruction::AddHl(..) => exec_misc(cpu, i),
        Instruction::LdSpHl => exec_misc(cpu, i),
        Instruction::LdIndImmSp => exec_misc(cpu, i),
        Instruction::AddSpImm => exec_misc(cpu, i),
        Instruction::LdHlSpImm => exec_misc(cpu, i),
        Instruction::Halt => exec_misc(cpu, i),
        Instruction::JpCond(..) => exec_ctrl2(cpu, i),
        Instruction::RetCond(..) => exec_ctrl2(cpu, i),
        Instruction::Reti => exec_ctrl2(cpu, i),
    }
}
/// Every decoded bit-prefixed instruction is structurally valid.
proof fn lemma_decode_cb_ok(op: u8)
    ensures
        spec_decode_cb(op) matches Option::Some(i) ==> instr_ok(i),
{
    assert((op >> 3) & 7 < 8) by (bit_vector);
}

/// Every decoded primary instruction is structurally valid.
proof fn lemma_decode_ok(op: u8)
    ensures
        spec_decode(op) matches Option::Some(i) ==> instr_ok(i),
{
}

/// The two dispatch tables of the processor.
pub struct InstructionSet {}

impl InstructionSet {
    /// The dispatch tables are fixed; nothing is built at run time.
    pub fn new() -> (r: Self) {
        InstructionSet {  }
    }

    /// True when the table holds an entry for the opcode.
    pub fn is_implemented(&self, opcode: u8, bitwise: bool) -> (r: bool)
        ensures
            r == if bitwise {
                spec_decode_cb(opcode) is Some
            } else {
                spec_decode(opcode) is Some
            },
    {
        match bitwise {
            false => decode(opcode).is_some(),
            true => decode_cb(opcode).is_some(),
        }
    }

    /// Executes one primary opcode; PC is already past the opcode byte.
    /// Returns the machine cycles retired, or the fault that stopped the
    /// machine.
    pub fn exec(&self, cpu: &mut CPU, opcode: u8) -> (r: Result<u32, Fault>)
        requires
            old(cpu).cpu_wf(),
        ensures
            final(cpu).cpu_wf(),
            exec_rel(*old(cpu), opcode, *final(cpu), r),
            old(cpu).flags_ok() ==> final(cpu).flags_ok(),
            r matches Result::Ok(c) ==> 1 <= c <= 8,
    {
        proof {
            lemma_decode_ok(opcode);
        }
        match decode(opcode) {
            Option::Some(i) => exec_instr(cpu, i),
            Option::None => Result::Err(Fault::UnimplementedOpcode),
        }
    }


    /// The mnemonic family of an opcode, for the host's instruction
    /// trace; opcodes without a table entry read as "Unimp".
    pub fn print_instr(&self, opcode: u8, bitwise: bool) -> &'static str {
        let decoded = if bitwise {
            decode_cb(opcode)
        } else {
            decode(opcode)
        };
        match decoded {
            Option::None => "Unimp",
            Option::Some(i) => match i {
                Instruction::Nop => "NOP",
                Instruction::LdRR(..) => "LD r,r",
                Instruction::LdRImm(..) => "LD r,n",
                Instruction::LdRHl(..) => "LD r,(HL)",
                Instruction::LdHlR(..) => "LD (HL),r",
                Instruction::LdHlImm => "LD (HL),n",
                Instruction::LdABc => "LD A,(BC)",
                Instruction::LdADe => "LD A,(DE)",
                Instruction::LdBcA => "LD (BC),A",
                Instruction::LdDeA => "LD (DE),A",
                Instruction::LdAImmInd => "LD A,(nn)",
                Instruction::LdImmIndA => "LD (nn),A",
                Instruction::LdhNA => "LDH (n),A",
                Instruction::LdhAN => "LDH A,(n)",
                Instruction::LdhCA => "LD (0xFF00+C),A",
                Instruction::LdhAC => "LD A,(0xFF00+C)",
                Instruction::LdiHlA => "LDI (HL+),A",
                Instruction::LdiAHl => "LDI A,(HL+)",
                Instruction::LddHlA => "LDD (HL-),A",
                Instruction::LddAHl => "LDD A,(HL-)",
                Instruction::Ld16Imm(..) => "LD rr,nn",
                Instruction::Alu(..) => "ALU A,x",
                Instruction::IncR(..) => "INC r",
                Instruction::DecR(..) => "DEC r",
                Instruction::IncHlInd => "INC (HL)",
                Instruction::DecHlInd => "DEC (HL)",
                Instruction::Inc16(..) => "INC rr",
                Instruction::Dec16(..) => "DEC rr",
                Instruction::Rla => "RLA",
                Instruction::Cpl => "CPL A",
                Instruction::JpImm => "JP nn",
                Instruction::JpHl => "JP (HL)",
                Instruction::Jr(..) => "JR cc,n",
                Instruction::Call(..) => "CALL cc,nn",
                Instruction::Ret => "RET",
                Instruction::Rst(..) => "RST n",
                Instruction::Push(..) => "PUSH rr",
                Instruction::Pop(..) => "POP rr",
                Instruction::Di => "DI",
                Instruction::Ei => "EI",
                Instruction::Rl(..) => "RL x",
                Instruction::Rlc(..) => "RLC x",
                Instruction::Rr(..) => "RR x",
                Instruction::Rrc(..) => "RRC x",
                Instruction::Sla(..) => "SLA x",
                Instruction::Sra(..) => "SRA x",
                Instruction::Srl(..) => "SRL x",
                Instruction::Swap(..) => "SWAP x",
                Instruction::Bit(..) => "BIT b,r",
                Instruction::BitHl(..) => "BIT b,(HL)",
                Instruction::ResBit(..) => "RES b,x",
                Instruction::SetBit(..) => "SET b,x",
                Instruction::Rlca => "RLCA",
                Instruction::Rrca => "RRCA",
                Instruction::Rra => "RRA",
                Instruction::Daa => "DAA",
                Instruction::Scf => "SCF",
                Instruction::Ccf => "CCF",
                Instruction::AddHl(..) => "ADD HL,rr",
                Instruction::LdSpHl => "LD SP,HL",
                Instruction::LdIndImmSp => "LD (nn),SP",
                Instruction::AddSpImm => "ADD SP,n",
                Instruction::LdHlSpImm => "LD HL,SP+n",
                Instruction::Halt => "HALT",
                Instruction::JpCond(..) => "JP cc,nn",
                Instruction::RetCond(..) => "RET cc",
                Instruction::Reti => "RETI",
            },
        }
    }

    /// Executes one bit-prefixed opcode.
    pub fn exec_bit(&self, cpu: &mut CPU, opcode: u8) -> (r: Result<u32, Fault>)
        requires
            old(cpu).cpu_wf(),
        ensures
            final(cpu).cpu_wf(),
            exec_rel_cb(*old(cpu), opcode, *final(cpu), r),
            old(cpu).flags_ok() ==> final(cpu).flags_ok(),
            r matches Result::Ok(c) ==> 1 <= c <= 8,
    {
        proof {
            lemma_decode_cb_ok(opcode);
        }
        match decode_cb(opcode) {
            Option::Some(i) => exec_instr(cpu, i),
            Option::None => Result::Err(Fault::UnimplementedOpcode),
        }
    }
}

/// A conditional relative jump costs exactly one machine cycle more on
/// its taken path than on its untaken path.
pub proof fn lemma_cond_jump_cost(pre: CPU, post: CPU, cond: JumpCond, r: Result<u32, Fault>)
    requires
        cond != JumpCond::Always,
        pre.pc.val != DMA_START_ADDR,
        instr_rel(pre, Instruction::Jr(cond), post, r),
    ensures
        r == Result::<u32, Fault>::Ok(
            if spec_cond_taken(cond, pre.regs.f.val) {
                3
            } else {
                2
            },
        ),
        3 == 2 + 1,
{
}

} // verus!
