use rustikgb::bus::BUS;
use rustikgb::cartridge::Cartridge;
use rustikgb::cpu::CPU;
use rustikgb::instructions::InstructionSet;
use rustikgb::registers::Register;
use rustikgb::Fault;

/// A machine with the given bytes placed at 0x0100 of a blank cartridge,
/// the boot overlay already dismissed, PC at 0x0100 and SP at 0xFFFE.
fn machine_with_program(program: &[u8]) -> CPU {
    let mut rom = vec![0u8; 0x8000];
    let mut i = 0;
    while i < program.len() {
        rom[0x0100 + i] = program[i];
        i += 1;
    }
    let cart = Cartridge::new(&rom);
    let mut bus = BUS::new(vec![0u8; 0x100], cart);
    bus.write_byte(0xFF50, 0x01);
    let mut cpu = CPU::new(bus);
    cpu.pc = Register::new(0x0100);
    cpu.sp = Register::new(0xFFFE);
    cpu
}

fn step(cpu: &mut CPU) -> u32 {
    let set = InstructionSet::new();
    cpu.step_instruction(&set).expect("instruction should retire")
}

#[test]
fn xor_a_clears_accumulator() {
    // Opcode 0xAF with an arbitrary A: A = 0, F = Z only, one machine
    // cycle, PC past the opcode.
    let mut cpu = machine_with_program(&[0xAF]);
    cpu.regs.a = Register::new(0x5A);
    cpu.regs.f = Register::new(0x30);
    let c = step(&mut cpu);
    assert_eq!(c, 1);
    assert_eq!(cpu.regs.a.r(), 0x00);
    assert_eq!(cpu.regs.f.r(), 0x80);
    assert_eq!(cpu.pc.r(), 0x0101);
}

#[test]
fn push_pop_bc_roundtrip() {
    // PUSH BC; LD BC,0x0000; POP BC restores BC and SP, with the two
    // stack bytes visible in high RAM.
    let mut cpu = machine_with_program(&[0xC5, 0x01, 0x00, 0x00, 0xC1]);
    cpu.regs.bc_w(0x1234);
    step(&mut cpu);
    assert_eq!(cpu.sp.r(), 0xFFFC);
    assert_eq!(cpu.read_byte(0xFFFC), 0x34);
    assert_eq!(cpu.read_byte(0xFFFD), 0x12);
    step(&mut cpu);
    assert_eq!(cpu.regs.bc(), 0x0000);
    step(&mut cpu);
    assert_eq!(cpu.regs.bc(), 0x1234);
    assert_eq!(cpu.sp.r(), 0xFFFE);
}

#[test]
fn relative_jump_taken() {
    // JR Z,+5 at 0x0100 with Z set lands at 0x0107 in three machine
    // cycles.
    let mut cpu = machine_with_program(&[0x28, 0x05]);
    cpu.regs.a = Register::new(0x00);
    cpu.regs.f = Register::new(0x80);
    let c = step(&mut cpu);
    assert_eq!(c, 3);
    assert_eq!(cpu.pc.r(), 0x0107);
}

#[test]
fn conditional_jump_untaken_costs_one_less() {
    let mut taken = machine_with_program(&[0x28, 0x05]);
    taken.regs.f = Register::new(0x80);
    let ct = step(&mut taken);
    let mut untaken = machine_with_program(&[0x28, 0x05]);
    untaken.regs.f = Register::new(0x00);
    let cu = step(&mut untaken);
    assert_eq!(ct, cu + 1);
    assert_eq!(untaken.pc.r(), 0x0102);
}

#[test]
fn add_sets_all_four_flags() {
    // LD A,0xFF; LD B,0x01; ADD A,B: zero result with half carry and
    // carry, N clear.
    let mut cpu = machine_with_program(&[0x3E, 0xFF, 0x06, 0x01, 0x80]);
    step(&mut cpu);
    step(&mut cpu);
    step(&mut cpu);
    assert_eq!(cpu.regs.a.r(), 0x00);
    assert_eq!(cpu.regs.f.r(), 0xB0);
}

#[test]
fn adc_uses_full_byte_result() {
    // LD A,0x0F; LD B,0x01; ADC with carry clear: A = 0x10, only H set.
    let mut cpu = machine_with_program(&[0x3E, 0x0F, 0x06, 0x01, 0x88]);
    step(&mut cpu);
    step(&mut cpu);
    step(&mut cpu);
    assert_eq!(cpu.regs.a.r(), 0x10);
    assert_eq!(cpu.regs.f.r(), 0x20);
}

#[test]
fn sub_and_compare_flags() {
    // LD A,0x10; LD B,0x20; CP B: borrow sets C, N set, result nonzero.
    let mut cpu = machine_with_program(&[0x3E, 0x10, 0x06, 0x20, 0xB8]);
    step(&mut cpu);
    step(&mut cpu);
    step(&mut cpu);
    assert_eq!(cpu.regs.a.r(), 0x10);
    assert_eq!(cpu.regs.f.r(), 0x50);
}

#[test]
fn and_sets_half_flag() {
    // LD A,0xF0; LD B,0x0F; AND B: zero result, Z and H set.
    let mut cpu = machine_with_program(&[0x3E, 0xF0, 0x06, 0x0F, 0xA0]);
    step(&mut cpu);
    step(&mut cpu);
    step(&mut cpu);
    assert_eq!(cpu.regs.a.r(), 0x00);
    assert_eq!(cpu.regs.f.r(), 0xA0);
}

#[test]
fn inc_keeps_carry_flag() {
    // INC B leaves a previously set carry flag alone.
    let mut cpu = machine_with_program(&[0x04]);
    cpu.regs.b = Register::new(0x0F);
    cpu.regs.f = Register::new(0x10);
    step(&mut cpu);
    assert_eq!(cpu.regs.b.r(), 0x10);
    assert_eq!(cpu.regs.f.r(), 0x30);
}

#[test]
fn dec_sets_n_and_nibble_borrow() {
    let mut cpu = machine_with_program(&[0x05]);
    cpu.regs.b = Register::new(0x10);
    step(&mut cpu);
    assert_eq!(cpu.regs.b.r(), 0x0F);
    assert_eq!(cpu.regs.f.r(), 0x60);
}

#[test]
fn swap_nibbles_twice_is_identity() {
    // SWAP A applied twice restores the byte (prefix 0xCB, opcode 0x37).
    let mut cpu = machine_with_program(&[0xCB, 0x37, 0xCB, 0x37]);
    cpu.regs.a = Register::new(0x3C);
    step(&mut cpu);
    assert_eq!(cpu.regs.a.r(), 0xC3);
    step(&mut cpu);
    assert_eq!(cpu.regs.a.r(), 0x3C);
}

#[test]
fn complement_twice_is_identity() {
    let mut cpu = machine_with_program(&[0x2F, 0x2F]);
    cpu.regs.a = Register::new(0x5A);
    step(&mut cpu);
    assert_eq!(cpu.regs.a.r(), 0xA5);
    step(&mut cpu);
    assert_eq!(cpu.regs.a.r(), 0x5A);
}

#[test]
fn bit_test_sets_z_on_clear_bit() {
    // BIT 7,H with H = 0x00: Z set, H flag set, carry kept.
    let mut cpu = machine_with_program(&[0xCB, 0x7C]);
    cpu.regs.h = Register::new(0x00);
    cpu.regs.f = Register::new(0x10);
    let c = step(&mut cpu);
    assert_eq!(c, 2);
    assert_eq!(cpu.regs.f.r(), 0xB0);
}

#[test]
fn low_nibble_of_f_stays_clear() {
    // A run of flag-touching operations never leaves low bits in F.
    let mut cpu = machine_with_program(&[0x3E, 0xFF, 0x80, 0x17, 0x2F, 0xCB, 0x37, 0x04, 0x05]);
    for _ in 0..7 {
        step(&mut cpu);
        assert_eq!(cpu.regs.f.r() & 0x0F, 0);
    }
}

#[test]
fn unimplemented_opcode_is_a_fault() {
    // 0xD3 is not an instruction of the processor.
    let mut cpu = machine_with_program(&[0xD3]);
    let set = InstructionSet::new();
    let r = cpu.step_instruction(&set);
    assert_eq!(r, Err(Fault::UnimplementedOpcode));
}

#[test]
fn reading_dma_register_is_a_fault() {
    // LD A,(nn) aimed at the write-only DMA trigger.
    let mut cpu = machine_with_program(&[0xFA, 0x46, 0xFF]);
    let set = InstructionSet::new();
    let r = cpu.step_instruction(&set);
    assert_eq!(r, Err(Fault::ReadWriteOnly));
}

#[test]
fn is_implemented_matches_tables() {
    let set = InstructionSet::new();
    assert!(set.is_implemented(0x00, false));
    assert!(set.is_implemented(0xAF, false));
    assert!(set.is_implemented(0x76, false));
    assert!(!set.is_implemented(0xD3, false));
    assert!(!set.is_implemented(0xED, false));
    assert!(set.is_implemented(0x37, true));
    assert!(set.is_implemented(0x7C, true));
    assert!(set.is_implemented(0x46, true));
    assert!(set.is_implemented(0xC7, true));
}

#[test]
fn call_and_ret_roundtrip() {
    // CALL 0x0110; at 0x0110 RET. Return address is the byte after the
    // call operand.
    let mut program = vec![0xCD, 0x10, 0x01];
    while program.len() < 0x10 {
        program.push(0x00);
    }
    program.push(0xC9);
    let mut cpu = machine_with_program(&program);
    step(&mut cpu);
    assert_eq!(cpu.pc.r(), 0x0110);
    assert_eq!(cpu.sp.r(), 0xFFFC);
    step(&mut cpu);
    assert_eq!(cpu.pc.r(), 0x0103);
    assert_eq!(cpu.sp.r(), 0xFFFE);
}

#[test]
fn rst_jumps_to_fixed_vector() {
    let mut cpu = machine_with_program(&[0xEF]);
    step(&mut cpu);
    assert_eq!(cpu.pc.r(), 0x0028);
    assert_eq!(cpu.sp.r(), 0xFFFC);
    assert_eq!(cpu.read_byte(0xFFFD), 0x01);
    assert_eq!(cpu.read_byte(0xFFFC), 0x01);
}

#[test]
fn frame_retires_the_cycle_budget() {
    // NOPs everywhere: one frame retires 70224 clock cycles within one
    // instruction.
    let mut cpu = machine_with_program(&[]);
    let set = InstructionSet::new();
    let n = cpu.run_frame(&set).expect("frame should complete");
    assert!(4 * n >= 70224);
    assert!(4 * n < 70224 + 32);
}

#[test]
fn interrupt_service_jumps_to_vector() {
    // Master enable on, V-blank enabled and pending: the next step
    // services it at 0x0040 for five machine cycles.
    let mut cpu = machine_with_program(&[0x00]);
    cpu.bus.write_byte(0xFFFF, 0x01);
    cpu.bus.interrupt_handler.enable();
    cpu.bus.write_byte(0xFF0F, 0x01);
    let c = step(&mut cpu);
    assert_eq!(c, 5);
    assert_eq!(cpu.pc.r(), 0x0040);
    assert_eq!(cpu.sp.r(), 0xFFFC);
    // The pending bit is consumed and the master enable dropped.
    assert_eq!(cpu.bus.read_byte(0xFF0F), 0x00);
    assert!(!cpu.bus.interrupt_handler.are_enabled());
    // The pushed return address is the interrupted PC.
    assert_eq!(cpu.read_byte(0xFFFC), 0x00);
    assert_eq!(cpu.read_byte(0xFFFD), 0x01);
}

#[test]
fn ei_takes_effect_one_instruction_late() {
    // EI; NOP; NOP: the master enable turns on only after the NOP that
    // follows EI has retired.
    let mut cpu = machine_with_program(&[0xFB, 0x00, 0x00]);
    step(&mut cpu);
    assert!(!cpu.bus.interrupt_handler.are_enabled());
    step(&mut cpu);
    assert!(cpu.bus.interrupt_handler.are_enabled());
}

#[test]
fn ldh_reaches_high_page() {
    // LD A,0x42; LDH (0x80),A; LDH A,(0x80) through high RAM.
    let mut cpu = machine_with_program(&[0x3E, 0x42, 0xE0, 0x80, 0x3E, 0x00, 0xF0, 0x80]);
    step(&mut cpu);
    step(&mut cpu);
    assert_eq!(cpu.read_byte(0xFF80), 0x42);
    step(&mut cpu);
    step(&mut cpu);
    assert_eq!(cpu.regs.a.r(), 0x42);
}

#[test]
fn ldi_advances_hl() {
    // LD HL,0xC000; LD A,0x31; LDI (HL+),A.
    let mut cpu = machine_with_program(&[0x21, 0x00, 0xC0, 0x3E, 0x31, 0x22]);
    step(&mut cpu);
    step(&mut cpu);
    step(&mut cpu);
    assert_eq!(cpu.read_byte(0xC000), 0x31);
    assert_eq!(cpu.regs.hl(), 0xC001);
}

#[test]
fn push_wraps_sp_at_zero() {
    // A push at SP = 0 silently wraps: the bytes land at the top of the
    // address space.
    let mut cpu = machine_with_program(&[0xC5]);
    cpu.sp = Register::new(0x0000);
    cpu.regs.bc_w(0x1234);
    step(&mut cpu);
    assert_eq!(cpu.sp.r(), 0xFFFE);
    assert_eq!(cpu.read_byte(0xFFFE), 0x34);
    // The high byte went to 0xFFFF, the interrupt enable register.
    assert_eq!(cpu.read_byte(0xFFFF), 0x12);
}

#[test]
fn fetch_wraps_pc_at_top() {
    // A fetch at 0xFFFF executes the interrupt enable register as an
    // opcode and wraps PC to 0x0000.
    let mut cpu = machine_with_program(&[]);
    cpu.pc = Register::new(0xFFFF);
    let c = step(&mut cpu);
    assert_eq!(c, 1);
    assert_eq!(cpu.pc.r(), 0x0000);
}

#[test]
fn rotate_left_through_carry() {
    // RL B: the old carry enters bit 0, the old bit 7 leaves into carry.
    let mut cpu = machine_with_program(&[0xCB, 0x10]);
    cpu.regs.b = Register::new(0x80);
    cpu.regs.f = Register::new(0x10);
    step(&mut cpu);
    assert_eq!(cpu.regs.b.r(), 0x01);
    assert_eq!(cpu.regs.f.r(), 0x10);
}

#[test]
fn rla_rotates_accumulator() {
    let mut cpu = machine_with_program(&[0x17]);
    cpu.regs.a = Register::new(0x40);
    step(&mut cpu);
    assert_eq!(cpu.regs.a.r(), 0x80);
    assert_eq!(cpu.regs.f.r(), 0x00);
}

#[test]
fn inc_dec_memory_operand() {
    // LD HL,0xC000; INC (HL); DEC (HL) acts on the byte behind HL.
    let mut cpu = machine_with_program(&[0x21, 0x00, 0xC0, 0x34, 0x35]);
    step(&mut cpu);
    step(&mut cpu);
    assert_eq!(cpu.read_byte(0xC000), 0x01);
    step(&mut cpu);
    assert_eq!(cpu.read_byte(0xC000), 0x00);
    assert_eq!(cpu.regs.f.r() & 0x80, 0x80);
}

#[test]
fn absolute_jumps() {
    // JP 0x0110; at 0x0110 LD HL,0x0200; JP (HL).
    let mut program = vec![0xC3, 0x10, 0x01];
    while program.len() < 0x10 {
        program.push(0x00);
    }
    program.extend_from_slice(&[0x21, 0x00, 0x02, 0xE9]);
    let mut cpu = machine_with_program(&program);
    let c = step(&mut cpu);
    assert_eq!(c, 3);
    assert_eq!(cpu.pc.r(), 0x0110);
    step(&mut cpu);
    let c2 = step(&mut cpu);
    assert_eq!(c2, 1);
    assert_eq!(cpu.pc.r(), 0x0200);
}

#[test]
fn di_cancels_enabled_interrupts_one_step_late() {
    let mut cpu = machine_with_program(&[0xF3, 0x00, 0x00]);
    cpu.bus.interrupt_handler.enable();
    step(&mut cpu);
    assert!(cpu.bus.interrupt_handler.are_enabled());
    step(&mut cpu);
    assert!(!cpu.bus.interrupt_handler.are_enabled());
}

#[test]
fn print_instr_names_tables() {
    let set = InstructionSet::new();
    assert_eq!(set.print_instr(0x00, false), "NOP");
    assert_eq!(set.print_instr(0xD3, false), "Unimp");
    assert_eq!(set.print_instr(0x76, false), "HALT");
    assert_eq!(set.print_instr(0x37, true), "SWAP x");
}

#[test]
fn full_register_load_row() {
    // LD B,C and LD C,(HL) from the uniform load block.
    let mut cpu = machine_with_program(&[0x41, 0x4E]);
    cpu.regs.c = Register::new(0x5A);
    cpu.regs.hl_w(0xC000);
    cpu.write_byte(0xC000, 0x77);
    step(&mut cpu);
    assert_eq!(cpu.regs.b.r(), 0x5A);
    step(&mut cpu);
    assert_eq!(cpu.regs.c.r(), 0x77);
}

#[test]
fn sbc_borrows_through_carry() {
    // LD A,0x10; SBC A,B with carry set: A = 0x10 - 1 - 1 = 0x0E.
    let mut cpu = machine_with_program(&[0x3E, 0x10, 0x98]);
    cpu.regs.b = Register::new(0x01);
    step(&mut cpu);
    cpu.regs.f = Register::new(0x10);
    step(&mut cpu);
    assert_eq!(cpu.regs.a.r(), 0x0E);
    assert_eq!(cpu.regs.f.r(), 0x60);
}

#[test]
fn daa_adjusts_bcd_addition() {
    // 0x15 + 0x27 = 0x3C; DAA corrects the sum to 0x42.
    let mut cpu = machine_with_program(&[0x3E, 0x15, 0xC6, 0x27, 0x27]);
    step(&mut cpu);
    step(&mut cpu);
    assert_eq!(cpu.regs.a.r(), 0x3C);
    step(&mut cpu);
    assert_eq!(cpu.regs.a.r(), 0x42);
    assert_eq!(cpu.regs.f.r() & 0x10, 0);
}

#[test]
fn conditional_absolute_jump() {
    // JP NZ,0x0200 with Z clear jumps; with Z set it falls through.
    let mut taken = machine_with_program(&[0xC2, 0x00, 0x02]);
    let ct = step(&mut taken);
    assert_eq!(taken.pc.r(), 0x0200);
    assert_eq!(ct, 4);
    let mut untaken = machine_with_program(&[0xC2, 0x00, 0x02]);
    untaken.regs.f = Register::new(0x80);
    let cu = step(&mut untaken);
    assert_eq!(untaken.pc.r(), 0x0103);
    assert_eq!(cu, 3);
}

#[test]
fn conditional_return_pops_only_when_taken() {
    // RET Z with Z set pops the return address; untaken leaves SP alone.
    let mut cpu = machine_with_program(&[0xC8]);
    cpu.sp = Register::new(0xFFFC);
    cpu.write_byte(0xFFFC, 0x34);
    cpu.write_byte(0xFFFD, 0x12);
    cpu.regs.f = Register::new(0x80);
    let c = step(&mut cpu);
    assert_eq!(c, 5);
    assert_eq!(cpu.pc.r(), 0x1234);
    assert_eq!(cpu.sp.r(), 0xFFFE);
    let mut cpu2 = machine_with_program(&[0xC8]);
    cpu2.sp = Register::new(0xFFFC);
    let c2 = step(&mut cpu2);
    assert_eq!(c2, 2);
    assert_eq!(cpu2.pc.r(), 0x0101);
    assert_eq!(cpu2.sp.r(), 0xFFFC);
}

#[test]
fn reti_returns_and_enables_at_once() {
    let mut cpu = machine_with_program(&[0xD9]);
    cpu.sp = Register::new(0xFFFC);
    cpu.write_byte(0xFFFC, 0x00);
    cpu.write_byte(0xFFFD, 0x02);
    step(&mut cpu);
    assert_eq!(cpu.pc.r(), 0x0200);
    assert_eq!(cpu.sp.r(), 0xFFFE);
    assert!(cpu.bus.interrupt_handler.are_enabled());
}

#[test]
fn circular_rotates_and_shifts() {
    // RLCA wraps bit 7 into bit 0; SRL B shifts zero into bit 7.
    let mut cpu = machine_with_program(&[0x07, 0xCB, 0x38]);
    cpu.regs.a = Register::new(0x81);
    cpu.regs.b = Register::new(0x81);
    step(&mut cpu);
    assert_eq!(cpu.regs.a.r(), 0x03);
    assert_eq!(cpu.regs.f.r(), 0x10);
    step(&mut cpu);
    assert_eq!(cpu.regs.b.r(), 0x40);
    assert_eq!(cpu.regs.f.r(), 0x10);
}

#[test]
fn set_and_res_restore_a_register_bit() {
    // SET 3,B then RES 3,B restores the byte whose bit was clear.
    let mut cpu = machine_with_program(&[0xCB, 0xD8, 0xCB, 0x98]);
    cpu.regs.b = Register::new(0x42);
    step(&mut cpu);
    assert_eq!(cpu.regs.b.r(), 0x4A);
    step(&mut cpu);
    assert_eq!(cpu.regs.b.r(), 0x42);
}

#[test]
fn add_hl_sets_high_carries() {
    // ADD HL,BC: 0x0FFF + 0x0001 carries out of bit 11 only.
    let mut cpu = machine_with_program(&[0x09]);
    cpu.regs.hl_w(0x0FFF);
    cpu.regs.bc_w(0x0001);
    cpu.regs.f = Register::new(0x80);
    step(&mut cpu);
    assert_eq!(cpu.regs.hl(), 0x1000);
    // Z is kept, N cleared, H set, C clear.
    assert_eq!(cpu.regs.f.r(), 0xA0);
}

#[test]
fn stack_pointer_transfers() {
    // LD SP,HL and LD (nn),SP.
    let mut cpu = machine_with_program(&[0xF9, 0x08, 0x00, 0xC0]);
    cpu.regs.hl_w(0xD123);
    step(&mut cpu);
    assert_eq!(cpu.sp.r(), 0xD123);
    step(&mut cpu);
    assert_eq!(cpu.read_byte(0xC000), 0x23);
    assert_eq!(cpu.read_byte(0xC001), 0xD1);
}

#[test]
fn add_sp_signed_offset() {
    // ADD SP,-2 and LD HL,SP+4.
    let mut cpu = machine_with_program(&[0xE8, 0xFE, 0xF8, 0x04]);
    cpu.sp = Register::new(0xFFF0);
    step(&mut cpu);
    assert_eq!(cpu.sp.r(), 0xFFEE);
    step(&mut cpu);
    assert_eq!(cpu.regs.hl(), 0xFFF2);
}

#[test]
fn halt_waits_for_a_pending_interrupt() {
    // HALT busy-waits on the same address until an enabled interrupt is
    // pending, then falls through.
    let mut cpu = machine_with_program(&[0x76, 0x00]);
    cpu.bus.write_byte(0xFFFF, 0x01);
    step(&mut cpu);
    assert_eq!(cpu.pc.r(), 0x0100);
    step(&mut cpu);
    assert_eq!(cpu.pc.r(), 0x0100);
    // Post the V-blank: the halt completes and PC moves on.
    cpu.bus.write_byte(0xFF0F, 0x01);
    step(&mut cpu);
    assert_eq!(cpu.pc.r(), 0x0101);
}

#[test]
fn dispatch_tables_cover_the_instruction_set() {
    // Every primary opcode decodes except STOP, the prefix byte itself
    // (dispatched to the second table), and the eleven encodings the
    // processor never defined; the bit-prefixed table is total.
    let set = InstructionSet::new();
    let holes = [
        0x10u8, 0xCB, 0xD3, 0xDB, 0xDD, 0xE3, 0xE4, 0xEB, 0xEC, 0xED, 0xF4, 0xFC, 0xFD,
    ];
    for op in 0..=255u8 {
        let expect = !holes.contains(&op);
        assert_eq!(set.is_implemented(op, false), expect, "opcode {:02X}", op);
        assert!(set.is_implemented(op, true), "prefixed opcode {:02X}", op);
        if op == 255 {
            break;
        }
    }
}
