use rustikgb::bus::BUS;
use rustikgb::cartridge::{Cartridge, CartridgeType};
use rustikgb::cpu::CPU;
use rustikgb::instructions::InstructionSet;
use rustikgb::joypad::Button;
use rustikgb::memory_region::MemoryRegion;
use rustikgb::debugger::Debugger;

#[test]
fn joypad_wake_posts_pad_interrupt() {
    // Buttons selected on a cold machine: pressing A pulls bit 0 low on
    // the next read and posts one pad interrupt; posting needs neither
    // the master enable nor the IE bit.
    let rom = vec![0u8; 0x8000];
    let cart = Cartridge::new(&rom);
    let mut bus = BUS::new(vec![0u8; 0x100], cart);
    bus.write_byte(0xFF00, 0x10);
    bus.joypad.process_press(Button::A);
    bus.step(4);
    assert_eq!(bus.read_byte(0xFF00) & 0x01, 0x00);
    assert_eq!(bus.read_byte(0xFF0F), 0x10);
    // Releasing the key raises the line again and posts nothing more.
    bus.write_byte(0xFF0F, 0x00);
    bus.joypad.process_release(Button::A);
    bus.step(4);
    assert_eq!(bus.read_byte(0xFF00) & 0x01, 0x01);
    assert_eq!(bus.read_byte(0xFF0F), 0x00);
}

#[test]
fn joypad_selector_switches_nibbles() {
    let rom = vec![0u8; 0x8000];
    let cart = Cartridge::new(&rom);
    let mut bus = BUS::new(vec![0u8; 0x100], cart);
    bus.joypad.process_press(Button::Down);
    // Directions selected: Down is bit 3, active low.
    bus.write_byte(0xFF00, 0x20);
    assert_eq!(bus.read_byte(0xFF00) & 0x0F, 0b0111);
    // Buttons selected: no button is down, all four lines high.
    bus.write_byte(0xFF00, 0x10);
    assert_eq!(bus.read_byte(0xFF00) & 0x0F, 0b1111);
}

#[test]
fn cartridge_header_decodes() {
    let mut rom = vec![0u8; 0x8000];
    let title = b"TETRIS";
    for (i, b) in title.iter().enumerate() {
        rom[0x0134 + i] = *b;
    }
    rom[0x0147] = 0x00;
    rom[0x0100] = 0x00;
    rom[0x0101] = 0xC3;
    let cart = Cartridge::new(&rom);
    assert_eq!(cart.header.game_title, b"TETRIS".to_vec());
    assert_eq!(cart.header.cartridge_type, CartridgeType::ROM_ONLY);
    assert_eq!(cart.header.entry_point, [0x0000u16, 0x00C3]);
    assert_eq!(cart.header.nintendo_graphic.len(), 48);
}

#[test]
fn cartridge_header_rejects_unknown_type() {
    let mut rom = vec![0u8; 0x8000];
    rom[0x0147] = 0x13;
    let cart = Cartridge::new(&rom);
    assert_eq!(cart.header.cartridge_type, CartridgeType::UNKNOWN);
}

#[test]
fn malformed_title_truncates_to_empty() {
    let mut rom = vec![0u8; 0x8000];
    rom[0x0134] = 0xC3;
    rom[0x0135] = b'A';
    let cart = Cartridge::new(&rom);
    assert_eq!(cart.header.game_title, Vec::<u8>::new());
}

#[test]
fn cartridge_reads_image_bytes() {
    let mut rom = vec![0u8; 0x8000];
    rom[0x1234] = 0x77;
    rom[0x1235] = 0x88;
    let cart = Cartridge::new(&rom);
    assert_eq!(cart.read_byte(0x1234), 0x77);
    assert_eq!(cart.read_word(0x1234), 0x8877);
    assert!(cart.in_region(0x7FFF));
    assert!(!cart.in_region(0x8000));
}

#[test]
fn boot_rom_handoff() {
    // A boot image that loads the documented register state, then writes
    // 0x01 to the latch with its final instruction, handing control to
    // the cartridge at 0x0100.
    let mut boot = vec![0u8; 0x100];
    let program: [u8; 0x1B] = [
        0x31, 0x82, 0xFF, // LD SP,0xFF82
        0x3E, 0x01, // LD A,0x01
        0xE0, 0x81, // LDH (0x81),A
        0x3E, 0xB0, // LD A,0xB0
        0xE0, 0x80, // LDH (0x80),A
        0x31, 0x80, 0xFF, // LD SP,0xFF80
        0xF1, // POP AF
        0x31, 0xFE, 0xFF, // LD SP,0xFFFE
        0x01, 0x13, 0x00, // LD BC,0x0013
        0x11, 0xD8, 0x00, // LD DE,0x00D8
        0x21, 0x4D, 0x01, // LD HL,0x014D
    ];
    for (i, b) in program.iter().enumerate() {
        boot[i] = *b;
    }
    // NOP padding up to the final latch write at 0x00FE.
    boot[0xFE] = 0xE0;
    boot[0xFF] = 0x50;

    let rom = vec![0u8; 0x8000];
    let cart = Cartridge::new(&rom);
    let bus = BUS::new(boot, cart);
    let mut cpu = CPU::new(bus);
    let set = InstructionSet::new();
    let mut guard = 0;
    while cpu.bus.io_registers.boot_rom_enabled() {
        cpu.step_instruction(&set).expect("boot program should run");
        guard += 1;
        assert!(guard < 1000, "boot program did not hand off");
    }
    assert_eq!(cpu.pc.r(), 0x0100);
    assert_eq!(cpu.regs.a.r(), 0x01);
    assert_eq!(cpu.regs.f.r(), 0xB0);
    assert_eq!(cpu.regs.bc(), 0x0013);
    assert_eq!(cpu.regs.de(), 0x00D8);
    assert_eq!(cpu.regs.hl(), 0x014D);
    assert_eq!(cpu.sp.r(), 0xFFFE);
    assert!(!cpu.bus.io_registers.boot_rom_enabled());
}

#[test]
fn debugger_breakpoints() {
    let mut d = Debugger::new();
    assert!(!d.should_stop(0x0100));
    d.add_breakpoint(0x0100);
    assert!(d.has_breakpoint(0x0100));
    assert!(d.should_stop(0x0100));
    assert!(!d.should_stop(0x0101));
    d.enter_debug_mode();
    assert!(d.should_stop(0x0101));
}
