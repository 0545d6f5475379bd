use rustikgb::bus::BUS;
use rustikgb::cartridge::Cartridge;
use rustikgb::memory_region::{MemoryRegion, BitAccess};
use rustikgb::plain_ram::PLAIN_RAM;

fn blank_rom() -> Vec<u8> {
    vec![0u8; 0x8000]
}

fn test_bus() -> BUS {
    let rom = blank_rom();
    let cart = Cartridge::new(&rom);
    BUS::new(vec![0u8; 0x100], cart)
}

#[test]
fn plain_ram_read_write() {
    let mut ram = PLAIN_RAM::new(0xC000, 0xDFFF);
    assert!(ram.in_region(0xC000));
    assert!(ram.in_region(0xDFFF));
    assert!(!ram.in_region(0xE000));
    ram.write_byte(0xC123, 0x42);
    assert_eq!(ram.read_byte(0xC123), 0x42);
    assert_eq!(ram.read_byte(0xC122), 0x00);
}

#[test]
fn plain_ram_bits_and_chunk() {
    let mut ram = PLAIN_RAM::new(0x0000, 0x00FF);
    ram.set_bit(0x0010, 3, true);
    assert!(ram.read_bit(0x0010, 3));
    assert_eq!(ram.read_byte(0x0010), 0x08);
    ram.write_byte(0x0011, 0xAA);
    let chunk = ram.load_chunk(0x0010, 2);
    assert_eq!(chunk, vec![0x08, 0xAA]);
}

#[test]
fn echo_ram_mirrors_work_ram() {
    // A write in work RAM reads back through the echo window.
    let mut bus = test_bus();
    bus.write_byte(0xC000, 0x7E);
    assert_eq!(bus.read_byte(0xE000), 0x7E);
    bus.write_byte(0xDDFF, 0x11);
    assert_eq!(bus.read_byte(0xFDFF), 0x11);
    // And the other way round.
    bus.write_byte(0xE234, 0x99);
    assert_eq!(bus.read_byte(0xC234), 0x99);
}

#[test]
fn unused_addresses_read_ff() {
    let bus = test_bus();
    assert_eq!(bus.read_byte(0xFEA0), 0xFF);
    assert_eq!(bus.read_byte(0xFECD), 0xFF);
    assert_eq!(bus.read_byte(0xFEFF), 0xFF);
    // Absent cartridge RAM also reads open-bus.
    assert_eq!(bus.read_byte(0xA000), 0xFF);
}

#[test]
fn oam_roundtrip_all_offsets() {
    let mut bus = test_bus();
    let mut a: u32 = 0xFE00;
    let mut v: u8 = 1;
    while a <= 0xFE9F {
        bus.write_byte(a as u16, v);
        assert_eq!(bus.read_byte(a as u16), v);
        v = v.wrapping_add(37);
        a += 1;
    }
}

#[test]
fn oam_attribute_byte_is_bit_exact() {
    let mut bus = test_bus();
    // Offset 3 of a sprite record holds the attribute byte, low nibble
    // included.
    bus.write_byte(0xFE03, 0xAF);
    assert_eq!(bus.read_byte(0xFE03), 0xAF);
}

#[test]
fn word_write_wraps_at_top_of_address_space() {
    let mut bus = test_bus();
    // The high byte of a word write at 0xFFFF lands on address 0x0000,
    // which the read-only cartridge discards.
    bus.write_word(0xFFFF, 0x12EF);
    assert_eq!(bus.read_byte(0xFFFF), 0xEF);
    // High RAM keeps both bytes of an ordinary word write.
    bus.write_word(0xFF80, 0xBEEF);
    assert_eq!(bus.read_byte(0xFF80), 0xEF);
    assert_eq!(bus.read_byte(0xFF81), 0xBE);
    assert_eq!(bus.read_word(0xFF80), 0xBEEF);
}

#[test]
fn dma_copies_exactly_160_bytes() {
    let mut bus = test_bus();
    let mut i: u16 = 0;
    while i < 160 {
        bus.write_byte(0xC000 + i, (i as u8).wrapping_mul(3).wrapping_add(7));
        i += 1;
    }
    // The byte just past the copied window, and one unused address.
    bus.write_byte(0xC0A0, 0x55);
    bus.write_byte(0xFF46, 0xC0);
    let mut k: u16 = 0;
    while k < 160 {
        assert_eq!(bus.read_byte(0xFE00 + k), (k as u8).wrapping_mul(3).wrapping_add(7));
        k += 1;
    }
    // Byte 161 of the target region is not touched: 0xFEA0 stays open-bus.
    assert_eq!(bus.read_byte(0xFEA0), 0xFF);
    // The source is unchanged.
    assert_eq!(bus.read_byte(0xC09F), (159u8).wrapping_mul(3).wrapping_add(7));
    assert_eq!(bus.read_byte(0xC0A0), 0x55);
}

#[test]
fn boot_overlay_serves_low_page_until_latched() {
    let mut boot = vec![0u8; 0x100];
    boot[0x00] = 0xAB;
    let mut rom = blank_rom();
    rom[0x00] = 0xCD;
    let cart = Cartridge::new(&rom);
    let mut bus = BUS::new(boot, cart);
    assert_eq!(bus.read_byte(0x0000), 0xAB);
    bus.write_byte(0xFF50, 0x01);
    assert_eq!(bus.read_byte(0x0000), 0xCD);
    // The latch is permanent: writing zero afterwards does not bring the
    // overlay back.
    bus.write_byte(0xFF50, 0x00);
    assert_eq!(bus.read_byte(0x0000), 0xCD);
    assert_eq!(bus.read_byte(0xFF50), 0x01);
}

#[test]
fn cartridge_is_read_only() {
    let mut bus = test_bus();
    bus.write_byte(0x1234, 0x99);
    assert_eq!(bus.read_byte(0x1234), 0x00);
}

#[test]
fn interrupt_registers_are_byte_exact() {
    let mut bus = test_bus();
    bus.write_byte(0xFFFF, 0x1F);
    assert_eq!(bus.read_byte(0xFFFF), 0x1F);
    bus.write_byte(0xFF0F, 0x05);
    assert_eq!(bus.read_byte(0xFF0F), 0x05);
}
