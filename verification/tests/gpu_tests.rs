use rustikgb::bus::BUS;
use rustikgb::cartridge::Cartridge;
use rustikgb::memory_region::MemoryRegion;
use rustikgb::tile_set::TileSet;

fn test_bus() -> BUS {
    let rom = vec![0u8; 0x8000];
    let cart = Cartridge::new(&rom);
    BUS::new(vec![0u8; 0x100], cart)
}

fn run_cycles(bus: &mut BUS, cycles: u32) {
    let mut left = cycles;
    while left > 0 {
        let step = if left >= 4 { 4 } else { left };
        bus.step(step);
        left -= step;
    }
}

#[test]
fn vblank_fires_at_line_144() {
    // LCD on, master enable set, V-blank enabled, STAT enables clear:
    // after exactly 144 scanlines of cycles the V-blank is pending once
    // and LY reads 144.
    let mut bus = test_bus();
    bus.write_byte(0xFF40, 0x80);
    bus.write_byte(0xFFFF, 0x01);
    bus.interrupt_handler.enable();
    run_cycles(&mut bus, 144 * 456 - 4);
    assert_eq!(bus.read_byte(0xFF0F), 0x00);
    run_cycles(&mut bus, 4);
    assert_eq!(bus.read_byte(0xFF44), 144);
    assert_eq!(bus.read_byte(0xFF0F), 0x01);
}

#[test]
fn ly_wraps_after_line_153() {
    let mut bus = test_bus();
    bus.write_byte(0xFF40, 0x80);
    // One line shy of the full frame: LY sits on the last line.
    run_cycles(&mut bus, 153 * 456);
    assert_eq!(bus.read_byte(0xFF44), 153);
    // The next line boundary wraps straight to 0, never reaching 154.
    run_cycles(&mut bus, 456);
    assert_eq!(bus.read_byte(0xFF44), 0);
}

#[test]
fn frame_is_70224_cycles() {
    let mut bus = test_bus();
    run_cycles(&mut bus, 70224);
    assert_eq!(bus.read_byte(0xFF44), 0);
    // The mode machine is back at the OAM scan of line 0.
    assert_eq!(bus.read_byte(0xFF41) & 0x03, 0x02);
}

#[test]
fn stat_mode_bits_track_the_scanline() {
    let mut bus = test_bus();
    // Fresh machine sits in OAM scan.
    run_cycles(&mut bus, 80);
    assert_eq!(bus.read_byte(0xFF41) & 0x03, 0x03);
    run_cycles(&mut bus, 172);
    assert_eq!(bus.read_byte(0xFF41) & 0x03, 0x00);
    run_cycles(&mut bus, 204);
    assert_eq!(bus.read_byte(0xFF41) & 0x03, 0x02);
    assert_eq!(bus.read_byte(0xFF44), 1);
}

#[test]
fn ly_write_clears_counter() {
    let mut bus = test_bus();
    run_cycles(&mut bus, 456 * 3);
    assert_eq!(bus.read_byte(0xFF44), 3);
    bus.write_byte(0xFF44, 0x57);
    assert_eq!(bus.read_byte(0xFF44), 0);
}

#[test]
fn stat_write_keeps_read_only_bits() {
    let mut bus = test_bus();
    // Enter mode 3 so the low bits are nonzero.
    run_cycles(&mut bus, 84);
    let mode = bus.read_byte(0xFF41) & 0x07;
    bus.write_byte(0xFF41, 0xFF);
    assert_eq!(bus.read_byte(0xFF41), 0xF8 | mode);
}

#[test]
fn lyc_coincidence_sets_flag() {
    let mut bus = test_bus();
    bus.write_byte(0xFF45, 2);
    run_cycles(&mut bus, 456 * 2);
    assert_eq!(bus.read_byte(0xFF44), 2);
    assert!(bus.read_byte(0xFF41) & 0x04 != 0);
    run_cycles(&mut bus, 456);
    assert!(bus.read_byte(0xFF41) & 0x04 == 0);
}

#[test]
fn background_row_renders_through_palette() {
    let mut bus = test_bus();
    // Tile 1: first row plane 0 = 0x80 -> colour index 1 at column 0.
    bus.write_byte(0x8010, 0x80);
    // Map cell (0, 0) of the first map names tile 1.
    bus.write_byte(0x9800, 0x01);
    // Unsigned tile addressing, identity background palette.
    bus.write_byte(0xFF40, 0x90);
    bus.write_byte(0xFF47, 0b11100100);
    // Run to the H-blank of line 0, where the line is rendered.
    run_cycles(&mut bus, 80 + 172);
    assert_eq!(bus.gpu.framebuffer[0], 1);
    assert_eq!(bus.gpu.framebuffer[1], 0);
}

#[test]
fn background_palette_remaps_shades() {
    let mut bus = test_bus();
    bus.write_byte(0x8010, 0x80);
    bus.write_byte(0x9800, 0x01);
    bus.write_byte(0xFF40, 0x90);
    // Palette sends index 1 to shade 3.
    bus.write_byte(0xFF47, 0b0000_1100);
    run_cycles(&mut bus, 80 + 172);
    assert_eq!(bus.gpu.framebuffer[0], 3);
}

#[test]
fn signed_tile_addressing_uses_the_middle_table() {
    let mut bus = test_bus();
    // With the alternate table the index byte 0x80 is read as -128 and
    // resolves to tile 128, whose data sits at 0x8800.
    bus.write_byte(0x8800, 0x80);
    bus.write_byte(0x9800, 0x80);
    bus.write_byte(0xFF40, 0x80);
    bus.write_byte(0xFF47, 0b11100100);
    run_cycles(&mut bus, 80 + 172);
    assert_eq!(bus.gpu.framebuffer[0], 1);
}

#[test]
fn sprite_renders_over_background() {
    let mut bus = test_bus();
    // Sprite 0 at screen origin, tile 2, no flips, palette 0.
    bus.write_byte(0xFE00, 16);
    bus.write_byte(0xFE01, 8);
    bus.write_byte(0xFE02, 2);
    bus.write_byte(0xFE03, 0x00);
    // Tile 2 row 0: plane 1 = 0x80 -> colour index 2 at column 0.
    bus.write_byte(0x8021, 0x80);
    // Object palette 0 maps index 2 to shade 3.
    bus.write_byte(0xFF48, 0b0011_0000);
    bus.write_byte(0xFF40, 0x90);
    run_cycles(&mut bus, 80 + 172);
    assert_eq!(bus.gpu.framebuffer[0], 3);
    // A transparent sprite pixel leaves the background shade.
    assert_eq!(bus.gpu.framebuffer[1], 0);
}

#[test]
fn tile_set_decodes_pixels() {
    let mut tiles = TileSet::new();
    // Tile 0 row 0: plane 0 = 0xFF, plane 1 = 0x0F: left half index 1,
    // right half index 3.
    tiles.write_byte(0x8000, 0xFF);
    tiles.write_byte(0x8001, 0x0F);
    let tile = tiles.get_tile(0x8000);
    assert_eq!(tiles.get_pixel(&tile, 0, 0), 1);
    assert_eq!(tiles.get_pixel(&tile, 0, 7), 3);
}

#[test]
fn vblank_posts_even_with_master_disabled() {
    // Posting records the event in IF regardless of the enable gates;
    // only servicing is gated.
    let mut bus = test_bus();
    run_cycles(&mut bus, 144 * 456);
    assert_eq!(bus.read_byte(0xFF0F) & 0x01, 0x01);
}
