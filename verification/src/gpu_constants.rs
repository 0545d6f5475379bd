//! Addresses, timing figures and status bits of the pixel pipeline.

use vstd::prelude::*;

verus! {

pub const TILE_NUMBER: usize = 384;

pub const SPRITE_OAM_START: u16 = 0xFE00;
pub const SPRITE_OAM_END: u16 = 0xFE9F;

pub const VRAM_START: u16 = 0x8000;
pub const VRAM_END: u16 = 0x9FFF;

pub const TILE_MAPS_START: u16 = 0x9800;
pub const TILE_MAPS_END: u16 = 0x9FFF;

pub const TILE_MAP_0_START: u16 = 0x9800;
pub const TILE_MAP_1_START: u16 = 0x9C00;

pub const TILE_DATA_START: u16 = 0x8000;
pub const TILE_DATA_END: u16 = 0x97FF;

pub const LCD_CONTROL_ADDR: u16 = 0xFF40;
pub const LCD_STATUS_ADDR: u16 = 0xFF41;
pub const SCROLL_Y_ADDR: u16 = 0xFF42;
pub const SCROLL_X_ADDR: u16 = 0xFF43;
pub const LY_COORD_ADDR: u16 = 0xFF44;
pub const LYC_COMPARE_ADDR: u16 = 0xFF45;
pub const DMA_START_ADDR: u16 = 0xFF46;
pub const BG_PALETTE_ADDR: u16 = 0xFF47;
pub const OBJECT_PALETTE_1_ADDR: u16 = 0xFF48;
pub const OBJECT_PALETTE_2_ADDR: u16 = 0xFF49;
pub const WINDOW_Y_ADDR: u16 = 0xFF4A;
pub const WINDOW_X_ADDR: u16 = 0xFF4B;

pub const CYCLES_PER_LINE: u32 = 456;
pub const HBLANK_CYCLES: u32 = 204;
pub const VRAM_CYCLES: u32 = 172;
pub const OAM_CYCLES: u32 = 80;
pub const VBLANK_CYCLES: u32 = 4560;

/// The first scanline of the vertical blank.
pub const VBLANK_START_LINE: u8 = 144;
/// The number of scanlines per frame; LY wraps from 153 back to 0.
pub const LINES_PER_FRAME: u8 = 154;

pub const SCREEN_WIDTH: usize = 160;
pub const SCREEN_HEIGHT: usize = 144;

/// LCD control bits.
pub const B_LCD_DISPLAY_ENABLED: u8 = 7;
pub const B_BG_WIN_TILE_DATA_SELECT: u8 = 4;
pub const B_BG_TILE_MAP_SELECT: u8 = 3;

/// LCD status bits.
pub const B_LYC_COINCIDENCE_INTERRUPT: u8 = 6;
pub const B_OAM_INTERRUPT: u8 = 5;
pub const B_VBLANK_INTERRUPT: u8 = 4;
pub const B_HBLANK_INTERRUPT: u8 = 3;
pub const B_LYC_COINCIDENCE_FLAG: u8 = 2;
pub const B_LCDC_STATUS_1_FLAG: u8 = 1;
pub const B_LCDC_STATUS_0_FLAG: u8 = 0;

} // verus!
