//! The pixel pipeline: the per-scanline mode state machine, the V-blank,
//! STAT and coincidence interrupts, and the background and sprite passes
//! that fill the framebuffer.

use vstd::prelude::*;

verus! {

use crate::bits::{byte_add, byte_add_of};
use crate::gpu_constants::{
    TILE_MAPS_START, TILE_MAPS_END, TILE_MAP_0_START, TILE_MAP_1_START, TILE_DATA_START,
    SPRITE_OAM_START, LCD_CONTROL_ADDR, LCD_STATUS_ADDR, SCROLL_Y_ADDR, SCROLL_X_ADDR,
    LY_COORD_ADDR, LYC_COMPARE_ADDR, DMA_START_ADDR, BG_PALETTE_ADDR, OBJECT_PALETTE_1_ADDR,
    OBJECT_PALETTE_2_ADDR, WINDOW_Y_ADDR, WINDOW_X_ADDR, CYCLES_PER_LINE, HBLANK_CYCLES,
    VRAM_CYCLES, OAM_CYCLES, VBLANK_START_LINE, LINES_PER_FRAME, SCREEN_WIDTH, SCREEN_HEIGHT,
    B_BG_WIN_TILE_DATA_SELECT, B_BG_TILE_MAP_SELECT, B_LYC_COINCIDENCE_INTERRUPT, B_OAM_INTERRUPT,
    B_VBLANK_INTERRUPT, B_HBLANK_INTERRUPT, B_LYC_COINCIDENCE_FLAG, B_LCDC_STATUS_1_FLAG,
    B_LCDC_STATUS_0_FLAG,
};
use crate::interrupts::{Interrupts, InterruptType};
use crate::memory_region::MemoryRegion;
use crate::plain_ram::{PLAIN_RAM, zero_bytes};
use crate::registers::{Register, spec_bit8, spec_set_bit8};
use crate::sprites::{Sprite, SpriteOAM};
use crate::tile_set::TileSet;

/// The four modes of one scanline.
#[allow(non_camel_case_types)]
#[derive(Clone, Copy, PartialEq, Eq, Structural, Debug)]
pub enum LCDCMode {
    HBLANK,
    VBLANK,
    OAM,
    VRAM,
}

impl LCDCMode {
    /// The two STAT mode bits of this mode.
    pub open spec fn spec_bits(self) -> u8 {
        match self {
            LCDCMode::HBLANK => 0,
            LCDCMode::VBLANK => 1,
            LCDCMode::OAM => 2,
            LCDCMode::VRAM => 3,
        }
    }
}

/// The scalar state of the pixel pipeline after one clock advance: mode,
/// its cycle counter, the line counter, the STAT register, and which
/// events the advance produced.
pub struct GpuStepOutcome {
    pub mode: LCDCMode,
    pub mode_cycles: u32,
    pub ly: u8,
    pub stat: u8,
    pub vblank_fired: bool,
    pub rendered: bool,
}

/// The STAT register with its two mode bits replaced by those of `m`.
pub open spec fn spec_stat_with_mode(stat: u8, m: LCDCMode) -> u8 {
    spec_set_bit8(
        spec_set_bit8(stat, B_LCDC_STATUS_0_FLAG, m.spec_bits() & 0b01 > 0),
        B_LCDC_STATUS_1_FLAG,
        m.spec_bits() & 0b10 > 0,
    )
}

/// The next line counter value; LY wraps from 153 back to 0.
pub open spec fn spec_ly_next(ly: u8) -> u8 {
    (((ly + 1) % 154) as u8)
}

/// The STAT register with the coincidence flag set to `on`.
pub open spec fn spec_stat_coincidence(stat: u8, on: bool) -> u8 {
    spec_set_bit8(stat, B_LYC_COINCIDENCE_FLAG, on)
}

/// The pixel pipeline with its video memories, control registers and
/// framebuffer of 2-bit shades.
pub struct GPU {
    pub tile_data: TileSet,
    pub tile_maps: PLAIN_RAM,
    pub sprite_oam: SpriteOAM,
    pub lcdc_mode: LCDCMode,
    pub mode_cycles: u32,
    pub lcd_control: Register<u8>,
    pub lcd_status: Register<u8>,
    pub scroll_y: Register<u8>,
    pub scroll_x: Register<u8>,
    pub ly_coord: Register<u8>,
    pub lyc_compare: Register<u8>,
    pub bg_palette: Register<u8>,
    pub obj_palette_1: Register<u8>,
    pub obj_palette_2: Register<u8>,
    pub window_y: Register<u8>,
    pub window_x: Register<u8>,
    /// One 2-bit shade per pixel, rows of 160, 144 rows.
    pub framebuffer: Vec<u8>,
}

/// The shade a 2-bit colour index maps to through a palette register.
pub open spec fn spec_palette_shade(palette: u8, ci: u8) -> u8 {
    (palette >> ((2 * ci) as u8)) & 3
}

/// Executable palette lookup.
pub fn palette_shade(palette: u8, ci: u8) -> (r: u8)
    requires
        ci < 4,
    ensures
        r == spec_palette_shade(palette, ci),
{
    (palette >> (2 * ci)) & 3
}

impl GPU {
    /// The video memories are sized and the framebuffer holds one byte
    /// per screen pixel.
    pub open spec fn mem_wf(&self) -> bool {
        &&& self.tile_data.region_wf()
        &&& self.tile_maps.region_wf()
        &&& self.tile_maps.start == TILE_MAPS_START
        &&& self.tile_maps.end == TILE_MAPS_END
        &&& self.sprite_oam.region_wf()
        &&& self.framebuffer@.len() == SCREEN_WIDTH * SCREEN_HEIGHT
    }

    /// The internal invariant: sized video memories and a bounded mode
    /// cycle counter.
    pub open spec fn gpu_wf(&self) -> bool {
        &&& self.mem_wf()
        &&& self.mode_cycles <= 519
    }

    /// Everything cleared: OAM-scan mode at line 0, a blank framebuffer.
    pub fn new() -> (r: Self)
        ensures
            r.gpu_wf(),
            r.lcdc_mode == LCDCMode::OAM,
            r.mode_cycles == 0,
            r.lcd_control.val == 0,
            r.lcd_status.val == 0,
            r.scroll_y.val == 0,
            r.scroll_x.val == 0,
            r.ly_coord.val == 0,
            r.lyc_compare.val == 0,
            r.bg_palette.val == 0,
            r.obj_palette_1.val == 0,
            r.obj_palette_2.val == 0,
            r.window_y.val == 0,
            r.window_x.val == 0,
            forall|i: int| 0 <= i < 0x1800 ==> r.tile_data.data@[i] == 0u8,
            forall|a: u16| r.tile_maps.spec_contains(a) ==> r.tile_maps.spec_read(a) == 0u8,
            forall|i: int|
                0 <= i < 40 ==> r.sprite_oam.sprites@[i] == crate::sprites::spec_sprite_zero(),
            forall|i: int| 0 <= i < 160 * 144 ==> r.framebuffer@[i] == 0u8,
    {
        GPU {
            tile_data: TileSet::new(),
            tile_maps: PLAIN_RAM::new(TILE_MAPS_START, TILE_MAPS_END),
            sprite_oam: SpriteOAM::new(),
            lcdc_mode: LCDCMode::OAM,
            mode_cycles: 0,
            lcd_control: Register::new(0),
            lcd_status: Register::new(0),
            scroll_y: Register::new(0),
            scroll_x: Register::new(0),
            ly_coord: Register::new(0),
            lyc_compare: Register::new(0),
            bg_palette: Register::new(0),
            obj_palette_1: Register::new(0),
            obj_palette_2: Register::new(0),
            window_y: Register::new(0),
            window_x: Register::new(0),
            framebuffer: zero_bytes(SCREEN_WIDTH * SCREEN_HEIGHT),
        }
    }

    /// The scalar outcome of advancing the mode machine by `cycles`:
    /// at most one mode transition is taken per advance.
    pub open spec fn spec_outcome(&self, cycles: u32) -> GpuStepOutcome {
        let m = (self.mode_cycles + cycles) as u32;
        let ly = self.ly_coord.val;
        let lyc = self.lyc_compare.val;
        let stat = self.lcd_status.val;
        match self.lcdc_mode {
            LCDCMode::HBLANK => {
                if m >= HBLANK_CYCLES {
                    let ly2 = spec_ly_next(ly);
                    let stat2 = spec_stat_coincidence(stat, ly2 == lyc);
                    if ly2 == VBLANK_START_LINE {
                        GpuStepOutcome {
                            mode: LCDCMode::VBLANK,
                            mode_cycles: (m - HBLANK_CYCLES) as u32,
                            ly: ly2,
                            stat: spec_stat_with_mode(stat2, LCDCMode::VBLANK),
                            vblank_fired: true,
                            rendered: false,
                        }
                    } else {
                        GpuStepOutcome {
                            mode: LCDCMode::OAM,
                            mode_cycles: (m - HBLANK_CYCLES) as u32,
                            ly: ly2,
                            stat: spec_stat_with_mode(stat2, LCDCMode::OAM),
                            vblank_fired: false,
                            rendered: false,
                        }
                    }
                } else {
                    GpuStepOutcome {
                        mode: LCDCMode::HBLANK,
                        mode_cycles: m,
                        ly,
                        stat,
                        vblank_fired: false,
                        rendered: false,
                    }
                }
            },
            LCDCMode::VBLANK => {
                if m >= CYCLES_PER_LINE {
                    let ly2 = spec_ly_next(ly);
                    let stat2 = spec_stat_coincidence(stat, ly2 == lyc);
                    if ly2 == 0 {
                        GpuStepOutcome {
                            mode: LCDCMode::OAM,
                            mode_cycles: (m - CYCLES_PER_LINE) as u32,
                            ly: ly2,
                            stat: spec_stat_with_mode(stat2, LCDCMode::OAM),
                            vblank_fired: false,
                            rendered: false,
                        }
                    } else {
                        GpuStepOutcome {
                            mode: LCDCMode::VBLANK,
                            mode_cycles: (m - CYCLES_PER_LINE) as u32,
                            ly: ly2,
                            stat: stat2,
                            vblank_fired: false,
                            rendered: false,
                        }
                    }
                } else {
                    GpuStepOutcome {
                        mode: LCDCMode::VBLANK,
                        mode_cycles: m,
                        ly,
                        stat,
                        vblank_fired: false,
                        rendered: false,
                    }
                }
            },
            LCDCMode::OAM => {
                if m >= OAM_CYCLES {
                    GpuStepOutcome {
                        mode: LCDCMode::VRAM,
                        mode_cycles: (m - OAM_CYCLES) as u32,
                        ly,
                        stat: spec_stat_with_mode(stat, LCDCMode::VRAM),
                        vblank_fired: false,
                        rendered: false,
                    }
                } else {
                    GpuStepOutcome {
                        mode: LCDCMode::OAM,
                        mode_cycles: m,
                        ly,
                        stat,
                        vblank_fired: false,
                        rendered: false,
                    }
                }
            },
            LCDCMode::VRAM => {
                if m >= VRAM_CYCLES {
                    GpuStepOutcome {
                        mode: LCDCMode::HBLANK,
                        mode_cycles: (m - VRAM_CYCLES) as u32,
                        ly,
                        stat: spec_stat_with_mode(stat, LCDCMode::HBLANK),
                        vblank_fired: false,
                        rendered: ly < 144,
                    }
                } else {
                    GpuStepOutcome {
                        mode: LCDCMode::VRAM,
                        mode_cycles: m,
                        ly,
                        stat,
                        vblank_fired: false,
                        rendered: false,
                    }
                }
            },
        }
    }

    /// True when the new mode and STAT enable bits owe an LCD-STAT
    /// interrupt after this advance.
    pub open spec fn spec_lcdc_due(mode: LCDCMode, stat: u8) -> bool {
        ||| (mode == LCDCMode::HBLANK && spec_bit8(stat, B_HBLANK_INTERRUPT))
        ||| (mode == LCDCMode::VBLANK && spec_bit8(stat, B_VBLANK_INTERRUPT))
        ||| (mode == LCDCMode::OAM && spec_bit8(stat, B_OAM_INTERRUPT))
        ||| (spec_bit8(stat, B_LYC_COINCIDENCE_INTERRUPT) && spec_bit8(
            stat,
            B_LYC_COINCIDENCE_FLAG,
        ))
    }

    /// The pending register after the advance: first the V-blank post,
    /// then the LCD-STAT post, each gated by the controller.
    pub open spec fn spec_flags_outcome(&self, ih: Interrupts, cycles: u32) -> u8 {
        let oc = self.spec_outcome(cycles);
        let f1 = if oc.vblank_fired {
            Interrupts::spec_flags_after_set(ih.interrupt_flags.val, InterruptType::VBlank)
        } else {
            ih.interrupt_flags.val
        };
        if Self::spec_lcdc_due(oc.mode, oc.stat) {
            Interrupts::spec_flags_after_set(f1, InterruptType::LCDC)
        } else {
            f1
        }
    }

    /// The colour index of background pixel `(y, x)`: the active tile map
    /// cell, resolved through the active tile data table (with the signed
    /// index quirk), then the in-tile row and column.
    pub open spec fn spec_bg_index(&self, y: u8, x: u8) -> u8 {
        let sum = byte_add(self.scroll_y.val, y);
        let row = (sum % 8) as u8;
        let colsum = byte_add(self.scroll_x.val, x);
        let col = (colsum % 8) as u8;
        let map_base: int = if spec_bit8(self.lcd_control.val, B_BG_TILE_MAP_SELECT) {
            TILE_MAP_1_START as int
        } else {
            TILE_MAP_0_START as int
        };
        let map_addr = (map_base + (sum / 8) * 32 + colsum / 8) as u16;
        let idx = self.tile_maps.spec_read(map_addr);
        let tnum: int = if spec_bit8(self.lcd_control.val, B_BG_WIN_TILE_DATA_SELECT) {
            idx as int
        } else if idx < 128 {
            256 + idx
        } else {
            idx as int
        };
        self.tile_data.spec_tile_pixel(tnum, row, col)
    }

    /// The shade of background pixel `(y, x)` through the BG palette.
    pub open spec fn spec_bg_shade(&self, y: u8, x: u8) -> u8 {
        spec_palette_shade(self.bg_palette.val, self.spec_bg_index(y, x))
    }

    /// The background row of scanline `y`.
    pub open spec fn spec_bg_row(&self, y: u8) -> Seq<u8> {
        Seq::new(160, |x: int| self.spec_bg_shade(y, x as u8))
    }

    /// The shade of a sprite pixel through its object palette.
    pub open spec fn spec_obj_shade(&self, s: Sprite, ci: u8) -> u8 {
        if s.palette_0 {
            spec_palette_shade(self.obj_palette_2.val, ci)
        } else {
            spec_palette_shade(self.obj_palette_1.val, ci)
        }
    }

    /// The colour index of pixel `k` of sprite `s` on scanline `ly`,
    /// with the two flips applied.
    pub open spec fn spec_sprite_pixel_index(&self, s: Sprite, ly: u8, k: u8) -> u8 {
        let line = (ly - (s.coord_y - 16)) as u8;
        let row = if s.flip_y {
            ((7 - line) as u8)
        } else {
            line
        };
        let col = if s.flip_x {
            ((7 - k) as u8)
        } else {
            k
        };
        self.tile_data.spec_tile_pixel(s.data_tile as int, row, col)
    }

    /// One sprite pixel applied to a row: transparent pixels, pixels off
    /// the screen, and background-priority pixels over non-zero background
    /// leave the row alone.
    pub open spec fn spec_apply_one(&self, ly: u8, row: Seq<u8>, s: Sprite, k: u8) -> Seq<u8> {
        let ci = self.spec_sprite_pixel_index(s, ly, k);
        let x = s.coord_x - 8 + k;
        if ci != 0 && 0 <= x < 160 && (!s.priority || self.spec_bg_index(ly, x as u8) == 0) {
            row.update(x as int, self.spec_obj_shade(s, ci))
        } else {
            row
        }
    }

    /// Sprite pixels `k ..= 7` applied to a row in order.
    pub open spec fn spec_apply_from(&self, ly: u8, row: Seq<u8>, s: Sprite, k: int) -> Seq<u8>
        decreases 8 - k,
    {
        if k < 0 || k >= 8 {
            row
        } else {
            self.spec_apply_from(ly, self.spec_apply_one(ly, row, s, k as u8), s, k + 1)
        }
    }

    /// Sprites `i ..= 39` applied to a row in OAM order, drawing only those
    /// whose vertical span covers `ly`, and at most `10 - drawn` of them.
    pub open spec fn spec_overlay_from(&self, ly: u8, row: Seq<u8>, i: int, drawn: int) -> Seq<u8>
        decreases 40 - i,
    {
        if i < 0 || i >= 40 || drawn >= 10 {
            row
        } else {
            let s = self.sprite_oam.sprites@[i];
            if s.spec_covers_line(ly) {
                self.spec_overlay_from(ly, self.spec_apply_from(ly, row, s, 0), i + 1, drawn + 1)
            } else {
                self.spec_overlay_from(ly, row, i + 1, drawn)
            }
        }
    }

    /// The finished scanline `y`: the background row with the eligible
    /// sprites drawn over it.
    pub open spec fn spec_scanline(&self, y: u8) -> Seq<u8> {
        self.spec_overlay_from(y, self.spec_bg_row(y), 0, 0)
    }

    /// Everything but the mode machine scalars, the STAT register and the
    /// framebuffer is untouched.
    pub open spec fn step_frame_rel(pre: Self, post: Self) -> bool {
        &&& post.tile_data == pre.tile_data
        &&& post.tile_maps == pre.tile_maps
        &&& post.sprite_oam == pre.sprite_oam
        &&& post.lcd_control == pre.lcd_control
        &&& post.scroll_y == pre.scroll_y
        &&& post.scroll_x == pre.scroll_x
        &&& post.lyc_compare == pre.lyc_compare
        &&& post.bg_palette == pre.bg_palette
        &&& post.obj_palette_1 == pre.obj_palette_1
        &&& post.obj_palette_2 == pre.obj_palette_2
        &&& post.window_y == pre.window_y
        &&& post.window_x == pre.window_x
    }

    /// Executable background colour index at `(y, x)`.
    pub fn bg_index_at(&self, y: u8, x: u8) -> (r: u8)
        requires
            self.mem_wf(),
        ensures
            r == self.spec_bg_index(y, x),
            r < 4,
    {
        let sum = byte_add_of(self.scroll_y.r(), y);
        let row = sum % 8;
        let colsum = byte_add_of(self.scroll_x.r(), x);
        let col = colsum % 8;
        let map_base: u16 = if self.lcd_control.is_bit_set(B_BG_TILE_MAP_SELECT) {
            TILE_MAP_1_START
        } else {
            TILE_MAP_0_START
        };
        let map_addr = map_base + (sum / 8) as u16 * 32 + (colsum / 8) as u16;
        let idx = self.tile_maps.read_byte(map_addr);
        let tnum: usize = if self.lcd_control.is_bit_set(B_BG_WIN_TILE_DATA_SELECT) {
            idx as usize
        } else if idx < 128 {
            256 + idx as usize
        } else {
            idx as usize
        };
        let tile = self.tile_data.tile_at_index(tnum);
        self.tile_data.get_pixel(&tile, row, col)
    }

    /// Renders scanline `ly` into the framebuffer: the background pass,
    /// then the sprite pass.
    pub fn render_scan_line(&mut self)
        requires
            old(self).mem_wf(),
            old(self).ly_coord.val < 144,
        ensures
            final(self).mem_wf(),
            final(self).mode_cycles == old(self).mode_cycles,
            Self::step_frame_rel(*old(self), *final(self)),
            final(self).lcdc_mode == old(self).lcdc_mode,
            final(self).mode_cycles == old(self).mode_cycles,
            final(self).ly_coord == old(self).ly_coord,
            final(self).lcd_status == old(self).lcd_status,
            final(self).framebuffer@.len() == old(self).framebuffer@.len(),
            forall|j: int|
                0 <= j < 160 * 144 ==> final(self).framebuffer@[j] == if old(
                    self,
                ).ly_coord.val * 160 <= j < old(self).ly_coord.val * 160 + 160 {
                    old(self).spec_scanline(old(self).ly_coord.val)[j - old(self).ly_coord.val
                        * 160]
                } else {
                    old(self).framebuffer@[j]
                },
    {
        let ly = self.ly_coord.r();
        let ghost g = *self;

        // Background pass into a local row.
        let mut row: Vec<u8> = Vec::new();
        let mut x: usize = 0;
        while x < 160
            invariant
                *self == g,
                g.mem_wf(),
                ly == g.ly_coord.val,
                x <= 160,
                row@.len() == x,
                forall|i: int| 0 <= i < x ==> row@[i] == g.spec_bg_shade(ly, i as u8),
            decreases 160 - x,
        {
            let ci = self.bg_index_at(ly, x as u8);
            row.push(palette_shade(self.bg_palette.r(), ci));
            x = x + 1;
        }
        proof {
            assert(row@ =~= g.spec_bg_row(ly));
        }

        // Sprite pass over the row, first ten eligible sprites only.
        let mut i: usize = 0;
        let mut drawn: u8 = 0;
        while i < 40
            invariant
                *self == g,
                g.mem_wf(),
                ly == g.ly_coord.val,
                ly < 144,
                i <= 40,
                drawn <= 10,
                row@.len() == 160,
                g.spec_overlay_from(ly, row@, i as int, drawn as int) == g.spec_scanline(ly),
            decreases 40 - i,
        {
            let s = self.sprite_oam.sprites[i];
            if drawn < 10 && s.in_valid_position(ly) {
                let ghost row_in = row@;
                let mut k: u8 = 0;
                while k < 8
                    invariant
                        *self == g,
                        g.mem_wf(),
                        ly == g.ly_coord.val,
                        s == g.sprite_oam.sprites@[i as int],
                        s.spec_covers_line(ly),
                        k <= 8,
                        row@.len() == 160,
                        g.spec_apply_from(ly, row@, s, k as int) == g.spec_apply_from(
                            ly,
                            row_in,
                            s,
                            0,
                        ),
                    decreases 8 - k,
                {
                    let ci = self.sprite_pixel_index(&s, ly, k);
                    let sx = s.coord_x as u16 + k as u16;
                    if ci != 0 && sx >= 8 && sx - 8 < 160 {
                        let col = (sx - 8) as u8;
                        let draw = if s.priority {
                            self.bg_index_at(ly, col) == 0
                        } else {
                            true
                        };
                        if draw {
                            let shade = if s.palette_0 {
                                palette_shade(self.obj_palette_2.r(), ci)
                            } else {
                                palette_shade(self.obj_palette_1.r(), ci)
                            };
                            row.set((sx - 8) as usize, shade);
                        }
                    }
                    k = k + 1;
                }
                drawn = drawn + 1;
            }
            i = i + 1;
        }

        // Copy the finished row into the framebuffer.
        let base: usize = ly as usize * 160;
        let ghost fb0 = self.framebuffer@;
        let ghost done = row@;
        let mut x2: usize = 0;
        while x2 < 160
            invariant
                Self::step_frame_rel(g, *self),
                self.lcdc_mode == g.lcdc_mode,
                self.mode_cycles == g.mode_cycles,
                self.ly_coord == g.ly_coord,
                self.lcd_status == g.lcd_status,
                ly == g.ly_coord.val,
                ly < 144,
                base == ly * 160,
                row@ == done,
                row@.len() == 160,
                x2 <= 160,
                self.framebuffer@.len() == fb0.len(),
                fb0.len() == 160 * 144,
                forall|j: int|
                    0 <= j < 160 * 144 ==> self.framebuffer@[j] == if base <= j < base + x2 {
                        done[j - base]
                    } else {
                        fb0[j]
                    },
            decreases 160 - x2,
        {
            self.framebuffer.set(base + x2, row[x2]);
            x2 = x2 + 1;
        }
    }

    /// Executable sprite pixel decode.
    fn sprite_pixel_index(&self, s: &Sprite, ly: u8, k: u8) -> (r: u8)
        requires
            self.mem_wf(),
            s.spec_covers_line(ly),
            k < 8,
        ensures
            r == self.spec_sprite_pixel_index(*s, ly, k),
            r < 4,
    {
        let line = ly - (s.coord_y - 16);
        let row = if s.flip_y {
            7 - line
        } else {
            line
        };
        let col = if s.flip_x {
            7 - k
        } else {
            k
        };
        let tile = self.tile_data.tile_at_index(s.data_tile as usize);
        self.tile_data.get_pixel(&tile, row, col)
    }

    /// Raises the line counter, wrapping after line 153, and refreshes
    /// the LYC coincidence flag.
    pub fn increase_line(&mut self)
        ensures
            final(self).ly_coord.val == spec_ly_next(old(self).ly_coord.val),
            final(self).lcd_status.val == spec_stat_coincidence(
                old(self).lcd_status.val,
                spec_ly_next(old(self).ly_coord.val) == old(self).lyc_compare.val,
            ),
            Self::step_frame_rel(*old(self), *final(self)),
            final(self).lcdc_mode == old(self).lcdc_mode,
            final(self).mode_cycles == old(self).mode_cycles,
            final(self).framebuffer == old(self).framebuffer,
    {
        let line = ((self.ly_coord.r() as u16 + 1) % LINES_PER_FRAME as u16) as u8;
        self.ly_coord.w(line);
        let coincide = self.ly_coord.r() == self.lyc_compare.r();
        self.lcd_status.set_bit(B_LYC_COINCIDENCE_FLAG, coincide);
    }

    /// Switches mode, updates the STAT mode bits, and posts the V-blank
    /// interrupt when the new mode is the vertical blank.
    pub fn change_mode_and_interrupt(&mut self, target: LCDCMode, interrupt_handler: &mut Interrupts)
        ensures
            final(self).lcdc_mode == target,
            final(self).lcd_status.val == spec_stat_with_mode(old(self).lcd_status.val, target),
            Self::step_frame_rel(*old(self), *final(self)),
            final(self).mode_cycles == old(self).mode_cycles,
            final(self).ly_coord == old(self).ly_coord,
            final(self).framebuffer == old(self).framebuffer,
            final(interrupt_handler).interrupt_flags.val == if target == LCDCMode::VBLANK {
                Interrupts::spec_flags_after_set(
                    old(interrupt_handler).interrupt_flags.val,
                    InterruptType::VBlank,
                )
            } else {
                old(interrupt_handler).interrupt_flags.val
            },
            final(interrupt_handler).are_enabled == old(interrupt_handler).are_enabled,
            final(interrupt_handler).interrupt_enable == old(interrupt_handler).interrupt_enable,
            final(interrupt_handler).steps_before_change == old(
                interrupt_handler,
            ).steps_before_change,
            final(interrupt_handler).target_enable_state == old(
                interrupt_handler,
            ).target_enable_state,
    {
        self.lcdc_mode = target;
        let is_vblank = match target {
            LCDCMode::VBLANK => true,
            _ => false,
        };
        if is_vblank {
            interrupt_handler.set_interrupt(InterruptType::VBlank);
        }
        let mode: u8 = match target {
            LCDCMode::HBLANK => 0,
            LCDCMode::VBLANK => 1,
            LCDCMode::OAM => 2,
            LCDCMode::VRAM => 3,
        };
        self.lcd_status.set_bit(B_LCDC_STATUS_0_FLAG, (mode & 0b01) > 0);
        self.lcd_status.set_bit(B_LCDC_STATUS_1_FLAG, (mode & 0b10) > 0);
    }

    /// Posts the LCD-STAT interrupt owed by the current mode and the STAT
    /// enable bits, including the LYC coincidence case.
    pub fn generate_interrupts(&self, interrupt_handler: &mut Interrupts)
        ensures
            final(interrupt_handler).interrupt_flags.val == if Self::spec_lcdc_due(
                self.lcdc_mode,
                self.lcd_status.val,
            ) {
                Interrupts::spec_flags_after_set(
                    old(interrupt_handler).interrupt_flags.val,
                    InterruptType::LCDC,
                )
            } else {
                old(interrupt_handler).interrupt_flags.val
            },
            final(interrupt_handler).are_enabled == old(interrupt_handler).are_enabled,
            final(interrupt_handler).interrupt_enable == old(interrupt_handler).interrupt_enable,
            final(interrupt_handler).steps_before_change == old(
                interrupt_handler,
            ).steps_before_change,
            final(interrupt_handler).target_enable_state == old(
                interrupt_handler,
            ).target_enable_state,
    {
        let mode_due = match self.lcdc_mode {
            LCDCMode::HBLANK => self.lcd_status.is_bit_set(B_HBLANK_INTERRUPT),
            LCDCMode::VBLANK => self.lcd_status.is_bit_set(B_VBLANK_INTERRUPT),
            LCDCMode::OAM => self.lcd_status.is_bit_set(B_OAM_INTERRUPT),
            LCDCMode::VRAM => false,
        };
        let coincidence_due = self.lcd_status.is_bit_set(B_LYC_COINCIDENCE_INTERRUPT)
            && self.lcd_status.is_bit_set(B_LYC_COINCIDENCE_FLAG);
        if mode_due || coincidence_due {
            interrupt_handler.set_interrupt(InterruptType::LCDC);
        }
    }

    /// Advances the mode machine, rendering a scanline on the transition
    /// into H-blank and posting the V-blank interrupt on the transition
    /// into the vertical blank.
    pub fn update_mode(&mut self, cycles: u32, interrupt_handler: &mut Interrupts)
        requires
            old(self).gpu_wf(),
            cycles <= 63,
        ensures
            final(self).gpu_wf(),
            Self::step_frame_rel(*old(self), *final(self)),
            final(self).lcdc_mode == old(self).spec_outcome(cycles).mode,
            final(self).mode_cycles == old(self).spec_outcome(cycles).mode_cycles,
            final(self).ly_coord.val == old(self).spec_outcome(cycles).ly,
            final(self).lcd_status.val == old(self).spec_outcome(cycles).stat,
            final(interrupt_handler).interrupt_flags.val == if old(self).spec_outcome(
                cycles,
            ).vblank_fired {
                Interrupts::spec_flags_after_set(
                    old(interrupt_handler).interrupt_flags.val,
                    InterruptType::VBlank,
                )
            } else {
                old(interrupt_handler).interrupt_flags.val
            },
            final(interrupt_handler).are_enabled == old(interrupt_handler).are_enabled,
            final(interrupt_handler).interrupt_enable == old(interrupt_handler).interrupt_enable,
            final(interrupt_handler).steps_before_change == old(
                interrupt_handler,
            ).steps_before_change,
            final(interrupt_handler).target_enable_state == old(
                interrupt_handler,
            ).target_enable_state,
            final(self).framebuffer@.len() == old(self).framebuffer@.len(),
            forall|j: int|
                0 <= j < 160 * 144 ==> final(self).framebuffer@[j] == if old(self).spec_outcome(
                    cycles,
                ).rendered && old(self).ly_coord.val * 160 <= j < old(self).ly_coord.val * 160
                    + 160 {
                    old(self).spec_scanline(old(self).ly_coord.val)[j - old(self).ly_coord.val
                        * 160]
                } else {
                    old(self).framebuffer@[j]
                },
    {
        let m: u32 = self.mode_cycles + cycles;
        match self.lcdc_mode {
            LCDCMode::HBLANK => {
                if m >= HBLANK_CYCLES {
                    self.increase_line();
                    if self.ly_coord.r() == VBLANK_START_LINE {
                        self.change_mode_and_interrupt(LCDCMode::VBLANK, interrupt_handler);
                    } else {
                        self.change_mode_and_interrupt(LCDCMode::OAM, interrupt_handler);
                    }
                    self.mode_cycles = m - HBLANK_CYCLES;
                } else {
                    self.mode_cycles = m;
                }
            },
            LCDCMode::VBLANK => {
                if m >= CYCLES_PER_LINE {
                    self.increase_line();
                    if self.ly_coord.r() == 0 {
                        self.change_mode_and_interrupt(LCDCMode::OAM, interrupt_handler);
                    }
                    self.mode_cycles = m - CYCLES_PER_LINE;
                } else {
                    self.mode_cycles = m;
                }
            },
            LCDCMode::OAM => {
                if m >= OAM_CYCLES {
                    self.change_mode_and_interrupt(LCDCMode::VRAM, interrupt_handler);
                    self.mode_cycles = m - OAM_CYCLES;
                } else {
                    self.mode_cycles = m;
                }
            },
            LCDCMode::VRAM => {
                if m >= VRAM_CYCLES {
                    if self.ly_coord.r() < VBLANK_START_LINE {
                        self.render_scan_line();
                    }
                    self.change_mode_and_interrupt(LCDCMode::HBLANK, interrupt_handler);
                    self.mode_cycles = m - VRAM_CYCLES;
                } else {
                    self.mode_cycles = m;
                }
            },
        }
    }

    /// One clock advance of the pixel pipeline: the mode machine, then
    /// the STAT interrupt owed by the state it lands in.
    pub fn step(&mut self, cycles: u32, interrupt_handler: &mut Interrupts)
        requires
            old(self).gpu_wf(),
            cycles <= 63,
        ensures
            final(self).gpu_wf(),
            Self::step_frame_rel(*old(self), *final(self)),
            final(self).lcdc_mode == old(self).spec_outcome(cycles).mode,
            final(self).mode_cycles == old(self).spec_outcome(cycles).mode_cycles,
            final(self).ly_coord.val == old(self).spec_outcome(cycles).ly,
            final(self).lcd_status.val == old(self).spec_outcome(cycles).stat,
            final(interrupt_handler).interrupt_flags.val == old(self).spec_flags_outcome(
                *old(interrupt_handler),
                cycles,
            ),
            final(interrupt_handler).are_enabled == old(interrupt_handler).are_enabled,
            final(interrupt_handler).interrupt_enable == old(interrupt_handler).interrupt_enable,
            final(interrupt_handler).steps_before_change == old(
                interrupt_handler,
            ).steps_before_change,
            final(interrupt_handler).target_enable_state == old(
                interrupt_handler,
            ).target_enable_state,
            final(self).framebuffer@.len() == old(self).framebuffer@.len(),
            forall|j: int|
                0 <= j < 160 * 144 ==> final(self).framebuffer@[j] == if old(self).spec_outcome(
                    cycles,
                ).rendered && old(self).ly_coord.val * 160 <= j < old(self).ly_coord.val * 160
                    + 160 {
                    old(self).spec_scanline(old(self).ly_coord.val)[j - old(self).ly_coord.val
                        * 160]
                } else {
                    old(self).framebuffer@[j]
                },
    {
        self.update_mode(cycles, interrupt_handler);
        self.generate_interrupts(interrupt_handler);
    }
}

impl MemoryRegion for GPU {
    open spec fn region_wf(&self) -> bool {
        self.gpu_wf()
    }

    open spec fn spec_contains(&self, addr: u16) -> bool {
        ||| self.tile_data.spec_contains(addr)
        ||| self.tile_maps.spec_contains(addr)
        ||| self.sprite_oam.spec_contains(addr)
        ||| (LCD_CONTROL_ADDR <= addr <= WINDOW_X_ADDR && addr != DMA_START_ADDR)
    }

    open spec fn spec_read(&self, addr: u16) -> u8 {
        if self.tile_data.spec_contains(addr) {
            self.tile_data.spec_read(addr)
        } else if self.tile_maps.spec_contains(addr) {
            self.tile_maps.spec_read(addr)
        } else if self.sprite_oam.spec_contains(addr) {
            self.sprite_oam.spec_read(addr)
        } else if addr == LCD_CONTROL_ADDR {
            self.lcd_control.val
        } else if addr == LCD_STATUS_ADDR {
            self.lcd_status.val
        } else if addr == SCROLL_Y_ADDR {
            self.scroll_y.val
        } else if addr == SCROLL_X_ADDR {
            self.scroll_x.val
        } else if addr == LY_COORD_ADDR {
            self.ly_coord.val
        } else if addr == LYC_COMPARE_ADDR {
            self.lyc_compare.val
        } else if addr == BG_PALETTE_ADDR {
            self.bg_palette.val
        } else if addr == OBJECT_PALETTE_1_ADDR {
            self.obj_palette_1.val
        } else if addr == OBJECT_PALETTE_2_ADDR {
            self.obj_palette_2.val
        } else if addr == WINDOW_Y_ADDR {
            self.window_y.val
        } else {
            self.window_x.val
        }
    }

    /// Video memory writes land in the owning table; register writes are
    /// byte-exact except that the line counter clears and the three low
    /// STAT bits are read-only.
    open spec fn write_rel(pre: Self, addr: u16, val: u8, post: Self) -> bool {
        &&& post.tile_data.data@ == if pre.tile_data.spec_contains(addr) {
            pre.tile_data.data@.update(addr - TILE_DATA_START, val)
        } else {
            pre.tile_data.data@
        }
        &&& post.tile_maps.storage@ == if pre.tile_maps.spec_contains(addr) {
            pre.tile_maps.storage@.update(addr - TILE_MAPS_START, val)
        } else {
            pre.tile_maps.storage@
        }
        &&& post.tile_maps.start == pre.tile_maps.start
        &&& post.tile_maps.end == pre.tile_maps.end
        &&& post.sprite_oam.sprites@ == if pre.sprite_oam.spec_contains(addr) {
            pre.sprite_oam.sprites@.update(
                (addr - SPRITE_OAM_START) / 4,
                crate::sprites::spec_sprite_write(
                    pre.sprite_oam.sprites@[(addr - SPRITE_OAM_START) / 4],
                    ((addr - SPRITE_OAM_START) % 4) as u16,
                    val,
                ),
            )
        } else {
            pre.sprite_oam.sprites@
        }
        &&& post.lcd_control.val == if addr == LCD_CONTROL_ADDR {
            val
        } else {
            pre.lcd_control.val
        }
        &&& post.lcd_status.val == if addr == LCD_STATUS_ADDR {
            ((val & 0xF8) | (pre.lcd_status.val & 0x07)) as u8
        } else {
            pre.lcd_status.val
        }
        &&& post.scroll_y.val == if addr == SCROLL_Y_ADDR {
            val
        } else {
            pre.scroll_y.val
        }
        &&& post.scroll_x.val == if addr == SCROLL_X_ADDR {
            val
        } else {
            pre.scroll_x.val
        }
        &&& post.ly_coord.val == if addr == LY_COORD_ADDR {
            0u8
        } else {
            pre.ly_coord.val
        }
        &&& post.lyc_compare.val == if addr == LYC_COMPARE_ADDR {
            val
        } else {
            pre.lyc_compare.val
        }
        &&& post.bg_palette.val == if addr == BG_PALETTE_ADDR {
            val
        } else {
            pre.bg_palette.val
        }
        &&& post.obj_palette_1.val == if addr == OBJECT_PALETTE_1_ADDR {
            val
        } else {
            pre.obj_palette_1.val
        }
        &&& post.obj_palette_2.val == if addr == OBJECT_PALETTE_2_ADDR {
            val
        } else {
            pre.obj_palette_2.val
        }
        &&& post.window_y.val == if addr == WINDOW_Y_ADDR {
            val
        } else {
            pre.window_y.val
        }
        &&& post.window_x.val == if addr == WINDOW_X_ADDR {
            val
        } else {
            pre.window_x.val
        }
        &&& post.lcdc_mode == pre.lcdc_mode
        &&& post.mode_cycles == pre.mode_cycles
        &&& post.framebuffer == pre.framebuffer
    }

    fn in_region(&self, addr: u16) -> (r: bool) {
        self.tile_data.in_region(addr) || self.tile_maps.in_region(addr)
            || self.sprite_oam.in_region(addr) || (addr >= LCD_CONTROL_ADDR && addr
            <= WINDOW_X_ADDR && addr != DMA_START_ADDR)
    }

    fn read_byte(&self, addr: u16) -> (r: u8) {
        if self.tile_data.in_region(addr) {
            self.tile_data.read_byte(addr)
        } else if self.tile_maps.in_region(addr) {
            self.tile_maps.read_byte(addr)
        } else if self.sprite_oam.in_region(addr) {
            self.sprite_oam.read_byte(addr)
        } else if addr == LCD_CONTROL_ADDR {
            self.lcd_control.r()
        } else if addr == LCD_STATUS_ADDR {
            self.lcd_status.r()
        } else if addr == SCROLL_Y_ADDR {
            self.scroll_y.r()
        } else if addr == SCROLL_X_ADDR {
            self.scroll_x.r()
        } else if addr == LY_COORD_ADDR {
            self.ly_coord.r()
        } else if addr == LYC_COMPARE_ADDR {
            self.lyc_compare.r()
        } else if addr == BG_PALETTE_ADDR {
            self.bg_palette.r()
        } else if addr == OBJECT_PALETTE_1_ADDR {
            self.obj_palette_1.r()
        } else if addr == OBJECT_PALETTE_2_ADDR {
            self.obj_palette_2.r()
        } else if addr == WINDOW_Y_ADDR {
            self.window_y.r()
        } else {
            self.window_x.r()
        }
    }

    fn write_byte(&mut self, addr: u16, val: u8) {
        if self.tile_data.in_region(addr) {
            self.tile_data.write_byte(addr, val);
        } else if self.tile_maps.in_region(addr) {
            self.tile_maps.write_byte(addr, val);
        } else if self.sprite_oam.in_region(addr) {
            self.sprite_oam.write_byte(addr, val);
        } else if addr == LCD_CONTROL_ADDR {
            self.lcd_control.w(val);
        } else if addr == LCD_STATUS_ADDR {
            let kept = self.lcd_status.r() & 0x07;
            self.lcd_status.w((val & 0xF8) | kept);
        } else if addr == SCROLL_Y_ADDR {
            self.scroll_y.w(val);
        } else if addr == SCROLL_X_ADDR {
            self.scroll_x.w(val);
        } else if addr == LY_COORD_ADDR {
            self.ly_coord.w(0x00);
        } else if addr == LYC_COMPARE_ADDR {
            self.lyc_compare.w(val);
        } else if addr == BG_PALETTE_ADDR {
            self.bg_palette.w(val);
        } else if addr == OBJECT_PALETTE_1_ADDR {
            self.obj_palette_1.w(val);
        } else if addr == OBJECT_PALETTE_2_ADDR {
            self.obj_palette_2.w(val);
        } else if addr == WINDOW_Y_ADDR {
            self.window_y.w(val);
        } else {
            self.window_x.w(val);
        }
    }
}

/// The line counter always wraps from 153 back to 0 and never reaches
/// 154.
pub proof fn lemma_ly_wraps()
    ensures
        spec_ly_next(153) == 0,
        forall|ly: u8| #[trigger] spec_ly_next(ly) <= 153,
{
}

/// The V-blank interrupt fires exactly on the advance that carries the
/// line counter from 143 to 144, and on no other advance.
pub proof fn lemma_vblank_fires_once(g: GPU, cycles: u32)
    requires
        g.gpu_wf(),
        cycles <= 63,
    ensures
        g.spec_outcome(cycles).vblank_fired <==> (g.lcdc_mode == LCDCMode::HBLANK
            && g.mode_cycles + cycles >= HBLANK_CYCLES && spec_ly_next(g.ly_coord.val) == 144),
{
}

} // verus!
