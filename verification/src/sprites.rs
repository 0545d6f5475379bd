//! The sprite attribute table: 40 sprites of four bytes each, parsed on
//! write and reconstituted bit-for-bit on read.

use vstd::prelude::*;

verus! {

use crate::memory_region::MemoryRegion;

pub const SPRITE_OAM_START: u16 = 0xFE00;
pub const SPRITE_OAM_END: u16 = 0xFE9F;

/// One sprite record: position, tile index, and the attribute bits.
#[derive(Clone, Copy, PartialEq, Eq, Structural, Debug)]
pub struct Sprite {
    pub coord_y: u8,
    pub coord_x: u8,
    pub data_tile: u8,
    pub priority: bool,
    pub flip_x: bool,
    pub flip_y: bool,
    pub palette_0: bool,
    /// The low nibble of the attribute byte, kept so reads reconstruct
    /// the written byte exactly.
    pub attr_low: u8,
}

impl Sprite {
    /// A cleared sprite record.
    pub fn new() -> (r: Self)
        ensures
            r == (Sprite {
                coord_y: 0u8,
                coord_x: 0u8,
                data_tile: 0u8,
                priority: false,
                flip_x: false,
                flip_y: false,
                palette_0: false,
                attr_low: 0u8,
            }),
    {
        Sprite {
            coord_y: 0,
            coord_x: 0,
            data_tile: 0,
            priority: false,
            flip_x: false,
            flip_y: false,
            palette_0: false,
            attr_low: 0,
        }
    }

    /// The attribute byte this record reads back as.
    pub open spec fn spec_attr(self) -> u8 {
        ((if self.priority {
            0x80u8
        } else {
            0u8
        }) + (if self.flip_y {
            0x40u8
        } else {
            0u8
        }) + (if self.flip_x {
            0x20u8
        } else {
            0u8
        }) + (if self.palette_0 {
            0x10u8
        } else {
            0u8
        }) + (self.attr_low & 0x0F)) as u8
    }

    /// The record obtained by parsing the attribute byte `val`.
    pub open spec fn spec_with_attr(self, val: u8) -> Sprite {
        Sprite {
            priority: val & 0x80 != 0,
            flip_y: val & 0x40 != 0,
            flip_x: val & 0x20 != 0,
            palette_0: val & 0x10 != 0,
            attr_low: val & 0x0F,
            ..self
        }
    }

    /// True when the sprite's vertical span covers scanline `ly`.
    pub open spec fn spec_covers_line(self, ly: u8) -> bool {
        self.coord_y >= 16 && self.coord_y - 16 <= ly < self.coord_y - 16 + 8
    }

    /// True when the sprite's vertical span covers scanline `ly`.
    pub fn in_valid_position(&self, ly: u8) -> (r: bool)
        ensures
            r == self.spec_covers_line(ly),
    {
        self.coord_y >= 16 && self.coord_y - 16 <= ly && ly < self.coord_y - 16 + 8
    }
}

/// Parsing an attribute byte and reading it back returns the byte.
pub proof fn lemma_attr_roundtrip(s: Sprite, val: u8)
    ensures
        s.spec_with_attr(val).spec_attr() == val,
{
    let p = s.spec_with_attr(val);
    assert(((if val & 0x80 != 0 {
        0x80u8
    } else {
        0u8
    }) + (if val & 0x40 != 0 {
        0x40u8
    } else {
        0u8
    }) + (if val & 0x20 != 0 {
        0x20u8
    } else {
        0u8
    }) + (if val & 0x10 != 0 {
        0x10u8
    } else {
        0u8
    }) + ((val & 0x0F) & 0x0F)) as u8 == val) by (bit_vector);
}

/// The 40-sprite attribute table.
pub struct SpriteOAM {
    pub sprites: Vec<Sprite>,
}

/// What a byte write at offset `off` of a sprite record changes.
pub open spec fn spec_sprite_write(s: Sprite, off: u16, val: u8) -> Sprite {
    if off == 0 {
        Sprite { coord_y: val, ..s }
    } else if off == 1 {
        Sprite { coord_x: val, ..s }
    } else if off == 2 {
        Sprite { data_tile: val, ..s }
    } else {
        s.spec_with_attr(val)
    }
}

/// What a byte read at offset `off` of a sprite record returns.
pub open spec fn spec_sprite_byte(s: Sprite, off: u16) -> u8 {
    if off == 0 {
        s.coord_y
    } else if off == 1 {
        s.coord_x
    } else if off == 2 {
        s.data_tile
    } else {
        s.spec_attr()
    }
}

/// The cleared sprite record.
pub open spec fn spec_sprite_zero() -> Sprite {
    Sprite {
        coord_y: 0u8,
        coord_x: 0u8,
        data_tile: 0u8,
        priority: false,
        flip_x: false,
        flip_y: false,
        palette_0: false,
        attr_low: 0u8,
    }
}

impl SpriteOAM {
    /// Forty cleared sprites.
    pub fn new() -> (r: Self)
        ensures
            r.region_wf(),
            forall|i: int| 0 <= i < 40 ==> r.sprites@[i] == spec_sprite_zero(),
    {
        let zero = Sprite::new();
        let mut sprites: Vec<Sprite> = Vec::new();
        let mut k: usize = 0;
        while k < 40
            invariant
                k <= 40,
                sprites@.len() == k,
                forall|i: int| 0 <= i < k ==> sprites@[i] == zero,
            decreases 40 - k,
        {
            sprites.push(zero);
            k = k + 1;
        }
        SpriteOAM { sprites }
    }

    /// Which sprite record the address falls in.
    pub fn sprite_num_from_addr(&self, addr: u16) -> (r: u8)
        requires
            self.spec_contains(addr),
        ensures
            r == (addr - SPRITE_OAM_START) / 4,
            r < 40,
    {
        ((addr - SPRITE_OAM_START) / 4) as u8
    }

    /// Which byte of its sprite record the address selects.
    pub fn sprite_byte_offset(&self, addr: u16) -> (r: u8)
        requires
            self.spec_contains(addr),
        ensures
            r == (addr - SPRITE_OAM_START) % 4,
    {
        ((addr - SPRITE_OAM_START) % 4) as u8
    }

    /// The first address of the table.
    pub fn start(&self) -> (r: u16)
        ensures
            r == SPRITE_OAM_START,
    {
        SPRITE_OAM_START
    }

    /// The last address of the table.
    pub fn end(&self) -> (r: u16)
        ensures
            r == SPRITE_OAM_END,
    {
        SPRITE_OAM_END
    }
}

impl MemoryRegion for SpriteOAM {
    open spec fn region_wf(&self) -> bool {
        self.sprites@.len() == 40
    }

    open spec fn spec_contains(&self, addr: u16) -> bool {
        SPRITE_OAM_START <= addr <= SPRITE_OAM_END
    }

    open spec fn spec_read(&self, addr: u16) -> u8 {
        spec_sprite_byte(
            self.sprites@[(addr - SPRITE_OAM_START) / 4],
            ((addr - SPRITE_OAM_START) % 4) as u16,
        )
    }

    open spec fn write_rel(pre: Self, addr: u16, val: u8, post: Self) -> bool {
        post.sprites@ == pre.sprites@.update(
            (addr - SPRITE_OAM_START) / 4,
            spec_sprite_write(
                pre.sprites@[(addr - SPRITE_OAM_START) / 4],
                ((addr - SPRITE_OAM_START) % 4) as u16,
                val,
            ),
        )
    }

    fn in_region(&self, addr: u16) -> (r: bool) {
        addr >= SPRITE_OAM_START && addr <= SPRITE_OAM_END
    }

    fn read_byte(&self, addr: u16) -> (r: u8) {
        let sprite_index = self.sprite_num_from_addr(addr) as usize;
        let sprite_offset = self.sprite_byte_offset(addr);
        let s = self.sprites[sprite_index];
        match sprite_offset {
            0 => s.coord_y,
            1 => s.coord_x,
            2 => s.data_tile,
            _ => {
                proof {
                    let a = s.attr_low;
                    assert(a & 0x0F <= 0x0F) by (bit_vector);
                }
                ((if s.priority {
                    0x80u8
                } else {
                    0u8
                }) + (if s.flip_y {
                    0x40u8
                } else {
                    0u8
                }) + (if s.flip_x {
                    0x20u8
                } else {
                    0u8
                }) + (if s.palette_0 {
                    0x10u8
                } else {
                    0u8
                }) + (s.attr_low & 0x0F))
            },
        }
    }

    fn write_byte(&mut self, addr: u16, val: u8) {
        let sprite_index = self.sprite_num_from_addr(addr) as usize;
        let sprite_offset = self.sprite_byte_offset(addr);
        let mut s = self.sprites[sprite_index];
        match sprite_offset {
            0 => { s.coord_y = val },
            1 => { s.coord_x = val },
            2 => { s.data_tile = val },
            _ => {
                s.priority = val & 0x80 != 0;
                s.flip_y = val & 0x40 != 0;
                s.flip_x = val & 0x20 != 0;
                s.palette_0 = val & 0x10 != 0;
                s.attr_low = val & 0x0F;
            },
        }
        self.sprites.set(sprite_index, s);
    }
}

/// Writing any table byte and reading the same address returns the
/// written byte.
pub proof fn lemma_oam_roundtrip(pre: SpriteOAM, post: SpriteOAM, addr: u16, val: u8)
    requires
        pre.region_wf(),
        pre.spec_contains(addr),
        SpriteOAM::write_rel(pre, addr, val, post),
    ensures
        post.spec_read(addr) == val,
{
    let idx = (addr - SPRITE_OAM_START) / 4;
    let off = ((addr - SPRITE_OAM_START) % 4) as u16;
    let s = pre.sprites@[idx];
    if off == 3 {
        lemma_attr_roundtrip(s, val);
    }
}

} // verus!
