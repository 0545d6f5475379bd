//! Tile data: 384 tiles of 16 bytes, eight row pairs of (plane 0, plane 1),
//! and the pixel decode helpers.

use vstd::prelude::*;

verus! {

use crate::memory_region::MemoryRegion;

pub const TILE_NUMBER: usize = 384;

pub const TILE_DATA_START: u16 = 0x8000;
pub const TILE_DATA_END: u16 = 0x97FF;

/// One 8x8 tile: eight rows of (plane 0 byte, plane 1 byte).
pub type Tile = [[u8; 2]; 8];

/// The 2-bit colour index of column `x` in a row given by its two planes.
/// Bit 7 is the leftmost pixel; plane 1 supplies the high bit.
pub open spec fn spec_row_pixel(plane0: u8, plane1: u8, x: u8) -> u8 {
    (((if plane1 & (1u8 << ((7 - x) as u8)) != 0 {
        2u8
    } else {
        0u8
    }) + (if plane0 & (1u8 << ((7 - x) as u8)) != 0 {
        1u8
    } else {
        0u8
    })) as u8)
}

/// The byte backing store of all tile rows.
pub struct TileSet {
    pub data: Vec<u8>,
}

impl TileSet {
    /// All tile bytes cleared.
    pub fn new() -> (r: Self)
        ensures
            r.region_wf(),
            forall|i: int| 0 <= i < 0x1800 ==> r.data@[i] == 0u8,
    {
        let mut data: Vec<u8> = Vec::new();
        let mut k: usize = 0;
        while k < 0x1800
            invariant
                k <= 0x1800,
                data@.len() == k,
                forall|i: int| 0 <= i < k ==> data@[i] == 0u8,
            decreases 0x1800 - k,
        {
            data.push(0u8);
            k = k + 1;
        }
        TileSet { data }
    }

    /// The plane byte `j` of row `row` of tile `tile_index`.
    pub open spec fn spec_tile_byte(&self, tile_index: int, row: int, j: int) -> u8 {
        self.data@[tile_index * 16 + row * 2 + j]
    }

    /// The 2-bit colour index at `(line, x)` of the given tile.
    pub open spec fn spec_tile_pixel(&self, tile_index: int, line: u8, x: u8) -> u8 {
        spec_row_pixel(
            self.spec_tile_byte(tile_index, line as int, 0),
            self.spec_tile_byte(tile_index, line as int, 1),
            x,
        )
    }

    /// Decodes the colour index of column `pixel` in row `line` of a tile
    /// copied out with `get_tile`.
    pub fn get_pixel(&self, tile: &Tile, line: u8, pixel: u8) -> (r: u8)
        requires
            line < 8,
            pixel < 8,
        ensures
            r == spec_row_pixel(tile@[line as int]@[0], tile@[line as int]@[1], pixel),
            r < 4,
    {
        let row = tile[line as usize];
        let hibit: u8 = if row[1] & (1u8 << (7 - pixel)) != 0 {
            2
        } else {
            0
        };
        let lobit: u8 = if row[0] & (1u8 << (7 - pixel)) != 0 {
            1
        } else {
            0
        };
        hibit + lobit
    }

    /// Copies the 16 bytes of the tile containing `addr` into a tile value.
    pub fn get_tile(&self, addr: u16) -> (r: Tile)
        requires
            self.region_wf(),
            self.spec_contains(addr),
        ensures
            forall|row: int, j: int|
                0 <= row < 8 && 0 <= j < 2 ==> #[trigger] r@[row]@[j] == self.spec_tile_byte(
                    (addr - TILE_DATA_START) / 16,
                    row,
                    j,
                ),
    {
        self.tile_at_index(((addr - TILE_DATA_START) / 16) as usize)
    }

    /// Copies the 16 bytes of tile `tile_index` into a tile value.
    pub fn tile_at_index(&self, tile_index: usize) -> (r: Tile)
        requires
            self.region_wf(),
            tile_index < TILE_NUMBER,
        ensures
            forall|row: int, j: int|
                0 <= row < 8 && 0 <= j < 2 ==> #[trigger] r@[row]@[j] == self.spec_tile_byte(
                    tile_index as int,
                    row,
                    j,
                ),
    {
        let b = tile_index * 16;
        [
            [self.data[b], self.data[b + 1]],
            [self.data[b + 2], self.data[b + 3]],
            [self.data[b + 4], self.data[b + 5]],
            [self.data[b + 6], self.data[b + 7]],
            [self.data[b + 8], self.data[b + 9]],
            [self.data[b + 10], self.data[b + 11]],
            [self.data[b + 12], self.data[b + 13]],
            [self.data[b + 14], self.data[b + 15]],
        ]
    }

    /// The first address of the tile data.
    pub fn start(&self) -> (r: u16)
        ensures
            r == TILE_DATA_START,
    {
        TILE_DATA_START
    }

    /// The last address of the tile data.
    pub fn end(&self) -> (r: u16)
        ensures
            r == TILE_DATA_END,
    {
        TILE_DATA_END
    }
}

impl MemoryRegion for TileSet {
    open spec fn region_wf(&self) -> bool {
        self.data@.len() == 0x1800
    }

    open spec fn spec_contains(&self, addr: u16) -> bool {
        TILE_DATA_START <= addr <= TILE_DATA_END
    }

    open spec fn spec_read(&self, addr: u16) -> u8 {
        self.data@[addr - TILE_DATA_START]
    }

    open spec fn write_rel(pre: Self, addr: u16, val: u8, post: Self) -> bool {
        post.data@ == pre.data@.update(addr - TILE_DATA_START, val)
    }

    fn in_region(&self, addr: u16) -> (r: bool) {
        addr >= TILE_DATA_START && addr <= TILE_DATA_END
    }

    fn read_byte(&self, addr: u16) -> (r: u8) {
        self.data[(addr - TILE_DATA_START) as usize]
    }

    fn write_byte(&mut self, addr: u16, val: u8) {
        let i: usize = (addr - TILE_DATA_START) as usize;
        self.data.set(i, val);
    }
}

} // verus!
