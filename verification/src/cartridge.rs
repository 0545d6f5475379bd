//! The cartridge: a read-only image of at least 32 KiB, with the fixed
//! header decoded at construction.

use vstd::prelude::*;

verus! {

use crate::memory_region::MemoryRegion;

/// The cartridge hardware type named by the header byte at `0x0147`.
/// Only the plain ROM layout is supported.
#[allow(non_camel_case_types)]
#[derive(Clone, Copy, PartialEq, Eq, Structural, Debug)]
pub enum CartridgeType {
    ROM_ONLY,
    UNKNOWN,
}

/// The cartridge type encoded by the header byte.
pub open spec fn spec_cartridge_type(b: u8) -> CartridgeType {
    if b == 0 {
        CartridgeType::ROM_ONLY
    } else {
        CartridgeType::UNKNOWN
    }
}

/// True when every byte of `s` is ASCII.
pub open spec fn all_ascii(s: Seq<u8>) -> bool {
    forall|i: int| 0 <= i < s.len() ==> s[i] < 0x80
}

/// The title bytes with trailing NUL padding removed.
pub open spec fn spec_strip_nuls(s: Seq<u8>) -> Seq<u8>
    decreases s.len(),
{
    if s.len() > 0 && s[s.len() - 1] == 0 {
        spec_strip_nuls(s.drop_last())
    } else {
        s
    }
}

/// The decoded game title: the padded field with trailing NULs removed,
/// or empty when the remaining bytes are not plain ASCII.
pub open spec fn spec_title(field: Seq<u8>) -> Seq<u8> {
    let stripped = spec_strip_nuls(field);
    if all_ascii(stripped) {
        stripped
    } else {
        Seq::empty()
    }
}

/// The fixed header at offsets `0x0100 ..= 0x014F` of the image.
pub struct CartridgeHeader {
    /// The two bytes of the entry-point vector, widened.
    pub entry_point: [u16; 2],
    /// The 48-byte logo bitmap at `0x0104 ..= 0x0133`.
    pub nintendo_graphic: Vec<u8>,
    /// The ASCII game title, NUL padding stripped; empty when malformed.
    pub game_title: Vec<u8>,
    /// The cartridge type byte, decoded.
    pub cartridge_type: CartridgeType,
}

/// How a decoded header relates to the raw image it came from.
pub open spec fn header_of(rom: Seq<u8>, h: CartridgeHeader) -> bool {
    &&& h.entry_point@ == seq![rom[0x0100] as u16, rom[0x0101] as u16]
    &&& h.nintendo_graphic@ == rom.subrange(0x0104, 0x0134)
    &&& h.game_title@ == spec_title(rom.subrange(0x0134, 0x0143))
    &&& h.cartridge_type == spec_cartridge_type(rom[0x0147])
}

/// Copies `rom[lo .. hi]` into a fresh vector.
fn copy_range(rom: &Vec<u8>, lo: usize, hi: usize) -> (r: Vec<u8>)
    requires
        lo <= hi <= rom@.len(),
    ensures
        r@ == rom@.subrange(lo as int, hi as int),
{
    let mut v: Vec<u8> = Vec::new();
    let mut k: usize = lo;
    while k < hi
        invariant
            lo <= k <= hi <= rom@.len(),
            v@.len() == k - lo,
            forall|i: int| 0 <= i < k - lo ==> v@[i] == rom@[lo + i],
        decreases hi - k,
    {
        v.push(rom[k]);
        k = k + 1;
    }
    proof {
        assert(v@ =~= rom@.subrange(lo as int, hi as int));
    }
    v
}

/// Strips trailing NUL bytes in place.
fn strip_trailing_nuls(v: &mut Vec<u8>)
    ensures
        final(v)@ == spec_strip_nuls(old(v)@),
{
    while v.len() > 0 && v[v.len() - 1] == 0
        invariant
            spec_strip_nuls(v@) == spec_strip_nuls(old(v)@),
        decreases v@.len(),
    {
        proof {
            assert(v@.drop_last() =~= v@.subrange(0, v@.len() - 1));
        }
        v.pop();
    }
}

/// True when every byte of `v` is ASCII.
fn is_all_ascii(v: &Vec<u8>) -> (r: bool)
    ensures
        r == all_ascii(v@),
{
    let mut k: usize = 0;
    while k < v.len()
        invariant
            k <= v@.len(),
            forall|i: int| 0 <= i < k ==> v@[i] < 0x80,
        decreases v@.len() - k,
    {
        if v[k] >= 0x80 {
            return false;
        }
        k = k + 1;
    }
    true
}

impl CartridgeHeader {
    /// Decodes the header fields out of a raw image.
    pub fn new(raw_rom: &Vec<u8>) -> (r: Self)
        requires
            raw_rom@.len() >= 0x8000,
        ensures
            header_of(raw_rom@, r),
    {
        CartridgeHeader {
            entry_point: Self::read_entry_point(raw_rom),
            nintendo_graphic: Self::read_nintendo_graphic(raw_rom),
            cartridge_type: Self::read_cartridge_type(raw_rom),
            game_title: Self::read_game_title(raw_rom),
        }
    }

    fn read_entry_point(raw_rom: &Vec<u8>) -> (r: [u16; 2])
        requires
            raw_rom@.len() >= 0x8000,
        ensures
            r@ == seq![raw_rom@[0x0100] as u16, raw_rom@[0x0101] as u16],
    {
        let r = [raw_rom[0x0100] as u16, raw_rom[0x0101] as u16];
        proof {
            assert(r@ =~= seq![raw_rom@[0x0100] as u16, raw_rom@[0x0101] as u16]);
        }
        r
    }

    fn read_nintendo_graphic(raw_rom: &Vec<u8>) -> (r: Vec<u8>)
        requires
            raw_rom@.len() >= 0x8000,
        ensures
            r@ == raw_rom@.subrange(0x0104, 0x0134),
    {
        copy_range(raw_rom, 0x0104, 0x0134)
    }

    fn read_game_title(raw_rom: &Vec<u8>) -> (r: Vec<u8>)
        requires
            raw_rom@.len() >= 0x8000,
        ensures
            r@ == spec_title(raw_rom@.subrange(0x0134, 0x0143)),
    {
        let mut field = copy_range(raw_rom, 0x0134, 0x0143);
        strip_trailing_nuls(&mut field);
        if is_all_ascii(&field) {
            field
        } else {
            Vec::new()
        }
    }

    fn read_cartridge_type(raw_rom: &Vec<u8>) -> (r: CartridgeType)
        requires
            raw_rom@.len() >= 0x8000,
        ensures
            r == spec_cartridge_type(raw_rom@[0x0147]),
    {
        match raw_rom[0x0147] {
            0x00 => CartridgeType::ROM_ONLY,
            _ => CartridgeType::UNKNOWN,
        }
    }
}

/// A read-only cartridge: the decoded header plus the full image.
pub struct Cartridge {
    pub header: CartridgeHeader,
    pub data: Vec<u8>,
}

impl Cartridge {
    /// Wraps a raw image, decoding its header. The image must hold the
    /// whole 32 KiB ROM address range.
    pub fn new(raw_rom: &Vec<u8>) -> (r: Self)
        requires
            raw_rom@.len() >= 0x8000,
        ensures
            r.region_wf(),
            r.data@ == raw_rom@,
            header_of(raw_rom@, r.header),
    {
        Cartridge { header: CartridgeHeader::new(raw_rom), data: Self::copy_raw_rom(raw_rom) }
    }

    fn copy_raw_rom(raw_rom: &Vec<u8>) -> (r: Vec<u8>)
        ensures
            r@ == raw_rom@,
    {
        raw_rom.clone()
    }

    /// The bytes in `[addr, addr + 1]`, little endian.
    pub fn read_word(&self, addr: u16) -> (r: u16)
        requires
            self.region_wf(),
            self.spec_contains(addr),
            self.spec_contains((addr + 1) as u16),
        ensures
            r == crate::bits::word_of(self.data@[addr + 1], self.data@[addr as int]),
    {
        let lo = self.data[addr as usize];
        let hi = self.data[addr as usize + 1];
        crate::bits::word_from(hi, lo)
    }
}

impl MemoryRegion for Cartridge {
    open spec fn region_wf(&self) -> bool {
        self.data@.len() >= 0x8000
    }

    open spec fn spec_contains(&self, addr: u16) -> bool {
        addr < 0x8000
    }

    open spec fn spec_read(&self, addr: u16) -> u8 {
        self.data@[addr as int]
    }

    /// Writes to a plain ROM cartridge are discarded.
    open spec fn write_rel(pre: Self, addr: u16, val: u8, post: Self) -> bool {
        post == pre
    }

    fn in_region(&self, addr: u16) -> (r: bool) {
        addr < 0x8000
    }

    fn read_byte(&self, addr: u16) -> (r: u8) {
        self.data[addr as usize]
    }

    fn write_byte(&mut self, addr: u16, val: u8) {
    }
}

} // verus!
