//! The contract shared by every addressable subsystem: a byte read, a byte
//! write, and a range test the bus consults when dispatching an address.
//!
//! Each implementor supplies its own model: a well-formedness condition, the
//! set of addresses it claims, the byte served at each claimed address, and
//! the exact relation between the states before and after a write.

use vstd::prelude::*;

verus! {

pub trait MemoryRegion: Sized {
    /// The internal invariant of the region.
    spec fn region_wf(&self) -> bool;

    /// The set of addresses this region claims.
    spec fn spec_contains(&self, addr: u16) -> bool;

    /// The byte served at a claimed address.
    spec fn spec_read(&self, addr: u16) -> u8;

    /// Exactly how a write of `val` at `addr` changes the region.
    spec fn write_rel(pre: Self, addr: u16, val: u8, post: Self) -> bool;

    /// True when the region claims `addr`.
    fn in_region(&self, addr: u16) -> (r: bool)
        requires
            self.region_wf(),
        ensures
            r == self.spec_contains(addr);

    /// Reads the byte at a claimed address.
    fn read_byte(&self, addr: u16) -> (r: u8)
        requires
            self.region_wf(),
            self.spec_contains(addr),
        ensures
            r == self.spec_read(addr);

    /// Writes a byte at a claimed address.
    fn write_byte(&mut self, addr: u16, val: u8)
        requires
            old(self).region_wf(),
            old(self).spec_contains(addr),
        ensures
            final(self).region_wf(),
            Self::write_rel(*old(self), addr, val, *final(self));
}

/// Bit-granular access on top of a memory region.
pub trait BitAccess: MemoryRegion {
    /// Reads one bit of the byte at a claimed address.
    fn read_bit(&self, addr: u16, bit: u8) -> (r: bool)
        requires
            self.region_wf(),
            self.spec_contains(addr),
            bit < 8,
        ensures
            r == crate::registers::spec_bit8(self.spec_read(addr), bit);

    /// Forces one bit of the byte at a claimed address.
    fn set_bit(&mut self, addr: u16, bit: u8, val: bool)
        requires
            old(self).region_wf(),
            old(self).spec_contains(addr),
            bit < 8,
        ensures
            final(self).region_wf(),
            Self::write_rel(
                *old(self),
                addr,
                crate::registers::spec_set_bit8(old(self).spec_read(addr), bit, val),
                *final(self),
            );
}

} // verus!
