//! Plain byte-array memory behind the region contract: work RAM, high RAM
//! and the boot ROM image.

use vstd::prelude::*;

verus! {

use crate::memory_region::{MemoryRegion, BitAccess};
use crate::registers::{spec_bit8, spec_set_bit8};

/// A contiguous RAM bank covering the inclusive address range
/// `start ..= end`.
#[allow(non_camel_case_types)]
pub struct PLAIN_RAM {
    pub storage: Vec<u8>,
    pub start: u16,
    pub end: u16,
}

/// A vector of `n` zero bytes.
pub fn zero_bytes(n: usize) -> (r: Vec<u8>)
    ensures
        r@.len() == n,
        forall|i: int| 0 <= i < n ==> r@[i] == 0u8,
{
    let mut v: Vec<u8> = Vec::new();
    let mut k: usize = 0;
    while k < n
        invariant
            k <= n,
            v@.len() == k,
            forall|i: int| 0 <= i < k ==> v@[i] == 0u8,
        decreases n - k,
    {
        v.push(0u8);
        k = k + 1;
    }
    v
}

impl PLAIN_RAM {
    /// A zero-filled bank over `start ..= end`.
    pub fn new(start: u16, end: u16) -> (r: Self)
        requires
            start <= end,
        ensures
            r.region_wf(),
            r.start == start,
            r.end == end,
            forall|a: u16| r.spec_contains(a) ==> r.spec_read(a) == 0u8,
    {
        let len: usize = (end - start) as usize + 1;
        PLAIN_RAM { start, end, storage: zero_bytes(len) }
    }

    /// A bank over `start ..= end` preloaded with `data`.
    pub fn from_data(start: u16, end: u16, data: Vec<u8>) -> (r: Self)
        requires
            start <= end,
            data@.len() == end - start + 1,
        ensures
            r.region_wf(),
            r.start == start,
            r.end == end,
            r.storage@ == data@,
    {
        PLAIN_RAM { start, end, storage: data }
    }

    /// Copies `amount` bytes beginning at `start_addr` out of the bank.
    pub fn load_chunk(&self, start_addr: u16, amount: u16) -> (r: Vec<u8>)
        requires
            self.region_wf(),
            self.spec_contains(start_addr),
            start_addr + amount <= u16::MAX,
            self.spec_contains((start_addr + amount) as u16),
        ensures
            r@ == self.storage@.subrange(
                start_addr - self.start,
                start_addr - self.start + amount,
            ),
    {
        let base: usize = (start_addr - self.start) as usize;
        let mut v: Vec<u8> = Vec::new();
        let mut k: usize = 0;
        while k < amount as usize
            invariant
                self.region_wf(),
                self.spec_contains(start_addr),
                start_addr + amount <= u16::MAX,
                self.spec_contains((start_addr + amount) as u16),
                base == start_addr - self.start,
                k <= amount,
                v@.len() == k,
                forall|i: int| 0 <= i < k ==> v@[i] == self.storage@[base + i],
            decreases amount - k,
        {
            v.push(self.storage[base + k]);
            k = k + 1;
        }
        proof {
            assert(v@ =~= self.storage@.subrange(
                start_addr - self.start,
                start_addr - self.start + amount,
            ));
        }
        v
    }
}

impl MemoryRegion for PLAIN_RAM {
    open spec fn region_wf(&self) -> bool {
        self.start <= self.end && self.storage@.len() == self.end - self.start + 1
    }

    open spec fn spec_contains(&self, addr: u16) -> bool {
        self.start <= addr <= self.end
    }

    open spec fn spec_read(&self, addr: u16) -> u8 {
        self.storage@[addr - self.start]
    }

    open spec fn write_rel(pre: Self, addr: u16, val: u8, post: Self) -> bool {
        post.start == pre.start && post.end == pre.end && post.storage@ == pre.storage@.update(
            addr - pre.start,
            val,
        )
    }

    fn in_region(&self, addr: u16) -> (r: bool) {
        addr >= self.start && addr <= self.end
    }

    fn read_byte(&self, addr: u16) -> (r: u8) {
        self.storage[(addr - self.start) as usize]
    }

    fn write_byte(&mut self, addr: u16, val: u8) {
        let i: usize = (addr - self.start) as usize;
        self.storage.set(i, val);
    }
}

impl BitAccess for PLAIN_RAM {
    fn read_bit(&self, addr: u16, bit: u8) -> (r: bool) {
        let val = self.read_byte(addr);
        val & (1u8 << bit) > 0
    }

    fn set_bit(&mut self, addr: u16, bit: u8, val: bool) {
        let cur_val = self.read_byte(addr);
        let new_val = if val {
            cur_val | (1u8 << bit)
        } else {
            cur_val & !(1u8 << bit)
        };
        self.write_byte(addr, new_val);
    }
}

} // verus!
