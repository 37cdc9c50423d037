//! The boot ROM: 512 KiB of read-only memory.
use vstd::prelude::*;

use crate::ram::{seq_le16, seq_le32};

verus! {

/// The offset into the ROM that `addr` selects.
pub open spec fn bios_offset(addr: u32) -> int {
    (addr & 0x7_ffff) as int
}

pub proof fn lemma_bios_offset_bounds(addr: u32)
    ensures
        0 <= bios_offset(addr) < crate::map::BIOS_SIZE,
        addr % 2 == 0 ==> bios_offset(addr) + 2 <= crate::map::BIOS_SIZE,
        addr % 4 == 0 ==> bios_offset(addr) + 4 <= crate::map::BIOS_SIZE,
{
    assert((addr & 0x7_ffff) <= 0x7_ffff && (addr % 2 == 0 ==> (addr & 0x7_ffff) + 2 <= 0x8_0000) && (addr % 4
        == 0 ==> (addr & 0x7_ffff) + 4 <= 0x8_0000)) by (bit_vector);
}

pub struct BIOS {
    pub data: Vec<u8>,
}

impl BIOS {
    pub open spec fn wf(&self) -> bool {
        self.data@.len() == crate::map::BIOS_SIZE
    }

    /// Wraps a ROM image, which must be exactly 512 KiB long.
    pub fn new(bin: Vec<u8>) -> (r: BIOS)
        requires
            bin@.len() == crate::map::BIOS_SIZE,
        ensures
            r.wf(),
            r.data@ == bin@,
    {
        BIOS { data: bin }
    }

    fn get_offset(&self, addr: u32) -> (r: usize)
        ensures
            r == bios_offset(addr),
    {
        (addr & 0x7_ffff) as usize
    }

    pub fn read8(&self, addr: u32) -> (r: u8)
        requires
            self.wf(),
        ensures
            r == self.data@[bios_offset(addr)],
    {
        proof { lemma_bios_offset_bounds(addr); }
        let offset = self.get_offset(addr);
        self.data[offset]
    }

    pub fn read16(&self, addr: u32) -> (r: u16)
        requires
            self.wf(),
            bios_offset(addr) + 2 <= crate::map::BIOS_SIZE,
        ensures
            r == seq_le16(self.data@, bios_offset(addr)),
    {
        let offset = self.get_offset(addr);
        (self.data[offset] as u16) | ((self.data[offset + 1] as u16) << 8u16)
    }

    pub fn read32(&self, addr: u32) -> (r: u32)
        requires
            self.wf(),
            bios_offset(addr) + 4 <= crate::map::BIOS_SIZE,
        ensures
            r == seq_le32(self.data@, bios_offset(addr)),
    {
        let offset = self.get_offset(addr);
        (self.data[offset] as u32) | ((self.data[offset + 1] as u32) << 8u32) | ((self.data[offset
            + 2] as u32) << 16u32) | ((self.data[offset + 3] as u32) << 24u32)
    }
}

} // verus!
