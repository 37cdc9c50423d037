//! Sound processor register file: 512 halfword registers.
use vstd::prelude::*;

verus! {

pub const SPU_REGISTER_COUNT: usize = 512;

/// The register that the address `addr` selects.
pub open spec fn spu_index(addr: u32) -> int {
    ((addr & 0x3ff) >> 1u32) as int
}

/// `h` with its low byte (`odd == false`) or its high byte replaced by `value`.
pub open spec fn merge_byte(h: u16, value: u8, odd: bool) -> u16 {
    if odd {
        (h & 0x00ff) | ((value as u16) << 8u16)
    } else {
        (h & 0xff00) | (value as u16)
    }
}

proof fn lemma_spu_index_bounds(addr: u32)
    ensures
        0 <= spu_index(addr) < SPU_REGISTER_COUNT,
{
    assert(((addr & 0x3ff) >> 1u32) < 512) by (bit_vector);
}

pub struct SPU {
    pub registers: Vec<u16>,
}

impl SPU {
    pub open spec fn wf(&self) -> bool {
        self.registers@.len() == SPU_REGISTER_COUNT
    }

    pub fn new() -> (r: SPU)
        ensures
            r.wf(),
            forall|i: int| 0 <= i < SPU_REGISTER_COUNT ==> r.registers@[i] == 0,
    {
        SPU { registers: vec![0u16; SPU_REGISTER_COUNT] }
    }

    pub fn read_halfword(&self, address: u32) -> (r: u16)
        requires
            self.wf(),
        ensures
            r == self.registers@[spu_index(address)],
    {
        proof { lemma_spu_index_bounds(address); }
        let offset = ((address & 0x3ff) >> 1u32) as usize;
        self.registers[offset]
    }

    pub fn write_halfword(&mut self, address: u32, value: u16)
        requires
            old(self).wf(),
        ensures
            final(self).wf(),
            final(self).registers@ == old(self).registers@.update(spu_index(address), value),
    {
        proof { lemma_spu_index_bounds(address); }
        let offset = ((address & 0x3ff) >> 1u32) as usize;
        self.registers.set(offset, value);
    }

    /// A byte write updates one half of the register: the low half at an even
    /// address, the high half at an odd one.
    pub fn write_byte(&mut self, address: u32, value: u8)
        requires
            old(self).wf(),
        ensures
            final(self).wf(),
            final(self).registers@ == old(self).registers@.update(
                spu_index(address),
                merge_byte(old(self).registers@[spu_index(address)], value, address & 1 == 1),
            ),
    {
        proof {
            lemma_spu_index_bounds(address);
            assert((((address & 0x3ff) & !1u32) >> 1u32) == ((address & 0x3ff) >> 1u32)) by (bit_vector);
            assert(((address & 0x3ff) & 1 == 0) == (address & 1 != 1)) by (bit_vector);
        }
        let offset: u32 = address & 0x3ff;
        let halfword_index = ((offset & !1u32) >> 1u32) as usize;
        let halfword = self.registers[halfword_index];
        let updated = if offset & 1 == 0 {
            (halfword & 0xff00) | (value as u16)
        } else {
            (halfword & 0x00ff) | ((value as u16) << 8u16)
        };
        self.registers.set(halfword_index, updated);
    }
}

} // verus!
