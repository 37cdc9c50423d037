//! Expansion region 2: only the POST status byte is kept.
use vstd::prelude::*;

verus! {

/// Address of the POST status register.
pub const POST_REGISTER: u32 = 0x1f802041;

#[allow(non_camel_case_types)]
#[derive(Copy, Clone)]
pub struct Expansion_Region_2 {
    pub post: u8,
}

impl Expansion_Region_2 {
    pub fn new() -> (r: Expansion_Region_2)
        ensures
            r.post == 0,
    {
        Expansion_Region_2 { post: 0 }
    }

    /// A byte written to the POST register is kept; other writes are dropped.
    pub fn write_byte(&mut self, addr: u32, byte: u8)
        ensures
            final(self).post == (if addr == POST_REGISTER { byte } else { old(self).post }),
    {
        if addr == POST_REGISTER {
            self.post = byte;
        }
    }

    /// Every register of the region reads as zero.
    pub fn read_byte(&self, addr: u32) -> (r: u8)
        ensures
            r == 0,
    {
        0
    }
}

} // verus!
