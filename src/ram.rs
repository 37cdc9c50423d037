//! Main RAM: 2 MiB of byte-addressable memory with little-endian 16- and 32-bit access.
use vstd::prelude::*;

use crate::text::{hex_text, push_hex, push_str};


verus! {

/// The halfword stored little-endian in the bytes `b0`, `b1`.
pub open spec fn le16(b0: u8, b1: u8) -> u16 {
    (b0 as u16) | ((b1 as u16) << 8u16)
}

/// The word stored little-endian in the bytes `b0` to `b3`.
pub open spec fn le32(b0: u8, b1: u8, b2: u8, b3: u8) -> u32 {
    (b0 as u32) | ((b1 as u32) << 8u32) | ((b2 as u32) << 16u32) | ((b3 as u32) << 24u32)
}

/// The offset into RAM that `addr` selects: RAM is mirrored every 2 MiB.
pub open spec fn ram_offset(addr: u32) -> int {
    (addr & 0x1f_ffff) as int
}

/// Little-endian halfword at offset `o` of `data`.
pub open spec fn seq_le16(data: Seq<u8>, o: int) -> u16 {
    le16(data[o], data[o + 1])
}

/// Little-endian word at offset `o` of `data`.
pub open spec fn seq_le32(data: Seq<u8>, o: int) -> u32 {
    le32(data[o], data[o + 1], data[o + 2], data[o + 3])
}

/// `data` with the halfword `h` stored little-endian at offset `o`.
pub open spec fn seq_store16(data: Seq<u8>, o: int, h: u16) -> Seq<u8> {
    data.update(o, (h & 0xff) as u8).update(o + 1, ((h >> 8u16) & 0xff) as u8)
}

/// `data` with the word `w` stored little-endian at offset `o`.
pub open spec fn seq_store32(data: Seq<u8>, o: int, w: u32) -> Seq<u8> {
    data.update(o, (w & 0xff) as u8).update(o + 1, ((w >> 8u32) & 0xff) as u8).update(
        o + 2,
        ((w >> 16u32) & 0xff) as u8,
    ).update(o + 3, ((w >> 24u32) & 0xff) as u8)
}

/// One byte of a dump: each line of sixteen bytes starts with the offset of its
/// first byte, and each byte is two upper-case hexadecimal digits and a space.
pub open spec fn dump_piece(data: Seq<u8>, start: int, i: int) -> Seq<char> {
    let head = if i % 16 == 0 {
        (if i > 0 {
            "\n"@
        } else {
            Seq::empty()
        }) + hex_text((start + i) as nat, 8, true) + ": "@
    } else {
        Seq::empty()
    };
    head + hex_text(data[start + i] as nat, 2, true) + " "@
}

/// The dump of `n` bytes of `data` from offset `start`.
pub open spec fn dump_text(data: Seq<u8>, start: int, n: nat) -> Seq<char>
    decreases n,
{
    if n == 0 {
        Seq::empty()
    } else {
        dump_text(data, start, (n - 1) as nat) + dump_piece(data, start, n - 1)
    }
}

pub proof fn lemma_ram_offset_bounds(addr: u32)
    ensures
        0 <= ram_offset(addr) < crate::map::RAM_SIZE,
        addr % 2 == 0 ==> ram_offset(addr) + 2 <= crate::map::RAM_SIZE,
        addr % 4 == 0 ==> ram_offset(addr) + 4 <= crate::map::RAM_SIZE,
{
    assert((addr & 0x1f_ffff) <= 0x1f_ffff && (addr % 2 == 0 ==> (addr & 0x1f_ffff) + 2 <= 0x20_0000) && (addr % 4
        == 0 ==> (addr & 0x1f_ffff) + 4 <= 0x20_0000)) by (bit_vector);
}

pub struct Ram {
    pub data: Vec<u8>,
}

impl Ram {
    pub open spec fn wf(&self) -> bool {
        self.data@.len() == crate::map::RAM_SIZE
    }

    /// Zero-filled RAM.
    pub fn new() -> (r: Ram)
        ensures
            r.wf(),
            forall|i: int| 0 <= i < crate::map::RAM_SIZE ==> r.data@[i] == 0,
    {
        Ram { data: vec![0u8; crate::map::RAM_SIZE as usize] }
    }

    fn get_offset(&self, addr: u32) -> (r: usize)
        ensures
            r == ram_offset(addr),
    {
        (addr & (crate::map::RAM_SIZE - 1)) as usize
    }

    pub fn read8(&self, addr: u32) -> (r: u8)
        requires
            self.wf(),
        ensures
            r == self.data@[ram_offset(addr)],
    {
        proof { lemma_ram_offset_bounds(addr); }
        let offset = self.get_offset(addr);
        self.data[offset]
    }

    pub fn read16(&self, addr: u32) -> (r: u16)
        requires
            self.wf(),
            ram_offset(addr) + 2 <= crate::map::RAM_SIZE,
        ensures
            r == seq_le16(self.data@, ram_offset(addr)),
    {
        let offset = self.get_offset(addr);
        (self.data[offset] as u16) | ((self.data[offset + 1] as u16) << 8u16)
    }

    pub fn read32(&self, addr: u32) -> (r: u32)
        requires
            self.wf(),
            ram_offset(addr) + 4 <= crate::map::RAM_SIZE,
        ensures
            r == seq_le32(self.data@, ram_offset(addr)),
    {
        let offset = self.get_offset(addr);
        (self.data[offset] as u32) | ((self.data[offset + 1] as u32) << 8u32) | ((self.data[offset
            + 2] as u32) << 16u32) | ((self.data[offset + 3] as u32) << 24u32)
    }

    pub fn write8(&mut self, addr: u32, byte: u8)
        requires
            old(self).wf(),
        ensures
            final(self).wf(),
            final(self).data@ == old(self).data@.update(ram_offset(addr), byte),
    {
        proof { lemma_ram_offset_bounds(addr); }
        let offset = self.get_offset(addr);
        self.data.set(offset, byte);
    }

    pub fn write16(&mut self, addr: u32, halfword: u16)
        requires
            old(self).wf(),
            ram_offset(addr) + 2 <= crate::map::RAM_SIZE,
        ensures
            final(self).wf(),
            final(self).data@ == seq_store16(old(self).data@, ram_offset(addr), halfword),
    {
        let offset = self.get_offset(addr);
        self.data.set(offset, (halfword & 0xff) as u8);
        self.data.set(offset + 1, ((halfword >> 8u16) & 0xff) as u8);
    }

    pub fn write32(&mut self, addr: u32, word: u32)
        requires
            old(self).wf(),
            ram_offset(addr) + 4 <= crate::map::RAM_SIZE,
        ensures
            final(self).wf(),
            final(self).data@ == seq_store32(old(self).data@, ram_offset(addr), word),
    {
        let offset = self.get_offset(addr);
        self.data.set(offset, (word & 0xff) as u8);
        self.data.set(offset + 1, ((word >> 8u32) & 0xff) as u8);
        self.data.set(offset + 2, ((word >> 16u32) & 0xff) as u8);
        self.data.set(offset + 3, ((word >> 24u32) & 0xff) as u8);
    }

    /// A hexadecimal dump of `length` bytes from offset `start_offset`.
    pub fn dump_region(&self, start_offset: usize, length: usize) -> (r: String)
        requires
            self.wf(),
            start_offset + length <= crate::map::RAM_SIZE,
        ensures
            r@ == dump_text(self.data@, start_offset as int, length as nat),
    {
        let mut output = String::new();
        let mut i: usize = 0;
        while i < length
            invariant
                self.wf(),
                start_offset + length <= crate::map::RAM_SIZE,
                i <= length,
                output@ == dump_text(self.data@, start_offset as int, i as nat),
            decreases length - i,
        {
            let ghost before = output@;
            if i % 16 == 0 {
                if i > 0 {
                    push_str(&mut output, "\n");
                }
                push_hex(&mut output, (start_offset + i) as u32, 8, true);
                push_str(&mut output, ": ");
            }
            push_hex(&mut output, self.data[start_offset + i] as u32, 2, true);
            push_str(&mut output, " ");
            assert(output@ =~= before + dump_piece(self.data@, start_offset as int, i as int));
            i = i + 1;
        }
        output
    }
}

} // verus!
