//! One DMA channel's registers.
use vstd::prelude::*;

verus! {

#[derive(Copy, Clone, PartialEq, Eq, Structural, Debug)]
pub struct Channel {
    pub base_address: u32,
    pub block_control: u32,
    pub control_register: u32,
}

impl Channel {
    pub open spec fn zero() -> Channel {
        Channel { base_address: 0, block_control: 0, control_register: 0 }
    }

    pub fn new() -> (r: Channel)
        ensures
            r == Channel::zero(),
    {
        Channel { base_address: 0, block_control: 0, control_register: 0 }
    }
}

/// The device that each channel serves; `Registers` stands for the controller's own registers.
#[derive(Copy, Clone, PartialEq, Eq, Structural, Debug)]
pub enum DMAPort {
    MDECIN,
    MDECOUT,
    GPU,
    CDROM,
    SPU,
    PIO,
    OTC,
    Registers,
}

/// The bits of a channel control register that hold a field.
pub const CHANNEL_CONTROL_USED_MASK: u32 = 0x1177_0703;

/// The fields of a channel control register.
#[derive(Copy, Clone, PartialEq, Eq, Structural, Debug)]
pub struct ChannelControlBits {
    /// Bit 0: 0 from the device to RAM, 1 from RAM to the device.
    pub transfer_direction: u8,
    /// Bit 1: 0 the address increases, 1 it decreases.
    pub address_step: u8,
    /// Bit 8.
    pub chopping_enabled: bool,
    /// Bits 9-10: 0 burst, 1 slice, 2 linked list.
    pub transfer_mode: u8,
    /// Bits 16-18: the DMA window is `1 << n` words.
    pub chopping_dma_window_size: u8,
    /// Bits 20-22: the CPU window is `1 << n` cycles.
    pub chopping_cpu_window_size: u8,
    /// Bit 24: 0 stopped or done, 1 started or busy.
    pub start_transfer: u8,
    /// Bit 28.
    pub start_trigger: u8,
}

/// The fields held by the register value `r`.
pub open spec fn unpack_channel_control(r: u32) -> ChannelControlBits {
    ChannelControlBits {
        transfer_direction: (r & 1) as u8,
        address_step: ((r >> 1u32) & 1) as u8,
        chopping_enabled: (r >> 8u32) & 1 == 1,
        transfer_mode: ((r >> 9u32) & 3) as u8,
        chopping_dma_window_size: ((r >> 16u32) & 7) as u8,
        chopping_cpu_window_size: ((r >> 20u32) & 7) as u8,
        start_transfer: ((r >> 24u32) & 1) as u8,
        start_trigger: ((r >> 28u32) & 1) as u8,
    }
}

/// The register value that holds the fields of `b`.
pub open spec fn pack_channel_control(b: ChannelControlBits) -> u32 {
    pack_fields(
        b.transfer_direction as u32,
        b.address_step as u32,
        if b.chopping_enabled { 1 } else { 0 },
        b.transfer_mode as u32,
        b.chopping_dma_window_size as u32,
        b.chopping_cpu_window_size as u32,
        b.start_transfer as u32,
        b.start_trigger as u32,
    )
}

pub open spec fn pack_fields(d: u32, s: u32, c: u32, m: u32, dw: u32, cw: u32, st: u32, tr: u32) -> u32 {
    (d & 1) | ((s & 1) << 1u32) | ((c & 1) << 8u32) | ((m & 3) << 9u32) | ((dw & 7) << 16u32) | ((
    cw & 7) << 20u32) | ((st & 1) << 24u32) | ((tr & 1) << 28u32)
}

impl ChannelControlBits {
    /// Every field fits its width.
    pub open spec fn fits(self) -> bool {
        &&& self.transfer_direction < 2
        &&& self.address_step < 2
        &&& self.transfer_mode < 4
        &&& self.chopping_dma_window_size < 8
        &&& self.chopping_cpu_window_size < 8
        &&& self.start_transfer < 2
        &&& self.start_trigger < 2
    }

    pub fn from_register(r: u32) -> (b: ChannelControlBits)
        ensures
            b == unpack_channel_control(r),
    {
        ChannelControlBits {
            transfer_direction: (r & 1) as u8,
            address_step: ((r >> 1u32) & 1) as u8,
            chopping_enabled: (r >> 8u32) & 1 == 1,
            transfer_mode: ((r >> 9u32) & 3) as u8,
            chopping_dma_window_size: ((r >> 16u32) & 7) as u8,
            chopping_cpu_window_size: ((r >> 20u32) & 7) as u8,
            start_transfer: ((r >> 24u32) & 1) as u8,
            start_trigger: ((r >> 28u32) & 1) as u8,
        }
    }

    pub fn to_register(&self) -> (r: u32)
        ensures
            r == pack_channel_control(*self),
    {
        let c: u32 = if self.chopping_enabled {
            1
        } else {
            0
        };
        (self.transfer_direction as u32 & 1) | ((self.address_step as u32 & 1) << 1u32) | ((c & 1)
            << 8u32) | ((self.transfer_mode as u32 & 3) << 9u32) | ((
        self.chopping_dma_window_size as u32 & 7) << 16u32) | ((self.chopping_cpu_window_size as u32
            & 7) << 20u32) | ((self.start_transfer as u32 & 1) << 24u32) | ((
        self.start_trigger as u32 & 1) << 28u32)
    }
}

/// Unpacking a register and packing the fields again gives back its field bits.
pub proof fn lemma_channel_control_round_trip(r: u32)
    ensures
        pack_channel_control(unpack_channel_control(r)) == r & CHANNEL_CONTROL_USED_MASK,
        unpack_channel_control(r).fits(),
{
    let b = unpack_channel_control(r);
    assert((r & 1) < 2 && ((r >> 1u32) & 1) < 2 && ((r >> 9u32) & 3) < 4 && ((r >> 16u32) & 7) < 8
        && ((r >> 20u32) & 7) < 8 && ((r >> 24u32) & 1) < 2 && ((r >> 28u32) & 1) < 2)
        by (bit_vector);
    let c: u32 = if (r >> 8u32) & 1 == 1 { 1 } else { 0 };
    assert(c == (r >> 8u32) & 1) by {
        assert((r >> 8u32) & 1 == 1 || (r >> 8u32) & 1 == 0) by (bit_vector);
    }
    assert(pack_fields(r & 1, (r >> 1u32) & 1, (r >> 8u32) & 1, (r >> 9u32) & 3, (r >> 16u32) & 7, (r
        >> 20u32) & 7, (r >> 24u32) & 1, (r >> 28u32) & 1) == r & 0x1177_0703u32) by (bit_vector);
}

/// Packing fields that fit and unpacking the register gives back the fields.
pub proof fn lemma_channel_control_fields_kept(b: ChannelControlBits)
    requires
        b.fits(),
    ensures
        unpack_channel_control(pack_channel_control(b)) == b,
{
    let d = b.transfer_direction as u32;
    let s = b.address_step as u32;
    let c: u32 = if b.chopping_enabled { 1 } else { 0 };
    let m = b.transfer_mode as u32;
    let dw = b.chopping_dma_window_size as u32;
    let cw = b.chopping_cpu_window_size as u32;
    let st = b.start_transfer as u32;
    let tr = b.start_trigger as u32;
    let r = pack_fields(d, s, c, m, dw, cw, st, tr);
    assert(d < 2 && s < 2 && c < 2 && m < 4 && dw < 8 && cw < 8 && st < 2 && tr < 2 ==> {
        let r = (d & 1) | ((s & 1) << 1u32) | ((c & 1) << 8u32) | ((m & 3) << 9u32) | ((dw & 7)
            << 16u32) | ((cw & 7) << 20u32) | ((st & 1) << 24u32) | ((tr & 1) << 28u32);
        &&& r & 1 == d
        &&& (r >> 1u32) & 1 == s
        &&& (r >> 8u32) & 1 == c
        &&& (r >> 9u32) & 3 == m
        &&& (r >> 16u32) & 7 == dw
        &&& (r >> 20u32) & 7 == cw
        &&& (r >> 24u32) & 1 == st
        &&& (r >> 28u32) & 1 == tr
    }) by (bit_vector);
}

} // verus!
