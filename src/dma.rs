//! DMA register file: seven channels of three registers, plus the control and
//! interrupt registers. No transfer is ever performed.
use vstd::prelude::*;

use crate::channel::Channel;


verus! {

/// Value of the control register after reset: channel `n` has priority `n + 1`.
pub const DMA_CONTROL_RESET: u32 = 0x0765_4321;

/// Number of transfer channels.
pub const DMA_CHANNEL_COUNT: usize = 7;

/// The channel (0 to 6; 7 for the controller's own registers) that `address` selects.
pub open spec fn dma_channel_of(address: u32) -> u32 {
    (address >> 4u32) & 0x7
}

/// The register offset within its channel that `address` selects.
pub open spec fn dma_reg_of(address: u32) -> u32 {
    address & 0xf
}

/// What the DMA register file holds.
#[verifier::ext_equal]
pub struct DmaState {
    pub control: u32,
    pub interrupt: u32,
    pub channels: Seq<Channel>,
}

impl DmaState {
    /// What a 32-bit read at `address` returns; registers that do not exist read as 0.
    pub open spec fn read(self, address: u32) -> u32 {
        let c = dma_channel_of(address);
        let r = dma_reg_of(address);
        if c < 7 {
            let ch = self.channels[c as int];
            if r == 0 {
                ch.base_address
            } else if r == 4 {
                ch.block_control
            } else if r == 8 {
                ch.control_register
            } else {
                0
            }
        } else if r == 0 {
            self.control
        } else if r == 4 {
            self.interrupt
        } else {
            0
        }
    }

    /// The register file after a 32-bit write of `val` at `address`; writes to
    /// registers that do not exist are dropped.
    pub open spec fn write(self, address: u32, val: u32) -> DmaState {
        let c = dma_channel_of(address);
        let r = dma_reg_of(address);
        if c < 7 {
            let ch = self.channels[c as int];
            if r == 0 {
                DmaState {
                    channels: self.channels.update(c as int, Channel { base_address: val, ..ch }),
                    ..self
                }
            } else if r == 4 {
                DmaState {
                    channels: self.channels.update(c as int, Channel { block_control: val, ..ch }),
                    ..self
                }
            } else if r == 8 {
                DmaState {
                    channels: self.channels.update(
                        c as int,
                        Channel { control_register: val, ..ch },
                    ),
                    ..self
                }
            } else {
                self
            }
        } else if r == 0 {
            DmaState { control: val, ..self }
        } else if r == 4 {
            DmaState { interrupt: val, ..self }
        } else {
            self
        }
    }
}

/// Splits an address of the DMA register file into its channel and register offset.
pub fn dma_map(address: u32) -> (r: (usize, u32))
    ensures
        r.0 == dma_channel_of(address),
        r.1 == dma_reg_of(address),
        r.0 < 8,
{
    let reg = address & 0xf;
    let channel = (address >> 4u32) & 0x7;
    assert(((address >> 4u32) & 0x7) < 8) by (bit_vector);
    (channel as usize, reg)
}

pub struct DMA {
    pub control: u32,
    pub interrupt: u32,
    pub channels: [Channel; 7],
}

impl View for DMA {
    type V = DmaState;

    open spec fn view(&self) -> DmaState {
        DmaState { control: self.control, interrupt: self.interrupt, channels: self.channels@ }
    }
}

impl DMA {
    pub fn new() -> (r: DMA)
        ensures
            r@.control == DMA_CONTROL_RESET,
            r@.interrupt == 0,
            r@.channels.len() == DMA_CHANNEL_COUNT,
            forall|i: int| 0 <= i < DMA_CHANNEL_COUNT ==> #[trigger] r@.channels[i] == Channel::zero(),
    {
        DMA {
            control: DMA_CONTROL_RESET,
            interrupt: 0,
            channels: [
                Channel::new(),
                Channel::new(),
                Channel::new(),
                Channel::new(),
                Channel::new(),
                Channel::new(),
                Channel::new(),
            ],
        }
    }

    pub fn read32(&self, addr: u32) -> (r: u32)
        ensures
            r == self@.read(addr),
    {
        let (channel, reg) = dma_map(addr);
        if channel < 7 {
            let ch = self.channels[channel];
            if reg == 0 {
                ch.base_address
            } else if reg == 4 {
                ch.block_control
            } else if reg == 8 {
                ch.control_register
            } else {
                0
            }
        } else if reg == 0 {
            self.control
        } else if reg == 4 {
            self.interrupt
        } else {
            0
        }
    }

    pub fn write32(&mut self, addr: u32, val: u32)
        ensures
            final(self)@ == old(self)@.write(addr, val),
    {
        let (channel, reg) = dma_map(addr);
        if channel < 7 {
            let mut ch = self.channels[channel];
            if reg == 0 {
                ch.base_address = val;
                self.channels[channel] = ch;
            } else if reg == 4 {
                ch.block_control = val;
                self.channels[channel] = ch;
            } else if reg == 8 {
                ch.control_register = val;
                self.channels[channel] = ch;
            }
        } else if reg == 0 {
            self.control = val;
        } else if reg == 4 {
            self.interrupt = val;
        }
        proof {
            assert(final(self)@ =~= old(self)@.write(addr, val));
        }
    }
}

/// The fields of the DMA interrupt register.
#[derive(Copy, Clone, PartialEq, Eq, Structural, Debug)]
pub struct InterruptRegisterBits {
    /// Bits 0-6.
    pub controls_channel: u8,
    /// Bit 15.
    pub force_irq: bool,
    /// Bits 16-22: one enable bit per channel.
    pub channel_enable: u8,
    /// Bit 23.
    pub master_enable: bool,
    /// Bits 24-30: one flag per channel.
    pub channel_flags: u8,
    /// Bit 31.
    pub master_interrupt_flag: bool,
}

/// The bits of the interrupt register that hold a field.
pub const INTERRUPT_USED_MASK: u32 = 0xffff_807f;

pub open spec fn unpack_interrupt(r: u32) -> InterruptRegisterBits {
    InterruptRegisterBits {
        controls_channel: (r & 0x7f) as u8,
        force_irq: (r >> 15u32) & 1 == 1,
        channel_enable: ((r >> 16u32) & 0x7f) as u8,
        master_enable: (r >> 23u32) & 1 == 1,
        channel_flags: ((r >> 24u32) & 0x7f) as u8,
        master_interrupt_flag: (r >> 31u32) & 1 == 1,
    }
}

pub open spec fn pack_interrupt_fields(cc: u32, f: u32, en: u32, me: u32, fl: u32, mf: u32) -> u32 {
    (cc & 0x7f) | ((f & 1) << 15u32) | ((en & 0x7f) << 16u32) | ((me & 1) << 23u32) | ((fl & 0x7f)
        << 24u32) | ((mf & 1) << 31u32)
}

pub open spec fn bit_of(b: bool) -> u32 {
    if b {
        1
    } else {
        0
    }
}

pub open spec fn pack_interrupt(b: InterruptRegisterBits) -> u32 {
    pack_interrupt_fields(
        b.controls_channel as u32,
        bit_of(b.force_irq),
        b.channel_enable as u32,
        bit_of(b.master_enable),
        b.channel_flags as u32,
        bit_of(b.master_interrupt_flag),
    )
}

fn flag(b: bool) -> (r: u32)
    ensures
        r == bit_of(b),
{
    if b {
        1
    } else {
        0
    }
}

impl InterruptRegisterBits {
    pub fn from_register(r: u32) -> (b: InterruptRegisterBits)
        ensures
            b == unpack_interrupt(r),
    {
        InterruptRegisterBits {
            controls_channel: (r & 0x7f) as u8,
            force_irq: (r >> 15u32) & 1 == 1,
            channel_enable: ((r >> 16u32) & 0x7f) as u8,
            master_enable: (r >> 23u32) & 1 == 1,
            channel_flags: ((r >> 24u32) & 0x7f) as u8,
            master_interrupt_flag: (r >> 31u32) & 1 == 1,
        }
    }

    pub fn to_register(&self) -> (r: u32)
        ensures
            r == pack_interrupt(*self),
    {
        (self.controls_channel as u32 & 0x7f) | ((flag(self.force_irq) & 1) << 15u32) | ((
        self.channel_enable as u32 & 0x7f) << 16u32) | ((flag(self.master_enable) & 1) << 23u32) | ((
        self.channel_flags as u32 & 0x7f) << 24u32) | ((flag(self.master_interrupt_flag) & 1)
            << 31u32)
    }
}

/// Unpacking the interrupt register and packing the fields again gives back its field bits.
pub proof fn lemma_interrupt_round_trip(r: u32)
    ensures
        pack_interrupt(unpack_interrupt(r)) == r & INTERRUPT_USED_MASK,
{
    assert(((r & 0x7f) as u8) as u32 == r & 0x7f && (((r >> 16u32) & 0x7f) as u8) as u32 == (r
        >> 16u32) & 0x7f && (((r >> 24u32) & 0x7f) as u8) as u32 == (r >> 24u32) & 0x7f)
        by (bit_vector);
    assert(bit_of((r >> 15u32) & 1 == 1) == (r >> 15u32) & 1) by {
        assert((r >> 15u32) & 1 == 1 || (r >> 15u32) & 1 == 0) by (bit_vector);
    }
    assert(bit_of((r >> 23u32) & 1 == 1) == (r >> 23u32) & 1) by {
        assert((r >> 23u32) & 1 == 1 || (r >> 23u32) & 1 == 0) by (bit_vector);
    }
    assert(bit_of((r >> 31u32) & 1 == 1) == (r >> 31u32) & 1) by {
        assert((r >> 31u32) & 1 == 1 || (r >> 31u32) & 1 == 0) by (bit_vector);
    }
    assert(pack_interrupt_fields(r & 0x7f, (r >> 15u32) & 1, (r >> 16u32) & 0x7f, (r >> 23u32) & 1, (r
        >> 24u32) & 0x7f, (r >> 31u32) & 1) == r & 0xffff_807fu32) by (bit_vector);
}

} // verus!
