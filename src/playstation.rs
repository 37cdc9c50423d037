//! The console: processor, memories and device registers, joined by the bus.
use vstd::prelude::*;

use crate::bios::{bios_offset, lemma_bios_offset_bounds, BIOS};
use crate::cpu::{Cpu, CpuState};
use crate::dma::{DmaState, DMA};
use crate::expansion_region2::{Expansion_Region_2, POST_REGISTER};
use crate::gpu::{gpu_read, GPU};
use crate::irq::IRQController;
use crate::map::{
    physical, BIOS_END, BIOS_START, CACHE_CONTROL_START, DMA_REGISTERS_END, DMA_REGISTERS_START,
    EXPANSION_REGION_2_END, EXPANSION_REGION_2_START, GPU_REGISTERS_END, GPU_REGISTERS_START,
    IRQ_MASK_REG, IRQ_STATUS_REG, MEM_CTRL_2_START, MEM_CTRL_END, MEM_CTRL_START, RAM_END,
    SPU_END, SPU_START,
};
use crate::ram::{
    lemma_ram_offset_bounds, ram_offset, seq_le16, seq_le32, seq_store16, seq_store32, Ram,
};
use crate::spu::{merge_byte, spu_index, SPU};


verus! {

/// Steps in one video frame: 33.8688 MHz at 60 Hz, one step per cycle.
pub const CYCLES_PER_FRAME: usize = 564480;

/// Number of memory-control registers.
pub const MEM_CTRL_COUNT: usize = 9;

/// What the whole console holds.
#[verifier::ext_equal]
pub struct PsState {
    pub cpu: CpuState,
    pub ram: Seq<u8>,
    pub bios: Seq<u8>,
    pub exp2: Expansion_Region_2,
    pub mem_ctrl: Seq<u32>,
    pub mem_ctrl_2: u32,
    pub cache_ctrl: u32,
    pub dma: DmaState,
    pub gpu: GPU,
    pub spu: Seq<u16>,
    pub irq: IRQController,
}

pub open spec fn in_ram(p: u32) -> bool {
    p <= RAM_END
}

pub open spec fn in_bios(p: u32) -> bool {
    BIOS_START <= p <= BIOS_END
}

pub open spec fn in_spu(p: u32) -> bool {
    SPU_START <= p <= SPU_END
}

/// The two halfwords of a word: `(w as u16, (w >> 16) as u16)`.
pub open spec fn low_half(w: u32) -> u16 {
    (w & 0xffff) as u16
}

pub open spec fn high_half(w: u32) -> u16 {
    ((w >> 16u32) & 0xffff) as u16
}

impl PsState {
    pub open spec fn wf(self) -> bool {
        &&& self.cpu.wf()
        &&& self.ram.len() == crate::map::RAM_SIZE
        &&& self.bios.len() == crate::map::BIOS_SIZE
        &&& self.mem_ctrl.len() == MEM_CTRL_COUNT
        &&& self.spu.len() == crate::spu::SPU_REGISTER_COUNT
        &&& self.dma.channels.len() == crate::dma::DMA_CHANNEL_COUNT
    }

    /// The word held by the device register at the 4-aligned physical address
    /// `p`, outside RAM, ROM and the SPU. Expansion region 1, the timers,
    /// expansion region 2 and unmapped addresses read as 0.
    pub open spec fn io_word(self, p: u32) -> u32 {
        if MEM_CTRL_START <= p <= MEM_CTRL_END {
            self.mem_ctrl[(p - MEM_CTRL_START) / 4]
        } else if p == MEM_CTRL_2_START {
            self.mem_ctrl_2
        } else if p == IRQ_STATUS_REG {
            self.irq.status
        } else if p == IRQ_MASK_REG {
            self.irq.mask
        } else if DMA_REGISTERS_START <= p <= DMA_REGISTERS_END {
            self.dma.read(p)
        } else if GPU_REGISTERS_START <= p <= GPU_REGISTERS_END {
            gpu_read(p)
        } else if p == CACHE_CONTROL_START {
            self.cache_ctrl
        } else {
            0
        }
    }

    pub open spec fn read8(self, address: u32) -> u8 {
        let p = physical(address);
        if in_ram(p) {
            self.ram[ram_offset(p)]
        } else if in_bios(p) {
            self.bios[bios_offset(p)]
        } else if in_spu(p) {
            let h = self.spu[spu_index(p)];
            if p & 1 == 0 {
                (h & 0xff) as u8
            } else {
                ((h >> 8u16) & 0xff) as u8
            }
        } else {
            ((self.io_word(p & !3u32) >> ((p & 3u32) << 3u32)) & 0xff) as u8
        }
    }

    pub open spec fn read16(self, address: u32) -> u16 {
        let p = physical(address);
        if in_ram(p) {
            seq_le16(self.ram, ram_offset(p))
        } else if in_bios(p) {
            seq_le16(self.bios, bios_offset(p))
        } else if in_spu(p) {
            self.spu[spu_index(p)]
        } else {
            let w = self.io_word(p & !3u32);
            if p & 2 == 0 {
                low_half(w)
            } else {
                high_half(w)
            }
        }
    }

    pub open spec fn read32(self, address: u32) -> u32 {
        let p = physical(address);
        if in_ram(p) {
            seq_le32(self.ram, ram_offset(p))
        } else if in_bios(p) {
            seq_le32(self.bios, bios_offset(p))
        } else if in_spu(p) {
            (self.spu[spu_index(p)] as u32) | ((self.spu[spu_index(p) + 1] as u32) << 16u32)
        } else {
            self.io_word(p)
        }
    }

    /// The console after a byte store; stores that no device takes are dropped.
    pub open spec fn write8(self, address: u32, byte: u8) -> PsState {
        let p = physical(address);
        if in_ram(p) {
            PsState { ram: self.ram.update(ram_offset(p), byte), ..self }
        } else if in_spu(p) {
            PsState {
                spu: self.spu.update(
                    spu_index(p),
                    merge_byte(self.spu[spu_index(p)], byte, p & 1 == 1),
                ),
                ..self
            }
        } else if EXPANSION_REGION_2_START <= p <= EXPANSION_REGION_2_END && p == POST_REGISTER {
            PsState { exp2: Expansion_Region_2 { post: byte }, ..self }
        } else {
            self
        }
    }

    /// The console after a halfword store; stores that no device takes are dropped.
    pub open spec fn write16(self, address: u32, halfword: u16) -> PsState {
        let p = physical(address);
        if in_ram(p) {
            PsState { ram: seq_store16(self.ram, ram_offset(p), halfword), ..self }
        } else if in_spu(p) {
            PsState { spu: self.spu.update(spu_index(p), halfword), ..self }
        } else {
            self
        }
    }

    /// The console after a word store; stores that no device takes are dropped.
    pub open spec fn write32(self, address: u32, word: u32) -> PsState {
        let p = physical(address);
        if in_ram(p) {
            PsState { ram: seq_store32(self.ram, ram_offset(p), word), ..self }
        } else if MEM_CTRL_START <= p <= MEM_CTRL_END {
            PsState { mem_ctrl: self.mem_ctrl.update((p - MEM_CTRL_START) / 4, word), ..self }
        } else if p == MEM_CTRL_2_START {
            PsState { mem_ctrl_2: word, ..self }
        } else if p == CACHE_CONTROL_START {
            PsState { cache_ctrl: word, ..self }
        } else if p == IRQ_MASK_REG {
            PsState { irq: IRQController { mask: word, ..self.irq }, ..self }
        } else if p == IRQ_STATUS_REG {
            PsState { irq: IRQController { status: self.irq.status & word, ..self.irq }, ..self }
        } else if DMA_REGISTERS_START <= p <= DMA_REGISTERS_END {
            PsState { dma: self.dma.write(p, word), ..self }
        } else if in_spu(p) {
            PsState {
                spu: self.spu.update(spu_index(p), low_half(word)).update(
                    spu_index(p) + 1,
                    high_half(word),
                ),
                ..self
            }
        } else {
            self
        }
    }
}

/// The console at power-on with the ROM image `bios`: the processor at reset,
/// RAM and every device register zero, except the DMA control register.
pub open spec fn power_on(bios: Seq<u8>) -> PsState {
    PsState {
        cpu: crate::cpu::reset_cpu_state(),
        ram: Seq::new(crate::map::RAM_SIZE as nat, |i: int| 0u8),
        bios,
        exp2: Expansion_Region_2 { post: 0 },
        mem_ctrl: Seq::new(MEM_CTRL_COUNT as nat, |i: int| 0u32),
        mem_ctrl_2: 0,
        cache_ctrl: 0,
        dma: DmaState {
            control: crate::dma::DMA_CONTROL_RESET,
            interrupt: 0,
            channels: Seq::new(
                crate::dma::DMA_CHANNEL_COUNT as nat,
                |i: int| crate::channel::Channel::zero(),
            ),
        },
        gpu: GPU { gp0: 0, gp1: 0 },
        spu: Seq::new(crate::spu::SPU_REGISTER_COUNT as nat, |i: int| 0u16),
        irq: IRQController { status: 0, mask: 0 },
    }
}

/// Masking keeps the low two bits of an address.
pub proof fn lemma_physical_low_bits(a: u32)
    ensures
        physical(a) & 3 == a & 3,
        a % 2 == 0 ==> physical(a) % 2 == 0,
        a % 4 == 0 ==> physical(a) % 4 == 0,
{
    let i = a >> 29u32;
    if i == 4 {
        assert((a & 0x7fff_ffffu32) & 3 == a & 3) by (bit_vector);
    } else if i == 5 {
        assert((a & 0x1fff_ffffu32) & 3 == a & 3) by (bit_vector);
    } else {
        assert((a & 0xffff_ffffu32) & 3 == a & 3) by (bit_vector);
    }
    assert(physical(a) & 3 == a & 3 ==> (a % 2 == 0 ==> physical(a) % 2 == 0) && (a % 4 == 0
        ==> physical(a) % 4 == 0)) by {
        let p = physical(a);
        assert(p & 3 == a & 3 ==> (a % 2 == 0 ==> p % 2 == 0) && (a % 4 == 0 ==> p % 4 == 0))
            by (bit_vector);
    }
}

proof fn lemma_spu_pair(p: u32)
    ensures
        0 <= spu_index(p) < 512,
        p % 4 == 0 ==> spu_index(p) + 1 < 512,
{
    assert(((p & 0x3ff) >> 1u32) < 512) by (bit_vector);
    assert(p % 4 == 0 ==> ((p & 0x3ff) >> 1u32) + 1 < 512) by (bit_vector);
}

pub struct PlayStation {
    pub cpu: Cpu,
    pub ram: Ram,
    pub bios: BIOS,
    pub exp2: Expansion_Region_2,
    pub mem_ctrl: [u32; 9],
    /// The RAM size register.
    pub mem_ctrl_2: u32,
    pub cache_ctrl: u32,
    pub dma: DMA,
    pub gpu: GPU,
    pub spu: SPU,
    pub irq: IRQController,
}

impl View for PlayStation {
    type V = PsState;

    open spec fn view(&self) -> PsState {
        PsState {
            cpu: self.cpu@,
            ram: self.ram.data@,
            bios: self.bios.data@,
            exp2: self.exp2,
            mem_ctrl: self.mem_ctrl@,
            mem_ctrl_2: self.mem_ctrl_2,
            cache_ctrl: self.cache_ctrl,
            dma: self.dma@,
            gpu: self.gpu,
            spu: self.spu.registers@,
            irq: self.irq,
        }
    }
}

impl PlayStation {
    pub open spec fn wf(&self) -> bool {
        self@.wf()
    }

    /// A console at reset with the given ROM image, which must be 512 KiB long.
    pub fn new(bios: Vec<u8>) -> (r: PlayStation)
        requires
            bios@.len() == crate::map::BIOS_SIZE,
        ensures
            r.wf(),
            r@ == power_on(bios@),
    {
        let r = PlayStation {
            cpu: Cpu::new(),
            ram: Ram::new(),
            bios: BIOS::new(bios),
            exp2: Expansion_Region_2::new(),
            mem_ctrl: [0u32; 9],
            mem_ctrl_2: 0,
            cache_ctrl: 0,
            dma: DMA::new(),
            gpu: GPU::new(),
            spu: SPU::new(),
            irq: IRQController::new(),
        };
        assert(r@.ram =~= power_on(bios@).ram);
        assert(r@.mem_ctrl =~= power_on(bios@).mem_ctrl);
        assert(r@.dma.channels =~= power_on(bios@).dma.channels);
        assert(r@.spu =~= power_on(bios@).spu);
        r
    }

    fn io_read32(&self, p: u32) -> (r: u32)
        requires
            self.wf(),
        ensures
            r == self@.io_word(p),
    {
        if MEM_CTRL_START <= p && p <= MEM_CTRL_END {
            self.mem_ctrl[((p - MEM_CTRL_START) / 4) as usize]
        } else if p == MEM_CTRL_2_START {
            self.mem_ctrl_2
        } else if p == IRQ_STATUS_REG {
            self.irq.get_status()
        } else if p == IRQ_MASK_REG {
            self.irq.get_mask()
        } else if DMA_REGISTERS_START <= p && p <= DMA_REGISTERS_END {
            self.dma.read32(p)
        } else if GPU_REGISTERS_START <= p && p <= GPU_REGISTERS_END {
            self.gpu.read32(p)
        } else if p == CACHE_CONTROL_START {
            self.cache_ctrl
        } else {
            0
        }
    }

    pub fn read8(&self, address: u32) -> (r: u8)
        requires
            self.wf(),
        ensures
            r == self@.read8(address),
    {
        let p = crate::map::mask_region(address);
        if p <= RAM_END {
            self.ram.read8(p)
        } else if BIOS_START <= p && p <= BIOS_END {
            self.bios.read8(p)
        } else if SPU_START <= p && p <= SPU_END {
            let h = self.spu.read_halfword(p);
            if p & 1 == 0 {
                (h & 0xff) as u8
            } else {
                ((h >> 8u16) & 0xff) as u8
            }
        } else {
            assert(((p & 3u32) << 3u32) < 32) by (bit_vector);
            ((self.io_read32(p & !3u32) >> ((p & 3u32) << 3u32)) & 0xff) as u8
        }
    }

    /// A halfword read; the address must be 2-aligned.
    pub fn read16(&self, address: u32) -> (r: u16)
        requires
            self.wf(),
            address % 2 == 0,
        ensures
            r == self@.read16(address),
    {
        let p = crate::map::mask_region(address);
        proof {
            lemma_physical_low_bits(address);
            lemma_ram_offset_bounds(p);
            lemma_bios_offset_bounds(p);
        }
        if p <= RAM_END {
            self.ram.read16(p)
        } else if BIOS_START <= p && p <= BIOS_END {
            self.bios.read16(p)
        } else if SPU_START <= p && p <= SPU_END {
            self.spu.read_halfword(p)
        } else {
            let w = self.io_read32(p & !3u32);
            if p & 2 == 0 {
                (w & 0xffff) as u16
            } else {
                ((w >> 16u32) & 0xffff) as u16
            }
        }
    }

    /// A word read; the address must be 4-aligned.
    pub fn read32(&self, address: u32) -> (r: u32)
        requires
            self.wf(),
            address % 4 == 0,
        ensures
            r == self@.read32(address),
    {
        let p = crate::map::mask_region(address);
        proof {
            lemma_physical_low_bits(address);
            lemma_ram_offset_bounds(p);
            lemma_bios_offset_bounds(p);
            lemma_spu_pair(p);
        }
        if p <= RAM_END {
            self.ram.read32(p)
        } else if BIOS_START <= p && p <= BIOS_END {
            self.bios.read32(p)
        } else if SPU_START <= p && p <= SPU_END {
            let idx = ((p & 0x3ff) >> 1u32) as usize;
            (self.spu.registers[idx] as u32) | ((self.spu.registers[idx + 1] as u32) << 16u32)
        } else {
            self.io_read32(p)
        }
    }

    pub fn write8(&mut self, address: u32, byte: u8)
        requires
            old(self).wf(),
        ensures
            final(self).wf(),
            final(self)@ == old(self)@.write8(address, byte),
    {
        let p = crate::map::mask_region(address);
        if p <= RAM_END {
            self.ram.write8(p, byte);
        } else if SPU_START <= p && p <= SPU_END {
            self.spu.write_byte(p, byte);
        } else if EXPANSION_REGION_2_START <= p && p <= EXPANSION_REGION_2_END {
            self.exp2.write_byte(p, byte);
        }
    }

    /// A halfword store; the address must be 2-aligned.
    pub fn write16(&mut self, halfword: u16, address: u32)
        requires
            old(self).wf(),
            address % 2 == 0,
        ensures
            final(self).wf(),
            final(self)@ == old(self)@.write16(address, halfword),
    {
        let p = crate::map::mask_region(address);
        proof {
            lemma_physical_low_bits(address);
            lemma_ram_offset_bounds(p);
        }
        if p <= RAM_END {
            self.ram.write16(p, halfword);
        } else if SPU_START <= p && p <= SPU_END {
            self.spu.write_halfword(p, halfword);
        }
    }

    /// A word store; the address must be 4-aligned.
    pub fn write32(&mut self, word: u32, address: u32)
        requires
            old(self).wf(),
            address % 4 == 0,
        ensures
            final(self).wf(),
            final(self)@ == old(self)@.write32(address, word),
    {
        let p = crate::map::mask_region(address);
        proof {
            lemma_physical_low_bits(address);
            lemma_ram_offset_bounds(p);
            lemma_spu_pair(p);
        }
        if p <= RAM_END {
            self.ram.write32(p, word);
        } else if MEM_CTRL_START <= p && p <= MEM_CTRL_END {
            self.mem_ctrl[((p - MEM_CTRL_START) / 4) as usize] = word;
        } else if p == MEM_CTRL_2_START {
            self.mem_ctrl_2 = word;
        } else if p == CACHE_CONTROL_START {
            self.cache_ctrl = word;
        } else if p == IRQ_MASK_REG {
            self.irq.set_mask(word);
        } else if p == IRQ_STATUS_REG {
            self.irq.acknowledge(word);
        } else if DMA_REGISTERS_START <= p && p <= DMA_REGISTERS_END {
            self.dma.write32(p, word);
        } else if SPU_START <= p && p <= SPU_END {
            let idx = ((p & 0x3ff) >> 1u32) as usize;
            self.spu.registers.set(idx, (word & 0xffff) as u16);
            self.spu.registers.set(idx + 1, ((word >> 16u32) & 0xffff) as u16);
        }
    }
}

proof fn lemma_physical_step(a: u32, k: u32)
    requires
        a % 4 == 0,
        k < 4,
    ensures
        a + k <= u32::MAX,
        physical((a + k) as u32) == physical(a) + k,
        physical(a) % 4 == 0,
{
    lemma_physical_low_bits(a);
    assert(a % 4 == 0 && k < 4 ==> a + k <= 0xffff_ffffu32) by (bit_vector);
    let b = (a + k) as u32;
    assert(a % 4 == 0 && k < 4 ==> ((a + k) as u32) >> 29u32 == a >> 29u32) by (bit_vector);
    assert(a % 4 == 0 && k < 4 ==> ((a + k) as u32) & 0x7fff_ffffu32 == (a & 0x7fff_ffffu32) + k)
        by (bit_vector);
    assert(a % 4 == 0 && k < 4 ==> ((a + k) as u32) & 0x1fff_ffffu32 == (a & 0x1fff_ffffu32) + k)
        by (bit_vector);
    assert(a % 4 == 0 && k < 4 ==> ((a + k) as u32) & 0xffff_ffffu32 == (a & 0xffff_ffffu32) + k)
        by (bit_vector);
}

/// For a 4-aligned address that reaches RAM or ROM, a word read is the
/// little-endian composition of the byte reads at that address and the three after it.
pub proof fn lemma_read32_is_four_bytes(s: PsState, a: u32)
    requires
        s.wf(),
        a % 4 == 0,
        in_ram(physical(a)) || in_bios(physical(a)),
    ensures
        s.read32(a) == (s.read8(a) as u32) | ((s.read8((a + 1) as u32) as u32) << 8u32) | ((
        s.read8((a + 2) as u32) as u32) << 16u32) | ((s.read8((a + 3) as u32) as u32) << 24u32),
{
    lemma_physical_step(a, 0);
    lemma_physical_step(a, 1);
    lemma_physical_step(a, 2);
    lemma_physical_step(a, 3);
    let p = physical(a);
    assert(p % 4 == 0 ==> ((p + 1) as u32) & 0x1f_ffff == (p & 0x1f_ffff) + 1 && ((p + 2) as u32)
        & 0x1f_ffff == (p & 0x1f_ffff) + 2 && ((p + 3) as u32) & 0x1f_ffff == (p & 0x1f_ffff) + 3)
        by (bit_vector);
    assert(p % 4 == 0 ==> ((p + 1) as u32) & 0x7_ffff == (p & 0x7_ffff) + 1 && ((p + 2) as u32)
        & 0x7_ffff == (p & 0x7_ffff) + 2 && ((p + 3) as u32) & 0x7_ffff == (p & 0x7_ffff) + 3)
        by (bit_vector);
    assert(p % 4 == 0 && p <= RAM_END ==> p + 3 <= RAM_END) by (bit_vector);
    assert(p % 4 == 0 && BIOS_START <= p <= BIOS_END ==> p + 3 <= BIOS_END) by (bit_vector);
}

impl PlayStation {
    /// Points the processor back at the reset vector.
    pub fn reset(&mut self)
        requires
            old(self).wf(),
        ensures
            final(self).wf(),
            final(self)@ == (PsState {
                cpu: CpuState { pc: crate::cpu::RESET_VECTOR, next_pc: 0xBFC0_0004, ..old(self)@.cpu },
                ..old(self)@
            }),
    {
        self.cpu.pc = crate::cpu::RESET_VECTOR;
        self.cpu.next_pc = 0xBFC0_0004;
    }

    /// Runs one video frame's worth of steps.
    pub fn run_next_frame(&mut self)
        requires
            old(self).wf(),
        ensures
            final(self).wf(),
            final(self)@ == crate::semantics::run_steps(old(self)@, CYCLES_PER_FRAME as nat),
    {
        let mut total_cycles: usize = 0;
        while total_cycles < CYCLES_PER_FRAME
            invariant
                self.wf(),
                total_cycles <= CYCLES_PER_FRAME,
                crate::semantics::run_steps(old(self)@, CYCLES_PER_FRAME as nat)
                    == crate::semantics::run_steps(self@, (CYCLES_PER_FRAME - total_cycles) as nat),
            decreases CYCLES_PER_FRAME - total_cycles,
        {
            let cycles = crate::cpu::run_cycle(self);
            total_cycles += cycles;
        }
    }
}

} // verus!
