//! The R3000A: register file, the three program counters, the load delay slot,
//! and the execution of one instruction per step.
use vstd::prelude::*;

use crate::cop0::{Exception, COP0};
use crate::disassembler::{register_name, register_name_text};
use crate::instruction::{
    cop0_valid, decode, itype_valid, lemma_decode_valid, rtype_valid, Cop0Operation,
    ITypeOperation, Instruction, JTypeOperation, Operation, RTypeOperation,
};
use crate::playstation::PlayStation;
use crate::semantics::{
    advance, div_result, divu_result, exec_cop0, exec_itype, exec_jtype, exec_op, exec_rtype,
    forwarded, jump_to, load, merge_lwl, merge_lwr, merge_swl, merge_swr, mult_result,
    multu_result, raise, retire, set_reg, step,
};
use crate::text::{hex_text, push_hex, push_str};

verus! {

/// Address of the first instruction after reset.
pub const RESET_VECTOR: u32 = 0xBFC0_0000;

/// What the processor holds.
#[verifier::ext_equal]
pub struct CpuState {
    pub regs: Seq<u32>,
    pub current_pc: u32,
    pub pc: u32,
    pub next_pc: u32,
    pub hi: u32,
    pub lo: u32,
    pub delay_slot: bool,
    pub branch_taken: bool,
    pub load_delay_slot: Option<(usize, u32)>,
    pub committing_load: Option<(usize, u32)>,
    pub cop0: COP0,
}

impl CpuState {
    /// 32 registers, register 0 reads as zero, and a pending load names a register.
    pub open spec fn wf(self) -> bool {
        &&& self.regs.len() == 32
        &&& self.regs[0] == 0
        &&& (self.load_delay_slot matches Some((i, _)) ==> i < 32)
        &&& (self.committing_load matches Some((i, _)) ==> i < 32)
    }

    /// The register file after writing `value` to register `index`; register 0 ignores writes.
    pub open spec fn set_reg(self, index: int, value: u32) -> CpuState {
        if index == 0 {
            self
        } else {
            CpuState { regs: self.regs.update(index, value), ..self }
        }
    }

    /// The processor after the pending load, if any, is written to its register.
    pub open spec fn commit(self, pending: Option<(usize, u32)>) -> CpuState {
        match pending {
            Some((i, v)) => self.set_reg(i as int, v),
            None => self,
        }
    }
}

pub struct Cpu {
    /// General purpose registers; register 0 is always zero.
    pub registers: [u32; 32],
    /// Address of the instruction being executed.
    pub current_pc: u32,
    /// Address of the next instruction to execute.
    pub pc: u32,
    /// Address of the instruction after that.
    pub next_pc: u32,
    pub hi: u32,
    pub lo: u32,
    /// The instruction being executed sits in a branch delay slot.
    pub delay_slot: bool,
    /// The instruction being executed took a branch or jump.
    pub branch_taken: bool,
    /// A load (register, value) waiting to be written at the end of the next step.
    pub load_delay_slot: Option<(usize, u32)>,
    /// While a step runs, the load issued by the previous instruction, which is
    /// written at the end of this step; `None` between steps.
    pub committing_load: Option<(usize, u32)>,
    pub cop0: COP0,
}

impl View for Cpu {
    type V = CpuState;

    open spec fn view(&self) -> CpuState {
        CpuState {
            regs: self.registers@,
            current_pc: self.current_pc,
            pc: self.pc,
            next_pc: self.next_pc,
            hi: self.hi,
            lo: self.lo,
            delay_slot: self.delay_slot,
            branch_taken: self.branch_taken,
            load_delay_slot: self.load_delay_slot,
            committing_load: self.committing_load,
            cop0: self.cop0,
        }
    }
}

/// The processor right after reset: registers zero, about to fetch from the reset vector.
pub open spec fn reset_cpu_state() -> CpuState {
    CpuState {
        regs: Seq::new(32, |i: int| 0u32),
        current_pc: RESET_VECTOR,
        pc: RESET_VECTOR,
        next_pc: 0xBFC0_0004,
        hi: 0,
        lo: 0,
        delay_slot: false,
        branch_taken: false,
        load_delay_slot: None,
        committing_load: None,
        cop0: COP0::zero(),
    }
}

impl Cpu {
    pub fn new() -> (r: Cpu)
        ensures
            r@ == reset_cpu_state(),
            r@.wf(),
    {
        let r = Cpu {
            registers: [0u32; 32],
            current_pc: RESET_VECTOR,
            pc: RESET_VECTOR,
            next_pc: 0xBFC0_0004,
            hi: 0,
            lo: 0,
            delay_slot: false,
            branch_taken: false,
            load_delay_slot: None,
            committing_load: None,
            cop0: COP0::new(),
        };
        assert(r@.regs =~= reset_cpu_state().regs);
        r
    }

    pub fn get_reg(&self, index: usize) -> (r: u32)
        requires
            index < 32,
        ensures
            r == self@.regs[index as int],
    {
        self.registers[index]
    }

    /// Writes `data` to register `index`; a write to register 0 is dropped.
    pub fn set_reg(&mut self, data: u32, index: usize)
        requires
            index < 32,
        ensures
            final(self)@ == old(self)@.set_reg(index as int, data),
    {
        if index == 0 {
            return;
        }
        self.registers[index] = data;
    }

    /// Whether the instruction being executed sits in a branch delay slot.
    pub fn in_delay_slot(&self) -> (r: bool)
        ensures
            r == self.delay_slot,
    {
        self.delay_slot
    }
}


/// Enters the exception `e`: execution goes on at its handler.
fn exception(ps: &mut PlayStation, e: Exception)
    requires
        old(ps).wf(),
    ensures
        final(ps).wf(),
        final(ps)@ == raise(old(ps)@, e),
{
    let handler = crate::cop0::handle_exception(ps, e);
    ps.cpu.pc = handler;
    ps.cpu.next_pc = handler.wrapping_add(4);
}

/// Writes register `index` (dropped for register 0).
fn write_reg(ps: &mut PlayStation, index: u8, value: u32)
    requires
        old(ps).wf(),
        index < 32,
    ensures
        final(ps).wf(),
        final(ps)@ == set_reg(old(ps)@, index, value),
{
    ps.cpu.set_reg(value, index as usize);
}

/// Takes a jump: `target` runs after the delay slot.
fn jump(ps: &mut PlayStation, target: u32)
    requires
        old(ps).wf(),
    ensures
        final(ps).wf(),
        final(ps)@ == jump_to(old(ps)@, target),
{
    ps.cpu.branch_taken = true;
    ps.cpu.next_pc = target;
}

/// Takes a branch `branch` bytes past the delay slot.
fn branch_taken(ps: &mut PlayStation, branch: u32)
    requires
        old(ps).wf(),
    ensures
        final(ps).wf(),
        final(ps)@ == jump_to(old(ps)@, old(ps)@.cpu.pc.wrapping_add(branch)),
{
    ps.cpu.branch_taken = true;
    ps.cpu.next_pc = ps.cpu.pc.wrapping_add(branch);
}

/// Puts a load of `value` into register `rt` in the load delay slot.
fn delayed_load(ps: &mut PlayStation, rt: u8, value: u32)
    requires
        old(ps).wf(),
        rt < 32,
    ensures
        final(ps).wf(),
        final(ps)@ == load(old(ps)@, rt, value),
{
    ps.cpu.load_delay_slot = Some((rt as usize, value));
}

fn set_hi_lo(ps: &mut PlayStation, hi: u32, lo: u32)
    requires
        old(ps).wf(),
    ensures
        final(ps).wf(),
        final(ps)@ == crate::semantics::set_hi_lo(old(ps)@, hi, lo),
{
    ps.cpu.hi = hi;
    ps.cpu.lo = lo;
}

fn mult(a: u32, b: u32) -> (r: (u32, u32))
    ensures
        r == mult_result(a, b),
{
    let x = a as i32 as i64;
    let y = b as i32 as i64;
    assert(-0x8000_0000 <= x <= 0x7fff_ffff && -0x8000_0000 <= y <= 0x7fff_ffff ==> -0x4000_0000_0000_0000
        <= x * y <= 0x4000_0000_0000_0000) by (nonlinear_arith);
    let p = (x * y) as u64;
    ((p >> 32u64) as u32, p as u32)
}

fn multu(a: u32, b: u32) -> (r: (u32, u32))
    ensures
        r == multu_result(a, b),
{
    let x = a as u64;
    let y = b as u64;
    assert(x <= 0xffff_ffff && y <= 0xffff_ffff ==> x * y <= 0xffff_fffe_0000_0001) by (nonlinear_arith);
    let p = x * y;
    ((p >> 32u64) as u32, p as u32)
}

fn div(n: u32, d: u32) -> (r: (u32, u32))
    ensures
        r == div_result(n, d),
{
    if d == 0 {
        (n, if (n as i32) >= 0 { 0xffff_ffffu32 } else { 1u32 })
    } else if n == 0x8000_0000 && d == 0xffff_ffff {
        (0, 0x8000_0000)
    } else {
        match ((n as i32).checked_div(d as i32), (n as i32).checked_rem(d as i32)) {
            (Some(q), Some(r)) => (r as u32, q as u32),
            _ => (0, 0),
        }
    }
}

fn divu(n: u32, d: u32) -> (r: (u32, u32))
    ensures
        r == divu_result(n, d),
{
    if d == 0 {
        (n, 0xffff_ffff)
    } else {
        (n % d, n / d)
    }
}

proof fn lemma_shift_amount(x: u32)
    ensures
        x & 0x1f < 32,
{
    assert(x & 0x1f < 32) by (bit_vector);
}

/// Executes a register-type operation.
pub fn execute_rtype(ps: &mut PlayStation, r_op: RTypeOperation)
    requires
        old(ps).wf(),
        rtype_valid(r_op),
    ensures
        final(ps).wf(),
        final(ps)@ == exec_rtype(old(ps)@, r_op),
{
    match r_op {
        RTypeOperation::SLL { rd, rt, shamt } => {
            let v = ps.cpu.registers[rt as usize] << (shamt as u32);
            write_reg(ps, rd, v);
        },
        RTypeOperation::SRL { rd, rt, shamt } => {
            let v = ps.cpu.registers[rt as usize] >> (shamt as u32);
            write_reg(ps, rd, v);
        },
        RTypeOperation::SRA { rd, rt, shamt } => {
            let v = ((ps.cpu.registers[rt as usize] as i32) >> (shamt as u32)) as u32;
            write_reg(ps, rd, v);
        },
        RTypeOperation::SLLV { rd, rt, rs } => {
            proof { lemma_shift_amount(ps.cpu.registers@[rs as int]); }
            let v = ps.cpu.registers[rt as usize] << (ps.cpu.registers[rs as usize] & 0x1f);
            write_reg(ps, rd, v);
        },
        RTypeOperation::SRLV { rd, rt, rs } => {
            proof { lemma_shift_amount(ps.cpu.registers@[rs as int]); }
            let v = ps.cpu.registers[rt as usize] >> (ps.cpu.registers[rs as usize] & 0x1f);
            write_reg(ps, rd, v);
        },
        RTypeOperation::SRAV { rd, rt, rs } => {
            proof { lemma_shift_amount(ps.cpu.registers@[rs as int]); }
            let v = ((ps.cpu.registers[rt as usize] as i32) >> (ps.cpu.registers[rs as usize]
                & 0x1f)) as u32;
            write_reg(ps, rd, v);
        },
        RTypeOperation::JR { rs } => {
            let target = ps.cpu.registers[rs as usize];
            jump(ps, target);
        },
        RTypeOperation::JALR { rd, rs } => {
            let return_address = ps.cpu.next_pc;
            let target = ps.cpu.registers[rs as usize];
            jump(ps, target);
            write_reg(ps, rd, return_address);
        },
        RTypeOperation::SYSCALL => exception(ps, Exception::SYSCALL),
        RTypeOperation::BREAK => exception(ps, Exception::Breakpoint),
        RTypeOperation::MFHI { rd } => {
            let v = ps.cpu.hi;
            write_reg(ps, rd, v);
        },
        RTypeOperation::MTHI { rs } => {
            let v = ps.cpu.registers[rs as usize];
            let lo = ps.cpu.lo;
            set_hi_lo(ps, v, lo);
        },
        RTypeOperation::MFLO { rd } => {
            let v = ps.cpu.lo;
            write_reg(ps, rd, v);
        },
        RTypeOperation::MTLO { rs } => {
            let v = ps.cpu.registers[rs as usize];
            let hi = ps.cpu.hi;
            set_hi_lo(ps, hi, v);
        },
        RTypeOperation::MULT { rs, rt } => {
            let (hi, lo) = mult(ps.cpu.registers[rs as usize], ps.cpu.registers[rt as usize]);
            set_hi_lo(ps, hi, lo);
        },
        RTypeOperation::MULTU { rs, rt } => {
            let (hi, lo) = multu(ps.cpu.registers[rs as usize], ps.cpu.registers[rt as usize]);
            set_hi_lo(ps, hi, lo);
        },
        RTypeOperation::DIV { rs, rt } => {
            let (hi, lo) = div(ps.cpu.registers[rs as usize], ps.cpu.registers[rt as usize]);
            set_hi_lo(ps, hi, lo);
        },
        RTypeOperation::DIVU { rs, rt } => {
            let (hi, lo) = divu(ps.cpu.registers[rs as usize], ps.cpu.registers[rt as usize]);
            set_hi_lo(ps, hi, lo);
        },
        RTypeOperation::ADD { rd, rs, rt } => {
            let a = ps.cpu.registers[rs as usize] as i32;
            let b = ps.cpu.registers[rt as usize] as i32;
            match a.checked_add(b) {
                Some(r) => write_reg(ps, rd, r as u32),
                None => exception(ps, Exception::Overflow),
            }
        },
        RTypeOperation::ADDU { rd, rs, rt } => {
            let v = ps.cpu.registers[rs as usize].wrapping_add(ps.cpu.registers[rt as usize]);
            write_reg(ps, rd, v);
        },
        RTypeOperation::SUB { rd, rs, rt } => {
            let a = ps.cpu.registers[rs as usize] as i32;
            let b = ps.cpu.registers[rt as usize] as i32;
            match a.checked_sub(b) {
                Some(r) => write_reg(ps, rd, r as u32),
                None => exception(ps, Exception::Overflow),
            }
        },
        RTypeOperation::SUBU { rd, rs, rt } => {
            let v = ps.cpu.registers[rs as usize].wrapping_sub(ps.cpu.registers[rt as usize]);
            write_reg(ps, rd, v);
        },
        RTypeOperation::AND { rd, rs, rt } => {
            let v = ps.cpu.registers[rs as usize] & ps.cpu.registers[rt as usize];
            write_reg(ps, rd, v);
        },
        RTypeOperation::OR { rd, rs, rt } => {
            let v = ps.cpu.registers[rs as usize] | ps.cpu.registers[rt as usize];
            write_reg(ps, rd, v);
        },
        RTypeOperation::XOR { rd, rs, rt } => {
            let v = ps.cpu.registers[rs as usize] ^ ps.cpu.registers[rt as usize];
            write_reg(ps, rd, v);
        },
        RTypeOperation::NOR { rd, rs, rt } => {
            let v = !(ps.cpu.registers[rs as usize] | ps.cpu.registers[rt as usize]);
            write_reg(ps, rd, v);
        },
        RTypeOperation::SLT { rd, rs, rt } => {
            let v: u32 = if (ps.cpu.registers[rs as usize] as i32) < (
            ps.cpu.registers[rt as usize] as i32) {
                1
            } else {
                0
            };
            write_reg(ps, rd, v);
        },
        RTypeOperation::SLTU { rd, rs, rt } => {
            let v: u32 = if ps.cpu.registers[rs as usize] < ps.cpu.registers[rt as usize] {
                1
            } else {
                0
            };
            write_reg(ps, rd, v);
        },
        RTypeOperation::ILLEGAL => exception(ps, Exception::ReservedInstruction),
    }
}


fn lwl_merge(cur: u32, w: u32, k: u32) -> (r: u32)
    ensures
        r == merge_lwl(cur, w, k),
{
    if k == 0 {
        (cur & 0x00ff_ffff) | (w << 24u32)
    } else if k == 1 {
        (cur & 0x0000_ffff) | (w << 16u32)
    } else if k == 2 {
        (cur & 0x0000_00ff) | (w << 8u32)
    } else {
        w
    }
}

fn lwr_merge(cur: u32, w: u32, k: u32) -> (r: u32)
    ensures
        r == merge_lwr(cur, w, k),
{
    if k == 0 {
        w
    } else if k == 1 {
        (cur & 0xff00_0000) | (w >> 8u32)
    } else if k == 2 {
        (cur & 0xffff_0000) | (w >> 16u32)
    } else {
        (cur & 0xffff_ff00) | (w >> 24u32)
    }
}

fn swl_merge(m: u32, v: u32, k: u32) -> (r: u32)
    ensures
        r == merge_swl(m, v, k),
{
    if k == 0 {
        (m & 0xffff_ff00) | (v >> 24u32)
    } else if k == 1 {
        (m & 0xffff_0000) | (v >> 16u32)
    } else if k == 2 {
        (m & 0xff00_0000) | (v >> 8u32)
    } else {
        v
    }
}

fn swr_merge(m: u32, v: u32, k: u32) -> (r: u32)
    ensures
        r == merge_swr(m, v, k),
{
    if k == 0 {
        v
    } else if k == 1 {
        (m & 0x0000_00ff) | (v << 8u32)
    } else if k == 2 {
        (m & 0x0000_ffff) | (v << 16u32)
    } else {
        (m & 0x00ff_ffff) | (v << 24u32)
    }
}

/// Register `rt` with a load of it that commits in this step forwarded.
fn forwarded_reg(ps: &PlayStation, rt: u8) -> (r: u32)
    requires
        ps.wf(),
        rt < 32,
    ensures
        r == forwarded(ps@, rt),
{
    match ps.cpu.committing_load {
        Some((i, v)) => if i == rt as usize {
            v
        } else {
            ps.cpu.registers[rt as usize]
        },
        None => ps.cpu.registers[rt as usize],
    }
}

proof fn lemma_word_aligned(a: u32)
    ensures
        (a & !3u32) % 4 == 0,
{
    assert((a & !3u32) % 4 == 0) by (bit_vector);
}

/// Executes an immediate-type operation: branches, arithmetic with an
/// immediate, loads and stores.
#[verifier::rlimit(50)]
pub fn execute_itype(ps: &mut PlayStation, i_op: ITypeOperation)
    requires
        old(ps).wf(),
        itype_valid(i_op),
    ensures
        final(ps).wf(),
        final(ps)@ == exec_itype(old(ps)@, i_op),
{
    match i_op {
        ITypeOperation::BLTZ { rs, immediate_se } => {
            if (ps.cpu.registers[rs as usize] as i32) < 0 {
                branch_taken(ps, immediate_se << 2u32);
            }
        },
        ITypeOperation::BGEZ { rs, immediate_se } => {
            if (ps.cpu.registers[rs as usize] as i32) >= 0 {
                branch_taken(ps, immediate_se << 2u32);
            }
        },
        ITypeOperation::BLTZAL { rs, immediate_se } => {
            let taken = (ps.cpu.registers[rs as usize] as i32) < 0;
            let return_address = ps.cpu.next_pc;
            write_reg(ps, 31, return_address);
            if taken {
                branch_taken(ps, immediate_se << 2u32);
            }
        },
        ITypeOperation::BGEZAL { rs, immediate_se } => {
            let taken = (ps.cpu.registers[rs as usize] as i32) >= 0;
            let return_address = ps.cpu.next_pc;
            write_reg(ps, 31, return_address);
            if taken {
                branch_taken(ps, immediate_se << 2u32);
            }
        },
        ITypeOperation::BEQ { rs, rt, immediate_se } => {
            if ps.cpu.registers[rs as usize] == ps.cpu.registers[rt as usize] {
                branch_taken(ps, immediate_se << 2u32);
            }
        },
        ITypeOperation::BNE { rs, rt, immediate_se } => {
            if ps.cpu.registers[rs as usize] != ps.cpu.registers[rt as usize] {
                branch_taken(ps, immediate_se << 2u32);
            }
        },
        ITypeOperation::BLEZ { rs, immediate_se } => {
            if (ps.cpu.registers[rs as usize] as i32) <= 0 {
                branch_taken(ps, immediate_se << 2u32);
            }
        },
        ITypeOperation::BGTZ { rs, immediate_se } => {
            if (ps.cpu.registers[rs as usize] as i32) > 0 {
                branch_taken(ps, immediate_se << 2u32);
            }
        },
        ITypeOperation::ADDI { rt, rs, immediate_se } => {
            let a = ps.cpu.registers[rs as usize] as i32;
            match a.checked_add(immediate_se as i32) {
                Some(r) => write_reg(ps, rt, r as u32),
                None => exception(ps, Exception::Overflow),
            }
        },
        ITypeOperation::ADDIU { rt, rs, immediate_se } => {
            let v = ps.cpu.registers[rs as usize].wrapping_add(immediate_se);
            write_reg(ps, rt, v);
        },
        ITypeOperation::SLTI { rt, rs, immediate_se } => {
            let v: u32 = if (ps.cpu.registers[rs as usize] as i32) < (immediate_se as i32) {
                1
            } else {
                0
            };
            write_reg(ps, rt, v);
        },
        ITypeOperation::SLTIU { rt, rs, immediate_se } => {
            let v: u32 = if ps.cpu.registers[rs as usize] < immediate_se {
                1
            } else {
                0
            };
            write_reg(ps, rt, v);
        },
        ITypeOperation::ANDI { rt, rs, immediate } => {
            let v = ps.cpu.registers[rs as usize] & immediate;
            write_reg(ps, rt, v);
        },
        ITypeOperation::ORI { rt, rs, immediate } => {
            let v = ps.cpu.registers[rs as usize] | immediate;
            write_reg(ps, rt, v);
        },
        ITypeOperation::XORI { rt, rs, immediate } => {
            let v = ps.cpu.registers[rs as usize] ^ immediate;
            write_reg(ps, rt, v);
        },
        ITypeOperation::LUI { rt, immediate } => {
            write_reg(ps, rt, immediate << 16u32);
        },
        ITypeOperation::LB { rt, rs, immediate_se } => {
            let address = ps.cpu.registers[rs as usize].wrapping_add(immediate_se);
            let value = ps.read8(address) as i8;
            delayed_load(ps, rt, value as u32);
        },
        ITypeOperation::LBU { rt, rs, immediate_se } => {
            let address = ps.cpu.registers[rs as usize].wrapping_add(immediate_se);
            let value = ps.read8(address);
            delayed_load(ps, rt, value as u32);
        },
        ITypeOperation::LH { rt, rs, immediate_se } => {
            let address = ps.cpu.registers[rs as usize].wrapping_add(immediate_se);
            if address % 2 == 0 {
                let value = ps.read16(address) as i16;
                delayed_load(ps, rt, value as u32);
            } else {
                exception(ps, Exception::AddressErrorLoad);
            }
        },
        ITypeOperation::LHU { rt, rs, immediate_se } => {
            let address = ps.cpu.registers[rs as usize].wrapping_add(immediate_se);
            if address % 2 == 0 {
                let value = ps.read16(address);
                delayed_load(ps, rt, value as u32);
            } else {
                exception(ps, Exception::AddressErrorLoad);
            }
        },
        ITypeOperation::LW { rt, rs, immediate_se } => {
            let address = ps.cpu.registers[rs as usize].wrapping_add(immediate_se);
            if address % 4 == 0 {
                let value = ps.read32(address);
                delayed_load(ps, rt, value);
            } else {
                exception(ps, Exception::AddressErrorLoad);
            }
        },
        ITypeOperation::LWL { rt, rs, immediate_se } => {
            let address = ps.cpu.registers[rs as usize].wrapping_add(immediate_se);
            proof { lemma_word_aligned(address); }
            let cur = forwarded_reg(ps, rt);
            let word = ps.read32(address & !3u32);
            delayed_load(ps, rt, lwl_merge(cur, word, address & 3));
        },
        ITypeOperation::LWR { rt, rs, immediate_se } => {
            let address = ps.cpu.registers[rs as usize].wrapping_add(immediate_se);
            proof { lemma_word_aligned(address); }
            let cur = forwarded_reg(ps, rt);
            let word = ps.read32(address & !3u32);
            delayed_load(ps, rt, lwr_merge(cur, word, address & 3));
        },
        ITypeOperation::SB { rt, rs, immediate_se } => {
            if !ps.cpu.cop0.is_cache_isolated() {
                let address = ps.cpu.registers[rs as usize].wrapping_add(immediate_se);
                let byte = ps.cpu.registers[rt as usize] as u8;
                ps.write8(address, byte);
            }
        },
        ITypeOperation::SH { rt, rs, immediate_se } => {
            if !ps.cpu.cop0.is_cache_isolated() {
                let address = ps.cpu.registers[rs as usize].wrapping_add(immediate_se);
                let half_word = ps.cpu.registers[rt as usize] as u16;
                if address % 2 == 0 {
                    ps.write16(half_word, address);
                } else {
                    exception(ps, Exception::AddressErrorStore);
                }
            }
        },
        ITypeOperation::SW { rt, rs, immediate_se } => {
            if !ps.cpu.cop0.is_cache_isolated() {
                let address = ps.cpu.registers[rs as usize].wrapping_add(immediate_se);
                let word = ps.cpu.registers[rt as usize];
                if address % 4 == 0 {
                    ps.write32(word, address);
                } else {
                    exception(ps, Exception::AddressErrorStore);
                }
            }
        },
        ITypeOperation::SWL { rt, rs, immediate_se } => {
            if !ps.cpu.cop0.is_cache_isolated() {
                let address = ps.cpu.registers[rs as usize].wrapping_add(immediate_se);
                proof { lemma_word_aligned(address); }
                let aligned = address & !3u32;
                let merged = swl_merge(ps.read32(aligned), ps.cpu.registers[rt as usize], address & 3);
                ps.write32(merged, aligned);
            }
        },
        ITypeOperation::SWR { rt, rs, immediate_se } => {
            if !ps.cpu.cop0.is_cache_isolated() {
                let address = ps.cpu.registers[rs as usize].wrapping_add(immediate_se);
                proof { lemma_word_aligned(address); }
                let aligned = address & !3u32;
                let merged = swr_merge(ps.read32(aligned), ps.cpu.registers[rt as usize], address & 3);
                ps.write32(merged, aligned);
            }
        },
        ITypeOperation::ILLEGAL => exception(ps, Exception::ReservedInstruction),
    }
}


/// Executes a jump.
pub fn execute_jtype(ps: &mut PlayStation, j_op: JTypeOperation)
    requires
        old(ps).wf(),
    ensures
        final(ps).wf(),
        final(ps)@ == exec_jtype(old(ps)@, j_op),
{
    match j_op {
        JTypeOperation::J { target } => {
            let t = (ps.cpu.pc & 0xf000_0000) | target;
            jump(ps, t);
        },
        JTypeOperation::JAL { target } => {
            let return_address = ps.cpu.next_pc;
            let t = (ps.cpu.pc & 0xf000_0000) | target;
            jump(ps, t);
            write_reg(ps, 31, return_address);
        },
        JTypeOperation::ILLEGAL => exception(ps, Exception::ReservedInstruction),
    }
}

/// Executes a coprocessor 0 operation.
pub fn execute_cop0(ps: &mut PlayStation, cop0_op: Cop0Operation)
    requires
        old(ps).wf(),
        cop0_valid(cop0_op),
    ensures
        final(ps).wf(),
        final(ps)@ == exec_cop0(old(ps)@, cop0_op),
{
    match cop0_op {
        Cop0Operation::MFC0 { rt, rd } => crate::cop0::mfc0(ps, rt, rd),
        Cop0Operation::MTC0 { rt, rd } => crate::cop0::mtc0(ps, rt, rd),
        Cop0Operation::RFE => crate::cop0::rfe(ps),
        _ => exception(ps, Exception::ReservedInstruction),
    }
}

/// Decodes and executes one instruction word.
pub fn execute(ps: &mut PlayStation, ins: Instruction)
    requires
        old(ps).wf(),
    ensures
        final(ps).wf(),
        final(ps)@ == exec_op(old(ps)@, decode(ins.0)),
{
    proof { lemma_decode_valid(ins.0); }
    match ins.operation() {
        Operation::IType(i_op) => execute_itype(ps, i_op),
        Operation::JType(j_op) => execute_jtype(ps, j_op),
        Operation::RType(r_op) => execute_rtype(ps, r_op),
        Operation::COP0(cop0_op) => execute_cop0(ps, cop0_op),
        Operation::GTE(_) => {},
        Operation::NOOP => {},
        Operation::ILLEGAL => exception(ps, Exception::ReservedInstruction),
    }
}

/// Runs one instruction; every instruction takes one cycle.
pub fn run_cycle(ps: &mut PlayStation) -> (r: usize)
    requires
        old(ps).wf(),
    ensures
        final(ps).wf(),
        final(ps)@ == step(old(ps)@),
        r == 1,
{
    run_instruction(ps);
    1
}

/// One step of the processor: the instruction at `pc` runs, the program
/// counters move on (to a branch target after a delay slot), and the load
/// issued by the previous instruction is written. Register 0 stays zero.
pub fn run_instruction(ps: &mut PlayStation)
    requires
        old(ps).wf(),
    ensures
        final(ps).wf(),
        final(ps)@ == step(old(ps)@),
        final(ps).cpu.registers@[0] == 0,
{
    ps.cpu.current_pc = ps.cpu.pc;
    if ps.cpu.current_pc % 4 != 0 {
        exception(ps, Exception::AddressErrorLoad);
        return;
    }
    ps.cpu.pc = ps.cpu.next_pc;
    ps.cpu.next_pc = ps.cpu.pc.wrapping_add(4);
    ps.cpu.delay_slot = ps.cpu.branch_taken;
    ps.cpu.branch_taken = false;
    ps.cpu.committing_load = ps.cpu.load_delay_slot;
    ps.cpu.load_delay_slot = None;
    assert(ps@ == advance(old(ps)@));
    let ins = fetch(ps, ps.cpu.current_pc);
    execute(ps, ins);
    execute_load_delay(ps);
}

/// The instruction word at `pc`, which must be 4-aligned.
pub fn fetch(ps: &PlayStation, pc: u32) -> (r: Instruction)
    requires
        ps.wf(),
        pc % 4 == 0,
    ensures
        r.0 == ps@.read32(pc),
{
    Instruction(ps.read32(pc))
}

/// Writes the load that commits in this step, if any.
fn execute_load_delay(ps: &mut PlayStation)
    requires
        old(ps).wf(),
    ensures
        final(ps).wf(),
        final(ps)@ == retire(old(ps)@),
{
    if let Some((index, value)) = ps.cpu.committing_load {
        ps.cpu.set_reg(value, index);
    }
    ps.cpu.committing_load = None;
}

/// The register lines of a dump: one `name: value \n` line for each of the
/// first `n` registers, values as eight hexadecimal digits.
pub open spec fn registers_text(regs: Seq<u32>, n: nat) -> Seq<char>
    decreases n,
{
    if n == 0 {
        Seq::empty()
    } else {
        registers_text(regs, (n - 1) as nat) + register_name_text((n - 1) as u8) + ": "@ + hex_text(
            regs[n - 1] as nat,
            8,
            false,
        ) + " \n"@
    }
}

impl Cpu {
    /// A dump of the program counter and the registers.
    pub fn to_string(&self) -> (r: String)
        ensures
            r@ == "pc:"@ + hex_text(self.pc as nat, 8, false) + "\n"@ + registers_text(
                self@.regs,
                32,
            ) + " "@,
    {
        let mut regs = String::new();
        let mut i: usize = 0;
        while i < 32
            invariant
                i <= 32,
                regs@ == registers_text(self@.regs, i as nat),
            decreases 32 - i,
        {
            push_str(&mut regs, register_name(i as u8));
            push_str(&mut regs, ": ");
            push_hex(&mut regs, self.registers[i], 8, false);
            push_str(&mut regs, " \n");
            i = i + 1;
        }
        let mut s = "pc:".to_owned();
        push_hex(&mut s, self.pc, 8, false);
        push_str(&mut s, "\n");
        push_str(&mut s, regs.as_str());
        push_str(&mut s, " ");
        s
    }
}

} // verus!
