//! What one instruction, and one step of the processor, do to the console.
use vstd::prelude::*;

use crate::cop0::{
    cause_after, exception_code, exception_vector, pop_mode, Exception, CAUSE_BRANCH_DELAY, COP0,
    STATUS_ISOLATE_CACHE,
};
use crate::cpu::CpuState;
use crate::instruction::{
    decode, Cop0Operation, ITypeOperation, JTypeOperation, Operation, RTypeOperation,
};
use crate::playstation::PsState;

verus! {

/// Register `i`.
pub open spec fn reg(s: PsState, i: u8) -> u32 {
    s.cpu.regs[i as int]
}

pub open spec fn with_cpu(s: PsState, c: CpuState) -> PsState {
    PsState { cpu: c, ..s }
}

/// `s` after writing `v` to register `i` (dropped for register 0).
pub open spec fn set_reg(s: PsState, i: u8, v: u32) -> PsState {
    with_cpu(s, s.cpu.set_reg(i as int, v))
}

pub open spec fn set_hi_lo(s: PsState, hi: u32, lo: u32) -> PsState {
    with_cpu(s, CpuState { hi, lo, ..s.cpu })
}

/// `s` after the exception `e`: COP0 records it, and execution goes on at the handler.
pub open spec fn raise(s: PsState, e: Exception) -> PsState {
    let v = exception_vector(s.cpu.cop0.status);
    with_cpu(
        s,
        CpuState {
            cop0: s.cpu.cop0.entered(exception_code(e), s.cpu.current_pc, s.cpu.delay_slot),
            pc: v,
            next_pc: v.wrapping_add(4),
            ..s.cpu
        },
    )
}

/// `s` after a taken jump to `target`: it runs after the delay slot.
pub open spec fn jump_to(s: PsState, target: u32) -> PsState {
    with_cpu(s, CpuState { branch_taken: true, next_pc: target, ..s.cpu })
}

/// Where a branch with sign-extended offset `offset` goes: relative to the delay slot.
pub open spec fn branch_target(s: PsState, offset: u32) -> u32 {
    s.cpu.pc.wrapping_add(offset << 2u32)
}

pub open spec fn branch_if(s: PsState, cond: bool, offset: u32) -> PsState {
    if cond {
        jump_to(s, branch_target(s, offset))
    } else {
        s
    }
}

/// `s` with a load of `v` into register `rt` waiting in the delay slot.
pub open spec fn load(s: PsState, rt: u8, v: u32) -> PsState {
    with_cpu(s, CpuState { load_delay_slot: Some((rt as usize, v)), ..s.cpu })
}

/// The value of register `rt` as a partial-word load sees it: a load of that
/// register committing in this step is forwarded.
pub open spec fn forwarded(s: PsState, rt: u8) -> u32 {
    match s.cpu.committing_load {
        Some((i, v)) => if i == rt as usize {
            v
        } else {
            reg(s, rt)
        },
        None => reg(s, rt),
    }
}

pub open spec fn isolated(s: PsState) -> bool {
    s.cpu.cop0.status & STATUS_ISOLATE_CACHE != 0
}

/// LWL: the high bytes of `cur` replaced by the low bytes of the aligned word `w`.
pub open spec fn merge_lwl(cur: u32, w: u32, k: u32) -> u32 {
    if k == 0 {
        (cur & 0x00ff_ffff) | (w << 24u32)
    } else if k == 1 {
        (cur & 0x0000_ffff) | (w << 16u32)
    } else if k == 2 {
        (cur & 0x0000_00ff) | (w << 8u32)
    } else {
        w
    }
}

/// LWR: the low bytes of `cur` replaced by the high bytes of the aligned word `w`.
pub open spec fn merge_lwr(cur: u32, w: u32, k: u32) -> u32 {
    if k == 0 {
        w
    } else if k == 1 {
        (cur & 0xff00_0000) | (w >> 8u32)
    } else if k == 2 {
        (cur & 0xffff_0000) | (w >> 16u32)
    } else {
        (cur & 0xffff_ff00) | (w >> 24u32)
    }
}

/// SWL: the word stored over the aligned memory word `m` for register value `v`.
pub open spec fn merge_swl(m: u32, v: u32, k: u32) -> u32 {
    if k == 0 {
        (m & 0xffff_ff00) | (v >> 24u32)
    } else if k == 1 {
        (m & 0xffff_0000) | (v >> 16u32)
    } else if k == 2 {
        (m & 0xff00_0000) | (v >> 8u32)
    } else {
        v
    }
}

/// SWR: the word stored over the aligned memory word `m` for register value `v`.
pub open spec fn merge_swr(m: u32, v: u32, k: u32) -> u32 {
    if k == 0 {
        v
    } else if k == 1 {
        (m & 0x0000_00ff) | (v << 8u32)
    } else if k == 2 {
        (m & 0x0000_ffff) | (v << 16u32)
    } else {
        (m & 0x00ff_ffff) | (v << 24u32)
    }
}

/// (hi, lo) after DIV of `n` by `d`.
pub open spec fn div_result(n: u32, d: u32) -> (u32, u32) {
    if d == 0 {
        (n, if (n as i32) >= 0 { 0xffff_ffffu32 } else { 1u32 })
    } else if n == 0x8000_0000 && d == 0xffff_ffff {
        (0, 0x8000_0000)
    } else {
        match ((n as i32).checked_div(d as i32), (n as i32).checked_rem(d as i32)) {
            (Some(q), Some(r)) => (r as u32, q as u32),
            _ => (0, 0),
        }
    }
}

/// (hi, lo) after DIVU of `n` by `d`.
pub open spec fn divu_result(n: u32, d: u32) -> (u32, u32) {
    if d == 0 {
        (n, 0xffff_ffff)
    } else {
        (n % d, n / d)
    }
}

/// The signed 64-bit product of two words, as (hi, lo).
pub open spec fn mult_result(a: u32, b: u32) -> (u32, u32) {
    let p = ((a as i32) * (b as i32)) as i64 as u64;
    ((p >> 32u64) as u32, p as u32)
}

/// The unsigned 64-bit product of two words, as (hi, lo).
pub open spec fn multu_result(a: u32, b: u32) -> (u32, u32) {
    let p = ((a as u64) * (b as u64)) as u64;
    ((p >> 32u64) as u32, p as u32)
}

pub open spec fn exec_rtype(s: PsState, op: RTypeOperation) -> PsState {
    match op {
        RTypeOperation::SLL { rd, rt, shamt } => set_reg(s, rd, reg(s, rt) << (shamt as u32)),
        RTypeOperation::SRL { rd, rt, shamt } => set_reg(s, rd, reg(s, rt) >> (shamt as u32)),
        RTypeOperation::SRA { rd, rt, shamt } => set_reg(
            s,
            rd,
            ((reg(s, rt) as i32) >> (shamt as u32)) as u32,
        ),
        RTypeOperation::SLLV { rd, rt, rs } => set_reg(s, rd, reg(s, rt) << (reg(s, rs) & 0x1f)),
        RTypeOperation::SRLV { rd, rt, rs } => set_reg(s, rd, reg(s, rt) >> (reg(s, rs) & 0x1f)),
        RTypeOperation::SRAV { rd, rt, rs } => set_reg(
            s,
            rd,
            ((reg(s, rt) as i32) >> (reg(s, rs) & 0x1f)) as u32,
        ),
        RTypeOperation::JR { rs } => jump_to(s, reg(s, rs)),
        RTypeOperation::JALR { rd, rs } => set_reg(jump_to(s, reg(s, rs)), rd, s.cpu.next_pc),
        RTypeOperation::SYSCALL => raise(s, Exception::SYSCALL),
        RTypeOperation::BREAK => raise(s, Exception::Breakpoint),
        RTypeOperation::MFHI { rd } => set_reg(s, rd, s.cpu.hi),
        RTypeOperation::MTHI { rs } => set_hi_lo(s, reg(s, rs), s.cpu.lo),
        RTypeOperation::MFLO { rd } => set_reg(s, rd, s.cpu.lo),
        RTypeOperation::MTLO { rs } => set_hi_lo(s, s.cpu.hi, reg(s, rs)),
        RTypeOperation::MULT { rs, rt } => {
            let (hi, lo) = mult_result(reg(s, rs), reg(s, rt));
            set_hi_lo(s, hi, lo)
        },
        RTypeOperation::MULTU { rs, rt } => {
            let (hi, lo) = multu_result(reg(s, rs), reg(s, rt));
            set_hi_lo(s, hi, lo)
        },
        RTypeOperation::DIV { rs, rt } => {
            let (hi, lo) = div_result(reg(s, rs), reg(s, rt));
            set_hi_lo(s, hi, lo)
        },
        RTypeOperation::DIVU { rs, rt } => {
            let (hi, lo) = divu_result(reg(s, rs), reg(s, rt));
            set_hi_lo(s, hi, lo)
        },
        RTypeOperation::ADD { rd, rs, rt } => match (reg(s, rs) as i32).checked_add(
            reg(s, rt) as i32,
        ) {
            Some(r) => set_reg(s, rd, r as u32),
            None => raise(s, Exception::Overflow),
        },
        RTypeOperation::ADDU { rd, rs, rt } => set_reg(s, rd, reg(s, rs).wrapping_add(reg(s, rt))),
        RTypeOperation::SUB { rd, rs, rt } => match (reg(s, rs) as i32).checked_sub(
            reg(s, rt) as i32,
        ) {
            Some(r) => set_reg(s, rd, r as u32),
            None => raise(s, Exception::Overflow),
        },
        RTypeOperation::SUBU { rd, rs, rt } => set_reg(s, rd, reg(s, rs).wrapping_sub(reg(s, rt))),
        RTypeOperation::AND { rd, rs, rt } => set_reg(s, rd, reg(s, rs) & reg(s, rt)),
        RTypeOperation::OR { rd, rs, rt } => set_reg(s, rd, reg(s, rs) | reg(s, rt)),
        RTypeOperation::XOR { rd, rs, rt } => set_reg(s, rd, reg(s, rs) ^ reg(s, rt)),
        RTypeOperation::NOR { rd, rs, rt } => set_reg(s, rd, !(reg(s, rs) | reg(s, rt))),
        RTypeOperation::SLT { rd, rs, rt } => set_reg(
            s,
            rd,
            if (reg(s, rs) as i32) < (reg(s, rt) as i32) {
                1
            } else {
                0
            },
        ),
        RTypeOperation::SLTU { rd, rs, rt } => set_reg(
            s,
            rd,
            if reg(s, rs) < reg(s, rt) {
                1
            } else {
                0
            },
        ),
        RTypeOperation::ILLEGAL => raise(s, Exception::ReservedInstruction),
    }
}

/// Effective address of a load or store.
pub open spec fn effective(s: PsState, rs: u8, offset: u32) -> u32 {
    reg(s, rs).wrapping_add(offset)
}

pub open spec fn exec_itype(s: PsState, op: ITypeOperation) -> PsState {
    match op {
        ITypeOperation::BLTZ { rs, immediate_se } => branch_if(
            s,
            (reg(s, rs) as i32) < 0,
            immediate_se,
        ),
        ITypeOperation::BGEZ { rs, immediate_se } => branch_if(
            s,
            (reg(s, rs) as i32) >= 0,
            immediate_se,
        ),
        ITypeOperation::BLTZAL { rs, immediate_se } => branch_if(
            set_reg(s, 31, s.cpu.next_pc),
            (reg(s, rs) as i32) < 0,
            immediate_se,
        ),
        ITypeOperation::BGEZAL { rs, immediate_se } => branch_if(
            set_reg(s, 31, s.cpu.next_pc),
            (reg(s, rs) as i32) >= 0,
            immediate_se,
        ),
        ITypeOperation::BEQ { rs, rt, immediate_se } => branch_if(
            s,
            reg(s, rs) == reg(s, rt),
            immediate_se,
        ),
        ITypeOperation::BNE { rs, rt, immediate_se } => branch_if(
            s,
            reg(s, rs) != reg(s, rt),
            immediate_se,
        ),
        ITypeOperation::BLEZ { rs, immediate_se } => branch_if(
            s,
            (reg(s, rs) as i32) <= 0,
            immediate_se,
        ),
        ITypeOperation::BGTZ { rs, immediate_se } => branch_if(
            s,
            (reg(s, rs) as i32) > 0,
            immediate_se,
        ),
        ITypeOperation::ADDI { rt, rs, immediate_se } => match (reg(s, rs) as i32).checked_add(
            immediate_se as i32,
        ) {
            Some(r) => set_reg(s, rt, r as u32),
            None => raise(s, Exception::Overflow),
        },
        ITypeOperation::ADDIU { rt, rs, immediate_se } => set_reg(
            s,
            rt,
            reg(s, rs).wrapping_add(immediate_se),
        ),
        ITypeOperation::SLTI { rt, rs, immediate_se } => set_reg(
            s,
            rt,
            if (reg(s, rs) as i32) < (immediate_se as i32) {
                1
            } else {
                0
            },
        ),
        ITypeOperation::SLTIU { rt, rs, immediate_se } => set_reg(
            s,
            rt,
            if reg(s, rs) < immediate_se {
                1
            } else {
                0
            },
        ),
        ITypeOperation::ANDI { rt, rs, immediate } => set_reg(s, rt, reg(s, rs) & immediate),
        ITypeOperation::ORI { rt, rs, immediate } => set_reg(s, rt, reg(s, rs) | immediate),
        ITypeOperation::XORI { rt, rs, immediate } => set_reg(s, rt, reg(s, rs) ^ immediate),
        ITypeOperation::LUI { rt, immediate } => set_reg(s, rt, immediate << 16u32),
        ITypeOperation::LB { rt, rs, immediate_se } => load(
            s,
            rt,
            (s.read8(effective(s, rs, immediate_se)) as i8) as u32,
        ),
        ITypeOperation::LBU { rt, rs, immediate_se } => load(
            s,
            rt,
            s.read8(effective(s, rs, immediate_se)) as u32,
        ),
        ITypeOperation::LH { rt, rs, immediate_se } => {
            let a = effective(s, rs, immediate_se);
            if a % 2 == 0 {
                load(s, rt, (s.read16(a) as i16) as u32)
            } else {
                raise(s, Exception::AddressErrorLoad)
            }
        },
        ITypeOperation::LHU { rt, rs, immediate_se } => {
            let a = effective(s, rs, immediate_se);
            if a % 2 == 0 {
                load(s, rt, s.read16(a) as u32)
            } else {
                raise(s, Exception::AddressErrorLoad)
            }
        },
        ITypeOperation::LW { rt, rs, immediate_se } => {
            let a = effective(s, rs, immediate_se);
            if a % 4 == 0 {
                load(s, rt, s.read32(a))
            } else {
                raise(s, Exception::AddressErrorLoad)
            }
        },
        ITypeOperation::LWL { rt, rs, immediate_se } => {
            let a = effective(s, rs, immediate_se);
            load(s, rt, merge_lwl(forwarded(s, rt), s.read32(a & !3u32), a & 3))
        },
        ITypeOperation::LWR { rt, rs, immediate_se } => {
            let a = effective(s, rs, immediate_se);
            load(s, rt, merge_lwr(forwarded(s, rt), s.read32(a & !3u32), a & 3))
        },
        ITypeOperation::SB { rt, rs, immediate_se } => if isolated(s) {
            s
        } else {
            s.write8(effective(s, rs, immediate_se), reg(s, rt) as u8)
        },
        ITypeOperation::SH { rt, rs, immediate_se } => {
            let a = effective(s, rs, immediate_se);
            if isolated(s) {
                s
            } else if a % 2 == 0 {
                s.write16(a, reg(s, rt) as u16)
            } else {
                raise(s, Exception::AddressErrorStore)
            }
        },
        ITypeOperation::SW { rt, rs, immediate_se } => {
            let a = effective(s, rs, immediate_se);
            if isolated(s) {
                s
            } else if a % 4 == 0 {
                s.write32(a, reg(s, rt))
            } else {
                raise(s, Exception::AddressErrorStore)
            }
        },
        ITypeOperation::SWL { rt, rs, immediate_se } => {
            let a = effective(s, rs, immediate_se);
            if isolated(s) {
                s
            } else {
                s.write32(a & !3u32, merge_swl(s.read32(a & !3u32), reg(s, rt), a & 3))
            }
        },
        ITypeOperation::SWR { rt, rs, immediate_se } => {
            let a = effective(s, rs, immediate_se);
            if isolated(s) {
                s
            } else {
                s.write32(a & !3u32, merge_swr(s.read32(a & !3u32), reg(s, rt), a & 3))
            }
        },
        ITypeOperation::ILLEGAL => raise(s, Exception::ReservedInstruction),
    }
}

/// Where a J or JAL goes: the 256 MiB region of the delay slot.
pub open spec fn jump_target(s: PsState, target: u32) -> u32 {
    (s.cpu.pc & 0xf000_0000) | target
}

pub open spec fn exec_jtype(s: PsState, op: JTypeOperation) -> PsState {
    match op {
        JTypeOperation::J { target } => jump_to(s, jump_target(s, target)),
        JTypeOperation::JAL { target } => set_reg(
            jump_to(s, jump_target(s, target)),
            31,
            s.cpu.next_pc,
        ),
        JTypeOperation::ILLEGAL => raise(s, Exception::ReservedInstruction),
    }
}

pub open spec fn with_cop0(s: PsState, c: COP0) -> PsState {
    with_cpu(s, CpuState { cop0: c, ..s.cpu })
}

pub open spec fn exec_cop0(s: PsState, op: Cop0Operation) -> PsState {
    match op {
        Cop0Operation::MFC0 { rt, rd } => if rd == 12 {
            load(s, rt, s.cpu.cop0.status)
        } else if rd == 13 {
            load(s, rt, s.cpu.cop0.cause)
        } else if rd == 14 {
            load(s, rt, s.cpu.cop0.epc)
        } else {
            s
        },
        Cop0Operation::MTC0 { rt, rd } => if rd == 12 {
            with_cop0(s, COP0 { status: reg(s, rt), ..s.cpu.cop0 })
        } else if rd == 13 {
            with_cop0(s, COP0 { cause: reg(s, rt), ..s.cpu.cop0 })
        } else {
            s
        },
        Cop0Operation::RFE => with_cop0(
            s,
            COP0 { status: pop_mode(s.cpu.cop0.status), ..s.cpu.cop0 },
        ),
        _ => raise(s, Exception::ReservedInstruction),
    }
}

/// What executing the decoded `op` does. Coprocessor 2 (GTE) operations do
/// nothing; encodings that name no operation raise a reserved-instruction exception.
pub open spec fn exec_op(s: PsState, op: Operation) -> PsState {
    match op {
        Operation::RType(r) => exec_rtype(s, r),
        Operation::IType(i) => exec_itype(s, i),
        Operation::JType(j) => exec_jtype(s, j),
        Operation::COP0(c) => exec_cop0(s, c),
        Operation::GTE(_) => s,
        Operation::NOOP => s,
        Operation::ILLEGAL => raise(s, Exception::ReservedInstruction),
    }
}

/// The console before executing the instruction at `s.cpu.pc`: the program
/// counters have moved on, the delay-slot flag is set from the last branch, and
/// the last instruction's load is committing.
pub open spec fn advance(s: PsState) -> PsState {
    with_cpu(
        s,
        CpuState {
            current_pc: s.cpu.pc,
            pc: s.cpu.next_pc,
            next_pc: s.cpu.next_pc.wrapping_add(4),
            delay_slot: s.cpu.branch_taken,
            branch_taken: false,
            committing_load: s.cpu.load_delay_slot,
            load_delay_slot: None,
            ..s.cpu
        },
    )
}

/// The console after the committing load has been written.
pub open spec fn retire(s: PsState) -> PsState {
    with_cpu(s, CpuState { committing_load: None, ..s.cpu.commit(s.cpu.committing_load) })
}

/// One step: fetch, decode and execute the instruction at `pc`, then commit the
/// previous instruction's load. A misaligned `pc` raises an address error instead.
pub open spec fn step(s: PsState) -> PsState {
    if s.cpu.pc % 4 != 0 {
        raise(with_cpu(s, CpuState { current_pc: s.cpu.pc, ..s.cpu }), Exception::AddressErrorLoad)
    } else {
        let a = advance(s);
        retire(exec_op(a, decode(s.read32(s.cpu.pc))))
    }
}

/// The offset of `op` if it is a conditional branch whose condition holds in `s`.
pub open spec fn taken_offset(s: PsState, op: ITypeOperation) -> Option<u32> {
    match op {
        ITypeOperation::BLTZ { rs, immediate_se } => if (reg(s, rs) as i32) < 0 {
            Some(immediate_se)
        } else {
            None
        },
        ITypeOperation::BGEZ { rs, immediate_se } => if (reg(s, rs) as i32) >= 0 {
            Some(immediate_se)
        } else {
            None
        },
        ITypeOperation::BLTZAL { rs, immediate_se } => if (reg(s, rs) as i32) < 0 {
            Some(immediate_se)
        } else {
            None
        },
        ITypeOperation::BGEZAL { rs, immediate_se } => if (reg(s, rs) as i32) >= 0 {
            Some(immediate_se)
        } else {
            None
        },
        ITypeOperation::BEQ { rs, rt, immediate_se } => if reg(s, rs) == reg(s, rt) {
            Some(immediate_se)
        } else {
            None
        },
        ITypeOperation::BNE { rs, rt, immediate_se } => if reg(s, rs) != reg(s, rt) {
            Some(immediate_se)
        } else {
            None
        },
        ITypeOperation::BLEZ { rs, immediate_se } => if (reg(s, rs) as i32) <= 0 {
            Some(immediate_se)
        } else {
            None
        },
        ITypeOperation::BGTZ { rs, immediate_se } => if (reg(s, rs) as i32) > 0 {
            Some(immediate_se)
        } else {
            None
        },
        _ => None,
    }
}

/// Operations that only compute into registers, HI or LO: they never jump and never raise.
pub open spec fn is_plain(op: Operation) -> bool {
    match op {
        Operation::RType(r) => match r {
            RTypeOperation::SLL { .. } | RTypeOperation::SRL { .. } | RTypeOperation::SRA { .. }
            | RTypeOperation::SLLV { .. } | RTypeOperation::SRLV { .. } | RTypeOperation::SRAV {
                ..
            } | RTypeOperation::MFHI { .. } | RTypeOperation::MTHI { .. } | RTypeOperation::MFLO {
                ..
            } | RTypeOperation::MTLO { .. } | RTypeOperation::MULT { .. } | RTypeOperation::MULTU {
                ..
            } | RTypeOperation::DIV { .. } | RTypeOperation::DIVU { .. } | RTypeOperation::ADDU {
                ..
            } | RTypeOperation::SUBU { .. } | RTypeOperation::AND { .. } | RTypeOperation::OR {
                ..
            } | RTypeOperation::XOR { .. } | RTypeOperation::NOR { .. } | RTypeOperation::SLT {
                ..
            } | RTypeOperation::SLTU { .. } => true,
            _ => false,
        },
        Operation::IType(i) => match i {
            ITypeOperation::ADDIU { .. } | ITypeOperation::SLTI { .. } | ITypeOperation::SLTIU {
                ..
            } | ITypeOperation::ANDI { .. } | ITypeOperation::ORI { .. } | ITypeOperation::XORI {
                ..
            } | ITypeOperation::LUI { .. } => true,
            _ => false,
        },
        Operation::NOOP => true,
        _ => false,
    }
}

/// Store operations.
pub open spec fn is_store(op: Operation) -> bool {
    match op {
        Operation::IType(i) => match i {
            ITypeOperation::SB { .. } | ITypeOperation::SH { .. } | ITypeOperation::SW { .. }
            | ITypeOperation::SWL { .. } | ITypeOperation::SWR { .. } => true,
            _ => false,
        },
        _ => false,
    }
}

proof fn lemma_plain_keeps_flow(s: PsState, op: Operation)
    requires
        is_plain(op),
    ensures
        exec_op(s, op).cpu.current_pc == s.cpu.current_pc,
        exec_op(s, op).cpu.pc == s.cpu.pc,
        exec_op(s, op).cpu.next_pc == s.cpu.next_pc,
        exec_op(s, op).cpu.delay_slot == s.cpu.delay_slot,
        exec_op(s, op).cpu.committing_load == s.cpu.committing_load,
{
}

/// The code field (bits 2 to 6) and the branch-delay bit (31) of the cause
/// register after an exception hold the code and whether it hit a delay slot.
pub proof fn lemma_cause_fields(cause: u32, code: u32, in_delay_slot: bool)
    requires
        code < 32,
    ensures
        (cause_after(cause, code, in_delay_slot) >> 2u32) & 0x1f == code,
        (cause_after(cause, code, in_delay_slot) & CAUSE_BRANCH_DELAY != 0) == in_delay_slot,
{
    let c = (cause & !0x7cu32) | (code << 2u32);
    assert(code < 32 ==> ((((cause & !0x7cu32) | (code << 2u32)) | 0x8000_0000u32) >> 2u32) & 0x1f
        == code) by (bit_vector);
    assert(code < 32 ==> ((((cause & !0x7cu32) | (code << 2u32)) & !0x8000_0000u32) >> 2u32) & 0x1f
        == code) by (bit_vector);
    assert((c | 0x8000_0000u32) & 0x8000_0000u32 != 0) by (bit_vector);
    assert((c & !0x8000_0000u32) & 0x8000_0000u32 == 0) by (bit_vector);
}

/// The step that executes a taken branch: only the program counters and the
/// branch flag change, besides the link register and committing the last load.
proof fn lemma_branch_step(s: PsState, op: ITypeOperation, o: u32)
    requires
        s.wf(),
        s.cpu.pc % 4 == 0,
        decode(s.read32(s.cpu.pc)) == Operation::IType(op),
        taken_offset(s, op) == Some(o),
    ensures
        step(s).cpu.pc == s.cpu.next_pc,
        step(s).cpu.next_pc == s.cpu.next_pc.wrapping_add(o << 2u32),
        step(s).cpu.branch_taken,
        step(s).ram == s.ram && step(s).bios == s.bios && step(s).spu == s.spu
            && step(s).mem_ctrl == s.mem_ctrl && step(s).dma == s.dma && step(s).irq == s.irq
            && step(s).gpu == s.gpu && step(s).exp2 == s.exp2 && step(s).mem_ctrl_2
            == s.mem_ctrl_2 && step(s).cache_ctrl == s.cache_ctrl,
{
    let a = advance(s);
    assert(a.read32(s.cpu.pc) == s.read32(s.cpu.pc));
    assert(step(s) == retire(exec_itype(a, op)));
}

/// A step that executes a plain computation hands on to `next_pc` and takes the
/// delay-slot flag from the last branch.
proof fn lemma_plain_step(s: PsState)
    requires
        s.cpu.pc % 4 == 0,
        is_plain(decode(s.read32(s.cpu.pc))),
    ensures
        step(s).cpu.current_pc == s.cpu.pc,
        step(s).cpu.pc == s.cpu.next_pc,
        step(s).cpu.delay_slot == s.cpu.branch_taken,
{
    let a = advance(s);
    assert(a.read32(s.cpu.pc) == s.read32(s.cpu.pc));
    lemma_plain_keeps_flow(a, decode(s.read32(s.cpu.pc)));
}

/// Every step starts by latching the program counter it executes.
proof fn lemma_step_current_pc(s: PsState)
    ensures
        step(s).cpu.current_pc == s.cpu.pc,
{
    if s.cpu.pc % 4 == 0 {
        let a = advance(s);
        let op = decode(s.read32(s.cpu.pc));
        assert(exec_op(a, op).cpu.current_pc == a.cpu.current_pc);
    }
}

/// A taken branch at a 4-aligned `p` (not itself in a delay slot) with
/// sign-extended offset `o`: the next step runs the delay slot at `p + 4`,
/// and when that instruction is a plain computation, the step after it runs
/// the branch target `p + 4 + (o << 2)`.
pub proof fn lemma_taken_branch_runs_delay_slot_first(s: PsState, op: ITypeOperation, o: u32)
    requires
        s.wf(),
        s.cpu.pc % 4 == 0,
        s.cpu.next_pc == s.cpu.pc.wrapping_add(4),
        decode(s.read32(s.cpu.pc)) == Operation::IType(op),
        taken_offset(s, op) == Some(o),
        is_plain(decode(s.read32(s.cpu.pc.wrapping_add(4)))),
    ensures
        step(s).cpu.pc == s.cpu.pc.wrapping_add(4),
        step(s).cpu.next_pc == s.cpu.pc.wrapping_add(4).wrapping_add(o << 2u32),
        step(s).cpu.branch_taken,
        step(step(s)).cpu.current_pc == s.cpu.pc.wrapping_add(4),
        step(step(s)).cpu.delay_slot,
        step(step(s)).cpu.pc == s.cpu.pc.wrapping_add(4).wrapping_add(o << 2u32),
        step(step(step(s))).cpu.current_pc == s.cpu.pc.wrapping_add(4).wrapping_add(o << 2u32),
{
    let p = s.cpu.pc;
    lemma_branch_step(s, op, o);
    let s1 = step(s);
    assert(s1.read32(p.wrapping_add(4)) == s.read32(p.wrapping_add(4)));
    assert(p % 4 == 0 ==> p.wrapping_add(4) % 4 == 0) by (bit_vector);
    lemma_plain_step(s1);
    lemma_step_current_pc(step(s1));
}

/// A word load immediately followed by an ADDI to the same register: after
/// both steps the register holds the loaded word, not the sum, since the
/// load commits after the ADDI.
pub proof fn lemma_load_wins_over_next_write(s: PsState, rt: u8, rs: u8, off: u32, k: u32)
    requires
        s.wf(),
        s.cpu.pc % 4 == 0,
        s.cpu.next_pc == s.cpu.pc.wrapping_add(4),
        decode(s.read32(s.cpu.pc)) == Operation::IType(
            ITypeOperation::LW { rt, rs, immediate_se: off },
        ),
        decode(s.read32(s.cpu.pc.wrapping_add(4))) == Operation::IType(
            ITypeOperation::ADDI { rt, rs: rt, immediate_se: k },
        ),
        rt != 0,
        effective(s, rs, off) % 4 == 0,
    ensures
        step(step(s)).cpu.regs[rt as int] == s.read32(effective(s, rs, off)),
{
    let p = s.cpu.pc;
    crate::instruction::lemma_decode_valid(s.read32(p));
    crate::instruction::lemma_decode_valid(s.read32(p.wrapping_add(4)));
    let a = advance(s);
    let s1 = step(s);
    assert(s1 == retire(exec_itype(a, ITypeOperation::LW { rt, rs, immediate_se: off })));
    assert(s1.ram == s.ram && s1.bios == s.bios && s1.spu == s.spu && s1.mem_ctrl == s.mem_ctrl
        && s1.dma == s.dma && s1.irq == s.irq && s1.gpu == s.gpu && s1.exp2 == s.exp2
        && s1.mem_ctrl_2 == s.mem_ctrl_2 && s1.cache_ctrl == s.cache_ctrl);
    assert(s1.cpu.load_delay_slot == Some((rt as usize, s.read32(effective(s, rs, off)))));
    assert(p % 4 == 0 ==> p.wrapping_add(4) % 4 == 0) by (bit_vector);
    assert(s1.read32(p.wrapping_add(4)) == s.read32(p.wrapping_add(4)));
}

/// ADD whose signed sum overflows, outside a delay slot and with no load
/// pending: no register changes, execution goes to the exception vector, EPC
/// holds the ADD's address, and the cause records code 12 and no delay slot.
pub proof fn lemma_add_overflow_traps(s: PsState, rd: u8, rs: u8, rt: u8)
    requires
        s.wf(),
        s.cpu.pc % 4 == 0,
        !s.cpu.branch_taken,
        s.cpu.load_delay_slot is None,
        decode(s.read32(s.cpu.pc)) == Operation::RType(RTypeOperation::ADD { rd, rs, rt }),
        (reg(s, rs) as i32) + (reg(s, rt) as i32) > i32::MAX || (reg(s, rs) as i32) + (reg(
            s,
            rt,
        ) as i32) < i32::MIN,
    ensures
        step(s).cpu.regs == s.cpu.regs,
        step(s).cpu.pc == exception_vector(s.cpu.cop0.status),
        step(s).cpu.cop0.epc == s.cpu.pc,
        (step(s).cpu.cop0.cause >> 2u32) & 0x1f == 12,
        step(s).cpu.cop0.cause & CAUSE_BRANCH_DELAY == 0,
{
    let a = advance(s);
    assert(step(s) == retire(exec_rtype(a, RTypeOperation::ADD { rd, rs, rt })));
    lemma_cause_fields(s.cpu.cop0.cause, 12, false);
}

/// While the cache is isolated, a store step leaves RAM as it was.
pub proof fn lemma_isolated_store_keeps_ram(s: PsState)
    requires
        s.wf(),
        isolated(s),
        is_store(decode(s.read32(s.cpu.pc))),
    ensures
        step(s).ram == s.ram,
{
    if s.cpu.pc % 4 == 0 {
        let a = advance(s);
        assert(isolated(a));
    }
}

/// The console after `n` steps.
pub open spec fn run_steps(s: PsState, n: nat) -> PsState
    decreases n,
{
    if n == 0 {
        s
    } else {
        run_steps(step(s), (n - 1) as nat)
    }
}

/// Running at most `budget` steps from `s`, stopping after the first step that
/// lands on an address in `breakpoints`: the console at the end, and whether a
/// breakpoint stopped it.
pub open spec fn run_until_breakpoint(s: PsState, breakpoints: Set<u32>, budget: nat) -> (PsState, bool)
    decreases budget,
{
    if budget == 0 {
        (s, false)
    } else if breakpoints.contains(step(s).cpu.pc) {
        (step(s), true)
    } else {
        run_until_breakpoint(step(s), breakpoints, (budget - 1) as nat)
    }
}

} // verus!
