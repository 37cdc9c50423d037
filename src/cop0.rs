//! Coprocessor 0: the status, cause and EPC registers and the exception entry sequence.
use vstd::prelude::*;

use crate::cpu::CpuState;
use crate::instruction::Cop0Operation;
use crate::playstation::PlayStation;
use crate::semantics::{exec_cop0, with_cpu};

verus! {

/// Status bit 16: stores do not reach memory.
pub const STATUS_ISOLATE_CACHE: u32 = 0x0001_0000;
/// Status bit 22: exceptions go to the ROM vector.
pub const STATUS_BEV: u32 = 0x0040_0000;
/// Cause bit 31: the last exception hit an instruction in a branch delay slot.
pub const CAUSE_BRANCH_DELAY: u32 = 0x8000_0000;
/// Cause bits 2 to 6: the last exception's code.
pub const CAUSE_EXCODE_MASK: u32 = 0x0000_007c;
/// Exception vector while BEV is set.
pub const ROM_EXCEPTION_VECTOR: u32 = 0xBFC0_0180;
/// Exception vector while BEV is clear.
pub const RAM_EXCEPTION_VECTOR: u32 = 0x8000_0080;

/// Guest exceptions, in the order of their codes (0 to 12).
#[derive(Copy, Clone, PartialEq, Eq, Structural, Debug)]
pub enum Exception {
    Interrupt,
    MOD,
    TLBL,
    TLBS,
    AddressErrorLoad,
    AddressErrorStore,
    BusErrorFetch,
    BusErrorLoad,
    SYSCALL,
    Breakpoint,
    ReservedInstruction,
    CoProcessorUnusable,
    Overflow,
}

/// The code that identifies `e` in the cause register.
pub open spec fn exception_code(e: Exception) -> u32 {
    match e {
        Exception::Interrupt => 0,
        Exception::MOD => 1,
        Exception::TLBL => 2,
        Exception::TLBS => 3,
        Exception::AddressErrorLoad => 4,
        Exception::AddressErrorStore => 5,
        Exception::BusErrorFetch => 6,
        Exception::BusErrorLoad => 7,
        Exception::SYSCALL => 8,
        Exception::Breakpoint => 9,
        Exception::ReservedInstruction => 10,
        Exception::CoProcessorUnusable => 11,
        Exception::Overflow => 12,
    }
}

impl Exception {
    pub fn code(&self) -> (r: u32)
        ensures
            r == exception_code(*self),
            r <= 12,
    {
        match self {
            Exception::Interrupt => 0,
            Exception::MOD => 1,
            Exception::TLBL => 2,
            Exception::TLBS => 3,
            Exception::AddressErrorLoad => 4,
            Exception::AddressErrorStore => 5,
            Exception::BusErrorFetch => 6,
            Exception::BusErrorLoad => 7,
            Exception::SYSCALL => 8,
            Exception::Breakpoint => 9,
            Exception::ReservedInstruction => 10,
            Exception::CoProcessorUnusable => 11,
            Exception::Overflow => 12,
        }
    }
}

/// Status after exception entry: the six-bit (interrupt enable, mode) stack is
/// pushed left by one pair, and the current pair becomes zero.
pub open spec fn push_mode(status: u32) -> u32 {
    (status & !0x3fu32) | (((status & 0x3f) << 2u32) & 0x3f)
}

/// Status after RFE: the stack is popped right by one pair; the oldest pair stays.
pub open spec fn pop_mode(status: u32) -> u32 {
    (status & !0xfu32) | ((status & 0x3f) >> 2u32)
}

/// Cause after an exception with code `code`, in a delay slot or not.
pub open spec fn cause_after(cause: u32, code: u32, in_delay_slot: bool) -> u32 {
    let c = (cause & !CAUSE_EXCODE_MASK) | (code << 2u32);
    if in_delay_slot {
        c | CAUSE_BRANCH_DELAY
    } else {
        c & !CAUSE_BRANCH_DELAY
    }
}

/// EPC after an exception at `current_pc`: in a delay slot it is the branch's address.
pub open spec fn epc_after(current_pc: u32, in_delay_slot: bool) -> u32 {
    if in_delay_slot {
        current_pc.wrapping_sub(4)
    } else {
        current_pc
    }
}

/// Where exceptions go with this status.
pub open spec fn exception_vector(status: u32) -> u32 {
    if status & STATUS_BEV != 0 {
        ROM_EXCEPTION_VECTOR
    } else {
        RAM_EXCEPTION_VECTOR
    }
}

#[derive(Copy, Clone, PartialEq, Eq, Structural, Debug)]
pub struct COP0 {
    /// System status, register 12.
    pub status: u32,
    /// Cause of the last exception, register 13.
    pub cause: u32,
    /// Return address from the last exception, register 14.
    pub epc: u32,
}

impl COP0 {
    pub open spec fn zero() -> COP0 {
        COP0 { status: 0, cause: 0, epc: 0 }
    }

    /// The registers after entering the exception with code `code` at `current_pc`.
    pub open spec fn entered(self, code: u32, current_pc: u32, in_delay_slot: bool) -> COP0 {
        COP0 {
            status: push_mode(self.status),
            cause: cause_after(self.cause, code, in_delay_slot),
            epc: epc_after(current_pc, in_delay_slot),
        }
    }

    pub fn new() -> (r: COP0)
        ensures
            r == COP0::zero(),
    {
        COP0 { status: 0, cause: 0, epc: 0 }
    }

    pub fn get_status(&self) -> (r: u32)
        ensures
            r == self.status,
    {
        self.status
    }

    /// Whether stores are cut off from memory.
    pub fn is_cache_isolated(&self) -> (r: bool)
        ensures
            r == (self.status & STATUS_ISOLATE_CACHE != 0),
    {
        self.status & STATUS_ISOLATE_CACHE != 0
    }

    /// Records an exception with code `code` raised by the instruction at
    /// `current_pc`, and returns the handler's address.
    pub fn enter_exception(&mut self, code: u32, current_pc: u32, in_delay_slot: bool) -> (r: u32)
        requires
            code <= 12,
        ensures
            *final(self) == old(self).entered(code, current_pc, in_delay_slot),
            r == exception_vector(final(self).status),
            r == exception_vector(old(self).status),
    {
        let ghost s0 = self.status;
        let mode = self.status & 0x3f;
        self.status = self.status & !0x3fu32;
        self.status = self.status | ((mode << 2u32) & 0x3f);
        self.cause = self.cause & !CAUSE_EXCODE_MASK;
        self.cause = self.cause | (code << 2u32);
        if in_delay_slot {
            self.epc = current_pc.wrapping_sub(4);
            self.cause = self.cause | CAUSE_BRANCH_DELAY;
        } else {
            self.epc = current_pc;
            self.cause = self.cause & !CAUSE_BRANCH_DELAY;
        }
        assert((push_mode(s0) & STATUS_BEV) == (s0 & STATUS_BEV)) by (bit_vector);
        if self.status & STATUS_BEV != 0 {
            ROM_EXCEPTION_VECTOR
        } else {
            RAM_EXCEPTION_VECTOR
        }
    }

    /// Return from exception: pops the mode stack.
    pub fn rfe(&mut self)
        ensures
            *final(self) == (COP0 { status: pop_mode(old(self).status), ..*old(self) }),
    {
        let mode = self.status & 0x3f;
        self.status = self.status & !0xfu32;
        self.status = self.status | (mode >> 2u32);
    }
}

/// Entering an exception and then returning from it restores the current and
/// previous (interrupt enable, mode) pairs, bits 0 to 3 of status, and leaves
/// every bit above the stack as it was.
pub proof fn lemma_rfe_undoes_exception_push(status: u32)
    ensures
        pop_mode(push_mode(status)) & 0xf == status & 0xf,
        pop_mode(push_mode(status)) & !0x3fu32 == status & !0x3fu32,
{
    assert(((((status & !0x3fu32) | (((status & 0x3f) << 2u32) & 0x3f)) & !0xfu32) | ((((status
        & !0x3fu32) | (((status & 0x3f) << 2u32) & 0x3f)) & 0x3f) >> 2u32)) & 0xf == status & 0xf)
        by (bit_vector);
    assert(((((status & !0x3fu32) | (((status & 0x3f) << 2u32) & 0x3f)) & !0xfu32) | ((((status
        & !0x3fu32) | (((status & 0x3f) << 2u32) & 0x3f)) & 0x3f) >> 2u32)) & !0x3fu32 == status
        & !0x3fu32) by (bit_vector);
}

/// Records the exception `exception` for the instruction at `current_pc` and
/// returns the address of its handler: the mode stack is pushed, the cause
/// records the code and whether the instruction sat in a delay slot, and EPC
/// points at the instruction (or at its branch).
pub fn handle_exception(ps: &mut PlayStation, exception: Exception) -> (r: u32)
    requires
        old(ps).wf(),
    ensures
        final(ps).wf(),
        final(ps)@ == with_cpu(
            old(ps)@,
            CpuState {
                cop0: old(ps)@.cpu.cop0.entered(
                    exception_code(exception),
                    old(ps)@.cpu.current_pc,
                    old(ps)@.cpu.delay_slot,
                ),
                ..old(ps)@.cpu
            },
        ),
        r == exception_vector(old(ps)@.cpu.cop0.status),
{
    let pc = ps.cpu.current_pc;
    let in_delay_slot = ps.cpu.in_delay_slot();
    let code = exception.code();
    ps.cpu.cop0.enter_exception(code, pc, in_delay_slot)
}

/// Return from exception: pops the mode stack of status.
pub fn rfe(ps: &mut PlayStation)
    requires
        old(ps).wf(),
    ensures
        final(ps).wf(),
        final(ps)@ == exec_cop0(old(ps)@, Cop0Operation::RFE),
{
    ps.cpu.cop0.rfe();
}

/// Move to coprocessor 0: register 12 (status) and 13 (cause) take the value of
/// `rt` at once; writes to other registers are ignored.
pub fn mtc0(ps: &mut PlayStation, rt: u8, rd: u8)
    requires
        old(ps).wf(),
        rt < 32,
    ensures
        final(ps).wf(),
        final(ps)@ == exec_cop0(old(ps)@, Cop0Operation::MTC0 { rt, rd }),
{
    if rd == 12 {
        ps.cpu.cop0.status = ps.cpu.registers[rt as usize];
    } else if rd == 13 {
        ps.cpu.cop0.cause = ps.cpu.registers[rt as usize];
    }
}

/// Move from coprocessor 0: status, cause and EPC reach `rt` through the load
/// delay slot; reads of other registers give nothing.
pub fn mfc0(ps: &mut PlayStation, rt: u8, rd: u8)
    requires
        old(ps).wf(),
        rt < 32,
    ensures
        final(ps).wf(),
        final(ps)@ == exec_cop0(old(ps)@, Cop0Operation::MFC0 { rt, rd }),
{
    if rd == 12 {
        ps.cpu.load_delay_slot = Some((rt as usize, ps.cpu.cop0.status));
    } else if rd == 13 {
        ps.cpu.load_delay_slot = Some((rt as usize, ps.cpu.cop0.cause));
    } else if rd == 14 {
        ps.cpu.load_delay_slot = Some((rt as usize, ps.cpu.cop0.epc));
    }
}

} // verus!
