//! Decoding of 32-bit R3000A instruction words into operations.
use vstd::prelude::*;

verus! {

/// Bits 31..26: the primary opcode.
pub open spec fn op_of(w: u32) -> u32 {
    w >> 26u32
}

/// Bits 5..0: the function of a register-type instruction.
pub open spec fn funct_of(w: u32) -> u32 {
    w & 0x3f
}

/// Bits 25..21.
pub open spec fn rs_of(w: u32) -> u8 {
    ((w >> 21u32) & 0x1f) as u8
}

/// Bits 20..16.
pub open spec fn rt_of(w: u32) -> u8 {
    ((w >> 16u32) & 0x1f) as u8
}

/// Bits 15..11.
pub open spec fn rd_of(w: u32) -> u8 {
    ((w >> 11u32) & 0x1f) as u8
}

/// Bits 10..6.
pub open spec fn shamt_of(w: u32) -> u8 {
    ((w >> 6u32) & 0x1f) as u8
}

/// Bits 15..0, zero-extended.
pub open spec fn imm_of(w: u32) -> u32 {
    w & 0xffff
}

/// Bits 15..0, sign-extended to 32 bits.
pub open spec fn imm_se_of(w: u32) -> u32 {
    ((w & 0xffff) as u16) as i16 as u32
}

/// Bits 25..0 shifted left by two: the low 28 bits of a jump target.
pub open spec fn target_of(w: u32) -> u32 {
    (w & 0x3ff_ffff) << 2u32
}

pub proof fn lemma_fields_bounded(w: u32)
    ensures
        rs_of(w) < 32,
        rt_of(w) < 32,
        rd_of(w) < 32,
        shamt_of(w) < 32,
        op_of(w) < 64,
        funct_of(w) < 64,
{
    assert(((w >> 21u32) & 0x1f) < 32 && ((w >> 16u32) & 0x1f) < 32 && ((w >> 11u32) & 0x1f) < 32
        && ((w >> 6u32) & 0x1f) < 32 && (w >> 26u32) < 64 && (w & 0x3f) < 64) by (bit_vector);
}

#[derive(Copy, Clone, PartialEq, Eq, Structural, Debug)]
pub enum RTypeOperation {
    SLL { rd: u8, rt: u8, shamt: u8 },
    SRL { rd: u8, rt: u8, shamt: u8 },
    SRA { rd: u8, rt: u8, shamt: u8 },
    SLLV { rd: u8, rt: u8, rs: u8 },
    SRLV { rd: u8, rt: u8, rs: u8 },
    SRAV { rd: u8, rt: u8, rs: u8 },
    JR { rs: u8 },
    JALR { rd: u8, rs: u8 },
    SYSCALL,
    BREAK,
    MFHI { rd: u8 },
    MTHI { rs: u8 },
    MFLO { rd: u8 },
    MTLO { rs: u8 },
    MULT { rs: u8, rt: u8 },
    MULTU { rs: u8, rt: u8 },
    DIV { rs: u8, rt: u8 },
    DIVU { rs: u8, rt: u8 },
    ADD { rd: u8, rs: u8, rt: u8 },
    ADDU { rd: u8, rs: u8, rt: u8 },
    SUB { rd: u8, rs: u8, rt: u8 },
    SUBU { rd: u8, rs: u8, rt: u8 },
    AND { rd: u8, rs: u8, rt: u8 },
    OR { rd: u8, rs: u8, rt: u8 },
    XOR { rd: u8, rs: u8, rt: u8 },
    NOR { rd: u8, rs: u8, rt: u8 },
    SLT { rd: u8, rs: u8, rt: u8 },
    SLTU { rd: u8, rs: u8, rt: u8 },
    ILLEGAL,
}

#[derive(Copy, Clone, PartialEq, Eq, Structural, Debug)]
pub enum ITypeOperation {
    BLTZ { rs: u8, immediate_se: u32 },
    BGEZ { rs: u8, immediate_se: u32 },
    BLTZAL { rs: u8, immediate_se: u32 },
    BGEZAL { rs: u8, immediate_se: u32 },
    BEQ { rs: u8, rt: u8, immediate_se: u32 },
    BNE { rs: u8, rt: u8, immediate_se: u32 },
    BLEZ { rs: u8, immediate_se: u32 },
    BGTZ { rs: u8, immediate_se: u32 },
    ADDI { rt: u8, rs: u8, immediate_se: u32 },
    ADDIU { rt: u8, rs: u8, immediate_se: u32 },
    SLTI { rt: u8, rs: u8, immediate_se: u32 },
    SLTIU { rt: u8, rs: u8, immediate_se: u32 },
    ANDI { rt: u8, rs: u8, immediate: u32 },
    ORI { rt: u8, rs: u8, immediate: u32 },
    XORI { rt: u8, rs: u8, immediate: u32 },
    LUI { rt: u8, immediate: u32 },
    LB { rt: u8, rs: u8, immediate_se: u32 },
    LH { rt: u8, rs: u8, immediate_se: u32 },
    LWL { rt: u8, rs: u8, immediate_se: u32 },
    LW { rt: u8, rs: u8, immediate_se: u32 },
    LBU { rt: u8, rs: u8, immediate_se: u32 },
    LHU { rt: u8, rs: u8, immediate_se: u32 },
    LWR { rt: u8, rs: u8, immediate_se: u32 },
    SB { rt: u8, rs: u8, immediate_se: u32 },
    SH { rt: u8, rs: u8, immediate_se: u32 },
    SWL { rt: u8, rs: u8, immediate_se: u32 },
    SW { rt: u8, rs: u8, immediate_se: u32 },
    SWR { rt: u8, rs: u8, immediate_se: u32 },
    ILLEGAL,
}

#[derive(Copy, Clone, PartialEq, Eq, Structural, Debug)]
pub enum JTypeOperation {
    J { target: u32 },
    JAL { target: u32 },
    ILLEGAL,
}

#[derive(Copy, Clone, PartialEq, Eq, Structural, Debug)]
pub enum Cop0Operation {
    MFC0 { rt: u8, rd: u8 },
    MTC0 { rt: u8, rd: u8 },
    RFE,
    COP0 { copfun: u32 },
    ILLEGAL,
}

#[derive(Copy, Clone, PartialEq, Eq, Structural, Debug)]
pub enum GTEOperation {
    MFC2 { rt: u8, rd: u8 },
    CFC2 { rt: u8, rd: u8 },
    MTC2 { rt: u8, rd: u8 },
    CTC2 { rt: u8, rd: u8 },
    LWC2 { rt: u8, rs: u8, immediate_se: u32 },
    SWC2 { rt: u8, rs: u8, immediate_se: u32 },
    GTE,
    ILLEGAL,
}

#[derive(Copy, Clone, PartialEq, Eq, Structural, Debug)]
pub enum Operation {
    RType(RTypeOperation),
    IType(ITypeOperation),
    JType(JTypeOperation),
    COP0(Cop0Operation),
    GTE(GTEOperation),
    NOOP,
    ILLEGAL,
}

/// The register-type operation selected by the function field.
pub open spec fn decode_special(w: u32) -> RTypeOperation {
    let f = funct_of(w);
    let rd = rd_of(w);
    let rt = rt_of(w);
    let rs = rs_of(w);
    let shamt = shamt_of(w);
    if f == 0x00 {
        RTypeOperation::SLL { rd, rt, shamt }
    } else if f == 0x02 {
        RTypeOperation::SRL { rd, rt, shamt }
    } else if f == 0x03 {
        RTypeOperation::SRA { rd, rt, shamt }
    } else if f == 0x04 {
        RTypeOperation::SLLV { rd, rt, rs }
    } else if f == 0x06 {
        RTypeOperation::SRLV { rd, rt, rs }
    } else if f == 0x07 {
        RTypeOperation::SRAV { rd, rt, rs }
    } else if f == 0x08 {
        RTypeOperation::JR { rs }
    } else if f == 0x09 {
        RTypeOperation::JALR { rd, rs }
    } else if f == 0x0C {
        RTypeOperation::SYSCALL
    } else if f == 0x0D {
        RTypeOperation::BREAK
    } else if f == 0x10 {
        RTypeOperation::MFHI { rd }
    } else if f == 0x11 {
        RTypeOperation::MTHI { rs }
    } else if f == 0x12 {
        RTypeOperation::MFLO { rd }
    } else if f == 0x13 {
        RTypeOperation::MTLO { rs }
    } else if f == 0x18 {
        RTypeOperation::MULT { rs, rt }
    } else if f == 0x19 {
        RTypeOperation::MULTU { rs, rt }
    } else if f == 0x1A {
        RTypeOperation::DIV { rs, rt }
    } else if f == 0x1B {
        RTypeOperation::DIVU { rs, rt }
    } else if f == 0x20 {
        RTypeOperation::ADD { rs, rt, rd }
    } else if f == 0x21 {
        RTypeOperation::ADDU { rs, rt, rd }
    } else if f == 0x22 {
        RTypeOperation::SUB { rs, rt, rd }
    } else if f == 0x23 {
        RTypeOperation::SUBU { rs, rt, rd }
    } else if f == 0x24 {
        RTypeOperation::AND { rs, rt, rd }
    } else if f == 0x25 {
        RTypeOperation::OR { rs, rt, rd }
    } else if f == 0x26 {
        RTypeOperation::XOR { rs, rt, rd }
    } else if f == 0x27 {
        RTypeOperation::NOR { rs, rt, rd }
    } else if f == 0x2A {
        RTypeOperation::SLT { rs, rt, rd }
    } else if f == 0x2B {
        RTypeOperation::SLTU { rs, rt, rd }
    } else {
        RTypeOperation::ILLEGAL
    }
}

/// The branch selected by the rt field of a REGIMM instruction.
pub open spec fn decode_regimm(w: u32) -> ITypeOperation {
    let rs = rs_of(w);
    let immediate_se = imm_se_of(w);
    let rt = rt_of(w);
    if rt == 0x00 {
        ITypeOperation::BLTZ { rs, immediate_se }
    } else if rt == 0x01 {
        ITypeOperation::BGEZ { rs, immediate_se }
    } else if rt == 0x10 {
        ITypeOperation::BLTZAL { rs, immediate_se }
    } else if rt == 0x11 {
        ITypeOperation::BGEZAL { rs, immediate_se }
    } else {
        ITypeOperation::ILLEGAL
    }
}

/// The immediate-type operation of primary opcode `op` (not 0, 1, 2, 3, 0x10, 0x12, 0x32, 0x3A).
pub open spec fn decode_immediate(w: u32) -> ITypeOperation {
    let op = op_of(w);
    let rs = rs_of(w);
    let rt = rt_of(w);
    let immediate = imm_of(w);
    let immediate_se = imm_se_of(w);
    if op == 0x04 {
        ITypeOperation::BEQ { rs, rt, immediate_se }
    } else if op == 0x05 {
        ITypeOperation::BNE { rs, rt, immediate_se }
    } else if op == 0x06 {
        ITypeOperation::BLEZ { rs, immediate_se }
    } else if op == 0x07 {
        ITypeOperation::BGTZ { rs, immediate_se }
    } else if op == 0x08 {
        ITypeOperation::ADDI { rt, rs, immediate_se }
    } else if op == 0x09 {
        ITypeOperation::ADDIU { rt, rs, immediate_se }
    } else if op == 0x0A {
        ITypeOperation::SLTI { rt, rs, immediate_se }
    } else if op == 0x0B {
        ITypeOperation::SLTIU { rt, rs, immediate_se }
    } else if op == 0x0C {
        ITypeOperation::ANDI { rt, rs, immediate }
    } else if op == 0x0D {
        ITypeOperation::ORI { rt, rs, immediate }
    } else if op == 0x0E {
        ITypeOperation::XORI { rt, rs, immediate }
    } else if op == 0x0F {
        ITypeOperation::LUI { rt, immediate }
    } else if op == 0x20 {
        ITypeOperation::LB { rt, rs, immediate_se }
    } else if op == 0x21 {
        ITypeOperation::LH { rt, rs, immediate_se }
    } else if op == 0x22 {
        ITypeOperation::LWL { rt, rs, immediate_se }
    } else if op == 0x23 {
        ITypeOperation::LW { rt, rs, immediate_se }
    } else if op == 0x24 {
        ITypeOperation::LBU { rt, rs, immediate_se }
    } else if op == 0x25 {
        ITypeOperation::LHU { rt, rs, immediate_se }
    } else if op == 0x26 {
        ITypeOperation::LWR { rt, rs, immediate_se }
    } else if op == 0x28 {
        ITypeOperation::SB { rt, rs, immediate_se }
    } else if op == 0x29 {
        ITypeOperation::SH { rt, rs, immediate_se }
    } else if op == 0x2A {
        ITypeOperation::SWL { rt, rs, immediate_se }
    } else if op == 0x2B {
        ITypeOperation::SW { rt, rs, immediate_se }
    } else if op == 0x2E {
        ITypeOperation::SWR { rt, rs, immediate_se }
    } else {
        ITypeOperation::ILLEGAL
    }
}

/// The coprocessor 0 operation selected by the rs field.
pub open spec fn decode_cop0(w: u32) -> Cop0Operation {
    let rs = rs_of(w);
    if rs == 0x00 {
        Cop0Operation::MFC0 { rt: rt_of(w), rd: rd_of(w) }
    } else if rs == 0x04 {
        Cop0Operation::MTC0 { rt: rt_of(w), rd: rd_of(w) }
    } else if rs == 0x10 && funct_of(w) == 0x10 {
        Cop0Operation::RFE
    } else {
        Cop0Operation::ILLEGAL
    }
}

/// The coprocessor 2 operation: bit 25 marks a GTE command, otherwise rs selects a move.
pub open spec fn decode_cop2(w: u32) -> GTEOperation {
    let rs = rs_of(w);
    let rt = rt_of(w);
    let rd = rd_of(w);
    if (w >> 25u32) & 1 == 1 {
        GTEOperation::GTE
    } else if rs == 0x00 {
        GTEOperation::MFC2 { rt, rd }
    } else if rs == 0x02 {
        GTEOperation::CFC2 { rt, rd }
    } else if rs == 0x04 {
        GTEOperation::MTC2 { rt, rd }
    } else if rs == 0x06 {
        GTEOperation::CTC2 { rt, rd }
    } else {
        GTEOperation::ILLEGAL
    }
}

/// Whether primary opcode `op` is one that `decode_immediate` handles.
pub open spec fn is_immediate_opcode(op: u32) -> bool {
    (0x04 <= op <= 0x0F) || (0x20 <= op <= 0x26) || (0x28 <= op <= 0x2B) || op == 0x2E
}

/// The operation that the word `w` encodes.
pub open spec fn decode(w: u32) -> Operation {
    let op = op_of(w);
    if w == 0 {
        Operation::NOOP
    } else if op == 0x00 {
        Operation::RType(decode_special(w))
    } else if op == 0x01 {
        Operation::IType(decode_regimm(w))
    } else if op == 0x02 {
        Operation::JType(JTypeOperation::J { target: target_of(w) })
    } else if op == 0x03 {
        Operation::JType(JTypeOperation::JAL { target: target_of(w) })
    } else if is_immediate_opcode(op) {
        Operation::IType(decode_immediate(w))
    } else if op == 0x10 {
        Operation::COP0(decode_cop0(w))
    } else if op == 0x12 {
        Operation::GTE(decode_cop2(w))
    } else if op == 0x32 {
        Operation::GTE(
            GTEOperation::LWC2 { rt: rt_of(w), rs: rs_of(w), immediate_se: imm_se_of(w) },
        )
    } else if op == 0x3A {
        Operation::GTE(
            GTEOperation::SWC2 { rt: rt_of(w), rs: rs_of(w), immediate_se: imm_se_of(w) },
        )
    } else {
        Operation::ILLEGAL
    }
}

/// Register numbers (and shift amounts) of `op` are below 32.
pub open spec fn rtype_valid(op: RTypeOperation) -> bool {
    match op {
        RTypeOperation::SLL { rd, rt, shamt } => rd < 32 && rt < 32 && shamt < 32,
        RTypeOperation::SRL { rd, rt, shamt } => rd < 32 && rt < 32 && shamt < 32,
        RTypeOperation::SRA { rd, rt, shamt } => rd < 32 && rt < 32 && shamt < 32,
        RTypeOperation::SLLV { rd, rt, rs } => rd < 32 && rt < 32 && rs < 32,
        RTypeOperation::SRLV { rd, rt, rs } => rd < 32 && rt < 32 && rs < 32,
        RTypeOperation::SRAV { rd, rt, rs } => rd < 32 && rt < 32 && rs < 32,
        RTypeOperation::JR { rs } => rs < 32,
        RTypeOperation::JALR { rd, rs } => rd < 32 && rs < 32,
        RTypeOperation::MFHI { rd } => rd < 32,
        RTypeOperation::MTHI { rs } => rs < 32,
        RTypeOperation::MFLO { rd } => rd < 32,
        RTypeOperation::MTLO { rs } => rs < 32,
        RTypeOperation::MULT { rs, rt } => rs < 32 && rt < 32,
        RTypeOperation::MULTU { rs, rt } => rs < 32 && rt < 32,
        RTypeOperation::DIV { rs, rt } => rs < 32 && rt < 32,
        RTypeOperation::DIVU { rs, rt } => rs < 32 && rt < 32,
        RTypeOperation::ADD { rd, rs, rt } => rd < 32 && rs < 32 && rt < 32,
        RTypeOperation::ADDU { rd, rs, rt } => rd < 32 && rs < 32 && rt < 32,
        RTypeOperation::SUB { rd, rs, rt } => rd < 32 && rs < 32 && rt < 32,
        RTypeOperation::SUBU { rd, rs, rt } => rd < 32 && rs < 32 && rt < 32,
        RTypeOperation::AND { rd, rs, rt } => rd < 32 && rs < 32 && rt < 32,
        RTypeOperation::OR { rd, rs, rt } => rd < 32 && rs < 32 && rt < 32,
        RTypeOperation::XOR { rd, rs, rt } => rd < 32 && rs < 32 && rt < 32,
        RTypeOperation::NOR { rd, rs, rt } => rd < 32 && rs < 32 && rt < 32,
        RTypeOperation::SLT { rd, rs, rt } => rd < 32 && rs < 32 && rt < 32,
        RTypeOperation::SLTU { rd, rs, rt } => rd < 32 && rs < 32 && rt < 32,
        _ => true,
    }
}

/// Register numbers of `op` are below 32.
pub open spec fn itype_valid(op: ITypeOperation) -> bool {
    match op {
        ITypeOperation::BLTZ { rs, .. } => rs < 32,
        ITypeOperation::BGEZ { rs, .. } => rs < 32,
        ITypeOperation::BLTZAL { rs, .. } => rs < 32,
        ITypeOperation::BGEZAL { rs, .. } => rs < 32,
        ITypeOperation::BEQ { rs, rt, .. } => rs < 32 && rt < 32,
        ITypeOperation::BNE { rs, rt, .. } => rs < 32 && rt < 32,
        ITypeOperation::BLEZ { rs, .. } => rs < 32,
        ITypeOperation::BGTZ { rs, .. } => rs < 32,
        ITypeOperation::ADDI { rt, rs, .. } => rt < 32 && rs < 32,
        ITypeOperation::ADDIU { rt, rs, .. } => rt < 32 && rs < 32,
        ITypeOperation::SLTI { rt, rs, .. } => rt < 32 && rs < 32,
        ITypeOperation::SLTIU { rt, rs, .. } => rt < 32 && rs < 32,
        ITypeOperation::ANDI { rt, rs, .. } => rt < 32 && rs < 32,
        ITypeOperation::ORI { rt, rs, .. } => rt < 32 && rs < 32,
        ITypeOperation::XORI { rt, rs, .. } => rt < 32 && rs < 32,
        ITypeOperation::LUI { rt, .. } => rt < 32,
        ITypeOperation::LB { rt, rs, .. } => rt < 32 && rs < 32,
        ITypeOperation::LH { rt, rs, .. } => rt < 32 && rs < 32,
        ITypeOperation::LWL { rt, rs, .. } => rt < 32 && rs < 32,
        ITypeOperation::LW { rt, rs, .. } => rt < 32 && rs < 32,
        ITypeOperation::LBU { rt, rs, .. } => rt < 32 && rs < 32,
        ITypeOperation::LHU { rt, rs, .. } => rt < 32 && rs < 32,
        ITypeOperation::LWR { rt, rs, .. } => rt < 32 && rs < 32,
        ITypeOperation::SB { rt, rs, .. } => rt < 32 && rs < 32,
        ITypeOperation::SH { rt, rs, .. } => rt < 32 && rs < 32,
        ITypeOperation::SWL { rt, rs, .. } => rt < 32 && rs < 32,
        ITypeOperation::SW { rt, rs, .. } => rt < 32 && rs < 32,
        ITypeOperation::SWR { rt, rs, .. } => rt < 32 && rs < 32,
        ITypeOperation::ILLEGAL => true,
    }
}

/// Register numbers of `op` are below 32.
pub open spec fn cop0_valid(op: Cop0Operation) -> bool {
    match op {
        Cop0Operation::MFC0 { rt, rd } => rt < 32 && rd < 32,
        Cop0Operation::MTC0 { rt, rd } => rt < 32 && rd < 32,
        _ => true,
    }
}

pub struct Instruction(pub u32);

impl Instruction {
    /// The primary opcode, bits 31..26.
    pub fn op(&self) -> (r: u32)
        ensures
            r == op_of(self.0),
    {
        self.0 >> 26u32
    }

    /// The function field, bits 5..0.
    pub fn funct(&self) -> (r: u32)
        ensures
            r == funct_of(self.0),
    {
        self.0 & 0x3f
    }

    pub fn rs(&self) -> (r: u8)
        ensures
            r == rs_of(self.0),
            r < 32,
    {
        proof { lemma_fields_bounded(self.0); }
        ((self.0 >> 21u32) & 0x1f) as u8
    }

    pub fn rt(&self) -> (r: u8)
        ensures
            r == rt_of(self.0),
            r < 32,
    {
        proof { lemma_fields_bounded(self.0); }
        ((self.0 >> 16u32) & 0x1f) as u8
    }

    pub fn rd(&self) -> (r: u8)
        ensures
            r == rd_of(self.0),
            r < 32,
    {
        proof { lemma_fields_bounded(self.0); }
        ((self.0 >> 11u32) & 0x1f) as u8
    }

    pub fn shamt(&self) -> (r: u8)
        ensures
            r == shamt_of(self.0),
            r < 32,
    {
        proof { lemma_fields_bounded(self.0); }
        ((self.0 >> 6u32) & 0x1f) as u8
    }

    /// Bits 15..0, zero-extended.
    pub fn immediate(&self) -> (r: u32)
        ensures
            r == imm_of(self.0),
    {
        self.0 & 0xffff
    }

    /// Bits 15..0 as a halfword.
    pub fn offset(&self) -> (r: u16)
        ensures
            r == (self.0 & 0xffff) as u16,
    {
        (self.0 & 0xffff) as u16
    }

    /// Bits 15..0, sign-extended.
    pub fn offset_singed_ext(&self) -> (r: u32)
        ensures
            r == imm_se_of(self.0),
    {
        ((self.0 & 0xffff) as u16) as i16 as u32
    }

    /// Bits 15..0, sign-extended.
    pub fn immediate_sign_ext(&self) -> (r: u32)
        ensures
            r == imm_se_of(self.0),
    {
        ((self.0 & 0xffff) as u16) as i16 as u32
    }

    /// The coprocessor number, bits 27..26.
    pub fn cop_number(&self) -> (r: u32)
        ensures
            r == (self.0 & 0x0c00_0000) >> 26u32,
    {
        (self.0 & 0x0c00_0000) >> 26u32
    }

    /// The REGIMM selector, bits 20..16.
    pub fn reg_imm(&self) -> (r: u32)
        ensures
            r == (self.0 & 0x001f_0000) >> 16u32,
    {
        (self.0 & 0x001f_0000) >> 16u32
    }

    /// The jump target's low 28 bits.
    pub fn target(&self) -> (r: u32)
        ensures
            r == target_of(self.0),
    {
        (self.0 & 0x3ff_ffff) << 2u32
    }

    /// The whole word.
    pub fn all(&self) -> (r: u32)
        ensures
            r == self.0,
    {
        self.0
    }

    /// The coprocessor function, bits 24..0.
    pub fn cofun(&self) -> (r: u32)
        ensures
            r == self.0 & 0x01ff_ffff,
    {
        self.0 & 0x01ff_ffff
    }

    fn special(&self) -> (r: RTypeOperation)
        ensures
            r == decode_special(self.0),
    {
        let f = self.funct();
        let rd = self.rd();
        let rt = self.rt();
        let rs = self.rs();
        let shamt = self.shamt();
        if f == 0x00 {
            RTypeOperation::SLL { rd, rt, shamt }
        } else if f == 0x02 {
            RTypeOperation::SRL { rd, rt, shamt }
        } else if f == 0x03 {
            RTypeOperation::SRA { rd, rt, shamt }
        } else if f == 0x04 {
            RTypeOperation::SLLV { rd, rt, rs }
        } else if f == 0x06 {
            RTypeOperation::SRLV { rd, rt, rs }
        } else if f == 0x07 {
            RTypeOperation::SRAV { rd, rt, rs }
        } else if f == 0x08 {
            RTypeOperation::JR { rs }
        } else if f == 0x09 {
            RTypeOperation::JALR { rd, rs }
        } else if f == 0x0C {
            RTypeOperation::SYSCALL
        } else if f == 0x0D {
            RTypeOperation::BREAK
        } else if f == 0x10 {
            RTypeOperation::MFHI { rd }
        } else if f == 0x11 {
            RTypeOperation::MTHI { rs }
        } else if f == 0x12 {
            RTypeOperation::MFLO { rd }
        } else if f == 0x13 {
            RTypeOperation::MTLO { rs }
        } else if f == 0x18 {
            RTypeOperation::MULT { rs, rt }
        } else if f == 0x19 {
            RTypeOperation::MULTU { rs, rt }
        } else if f == 0x1A {
            RTypeOperation::DIV { rs, rt }
        } else if f == 0x1B {
            RTypeOperation::DIVU { rs, rt }
        } else if f == 0x20 {
            RTypeOperation::ADD { rs, rt, rd }
        } else if f == 0x21 {
            RTypeOperation::ADDU { rs, rt, rd }
        } else if f == 0x22 {
            RTypeOperation::SUB { rs, rt, rd }
        } else if f == 0x23 {
            RTypeOperation::SUBU { rs, rt, rd }
        } else if f == 0x24 {
            RTypeOperation::AND { rs, rt, rd }
        } else if f == 0x25 {
            RTypeOperation::OR { rs, rt, rd }
        } else if f == 0x26 {
            RTypeOperation::XOR { rs, rt, rd }
        } else if f == 0x27 {
            RTypeOperation::NOR { rs, rt, rd }
        } else if f == 0x2A {
            RTypeOperation::SLT { rs, rt, rd }
        } else if f == 0x2B {
            RTypeOperation::SLTU { rs, rt, rd }
        } else {
            RTypeOperation::ILLEGAL
        }
    }

    fn regimm(&self) -> (r: ITypeOperation)
        ensures
            r == decode_regimm(self.0),
    {
        let rs = self.rs();
        let immediate_se = self.immediate_sign_ext();
        let rt = self.rt();
        if rt == 0x00 {
            ITypeOperation::BLTZ { rs, immediate_se }
        } else if rt == 0x01 {
            ITypeOperation::BGEZ { rs, immediate_se }
        } else if rt == 0x10 {
            ITypeOperation::BLTZAL { rs, immediate_se }
        } else if rt == 0x11 {
            ITypeOperation::BGEZAL { rs, immediate_se }
        } else {
            ITypeOperation::ILLEGAL
        }
    }

    fn immediate_type(&self) -> (r: ITypeOperation)
        ensures
            r == decode_immediate(self.0),
    {
        let op = self.op();
        let rs = self.rs();
        let rt = self.rt();
        let immediate = self.immediate();
        let immediate_se = self.immediate_sign_ext();
        if op == 0x04 {
            ITypeOperation::BEQ { rs, rt, immediate_se }
        } else if op == 0x05 {
            ITypeOperation::BNE { rs, rt, immediate_se }
        } else if op == 0x06 {
            ITypeOperation::BLEZ { rs, immediate_se }
        } else if op == 0x07 {
            ITypeOperation::BGTZ { rs, immediate_se }
        } else if op == 0x08 {
            ITypeOperation::ADDI { rt, rs, immediate_se }
        } else if op == 0x09 {
            ITypeOperation::ADDIU { rt, rs, immediate_se }
        } else if op == 0x0A {
            ITypeOperation::SLTI { rt, rs, immediate_se }
        } else if op == 0x0B {
            ITypeOperation::SLTIU { rt, rs, immediate_se }
        } else if op == 0x0C {
            ITypeOperation::ANDI { rt, rs, immediate }
        } else if op == 0x0D {
            ITypeOperation::ORI { rt, rs, immediate }
        } else if op == 0x0E {
            ITypeOperation::XORI { rt, rs, immediate }
        } else if op == 0x0F {
            ITypeOperation::LUI { rt, immediate }
        } else if op == 0x20 {
            ITypeOperation::LB { rt, rs, immediate_se }
        } else if op == 0x21 {
            ITypeOperation::LH { rt, rs, immediate_se }
        } else if op == 0x22 {
            ITypeOperation::LWL { rt, rs, immediate_se }
        } else if op == 0x23 {
            ITypeOperation::LW { rt, rs, immediate_se }
        } else if op == 0x24 {
            ITypeOperation::LBU { rt, rs, immediate_se }
        } else if op == 0x25 {
            ITypeOperation::LHU { rt, rs, immediate_se }
        } else if op == 0x26 {
            ITypeOperation::LWR { rt, rs, immediate_se }
        } else if op == 0x28 {
            ITypeOperation::SB { rt, rs, immediate_se }
        } else if op == 0x29 {
            ITypeOperation::SH { rt, rs, immediate_se }
        } else if op == 0x2A {
            ITypeOperation::SWL { rt, rs, immediate_se }
        } else if op == 0x2B {
            ITypeOperation::SW { rt, rs, immediate_se }
        } else if op == 0x2E {
            ITypeOperation::SWR { rt, rs, immediate_se }
        } else {
            ITypeOperation::ILLEGAL
        }
    }

    fn cop0(&self) -> (r: Cop0Operation)
        ensures
            r == decode_cop0(self.0),
    {
        let rs = self.rs();
        if rs == 0x00 {
            Cop0Operation::MFC0 { rt: self.rt(), rd: self.rd() }
        } else if rs == 0x04 {
            Cop0Operation::MTC0 { rt: self.rt(), rd: self.rd() }
        } else if rs == 0x10 && self.funct() == 0x10 {
            Cop0Operation::RFE
        } else {
            Cop0Operation::ILLEGAL
        }
    }

    fn cop2(&self) -> (r: GTEOperation)
        ensures
            r == decode_cop2(self.0),
    {
        let rs = self.rs();
        let rt = self.rt();
        let rd = self.rd();
        if (self.0 >> 25u32) & 1 == 1 {
            GTEOperation::GTE
        } else if rs == 0x00 {
            GTEOperation::MFC2 { rt, rd }
        } else if rs == 0x02 {
            GTEOperation::CFC2 { rt, rd }
        } else if rs == 0x04 {
            GTEOperation::MTC2 { rt, rd }
        } else if rs == 0x06 {
            GTEOperation::CTC2 { rt, rd }
        } else {
            GTEOperation::ILLEGAL
        }
    }

    /// Decodes the word. The all-zero word is `NOOP`; encodings that name no
    /// operation are `ILLEGAL` (at the top level or within their family).
    pub fn operation(&self) -> (r: Operation)
        ensures
            r == decode(self.0),
    {
        let op = self.op();
        if self.0 == 0 {
            Operation::NOOP
        } else if op == 0x00 {
            Operation::RType(self.special())
        } else if op == 0x01 {
            Operation::IType(self.regimm())
        } else if op == 0x02 {
            Operation::JType(JTypeOperation::J { target: self.target() })
        } else if op == 0x03 {
            Operation::JType(JTypeOperation::JAL { target: self.target() })
        } else if (0x04 <= op && op <= 0x0F) || (0x20 <= op && op <= 0x26) || (0x28 <= op && op
            <= 0x2B) || op == 0x2E {
            Operation::IType(self.immediate_type())
        } else if op == 0x10 {
            Operation::COP0(self.cop0())
        } else if op == 0x12 {
            Operation::GTE(self.cop2())
        } else if op == 0x32 {
            Operation::GTE(
                GTEOperation::LWC2 {
                    rt: self.rt(),
                    rs: self.rs(),
                    immediate_se: self.immediate_sign_ext(),
                },
            )
        } else if op == 0x3A {
            Operation::GTE(
                GTEOperation::SWC2 {
                    rt: self.rt(),
                    rs: self.rs(),
                    immediate_se: self.immediate_sign_ext(),
                },
            )
        } else {
            Operation::ILLEGAL
        }
    }
}

/// Every decoded operation names registers below 32.
pub proof fn lemma_decode_valid(w: u32)
    ensures
        decode(w) matches Operation::RType(r) ==> rtype_valid(r),
        decode(w) matches Operation::IType(i) ==> itype_valid(i),
        decode(w) matches Operation::COP0(c) ==> cop0_valid(c),
{
    lemma_fields_bounded(w);
}

} // verus!
