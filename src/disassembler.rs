//! Text for decoded instructions: lower-case mnemonics, ABI register names,
//! and 16-bit values as four hexadecimal digits.
use vstd::prelude::*;

use crate::instruction::{
    Cop0Operation, GTEOperation, ITypeOperation, Instruction, JTypeOperation, Operation,
    RTypeOperation, decode,
};
use crate::ram::seq_le32;
use crate::text::{dec_text, hex_text, push_dec, push_hex, push_str};

verus! {

/// The ABI name of general purpose register `index`.
pub open spec fn register_name_text(index: u8) -> Seq<char> {
    match index {
        0 => "$zero"@,
        1 => "$at"@,
        2 => "$v0"@,
        3 => "$v1"@,
        4 => "$a0"@,
        5 => "$a1"@,
        6 => "$a2"@,
        7 => "$a3"@,
        8 => "$t0"@,
        9 => "$t1"@,
        10 => "$t2"@,
        11 => "$t3"@,
        12 => "$t4"@,
        13 => "$t5"@,
        14 => "$t6"@,
        15 => "$t7"@,
        16 => "$s0"@,
        17 => "$s1"@,
        18 => "$s2"@,
        19 => "$s3"@,
        20 => "$s4"@,
        21 => "$s5"@,
        22 => "$s6"@,
        23 => "$s7"@,
        24 => "$t8"@,
        25 => "$t9"@,
        26 => "$k0"@,
        27 => "$k1"@,
        28 => "$gp"@,
        29 => "$sp"@,
        30 => "$fp"@,
        31 => "$ra"@,
        _ => "$?"@,
    }
}

/// The ABI name of general purpose register `index`.
pub fn register_name(index: u8) -> (r: &'static str)
    ensures
        r@ == register_name_text(index),
{
    match index {
        0 => "$zero",
        1 => "$at",
        2 => "$v0",
        3 => "$v1",
        4 => "$a0",
        5 => "$a1",
        6 => "$a2",
        7 => "$a3",
        8 => "$t0",
        9 => "$t1",
        10 => "$t2",
        11 => "$t3",
        12 => "$t4",
        13 => "$t5",
        14 => "$t6",
        15 => "$t7",
        16 => "$s0",
        17 => "$s1",
        18 => "$s2",
        19 => "$s3",
        20 => "$s4",
        21 => "$s5",
        22 => "$s6",
        23 => "$s7",
        24 => "$t8",
        25 => "$t9",
        26 => "$k0",
        27 => "$k1",
        28 => "$gp",
        29 => "$sp",
        30 => "$fp",
        31 => "$ra",
        _ => "$?",
    }
}

/// The name of coprocessor 0 register `index`.
pub open spec fn cop0_register_text(index: u8) -> Seq<char> {
    match index {
        0 => "index"@,
        1 => "random"@,
        2 => "tlblo"@,
        3 => "bpc"@,
        4 => "context"@,
        5 => "bda"@,
        6 => "pidmask"@,
        7 => "dcic"@,
        8 => "badvaddr"@,
        9 => "bdam"@,
        10 => "tlbhi"@,
        11 => "bpcm"@,
        12 => "sr"@,
        13 => "cause"@,
        14 => "epc"@,
        15 => "prid"@,
        _ => "cop0r?"@,
    }
}

/// The name of coprocessor 0 register `index`.
pub fn cop0_register_name(index: u8) -> (r: &'static str)
    ensures
        r@ == cop0_register_text(index),
{
    match index {
        0 => "index",
        1 => "random",
        2 => "tlblo",
        3 => "bpc",
        4 => "context",
        5 => "bda",
        6 => "pidmask",
        7 => "dcic",
        8 => "badvaddr",
        9 => "bdam",
        10 => "tlbhi",
        11 => "bpcm",
        12 => "sr",
        13 => "cause",
        14 => "epc",
        15 => "prid",
        _ => "cop0r?",
    }
}

/// The name of GTE data register `index`.
pub open spec fn cop2_data_register_text(index: u8) -> Seq<char> {
    match index {
        0 => "vxy0"@,
        1 => "vz0"@,
        2 => "vxy1"@,
        3 => "vz1"@,
        4 => "vxy2"@,
        5 => "vz2"@,
        6 => "rgbc"@,
        7 => "otz"@,
        8 => "ir0"@,
        9 => "ir1"@,
        10 => "ir2"@,
        11 => "ir3"@,
        12 => "sxy0"@,
        13 => "sxy1"@,
        14 => "sxy2"@,
        15 => "sxyp"@,
        16 => "sz0"@,
        17 => "sz1"@,
        18 => "sz2"@,
        19 => "sz3"@,
        20 => "rgb0"@,
        21 => "rgb1"@,
        22 => "rgb2"@,
        23 => "res1"@,
        24 => "mac0"@,
        25 => "mac1"@,
        26 => "mac2"@,
        27 => "mac3"@,
        28 => "irgb"@,
        29 => "orgb"@,
        30 => "lzcs"@,
        31 => "lzcr"@,
        _ => "cop2d?"@,
    }
}

/// The name of GTE data register `index`.
pub fn cop2_data_register_name(index: u8) -> (r: &'static str)
    ensures
        r@ == cop2_data_register_text(index),
{
    match index {
        0 => "vxy0",
        1 => "vz0",
        2 => "vxy1",
        3 => "vz1",
        4 => "vxy2",
        5 => "vz2",
        6 => "rgbc",
        7 => "otz",
        8 => "ir0",
        9 => "ir1",
        10 => "ir2",
        11 => "ir3",
        12 => "sxy0",
        13 => "sxy1",
        14 => "sxy2",
        15 => "sxyp",
        16 => "sz0",
        17 => "sz1",
        18 => "sz2",
        19 => "sz3",
        20 => "rgb0",
        21 => "rgb1",
        22 => "rgb2",
        23 => "res1",
        24 => "mac0",
        25 => "mac1",
        26 => "mac2",
        27 => "mac3",
        28 => "irgb",
        29 => "orgb",
        30 => "lzcs",
        31 => "lzcr",
        _ => "cop2d?",
    }
}

/// The name of GTE control register `index`.
pub open spec fn cop2_control_register_text(index: u8) -> Seq<char> {
    match index {
        0 => "rt11rt12"@,
        1 => "rt13rt21"@,
        2 => "rt22rt23"@,
        3 => "rt31rt32"@,
        4 => "rt33"@,
        5 => "trx"@,
        6 => "try"@,
        7 => "trz"@,
        8 => "l11l12"@,
        9 => "l13l21"@,
        10 => "l22l23"@,
        11 => "l31l32"@,
        12 => "l33"@,
        13 => "rbk"@,
        14 => "gbk"@,
        15 => "bbk"@,
        16 => "lr1lr2"@,
        17 => "lr3lg1"@,
        18 => "lg2lg3"@,
        19 => "lb1lb2"@,
        20 => "lb3"@,
        21 => "rfc"@,
        22 => "gfc"@,
        23 => "bfc"@,
        24 => "ofx"@,
        25 => "ofy"@,
        26 => "h"@,
        27 => "dqa"@,
        28 => "dqb"@,
        29 => "zsf3"@,
        30 => "zsf4"@,
        31 => "flag"@,
        _ => "cop2c?"@,
    }
}

/// The name of GTE control register `index`.
pub fn cop2_control_register_name(index: u8) -> (r: &'static str)
    ensures
        r@ == cop2_control_register_text(index),
{
    match index {
        0 => "rt11rt12",
        1 => "rt13rt21",
        2 => "rt22rt23",
        3 => "rt31rt32",
        4 => "rt33",
        5 => "trx",
        6 => "try",
        7 => "trz",
        8 => "l11l12",
        9 => "l13l21",
        10 => "l22l23",
        11 => "l31l32",
        12 => "l33",
        13 => "rbk",
        14 => "gbk",
        15 => "bbk",
        16 => "lr1lr2",
        17 => "lr3lg1",
        18 => "lg2lg3",
        19 => "lb1lb2",
        20 => "lb3",
        21 => "rfc",
        22 => "gfc",
        23 => "bfc",
        24 => "ofx",
        25 => "ofy",
        26 => "h",
        27 => "dqa",
        28 => "dqb",
        29 => "zsf3",
        30 => "zsf4",
        31 => "flag",
        _ => "cop2c?",
    }
}

/// One register: `mn r`.
pub open spec fn reg1_text(mn: Seq<char>, r: u8) -> Seq<char> {
    mn + " "@ + register_name_text(r)
}

fn reg1(mn: &str, r: u8) -> (t: String)
    ensures
        t@ == reg1_text(mn@, r),
{
    let mut s = mn.to_owned();
    push_str(&mut s, " ");
    push_str(&mut s, register_name(r));
    s
}

/// Two registers: `mn a, b`.
pub open spec fn reg2_text(mn: Seq<char>, a: u8, b: u8) -> Seq<char> {
    mn + " "@ + register_name_text(a) + ", "@ + register_name_text(b)
}

fn reg2(mn: &str, a: u8, b: u8) -> (t: String)
    ensures
        t@ == reg2_text(mn@, a, b),
{
    let mut s = mn.to_owned();
    push_str(&mut s, " ");
    push_str(&mut s, register_name(a));
    push_str(&mut s, ", ");
    push_str(&mut s, register_name(b));
    s
}

/// Three registers: `mn a, b, c`.
pub open spec fn reg3_text(mn: Seq<char>, a: u8, b: u8, c: u8) -> Seq<char> {
    mn + " "@ + register_name_text(a) + ", "@ + register_name_text(b) + ", "@ + register_name_text(c)
}

fn reg3(mn: &str, a: u8, b: u8, c: u8) -> (t: String)
    ensures
        t@ == reg3_text(mn@, a, b, c),
{
    let mut s = mn.to_owned();
    push_str(&mut s, " ");
    push_str(&mut s, register_name(a));
    push_str(&mut s, ", ");
    push_str(&mut s, register_name(b));
    push_str(&mut s, ", ");
    push_str(&mut s, register_name(c));
    s
}

/// A shift by a constant: `mn rd, rt, shamt` in decimal.
pub open spec fn shift_text(mn: Seq<char>, rd: u8, rt: u8, shamt: u8) -> Seq<char> {
    mn + " "@ + register_name_text(rd) + ", "@ + register_name_text(rt) + ", "@ + dec_text(shamt as nat)
}

fn shift(mn: &str, rd: u8, rt: u8, shamt: u8) -> (t: String)
    ensures
        t@ == shift_text(mn@, rd, rt, shamt),
{
    let mut s = mn.to_owned();
    push_str(&mut s, " ");
    push_str(&mut s, register_name(rd));
    push_str(&mut s, ", ");
    push_str(&mut s, register_name(rt));
    push_str(&mut s, ", ");
    push_dec(&mut s, shamt as u32);
    s
}

/// A register and a 16-bit value: `mn r, 0xhhhh`.
pub open spec fn reg_imm_text(mn: Seq<char>, r: u8, imm: u32) -> Seq<char> {
    mn + " "@ + register_name_text(r) + ", 0x"@ + hex_text((imm & 0xffff) as nat, 4, false)
}

fn reg_imm(mn: &str, r: u8, imm: u32) -> (t: String)
    ensures
        t@ == reg_imm_text(mn@, r, imm),
{
    let mut s = mn.to_owned();
    push_str(&mut s, " ");
    push_str(&mut s, register_name(r));
    push_str(&mut s, ", 0x");
    push_hex(&mut s, imm & 0xffff, 4, false);
    s
}

/// Two registers and a 16-bit value: `mn a, b, 0xhhhh`.
pub open spec fn reg2_imm_text(mn: Seq<char>, a: u8, b: u8, imm: u32) -> Seq<char> {
    mn + " "@ + register_name_text(a) + ", "@ + register_name_text(b) + ", 0x"@ + hex_text((imm & 0xffff) as nat, 4, false)
}

fn reg2_imm(mn: &str, a: u8, b: u8, imm: u32) -> (t: String)
    ensures
        t@ == reg2_imm_text(mn@, a, b, imm),
{
    let mut s = mn.to_owned();
    push_str(&mut s, " ");
    push_str(&mut s, register_name(a));
    push_str(&mut s, ", ");
    push_str(&mut s, register_name(b));
    push_str(&mut s, ", 0x");
    push_hex(&mut s, imm & 0xffff, 4, false);
    s
}

/// A load or store: `mn target, 0xhhhh(base)`.
pub open spec fn mem_text(mn: Seq<char>, target: Seq<char>, offset: u32, base: u8) -> Seq<char> {
    mn + " "@ + target + ", 0x"@ + hex_text((offset & 0xffff) as nat, 4, false) + "("@ + register_name_text(base) + ")"@
}

fn mem(mn: &str, target: &str, offset: u32, base: u8) -> (t: String)
    ensures
        t@ == mem_text(mn@, target@, offset, base),
{
    let mut s = mn.to_owned();
    push_str(&mut s, " ");
    push_str(&mut s, target);
    push_str(&mut s, ", 0x");
    push_hex(&mut s, offset & 0xffff, 4, false);
    push_str(&mut s, "(");
    push_str(&mut s, register_name(base));
    push_str(&mut s, ")");
    s
}

/// A move between a register and a coprocessor register: `mn r, name`.
pub open spec fn reg_named_text(mn: Seq<char>, r: u8, name: Seq<char>) -> Seq<char> {
    mn + " "@ + register_name_text(r) + ", "@ + name
}

fn reg_named(mn: &str, r: u8, name: &str) -> (t: String)
    ensures
        t@ == reg_named_text(mn@, r, name@),
{
    let mut s = mn.to_owned();
    push_str(&mut s, " ");
    push_str(&mut s, register_name(r));
    push_str(&mut s, ", ");
    push_str(&mut s, name);
    s
}

/// A 32-bit value: `mn 0xhhhhhhhh`.
pub open spec fn word_text(mn: Seq<char>, v: u32) -> Seq<char> {
    mn + " "@ + "0x"@ + hex_text(v as nat, 8, false)
}

fn word(mn: &str, v: u32) -> (t: String)
    ensures
        t@ == word_text(mn@, v),
{
    let mut s = mn.to_owned();
    push_str(&mut s, " ");
    push_str(&mut s, "0x");
    push_hex(&mut s, v, 8, false);
    s
}

/// The text of a register-type operation.
pub open spec fn rtype_text(op: RTypeOperation) -> Seq<char> {
    match op {
        RTypeOperation::SLL { rd, rt, shamt } => shift_text("sll"@, rd, rt, shamt),
        RTypeOperation::SRL { rd, rt, shamt } => shift_text("srl"@, rd, rt, shamt),
        RTypeOperation::SRA { rd, rt, shamt } => shift_text("sra"@, rd, rt, shamt),
        RTypeOperation::SLLV { rd, rt, rs } => reg3_text("sllv"@, rd, rt, rs),
        RTypeOperation::SRLV { rd, rt, rs } => reg3_text("srlv"@, rd, rt, rs),
        RTypeOperation::SRAV { rd, rt, rs } => reg3_text("srav"@, rd, rt, rs),
        RTypeOperation::JR { rs } => reg1_text("jr"@, rs),
        RTypeOperation::JALR { rd, rs } => reg2_text("jalr"@, rd, rs),
        RTypeOperation::SYSCALL => "syscall"@,
        RTypeOperation::BREAK => "break"@,
        RTypeOperation::MFHI { rd } => reg1_text("mfhi"@, rd),
        RTypeOperation::MTHI { rs } => reg1_text("mthi"@, rs),
        RTypeOperation::MFLO { rd } => reg1_text("mflo"@, rd),
        RTypeOperation::MTLO { rs } => reg1_text("mtlo"@, rs),
        RTypeOperation::MULT { rs, rt } => reg2_text("mult"@, rs, rt),
        RTypeOperation::MULTU { rs, rt } => reg2_text("multu"@, rs, rt),
        RTypeOperation::DIV { rs, rt } => reg2_text("div"@, rs, rt),
        RTypeOperation::DIVU { rs, rt } => reg2_text("divu"@, rs, rt),
        RTypeOperation::ADD { rd, rs, rt } => reg3_text("add"@, rd, rs, rt),
        RTypeOperation::ADDU { rd, rs, rt } => reg3_text("addu"@, rd, rs, rt),
        RTypeOperation::SUB { rd, rs, rt } => reg3_text("sub"@, rd, rs, rt),
        RTypeOperation::SUBU { rd, rs, rt } => reg3_text("subu"@, rd, rs, rt),
        RTypeOperation::AND { rd, rs, rt } => reg3_text("and"@, rd, rs, rt),
        RTypeOperation::OR { rd, rs, rt } => reg3_text("or"@, rd, rs, rt),
        RTypeOperation::XOR { rd, rs, rt } => reg3_text("xor"@, rd, rs, rt),
        RTypeOperation::NOR { rd, rs, rt } => reg3_text("nor"@, rd, rs, rt),
        RTypeOperation::SLT { rd, rs, rt } => reg3_text("slt"@, rd, rs, rt),
        RTypeOperation::SLTU { rd, rs, rt } => reg3_text("sltu"@, rd, rs, rt),
        RTypeOperation::ILLEGAL => "illegal"@,
    }
}

impl RTypeOperation {
    /// The text of a register-type operation.
    pub fn to_string(&self) -> (r: String)
        ensures
            r@ == rtype_text(*self),
    {
        match *self {
            RTypeOperation::SLL { rd, rt, shamt } => shift("sll", rd, rt, shamt),
            RTypeOperation::SRL { rd, rt, shamt } => shift("srl", rd, rt, shamt),
            RTypeOperation::SRA { rd, rt, shamt } => shift("sra", rd, rt, shamt),
            RTypeOperation::SLLV { rd, rt, rs } => reg3("sllv", rd, rt, rs),
            RTypeOperation::SRLV { rd, rt, rs } => reg3("srlv", rd, rt, rs),
            RTypeOperation::SRAV { rd, rt, rs } => reg3("srav", rd, rt, rs),
            RTypeOperation::JR { rs } => reg1("jr", rs),
            RTypeOperation::JALR { rd, rs } => reg2("jalr", rd, rs),
            RTypeOperation::SYSCALL => "syscall".to_owned(),
            RTypeOperation::BREAK => "break".to_owned(),
            RTypeOperation::MFHI { rd } => reg1("mfhi", rd),
            RTypeOperation::MTHI { rs } => reg1("mthi", rs),
            RTypeOperation::MFLO { rd } => reg1("mflo", rd),
            RTypeOperation::MTLO { rs } => reg1("mtlo", rs),
            RTypeOperation::MULT { rs, rt } => reg2("mult", rs, rt),
            RTypeOperation::MULTU { rs, rt } => reg2("multu", rs, rt),
            RTypeOperation::DIV { rs, rt } => reg2("div", rs, rt),
            RTypeOperation::DIVU { rs, rt } => reg2("divu", rs, rt),
            RTypeOperation::ADD { rd, rs, rt } => reg3("add", rd, rs, rt),
            RTypeOperation::ADDU { rd, rs, rt } => reg3("addu", rd, rs, rt),
            RTypeOperation::SUB { rd, rs, rt } => reg3("sub", rd, rs, rt),
            RTypeOperation::SUBU { rd, rs, rt } => reg3("subu", rd, rs, rt),
            RTypeOperation::AND { rd, rs, rt } => reg3("and", rd, rs, rt),
            RTypeOperation::OR { rd, rs, rt } => reg3("or", rd, rs, rt),
            RTypeOperation::XOR { rd, rs, rt } => reg3("xor", rd, rs, rt),
            RTypeOperation::NOR { rd, rs, rt } => reg3("nor", rd, rs, rt),
            RTypeOperation::SLT { rd, rs, rt } => reg3("slt", rd, rs, rt),
            RTypeOperation::SLTU { rd, rs, rt } => reg3("sltu", rd, rs, rt),
            RTypeOperation::ILLEGAL => "illegal".to_owned(),
        }
    }
}

/// The text of an immediate-type operation.
pub open spec fn itype_text(op: ITypeOperation) -> Seq<char> {
    match op {
        ITypeOperation::BLTZ { rs, immediate_se } => reg_imm_text("bltz"@, rs, immediate_se),
        ITypeOperation::BGEZ { rs, immediate_se } => reg_imm_text("bgez"@, rs, immediate_se),
        ITypeOperation::BLTZAL { rs, immediate_se } => reg_imm_text("bltzal"@, rs, immediate_se),
        ITypeOperation::BGEZAL { rs, immediate_se } => reg_imm_text("bgezal"@, rs, immediate_se),
        ITypeOperation::BEQ { rs, rt, immediate_se } => reg2_imm_text("beq"@, rs, rt, immediate_se),
        ITypeOperation::BNE { rs, rt, immediate_se } => reg2_imm_text("bne"@, rs, rt, immediate_se),
        ITypeOperation::BLEZ { rs, immediate_se } => reg_imm_text("blez"@, rs, immediate_se),
        ITypeOperation::BGTZ { rs, immediate_se } => reg_imm_text("bgtz"@, rs, immediate_se),
        ITypeOperation::ADDI { rt, rs, immediate_se } => reg2_imm_text("addi"@, rt, rs, immediate_se),
        ITypeOperation::ADDIU { rt, rs, immediate_se } => reg2_imm_text("addiu"@, rt, rs, immediate_se),
        ITypeOperation::SLTI { rt, rs, immediate_se } => reg2_imm_text("slti"@, rt, rs, immediate_se),
        ITypeOperation::SLTIU { rt, rs, immediate_se } => reg2_imm_text("sltiu"@, rt, rs, immediate_se),
        ITypeOperation::ANDI { rt, rs, immediate } => reg2_imm_text("andi"@, rt, rs, immediate),
        ITypeOperation::ORI { rt, rs, immediate } => reg2_imm_text("ori"@, rt, rs, immediate),
        ITypeOperation::XORI { rt, rs, immediate } => reg2_imm_text("xori"@, rt, rs, immediate),
        ITypeOperation::LUI { rt, immediate } => reg_imm_text("lui"@, rt, immediate),
        ITypeOperation::LB { rt, rs, immediate_se } => mem_text("lb"@, register_name_text(rt), immediate_se, rs),
        ITypeOperation::LH { rt, rs, immediate_se } => mem_text("lh"@, register_name_text(rt), immediate_se, rs),
        ITypeOperation::LWL { rt, rs, immediate_se } => mem_text("lwl"@, register_name_text(rt), immediate_se, rs),
        ITypeOperation::LW { rt, rs, immediate_se } => mem_text("lw"@, register_name_text(rt), immediate_se, rs),
        ITypeOperation::LBU { rt, rs, immediate_se } => mem_text("lbu"@, register_name_text(rt), immediate_se, rs),
        ITypeOperation::LHU { rt, rs, immediate_se } => mem_text("lhu"@, register_name_text(rt), immediate_se, rs),
        ITypeOperation::LWR { rt, rs, immediate_se } => mem_text("lwr"@, register_name_text(rt), immediate_se, rs),
        ITypeOperation::SB { rt, rs, immediate_se } => mem_text("sb"@, register_name_text(rt), immediate_se, rs),
        ITypeOperation::SH { rt, rs, immediate_se } => mem_text("sh"@, register_name_text(rt), immediate_se, rs),
        ITypeOperation::SWL { rt, rs, immediate_se } => mem_text("swl"@, register_name_text(rt), immediate_se, rs),
        ITypeOperation::SW { rt, rs, immediate_se } => mem_text("sw"@, register_name_text(rt), immediate_se, rs),
        ITypeOperation::SWR { rt, rs, immediate_se } => mem_text("swr"@, register_name_text(rt), immediate_se, rs),
        ITypeOperation::ILLEGAL => "illegal"@,
    }
}

impl ITypeOperation {
    /// The text of an immediate-type operation.
    pub fn to_string(&self) -> (r: String)
        ensures
            r@ == itype_text(*self),
    {
        match *self {
            ITypeOperation::BLTZ { rs, immediate_se } => reg_imm("bltz", rs, immediate_se),
            ITypeOperation::BGEZ { rs, immediate_se } => reg_imm("bgez", rs, immediate_se),
            ITypeOperation::BLTZAL { rs, immediate_se } => reg_imm("bltzal", rs, immediate_se),
            ITypeOperation::BGEZAL { rs, immediate_se } => reg_imm("bgezal", rs, immediate_se),
            ITypeOperation::BEQ { rs, rt, immediate_se } => reg2_imm("beq", rs, rt, immediate_se),
            ITypeOperation::BNE { rs, rt, immediate_se } => reg2_imm("bne", rs, rt, immediate_se),
            ITypeOperation::BLEZ { rs, immediate_se } => reg_imm("blez", rs, immediate_se),
            ITypeOperation::BGTZ { rs, immediate_se } => reg_imm("bgtz", rs, immediate_se),
            ITypeOperation::ADDI { rt, rs, immediate_se } => reg2_imm("addi", rt, rs, immediate_se),
            ITypeOperation::ADDIU { rt, rs, immediate_se } => reg2_imm("addiu", rt, rs, immediate_se),
            ITypeOperation::SLTI { rt, rs, immediate_se } => reg2_imm("slti", rt, rs, immediate_se),
            ITypeOperation::SLTIU { rt, rs, immediate_se } => reg2_imm("sltiu", rt, rs, immediate_se),
            ITypeOperation::ANDI { rt, rs, immediate } => reg2_imm("andi", rt, rs, immediate),
            ITypeOperation::ORI { rt, rs, immediate } => reg2_imm("ori", rt, rs, immediate),
            ITypeOperation::XORI { rt, rs, immediate } => reg2_imm("xori", rt, rs, immediate),
            ITypeOperation::LUI { rt, immediate } => reg_imm("lui", rt, immediate),
            ITypeOperation::LB { rt, rs, immediate_se } => mem("lb", register_name(rt), immediate_se, rs),
            ITypeOperation::LH { rt, rs, immediate_se } => mem("lh", register_name(rt), immediate_se, rs),
            ITypeOperation::LWL { rt, rs, immediate_se } => mem("lwl", register_name(rt), immediate_se, rs),
            ITypeOperation::LW { rt, rs, immediate_se } => mem("lw", register_name(rt), immediate_se, rs),
            ITypeOperation::LBU { rt, rs, immediate_se } => mem("lbu", register_name(rt), immediate_se, rs),
            ITypeOperation::LHU { rt, rs, immediate_se } => mem("lhu", register_name(rt), immediate_se, rs),
            ITypeOperation::LWR { rt, rs, immediate_se } => mem("lwr", register_name(rt), immediate_se, rs),
            ITypeOperation::SB { rt, rs, immediate_se } => mem("sb", register_name(rt), immediate_se, rs),
            ITypeOperation::SH { rt, rs, immediate_se } => mem("sh", register_name(rt), immediate_se, rs),
            ITypeOperation::SWL { rt, rs, immediate_se } => mem("swl", register_name(rt), immediate_se, rs),
            ITypeOperation::SW { rt, rs, immediate_se } => mem("sw", register_name(rt), immediate_se, rs),
            ITypeOperation::SWR { rt, rs, immediate_se } => mem("swr", register_name(rt), immediate_se, rs),
            ITypeOperation::ILLEGAL => "illegal".to_owned(),
        }
    }
}

/// The text of a jump.
pub open spec fn jtype_text(op: JTypeOperation) -> Seq<char> {
    match op {
        JTypeOperation::J { target } => word_text("j"@, target),
        JTypeOperation::JAL { target } => word_text("jal"@, target),
        JTypeOperation::ILLEGAL => "illegal"@,
    }
}

impl JTypeOperation {
    /// The text of a jump.
    pub fn to_string(&self) -> (r: String)
        ensures
            r@ == jtype_text(*self),
    {
        match *self {
            JTypeOperation::J { target } => word("j", target),
            JTypeOperation::JAL { target } => word("jal", target),
            JTypeOperation::ILLEGAL => "illegal".to_owned(),
        }
    }
}

/// The text of a coprocessor 0 operation.
pub open spec fn cop0_text(op: Cop0Operation) -> Seq<char> {
    match op {
        Cop0Operation::MFC0 { rt, rd } => reg_named_text("mfc0"@, rt, cop0_register_text(rd)),
        Cop0Operation::MTC0 { rt, rd } => reg_named_text("mtc0"@, rt, cop0_register_text(rd)),
        Cop0Operation::RFE => "rfe"@,
        Cop0Operation::COP0 { copfun } => word_text("cop0 operation"@, copfun),
        Cop0Operation::ILLEGAL => "illegal"@,
    }
}

impl Cop0Operation {
    /// The text of a coprocessor 0 operation.
    pub fn to_string(&self) -> (r: String)
        ensures
            r@ == cop0_text(*self),
    {
        match *self {
            Cop0Operation::MFC0 { rt, rd } => reg_named("mfc0", rt, cop0_register_name(rd)),
            Cop0Operation::MTC0 { rt, rd } => reg_named("mtc0", rt, cop0_register_name(rd)),
            Cop0Operation::RFE => "rfe".to_owned(),
            Cop0Operation::COP0 { copfun } => word("cop0 operation", copfun),
            Cop0Operation::ILLEGAL => "illegal".to_owned(),
        }
    }
}

/// The text of a coprocessor 2 (GTE) operation.
pub open spec fn gte_text(op: GTEOperation) -> Seq<char> {
    match op {
        GTEOperation::MFC2 { rt, rd } => reg_named_text("mfc2"@, rt, cop2_data_register_text(rd)),
        GTEOperation::CFC2 { rt, rd } => reg_named_text("cfc2"@, rt, cop2_control_register_text(rd)),
        GTEOperation::MTC2 { rt, rd } => reg_named_text("mtc2"@, rt, cop2_data_register_text(rd)),
        GTEOperation::CTC2 { rt, rd } => reg_named_text("ctc2"@, rt, cop2_control_register_text(rd)),
        GTEOperation::LWC2 { rt, rs, immediate_se } => mem_text("lwc2"@, cop2_data_register_text(rt), immediate_se, rs),
        GTEOperation::SWC2 { rt, rs, immediate_se } => mem_text("swc2"@, cop2_data_register_text(rt), immediate_se, rs),
        GTEOperation::GTE => "gte operation"@,
        GTEOperation::ILLEGAL => "illegal"@,
    }
}

impl GTEOperation {
    /// The text of a coprocessor 2 (GTE) operation.
    pub fn to_string(&self) -> (r: String)
        ensures
            r@ == gte_text(*self),
    {
        match *self {
            GTEOperation::MFC2 { rt, rd } => reg_named("mfc2", rt, cop2_data_register_name(rd)),
            GTEOperation::CFC2 { rt, rd } => reg_named("cfc2", rt, cop2_control_register_name(rd)),
            GTEOperation::MTC2 { rt, rd } => reg_named("mtc2", rt, cop2_data_register_name(rd)),
            GTEOperation::CTC2 { rt, rd } => reg_named("ctc2", rt, cop2_control_register_name(rd)),
            GTEOperation::LWC2 { rt, rs, immediate_se } => mem("lwc2", cop2_data_register_name(rt), immediate_se, rs),
            GTEOperation::SWC2 { rt, rs, immediate_se } => mem("swc2", cop2_data_register_name(rt), immediate_se, rs),
            GTEOperation::GTE => "gte operation".to_owned(),
            GTEOperation::ILLEGAL => "illegal".to_owned(),
        }
    }
}

/// The text of a decoded operation.
pub open spec fn operation_text(op: Operation) -> Seq<char> {
    match op {
        Operation::RType(r) => rtype_text(r),
        Operation::IType(i) => itype_text(i),
        Operation::JType(j) => jtype_text(j),
        Operation::COP0(c) => cop0_text(c),
        Operation::GTE(g) => gte_text(g),
        Operation::NOOP => "noop"@,
        Operation::ILLEGAL => "illegal"@,
    }
}

/// The text of the instruction `ins`.
pub fn disassemble(ins: &Instruction) -> (r: String)
    ensures
        r@ == operation_text(decode(ins.0)),
{
    match ins.operation() {
        Operation::RType(r_op) => r_op.to_string(),
        Operation::IType(i_op) => i_op.to_string(),
        Operation::JType(j_op) => j_op.to_string(),
        Operation::COP0(cop0_op) => cop0_op.to_string(),
        Operation::GTE(gte_op) => gte_op.to_string(),
        Operation::NOOP => "noop".to_owned(),
        Operation::ILLEGAL => "illegal".to_owned(),
    }
}

/// The little-endian word at offset `address` of `file_buf`.
pub fn read_u32_from_file(file_buf: &Vec<u8>, address: usize) -> (r: u32)
    requires
        address + 4 <= file_buf@.len(),
    ensures
        r == seq_le32(file_buf@, address as int),
{
    let len = file_buf.len();
    assert(address + 4 <= len);
    (file_buf[address] as u32) | ((file_buf[address + 1] as u32) << 8u32) | ((file_buf[address
        + 2] as u32) << 16u32) | ((file_buf[address + 3] as u32) << 24u32)
}

} // verus!
