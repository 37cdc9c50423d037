use ps::channel::ChannelControlBits;
use ps::cop0::{Exception, COP0};
use ps::dma::InterruptRegisterBits;
use ps::instruction::{
    Cop0Operation, GTEOperation, ITypeOperation, Instruction, JTypeOperation, Operation,
    RTypeOperation,
};

#[test]
fn instruction_fields() {
    let ins = Instruction(0x012A_4020);
    assert_eq!(ins.op(), 0);
    assert_eq!(ins.rs(), 9);
    assert_eq!(ins.rt(), 10);
    assert_eq!(ins.rd(), 8);
    assert_eq!(ins.shamt(), 0);
    assert_eq!(ins.funct(), 0x20);
    let ins = Instruction(0x2402_FFFC);
    assert_eq!(ins.immediate(), 0xFFFC);
    assert_eq!(ins.offset(), 0xFFFC);
    assert_eq!(ins.immediate_sign_ext(), 0xFFFF_FFFC);
    assert_eq!(ins.offset_singed_ext(), 0xFFFF_FFFC);
    assert_eq!(Instruction(0x0BF0_0100).target(), 0x0FC0_0400);
    assert_eq!(Instruction(0x4A00_0001).cop_number(), 2);
    assert_eq!(Instruction(0x0511_0004).reg_imm(), 0x11);
    assert_eq!(Instruction(0x4A12_3456).cofun(), 0x0012_3456);
    assert_eq!(Instruction(0xDEAD_BEEF).all(), 0xDEAD_BEEF);
}

#[test]
fn decodes_each_family() {
    assert_eq!(Instruction(0).operation(), Operation::NOOP);
    assert_eq!(
        Instruction(0x012A_4020).operation(),
        Operation::RType(RTypeOperation::ADD { rd: 8, rs: 9, rt: 10 })
    );
    assert_eq!(
        Instruction(0x0009_4103).operation(),
        Operation::RType(RTypeOperation::SRA { rd: 8, rt: 9, shamt: 4 })
    );
    assert_eq!(Instruction(0x0000_003F).operation(), Operation::RType(RTypeOperation::ILLEGAL));
    assert_eq!(
        Instruction(0x0511_0004).operation(),
        Operation::IType(ITypeOperation::BGEZAL { rs: 8, immediate_se: 4 })
    );
    assert_eq!(Instruction(0x0502_0004).operation(), Operation::IType(ITypeOperation::ILLEGAL));
    assert_eq!(
        Instruction(0x2402_FFFC).operation(),
        Operation::IType(ITypeOperation::ADDIU { rt: 2, rs: 0, immediate_se: 0xFFFF_FFFC })
    );
    assert_eq!(
        Instruction(0x3508_FFFF).operation(),
        Operation::IType(ITypeOperation::ORI { rt: 8, rs: 8, immediate: 0xFFFF })
    );
    assert_eq!(
        Instruction(0x0BF0_0100).operation(),
        Operation::JType(JTypeOperation::J { target: 0x0FC0_0400 })
    );
    assert_eq!(
        Instruction(0x4088_6000).operation(),
        Operation::COP0(Cop0Operation::MTC0 { rt: 8, rd: 12 })
    );
    assert_eq!(Instruction(0x4200_0010).operation(), Operation::COP0(Cop0Operation::RFE));
    assert_eq!(Instruction(0x4200_0011).operation(), Operation::COP0(Cop0Operation::ILLEGAL));
    assert_eq!(Instruction(0x4A00_0001).operation(), Operation::GTE(GTEOperation::GTE));
    assert_eq!(
        Instruction(0x48C8_7800).operation(),
        Operation::GTE(GTEOperation::CTC2 { rt: 8, rd: 15 })
    );
    assert_eq!(
        Instruction(0xC908_0004).operation(),
        Operation::GTE(GTEOperation::LWC2 { rt: 8, rs: 8, immediate_se: 4 })
    );
    assert_eq!(Instruction(0xFC00_0000).operation(), Operation::ILLEGAL);
}

#[test]
fn exception_codes() {
    let all = [
        Exception::Interrupt,
        Exception::MOD,
        Exception::TLBL,
        Exception::TLBS,
        Exception::AddressErrorLoad,
        Exception::AddressErrorStore,
        Exception::BusErrorFetch,
        Exception::BusErrorLoad,
        Exception::SYSCALL,
        Exception::Breakpoint,
        Exception::ReservedInstruction,
        Exception::CoProcessorUnusable,
        Exception::Overflow,
    ];
    for (i, e) in all.iter().enumerate() {
        assert_eq!(e.code(), i as u32);
    }
}

#[test]
fn cop0_exception_entry_and_return() {
    let mut cop0 = COP0::new();
    cop0.status = 0x0040_0000 | 0b00_0011;
    cop0.cause = 0x8000_007C;
    let vector = cop0.enter_exception(8, 0x8000_1000, false);
    assert_eq!(vector, 0xBFC0_0180);
    assert_eq!(cop0.status, 0x0040_0000 | 0b00_1100);
    assert_eq!(cop0.cause, 8 << 2);
    assert_eq!(cop0.epc, 0x8000_1000);
    let vector = cop0.enter_exception(4, 0x8000_2000, true);
    assert_eq!(vector, 0xBFC0_0180);
    assert_eq!(cop0.epc, 0x8000_1FFC);
    assert_eq!(cop0.cause, 0x8000_0000 | (4 << 2));
    cop0.rfe();
    assert_eq!(cop0.status & 0x3f, 0b11_1100);
    cop0.rfe();
    assert_eq!(cop0.status & 0xf, 0b1111);
}

#[test]
fn channel_control_bits_round_trip() {
    let bits = ChannelControlBits::from_register(0x1100_0401);
    assert_eq!(bits.transfer_direction, 1);
    assert_eq!(bits.transfer_mode, 2);
    assert_eq!(bits.start_transfer, 1);
    assert_eq!(bits.start_trigger, 1);
    assert!(!bits.chopping_enabled);
    assert_eq!(bits.to_register(), 0x1100_0401);
    assert_eq!(ChannelControlBits::from_register(0xFFFF_FFFF).to_register(), 0x1177_0703);
}

#[test]
fn interrupt_register_bits_round_trip() {
    let bits = InterruptRegisterBits::from_register(0x8484_8001);
    assert!(bits.master_interrupt_flag);
    assert!(bits.master_enable);
    assert!(bits.force_irq);
    assert_eq!(bits.channel_enable, 0x04);
    assert_eq!(bits.channel_flags, 0x04);
    assert_eq!(bits.controls_channel, 1);
    assert_eq!(bits.to_register(), 0x8484_8001);
    assert_eq!(InterruptRegisterBits::from_register(0xFFFF_FFFF).to_register(), 0xFFFF_807F);
}
