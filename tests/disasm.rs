use ps::disassembler::{disassemble, read_u32_from_file, register_name};
use ps::emulator::WatchFormat;
use ps::instruction::{Instruction, JTypeOperation, RTypeOperation};

fn text(word: u32) -> String {
    disassemble(&Instruction(word))
}

#[test]
fn disassembles_register_forms() {
    assert_eq!(text(0x012A_4020), "add $t0, $t1, $t2");
    assert_eq!(text(0x0009_4103), "sra $t0, $t1, 4");
    assert_eq!(text(0x0009_44C0), "sll $t0, $t1, 19");
    assert_eq!(text(0x0100_4809), "jalr $t1, $t0");
    assert_eq!(text(0x03E0_0008), "jr $ra");
    assert_eq!(text(0x0000_000C), "syscall");
    assert_eq!(text(0x012A_001A), "div $t1, $t2");
    assert_eq!(text(0x0000_5810), "mfhi $t3");
}

#[test]
fn disassembles_immediate_forms() {
    assert_eq!(text(0x2402_1234), "addiu $v0, $zero, 0x1234");
    assert_eq!(text(0x2402_FFFC), "addiu $v0, $zero, 0xfffc");
    assert_eq!(text(0x3508_FFFF), "ori $t0, $t0, 0xffff");
    assert_eq!(text(0x3C08_1F80), "lui $t0, 0x1f80");
    assert_eq!(text(0x8FBF_0010), "lw $ra, 0x0010($sp)");
    assert_eq!(text(0xAFA4_FFF8), "sw $a0, 0xfff8($sp)");
    assert_eq!(text(0x1000_0002), "beq $zero, $zero, 0x0002");
    assert_eq!(text(0x1500_FFFE), "bne $t0, $zero, 0xfffe");
    assert_eq!(text(0x0511_0004), "bgezal $t0, 0x0004");
}

#[test]
fn disassembles_jumps_and_coprocessors() {
    assert_eq!(text(0x0BF0_0100), "j 0x0fc00400");
    assert_eq!(text(0x0FF0_0100), "jal 0x0fc00400");
    assert_eq!(text(0x4088_6000), "mtc0 $t0, sr");
    assert_eq!(text(0x4009_7000), "mfc0 $t1, epc");
    assert_eq!(text(0x4200_0010), "rfe");
    assert_eq!(text(0x4A00_0001), "gte operation");
    assert_eq!(text(0x4808_7800), "mfc2 $t0, sxyp");
    assert_eq!(text(0x48C8_F800), "ctc2 $t0, flag");
    assert_eq!(text(0xC908_0004), "lwc2 ir0, 0x0004($t0)");
}

#[test]
fn disassembles_sentinels() {
    assert_eq!(text(0), "noop");
    assert_eq!(text(0xFC00_0000), "illegal");
    assert_eq!(text(0x0000_003F), "illegal");
    assert_eq!(RTypeOperation::BREAK.to_string(), "break");
    assert_eq!(JTypeOperation::ILLEGAL.to_string(), "illegal");
}

#[test]
fn register_names() {
    assert_eq!(register_name(0), "$zero");
    assert_eq!(register_name(29), "$sp");
    assert_eq!(register_name(31), "$ra");
}

#[test]
fn reads_words_from_a_buffer() {
    let buf = vec![0x11, 0x22, 0x33, 0x44, 0x55];
    assert_eq!(read_u32_from_file(&buf, 0), 0x4433_2211);
    assert_eq!(read_u32_from_file(&buf, 1), 0x5544_3322);
}

#[test]
fn watch_formats() {
    assert_eq!(WatchFormat::Hex.format_value(0x1F80_1070), "0x1F801070");
    assert_eq!(WatchFormat::Decimal.format_value(0), "0");
    assert_eq!(WatchFormat::Decimal.format_value(4_294_967_295), "4294967295");
    assert_eq!(
        WatchFormat::Binary.format_value(5),
        "0b00000000000000000000000000000101"
    );
}
