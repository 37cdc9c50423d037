use ps::cop0::Exception;
use ps::cpu::{run_cycle, run_instruction};
use ps::playstation::PlayStation;

const BIOS_SIZE: usize = 512 * 1024;

fn bios_with(words: &[(usize, u32)]) -> Vec<u8> {
    let mut bios = vec![0u8; BIOS_SIZE];
    for &(offset, word) in words {
        bios[offset..offset + 4].copy_from_slice(&word.to_le_bytes());
    }
    bios
}

fn console(words: &[(usize, u32)]) -> PlayStation {
    PlayStation::new(bios_with(words))
}

fn cause_code(ps: &PlayStation) -> u32 {
    (ps.cpu.cop0.cause >> 2) & 0x1f
}

const BEV: u32 = 1 << 22;

#[test]
fn reset_state_executes_first_instruction() {
    let mut ps = console(&[(0, 0x2402_1234)]);
    run_instruction(&mut ps);
    assert_eq!(ps.cpu.registers[2], 0x0000_1234);
    assert_eq!(ps.cpu.pc, 0xBFC0_0004);
    assert_eq!(ps.cpu.next_pc, 0xBFC0_0008);
    assert_eq!(ps.cpu.current_pc, 0xBFC0_0000);
}

#[test]
fn load_delay_hazard() {
    // LW $t0, 0($zero); ORI $t0, $t0, 0xFFFF
    let mut ps = console(&[(0, 0x8C08_0000), (4, 0x3508_FFFF)]);
    ps.write32(0xDEAD_BEEF, 0);
    run_instruction(&mut ps);
    assert_eq!(ps.cpu.registers[8], 0, "the load is not visible yet");
    assert_eq!(ps.cpu.load_delay_slot, Some((8, 0xDEAD_BEEF)));
    run_instruction(&mut ps);
    assert_eq!(ps.cpu.registers[8], 0xDEAD_BEEF);
    assert_eq!(ps.cpu.load_delay_slot, None);
}

#[test]
fn load_wins_over_following_addi() {
    // LW $t0, 0($zero); ADDI $t0, $t0, 5
    let mut ps = console(&[(0, 0x8C08_0000), (4, 0x2108_0005)]);
    ps.write32(0x0000_0100, 0);
    ps.cpu.set_reg(0x1000, 8);
    run_instruction(&mut ps);
    run_instruction(&mut ps);
    assert_eq!(ps.cpu.registers[8], 0x0000_0100);
}

#[test]
fn branch_delay_slot_runs_before_target() {
    // BEQ $zero,$zero,2; ORI $t0,$zero,0x42; BREAK; ADDIU $t1,$zero,1
    let mut ps = console(&[(0, 0x1000_0002), (4, 0x3408_0042), (8, 0x0000_000D), (12, 0x2409_0001)]);
    run_instruction(&mut ps);
    assert_eq!(ps.cpu.pc, 0xBFC0_0004);
    assert_eq!(ps.cpu.next_pc, 0xBFC0_000C);
    run_instruction(&mut ps);
    assert_eq!(ps.cpu.current_pc, 0xBFC0_0004);
    assert!(ps.cpu.in_delay_slot());
    assert_eq!(ps.cpu.pc, 0xBFC0_000C);
    run_instruction(&mut ps);
    assert_eq!(ps.cpu.current_pc, 0xBFC0_000C);
    assert_eq!(ps.cpu.registers[8], 0x42);
    assert_eq!(ps.cpu.registers[9], 1);
    assert_eq!(ps.cpu.pc, 0xBFC0_0010);
    assert_eq!(ps.cpu.cop0.cause, 0, "the trap was never reached");
}

#[test]
fn backward_branch_target() {
    // BNE $t0,$zero,-2 with $t0 = 1: target = pc + 4 - 8
    let mut ps = console(&[(8, 0x1500_FFFE)]);
    ps.cpu.pc = 0xBFC0_0008;
    ps.cpu.next_pc = 0xBFC0_000C;
    ps.cpu.set_reg(1, 8);
    run_instruction(&mut ps);
    assert_eq!(ps.cpu.next_pc, 0xBFC0_0004);
}

#[test]
fn add_overflow_raises_exception() {
    // ADD $t0, $t1, $t2
    let mut ps = console(&[(0, 0x012A_4020)]);
    ps.cpu.set_reg(0x7FFF_FFFF, 9);
    ps.cpu.set_reg(0x0000_0001, 10);
    ps.cpu.set_reg(0x1111, 8);
    ps.cpu.cop0.status = BEV;
    run_instruction(&mut ps);
    assert_eq!(ps.cpu.registers[8], 0x1111);
    assert_eq!(ps.cpu.pc, 0xBFC0_0180);
    assert_eq!(ps.cpu.next_pc, 0xBFC0_0184);
    assert_eq!(ps.cpu.cop0.epc, 0xBFC0_0000);
    assert_eq!(cause_code(&ps), 12);
    assert_eq!(ps.cpu.cop0.cause >> 31, 0);
}

#[test]
fn add_overflow_goes_to_ram_vector_without_bev() {
    let mut ps = console(&[(0, 0x012A_4020)]);
    ps.cpu.set_reg(0x8000_0000, 9);
    ps.cpu.set_reg(0xFFFF_FFFF, 10);
    run_instruction(&mut ps);
    assert_eq!(ps.cpu.pc, 0x8000_0080);
    assert_eq!(cause_code(&ps), 12);
}

#[test]
fn add_without_overflow_writes() {
    let mut ps = console(&[(0, 0x012A_4020)]);
    ps.cpu.set_reg(0xFFFF_FFFF, 9);
    ps.cpu.set_reg(0x0000_0003, 10);
    run_instruction(&mut ps);
    assert_eq!(ps.cpu.registers[8], 2);
}

#[test]
fn syscall_in_delay_slot() {
    let mut ps = console(&[(0, 0x1000_0001), (4, 0x0000_000C)]);
    ps.cpu.cop0.status = BEV;
    run_instruction(&mut ps);
    run_instruction(&mut ps);
    assert_eq!(ps.cpu.pc, 0xBFC0_0180);
    assert_eq!(ps.cpu.cop0.epc, 0xBFC0_0000);
    assert_eq!(ps.cpu.cop0.cause >> 31, 1);
    assert_eq!(cause_code(&ps), 8);
}

#[test]
fn break_raises_breakpoint() {
    let mut ps = console(&[(0, 0x0000_000D)]);
    run_instruction(&mut ps);
    assert_eq!(cause_code(&ps), 9);
    assert_eq!(Exception::Breakpoint.code(), 9);
}

#[test]
fn cache_isolated_store_leaves_ram() {
    // SW $t0, 0($zero)
    let mut ps = console(&[(0, 0xAC08_0000)]);
    ps.write32(0x1234_5678, 0);
    ps.cpu.set_reg(0xAAAA_5555, 8);
    ps.cpu.cop0.status = 1 << 16;
    run_instruction(&mut ps);
    assert_eq!(ps.read32(0), 0x1234_5678);
}

#[test]
fn store_reaches_ram_when_not_isolated() {
    let mut ps = console(&[(0, 0xAC08_0000)]);
    ps.cpu.set_reg(0xAAAA_5555, 8);
    run_instruction(&mut ps);
    assert_eq!(ps.read32(0), 0xAAAA_5555);
}

#[test]
fn register_zero_stays_zero() {
    // ADDIU $zero, $zero, 5; LW $zero, 0($zero); NOOP
    let mut ps = console(&[(0, 0x2400_0005), (4, 0x8C00_0000)]);
    ps.write32(0xFFFF_FFFF, 0);
    run_instruction(&mut ps);
    assert_eq!(ps.cpu.registers[0], 0);
    run_instruction(&mut ps);
    run_instruction(&mut ps);
    assert_eq!(ps.cpu.registers[0], 0);
    ps.cpu.set_reg(7, 0);
    assert_eq!(ps.cpu.get_reg(0), 0);
}

#[test]
fn rfe_restores_mode_bits() {
    // SYSCALL, then RFE in the handler
    let mut ps = console(&[(0, 0x0000_000C), (0x180, 0x4200_0010)]);
    ps.cpu.cop0.status = BEV | 0b10_1101;
    run_instruction(&mut ps);
    assert_eq!(ps.cpu.cop0.status & 0x3f, 0b11_0100);
    run_instruction(&mut ps);
    assert_eq!(ps.cpu.cop0.status & 0xf, 0b1101);
    assert_eq!(ps.cpu.cop0.status & !0x3f, BEV);
}

#[test]
fn misaligned_load_raises_address_error() {
    // LW $t0, 2($zero)
    let mut ps = console(&[(0, 0x8C08_0002)]);
    run_instruction(&mut ps);
    assert_eq!(cause_code(&ps), 4);
    assert_eq!(ps.cpu.load_delay_slot, None);
}

#[test]
fn misaligned_store_raises_address_error() {
    // SH $t0, 1($zero)
    let mut ps = console(&[(0, 0xA408_0001)]);
    run_instruction(&mut ps);
    assert_eq!(cause_code(&ps), 5);
}

#[test]
fn misaligned_pc_raises_address_error() {
    let mut ps = console(&[]);
    ps.cpu.pc = 0xBFC0_0002;
    run_instruction(&mut ps);
    assert_eq!(cause_code(&ps), 4);
    assert_eq!(ps.cpu.cop0.epc, 0xBFC0_0002);
    assert_eq!(ps.cpu.pc, 0x8000_0080);
}

#[test]
fn unknown_encoding_raises_reserved_instruction() {
    let mut ps = console(&[(0, 0xFC00_0000)]);
    run_instruction(&mut ps);
    assert_eq!(cause_code(&ps), 10);
}

#[test]
fn div_special_cases() {
    // DIV $t1, $t2 ; MFHI $t3 ; MFLO $t4
    let program = [(0, 0x012A_001A), (4, 0x0000_5810), (8, 0x0000_6012)];
    let cases: [(u32, u32, u32, u32); 5] = [
        (7, 0, 7, 0xFFFF_FFFF),
        (0xFFFF_FFF9, 0, 0xFFFF_FFF9, 1),
        (0x8000_0000, 0xFFFF_FFFF, 0, 0x8000_0000),
        (0xFFFF_FFF9, 2, 0xFFFF_FFFF, 0xFFFF_FFFD),
        (7, 2, 1, 3),
    ];
    for (n, d, hi, lo) in cases {
        let mut ps = console(&program);
        ps.cpu.set_reg(n, 9);
        ps.cpu.set_reg(d, 10);
        run_instruction(&mut ps);
        assert_eq!((ps.cpu.hi, ps.cpu.lo), (hi, lo), "div {:08x} / {:08x}", n, d);
    }
}

#[test]
fn divu_by_zero() {
    // DIVU $t1, $t2
    let mut ps = console(&[(0, 0x012A_001B)]);
    ps.cpu.set_reg(0x1234, 9);
    run_instruction(&mut ps);
    assert_eq!(ps.cpu.hi, 0x1234);
    assert_eq!(ps.cpu.lo, 0xFFFF_FFFF);
}

#[test]
fn multiplication() {
    // MULTU $t1, $t2 then MULT $t1, $t2
    let mut ps = console(&[(0, 0x012A_0019), (4, 0x012A_0018)]);
    ps.cpu.set_reg(0xFFFF_FFFF, 9);
    ps.cpu.set_reg(0x0000_0002, 10);
    run_instruction(&mut ps);
    assert_eq!((ps.cpu.hi, ps.cpu.lo), (1, 0xFFFF_FFFE));
    run_instruction(&mut ps);
    assert_eq!((ps.cpu.hi, ps.cpu.lo), (0xFFFF_FFFF, 0xFFFF_FFFE));
}

#[test]
fn shifts() {
    // SRA $t0,$t1,4 ; SRL $t2,$t1,4 ; SLLV $t3,$t1,$t4 (shift 33 -> 1)
    let mut ps = console(&[(0, 0x0009_4103), (4, 0x0009_5102), (8, 0x0189_5804)]);
    ps.cpu.set_reg(0x8000_0010, 9);
    ps.cpu.set_reg(33, 12);
    run_instruction(&mut ps);
    run_instruction(&mut ps);
    run_instruction(&mut ps);
    assert_eq!(ps.cpu.registers[8], 0xF800_0001);
    assert_eq!(ps.cpu.registers[10], 0x0800_0001);
    assert_eq!(ps.cpu.registers[11], 0x0000_0020);
}

#[test]
fn set_less_than() {
    // SLT $t0,$t1,$t2 ; SLTU $t3,$t1,$t2 ; SLTIU $t4,$t2,-1
    let mut ps = console(&[(0, 0x012A_402A), (4, 0x012A_582B), (8, 0x2D4C_FFFF)]);
    ps.cpu.set_reg(0xFFFF_FFFF, 9);
    ps.cpu.set_reg(1, 10);
    run_instruction(&mut ps);
    run_instruction(&mut ps);
    run_instruction(&mut ps);
    assert_eq!(ps.cpu.registers[8], 1);
    assert_eq!(ps.cpu.registers[11], 0);
    assert_eq!(ps.cpu.registers[12], 1);
}

#[test]
fn jal_links_after_delay_slot() {
    // JAL with a 26-bit target of 0x3F00100, in the region of the delay slot
    let mut ps = console(&[(0, 0x0FF0_0100)]);
    run_instruction(&mut ps);
    assert_eq!(ps.cpu.registers[31], 0xBFC0_0008);
    assert_eq!(ps.cpu.next_pc, 0xBFC0_0400);
}

#[test]
fn jalr_links_into_rd() {
    // JALR $t1, $t0
    let mut ps = console(&[(0, 0x0100_4809)]);
    ps.cpu.set_reg(0x8000_1000, 8);
    run_instruction(&mut ps);
    assert_eq!(ps.cpu.registers[9], 0xBFC0_0008);
    assert_eq!(ps.cpu.next_pc, 0x8000_1000);
}

#[test]
fn bgezal_links_even_when_not_taken() {
    // BGEZAL $t0, 4 with $t0 negative
    let mut ps = console(&[(0, 0x0511_0004)]);
    ps.cpu.set_reg(0xFFFF_FFFF, 8);
    run_instruction(&mut ps);
    assert_eq!(ps.cpu.registers[31], 0xBFC0_0008);
    assert_eq!(ps.cpu.next_pc, 0xBFC0_0008);
}

#[test]
fn unaligned_word_loads() {
    // LWR $t0, 1($zero) ; LWL $t0, 4($zero)
    let mut ps = console(&[(0, 0x9808_0001), (4, 0x8808_0004)]);
    ps.write32(0x4433_2211, 0);
    ps.write32(0x8877_6655, 4);
    run_instruction(&mut ps);
    run_instruction(&mut ps);
    run_instruction(&mut ps);
    assert_eq!(ps.cpu.registers[8], 0x5544_3322);
}

#[test]
fn unaligned_word_stores() {
    // SWL $t0, 1($zero) ; SWR $t0, 6($zero)
    let mut ps = console(&[(0, 0xA808_0001), (4, 0xB808_0006)]);
    ps.write32(0xAAAA_AAAA, 0);
    ps.write32(0xBBBB_BBBB, 4);
    ps.cpu.set_reg(0x1122_3344, 8);
    run_instruction(&mut ps);
    run_instruction(&mut ps);
    assert_eq!(ps.read32(0), 0xAAAA_1122);
    assert_eq!(ps.read32(4), 0x3344_BBBB);
}

#[test]
fn byte_and_halfword_loads_extend() {
    // LB $t0,0($zero) ; LBU $t1,0($zero) ; LH $t2,0($zero) ; LHU $t3,0($zero) ; NOOP
    let mut ps = console(&[(0, 0x8008_0000), (4, 0x9009_0000), (8, 0x840A_0000), (12, 0x940B_0000)]);
    ps.write32(0x0000_8081, 0);
    for _ in 0..5 {
        run_instruction(&mut ps);
    }
    assert_eq!(ps.cpu.registers[8], 0xFFFF_FF81);
    assert_eq!(ps.cpu.registers[9], 0x0000_0081);
    assert_eq!(ps.cpu.registers[10], 0xFFFF_8081);
    assert_eq!(ps.cpu.registers[11], 0x0000_8081);
}

#[test]
fn cop0_moves() {
    // MTC0 $t0, $12 ; MFC0 $t1, $12 ; NOOP
    let mut ps = console(&[(0, 0x4088_6000), (4, 0x4009_6000)]);
    ps.cpu.set_reg(0x0001_0000, 8);
    run_instruction(&mut ps);
    assert_eq!(ps.cpu.cop0.get_status(), 0x0001_0000);
    assert!(ps.cpu.cop0.is_cache_isolated());
    run_instruction(&mut ps);
    assert_eq!(ps.cpu.registers[9], 0);
    run_instruction(&mut ps);
    assert_eq!(ps.cpu.registers[9], 0x0001_0000);
}

#[test]
fn lui_and_logic() {
    // LUI $t0,0x1234 ; ORI $t0,$t0,0x5678 ; XORI $t1,$t0,0xFFFF ; NOR $t2,$t0,$zero
    let mut ps = console(&[(0, 0x3C08_1234), (4, 0x3508_5678), (8, 0x3909_FFFF), (12, 0x0100_5027)]);
    for _ in 0..4 {
        run_instruction(&mut ps);
    }
    assert_eq!(ps.cpu.registers[8], 0x1234_5678);
    assert_eq!(ps.cpu.registers[9], 0x1234_A987);
    assert_eq!(ps.cpu.registers[10], 0xEDCB_A987);
}

#[test]
fn run_cycle_counts_one() {
    let mut ps = console(&[]);
    assert_eq!(run_cycle(&mut ps), 1);
    assert_eq!(ps.cpu.pc, 0xBFC0_0004);
}

#[test]
fn reset_points_at_rom() {
    let mut ps = console(&[]);
    ps.cpu.pc = 0x8000_0000;
    ps.reset();
    assert_eq!(ps.cpu.pc, 0xBFC0_0000);
    assert_eq!(ps.cpu.next_pc, 0xBFC0_0004);
}

#[test]
fn cpu_dump_text() {
    let mut ps = console(&[]);
    ps.cpu.set_reg(0xDEAD_BEEF, 31);
    let text = ps.cpu.to_string();
    assert!(text.starts_with("pc:bfc00000\n$zero: 00000000 \n$at: 00000000 \n"));
    assert!(text.ends_with("$ra: deadbeef \n "));
    assert_eq!(text.lines().count(), 34);
}

#[test]
fn addi_overflow_raises_exception() {
    // ADDI $t0, $t1, 1
    let mut ps = console(&[(0, 0x2128_0001)]);
    ps.cpu.set_reg(0x7FFF_FFFF, 9);
    run_instruction(&mut ps);
    assert_eq!(ps.cpu.registers[8], 0);
    assert_eq!(cause_code(&ps), 12);
}

#[test]
fn sub_traps_and_subu_wraps() {
    // SUB $t0, $t1, $t2 ; then SUBU $t3, $t1, $t2 from a fresh console
    let mut ps = console(&[(0, 0x012A_4022)]);
    ps.cpu.set_reg(0x8000_0000, 9);
    ps.cpu.set_reg(1, 10);
    run_instruction(&mut ps);
    assert_eq!(cause_code(&ps), 12);
    assert_eq!(ps.cpu.registers[8], 0);
    let mut ps = console(&[(0, 0x012A_5823)]);
    ps.cpu.set_reg(0x8000_0000, 9);
    ps.cpu.set_reg(1, 10);
    run_instruction(&mut ps);
    assert_eq!(ps.cpu.registers[11], 0x7FFF_FFFF);
}

#[test]
fn gte_operations_do_nothing() {
    // a GTE command, then MFC2 $t0, $15
    let mut ps = console(&[(0, 0x4A00_0001), (4, 0x4808_7800)]);
    run_instruction(&mut ps);
    run_instruction(&mut ps);
    run_instruction(&mut ps);
    assert_eq!(ps.cpu.registers, [0u32; 32]);
    assert_eq!(ps.cpu.cop0.cause, 0);
    assert_eq!(ps.cpu.pc, 0xBFC0_000C);
}

#[test]
fn mfc0_of_other_registers_gives_nothing() {
    // MFC0 $t0, $15
    let mut ps = console(&[(0, 0x4008_7800)]);
    run_instruction(&mut ps);
    assert_eq!(ps.cpu.load_delay_slot, None);
}

#[test]
fn consecutive_loads_to_one_register() {
    // LW $t0, 0($zero) ; LW $t0, 4($zero) ; NOOP
    let mut ps = console(&[(0, 0x8C08_0000), (4, 0x8C08_0004)]);
    ps.write32(0x1111_1111, 0);
    ps.write32(0x2222_2222, 4);
    run_instruction(&mut ps);
    run_instruction(&mut ps);
    assert_eq!(ps.cpu.registers[8], 0x1111_1111);
    run_instruction(&mut ps);
    assert_eq!(ps.cpu.registers[8], 0x2222_2222);
}
