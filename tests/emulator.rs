use ps::emulator::Emulator;
use ps::playstation::{PlayStation, CYCLES_PER_FRAME};

fn bios_with(words: &[(usize, u32)]) -> Vec<u8> {
    let mut bios = vec![0u8; 512 * 1024];
    for &(offset, word) in words {
        bios[offset..offset + 4].copy_from_slice(&word.to_le_bytes());
    }
    bios
}

#[test]
fn breakpoints_can_be_set_and_cleared() {
    let mut emu = Emulator::new(bios_with(&[]));
    assert!(emu.breakpoints.is_empty());
    emu.add_breakpoint(0xBFC0_0010);
    assert!(emu.breakpoints.contains(&0xBFC0_0010));
    assert!(!emu.toggle_breakpoint(0xBFC0_0010));
    assert!(!emu.breakpoints.contains(&0xBFC0_0010));
    assert!(emu.toggle_breakpoint(0xBFC0_0020));
    emu.remove_breakpoint(0xBFC0_0020);
    assert!(emu.breakpoints.is_empty());
}

#[test]
fn run_stops_at_breakpoint() {
    let mut emu = Emulator::new(bios_with(&[]));
    emu.running = true;
    emu.add_breakpoint(0xBFC0_0010);
    emu.run();
    assert_eq!(emu.ps.cpu.pc, 0xBFC0_0010);
    assert_eq!(emu.ps.cpu.current_pc, 0xBFC0_000C);
    assert!(!emu.running);
}

#[test]
fn run_goes_a_whole_frame_without_breakpoints() {
    // J to self: an endless loop with a NOOP delay slot
    let mut emu = Emulator::new(bios_with(&[(0, 0x0BF0_0000)]));
    emu.running = true;
    emu.run();
    assert!(emu.running);
    assert_eq!(emu.ps.cpu.pc & 0xFFFF_FFF0, 0xBFC0_0000);
}

#[test]
fn frame_runs_every_cycle() {
    // J to self at the reset vector: even steps land on 0xBFC00004
    let mut ps = PlayStation::new(bios_with(&[(0, 0x0BF0_0000)]));
    ps.run_next_frame();
    assert_eq!(CYCLES_PER_FRAME % 2, 0);
    assert_eq!(ps.cpu.pc, 0xBFC0_0000);
    assert_eq!(ps.cpu.current_pc, 0xBFC0_0004);
}
