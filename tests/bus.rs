use ps::dma::DMA;
use ps::expansion_region2::Expansion_Region_2;
use ps::gpu::GPU;
use ps::irq::IRQController;
use ps::map::mask_region;
use ps::playstation::PlayStation;
use ps::ram::Ram;
use ps::spu::SPU;

fn console() -> PlayStation {
    let mut bios = vec![0u8; 512 * 1024];
    for (i, b) in bios.iter_mut().enumerate() {
        *b = (i % 251) as u8;
    }
    PlayStation::new(bios)
}

#[test]
fn region_masking() {
    assert_eq!(mask_region(0x0000_1234), 0x0000_1234);
    assert_eq!(mask_region(0x8000_1234), 0x0000_1234);
    assert_eq!(mask_region(0xA000_1234), 0x0000_1234);
    assert_eq!(mask_region(0xBFC0_0000), 0x1FC0_0000);
    assert_eq!(mask_region(0x9FC0_0000), 0x1FC0_0000);
    assert_eq!(mask_region(0xFFFE_0130), 0xFFFE_0130);
    assert_eq!(mask_region(0x7FFF_FFFF), 0x7FFF_FFFF);
}

#[test]
fn word_read_is_four_byte_reads() {
    let mut ps = console();
    ps.write32(0xCAFE_BABE, 0x8000_0010);
    for &a in &[0x0000_0010u32, 0x8000_0010, 0xA000_0010, 0xBFC0_0100, 0x1FC7_FFFC] {
        let composed = (ps.read8(a) as u32)
            | ((ps.read8(a + 1) as u32) << 8)
            | ((ps.read8(a + 2) as u32) << 16)
            | ((ps.read8(a + 3) as u32) << 24);
        assert_eq!(ps.read32(a), composed, "address {:08x}", a);
    }
    assert_eq!(ps.read32(0x10), 0xCAFE_BABE);
    assert_eq!(ps.read16(0x12), 0xCAFE);
}

#[test]
fn ram_little_endian_access() {
    let mut ram = Ram::new();
    ram.write32(0x100, 0x1122_3344);
    assert_eq!(ram.read8(0x100), 0x44);
    assert_eq!(ram.read8(0x103), 0x11);
    assert_eq!(ram.read16(0x102), 0x1122);
    ram.write16(0x200, 0xBEEF);
    ram.write8(0x202, 0x7F);
    assert_eq!(ram.read32(0x200), 0x007F_BEEF);
    assert_eq!(ram.read8(0x1F_FFFF), 0);
}

#[test]
fn ram_dump_region_format() {
    let mut ram = Ram::new();
    for i in 0..18u32 {
        ram.write8(0x10 + i, i as u8 + 0xA0);
    }
    let text = ram.dump_region(0x10, 18);
    assert_eq!(
        text,
        "00000010: A0 A1 A2 A3 A4 A5 A6 A7 A8 A9 AA AB AC AD AE AF \n00000020: B0 B1 "
    );
    assert_eq!(ram.dump_region(0, 0), "");
}

#[test]
fn bios_reads() {
    let ps = console();
    assert_eq!(ps.read8(0xBFC0_0003), 3);
    assert_eq!(ps.read16(0xBFC0_0002), 0x0302);
    assert_eq!(ps.read32(0xBFC0_0000), 0x0302_0100);
    assert_eq!(ps.bios.read32(0x1FC0_00FC), u32::from_le_bytes([1, 2, 3, 4]));
}

#[test]
fn gpu_status_reads_ready() {
    let ps = console();
    assert_eq!(ps.read32(0x1F80_1814), 0x1000_0000);
    assert_eq!(ps.read32(0x1F80_1810), 0);
    assert_eq!(GPU::new().read32(0x1F80_1814), 0x1000_0000);
}

#[test]
fn irq_controller_registers() {
    let mut ps = console();
    ps.irq.status = 0b1011;
    ps.write32(0b0011, 0x1F80_1074);
    ps.write32(0b1110, 0x1F80_1070);
    assert_eq!(ps.read32(0x1F80_1074), 0b0011);
    assert_eq!(ps.read32(0x1F80_1070), 0b1010);
    assert!(ps.irq.interrupt_pending());
    let mut irq = IRQController::new();
    irq.set_mask(0xF0);
    irq.acknowledge(0);
    assert_eq!(irq.get_mask(), 0xF0);
    assert_eq!(irq.get_status(), 0);
    assert!(!irq.interrupt_pending());
}

#[test]
fn memory_control_and_cache_control() {
    let mut ps = console();
    ps.write32(0x1F00_0000, 0x1F80_1000);
    ps.write32(0x0000_0B88, 0x1F80_1060);
    ps.write32(0x0001_E988, 0xFFFE_0130);
    ps.write32(0x0013_1313, 0x1F80_1020);
    assert_eq!(ps.mem_ctrl[0], 0x1F00_0000);
    assert_eq!(ps.mem_ctrl[8], 0x0013_1313);
    assert_eq!(ps.read32(0x1F80_1060), 0x0000_0B88);
    assert_eq!(ps.cache_ctrl, 0x0001_E988);
    assert_eq!(ps.read32(0xBF80_1000), 0x1F00_0000);
    assert_eq!(ps.read16(0x1F80_1062), 0);
    assert_eq!(ps.read8(0x1F80_1061), 0x0B);
}

#[test]
fn expansion_region_one_reads_zero() {
    let ps = console();
    assert_eq!(ps.read8(0x1F00_0084), 0);
    assert_eq!(ps.read8(0xBF00_0084), 0);
}

#[test]
fn expansion_region_two_post_register() {
    let mut ps = console();
    ps.write8(0x1F80_2041, 0x0F);
    ps.write8(0x1F80_2042, 0x33);
    assert_eq!(ps.exp2.post, 0x0F);
    let mut exp2 = Expansion_Region_2::new();
    exp2.write_byte(0x1F80_2040, 9);
    assert_eq!(exp2.post, 0);
    assert_eq!(exp2.read_byte(0x1F80_2041), 0);
}

#[test]
fn spu_registers() {
    let mut ps = console();
    ps.write16(0xBEEF, 0x1F80_1D80);
    assert_eq!(ps.read16(0x1F80_1D80), 0xBEEF);
    ps.write8(0x1F80_1D80, 0x11);
    assert_eq!(ps.read16(0x1F80_1D80), 0xBE11);
    ps.write8(0x1F80_1D81, 0x22);
    assert_eq!(ps.read16(0x1F80_1D80), 0x2211);
    ps.write32(0x4444_3333, 0x1F80_1FFC);
    assert_eq!(ps.read16(0x1F80_1FFC), 0x3333);
    assert_eq!(ps.read16(0x1F80_1FFE), 0x4444);
    assert_eq!(ps.read32(0x1F80_1FFC), 0x4444_3333);
    let mut spu = SPU::new();
    spu.write_byte(0x1F80_1C03, 0xAB);
    assert_eq!(spu.read_halfword(0x1F80_1C02), 0xAB00);
    assert_eq!(spu.registers.len(), 512);
}

#[test]
fn dma_register_file() {
    let mut ps = console();
    assert_eq!(ps.read32(0x1F80_10F0), 0x0765_4321);
    ps.write32(0x0012_3456, 0x1F80_10A0);
    ps.write32(0x0001_0010, 0x1F80_10A4);
    ps.write32(0x0100_0201, 0x1F80_10A8);
    ps.write32(0x00FF_0000, 0x1F80_10F4);
    assert_eq!(ps.read32(0x1F80_10A0), 0x0012_3456);
    assert_eq!(ps.read32(0x1F80_10A4), 0x0001_0010);
    assert_eq!(ps.read32(0x1F80_10A8), 0x0100_0201);
    assert_eq!(ps.read32(0x1F80_10F4), 0x00FF_0000);
    assert_eq!(ps.read32(0x1F80_10AC), 0);
    assert_eq!(ps.dma.channels[2].base_address, 0x0012_3456);
    let mut dma = DMA::new();
    dma.write32(0x1F80_10F0, 7);
    assert_eq!(dma.read32(0x1F80_10F0), 7);
    assert_eq!(ps::dma::dma_map(0x1F80_10E8), (6, 8));
}

#[test]
fn unmapped_accesses_are_dropped() {
    let mut ps = console();
    ps.write32(0x1234_5678, 0x1F80_1100);
    ps.write32(0x1234_5678, 0x1F80_1810);
    ps.write16(0x1234, 0x1F80_1070);
    assert_eq!(ps.read32(0x1F80_1100), 0);
    assert_eq!(ps.read32(0x1F80_1070), 0);
    assert_eq!(ps.read32(0x1F90_0000), 0);
    ps.write32(0xFFFF_FFFF, 0xBFC0_0000);
    assert_eq!(ps.read32(0xBFC0_0000), 0x0302_0100);
}
