//! Core of a PlayStation emulator: the R3000A processor, its coprocessor 0,
//! and the memory bus with the devices the boot ROM talks to.
pub mod map;
pub mod ram;
pub mod bios;
pub mod expansion_region2;
pub mod gpu;
pub mod irq;
pub mod spu;
pub mod channel;
pub mod dma;
pub mod cop0;
pub mod instruction;
pub mod cpu;
pub mod playstation;
pub mod semantics;
pub mod text;
pub mod disassembler;
pub mod emulator;
