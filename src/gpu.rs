//! GPU register stub: enough of GPUSTAT for the boot ROM's polling loops.
use vstd::prelude::*;

verus! {

/// The value GPUSTAT reads as: "ready to receive a command".
pub const GPU_STATUS_READY: u32 = 0x1000_0000;

/// What a 32-bit read of the GPU register at physical address `addr` returns.
pub open spec fn gpu_read(addr: u32) -> u32 {
    if addr == crate::map::GPU_REGISTERS_START + 4 {
        GPU_STATUS_READY
    } else {
        0
    }
}

#[derive(Copy, Clone)]
pub struct GPU {
    pub gp0: u32,
    pub gp1: u32,
}

impl GPU {
    pub fn new() -> (r: GPU)
        ensures
            r.gp0 == 0,
            r.gp1 == 0,
    {
        GPU { gp0: 0, gp1: 0 }
    }

    /// The status register (offset 4) reads as `GPU_STATUS_READY`, the others as 0.
    pub fn read32(&self, addr: u32) -> (r: u32)
        ensures
            r == gpu_read(addr),
    {
        if addr == crate::map::GPU_REGISTERS_START + 4 {
            GPU_STATUS_READY
        } else {
            0
        }
    }
}

} // verus!
