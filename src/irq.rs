//! Interrupt controller: keeps the status and mask registers; it never interrupts the CPU.
use vstd::prelude::*;

verus! {

#[derive(Copy, Clone)]
pub struct IRQController {
    /// Interrupt requests that are raised.
    pub status: u32,
    /// Interrupt requests that are enabled.
    pub mask: u32,
}

impl IRQController {
    pub fn new() -> (r: IRQController)
        ensures
            r.status == 0,
            r.mask == 0,
    {
        IRQController { status: 0, mask: 0 }
    }

    pub fn get_status(&self) -> (r: u32)
        ensures
            r == self.status,
    {
        self.status
    }

    pub fn get_mask(&self) -> (r: u32)
        ensures
            r == self.mask,
    {
        self.mask
    }

    /// A write to the status register: zero bits clear requests, one bits keep them.
    pub fn acknowledge(&mut self, value: u32)
        ensures
            final(self).status == old(self).status & value,
            final(self).mask == old(self).mask,
    {
        self.status = self.status & value;
    }

    pub fn set_mask(&mut self, value: u32)
        ensures
            final(self).mask == value,
            final(self).status == old(self).status,
    {
        self.mask = value;
    }

    /// Whether some raised request is enabled.
    pub fn interrupt_pending(&self) -> (r: bool)
        ensures
            r == (self.status & self.mask != 0),
    {
        self.status & self.mask != 0
    }
}

} // verus!
