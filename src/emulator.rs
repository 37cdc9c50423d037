//! What a debugger drives: the console, a run/pause flag and a set of breakpoints.
use vstd::prelude::*;

use crate::playstation::{PlayStation, CYCLES_PER_FRAME};
use crate::semantics::run_until_breakpoint;
use crate::text::{bin_text, dec_text, hex_text, push_bin, push_dec, push_hex};
use std::collections::HashSet;

verus! {

broadcast use vstd::std_specs::hash::group_hash_axioms;

pub struct Emulator {
    pub ps: PlayStation,
    pub running: bool,
    pub breakpoints: HashSet<u32>,
}

impl Emulator {
    pub open spec fn wf(&self) -> bool {
        self.ps.wf()
    }

    /// A paused console at reset with the given 512 KiB ROM image, and no breakpoints.
    pub fn new(bios: Vec<u8>) -> (r: Emulator)
        requires
            bios@.len() == crate::map::BIOS_SIZE,
        ensures
            r.wf(),
            r.ps@ == crate::playstation::power_on(bios@),
            !r.running,
            r.breakpoints@ == Set::<u32>::empty(),
    {
        Emulator { ps: PlayStation::new(bios), running: false, breakpoints: HashSet::new() }
    }

    /// Runs up to one frame's worth of steps, stopping after the first step
    /// that lands on a breakpoint; a breakpoint flips the run/pause flag.
    pub fn run(&mut self)
        requires
            old(self).wf(),
        ensures
            final(self).wf(),
            final(self).breakpoints@ == old(self).breakpoints@,
            final(self).ps@ == run_until_breakpoint(
                old(self).ps@,
                old(self).breakpoints@,
                CYCLES_PER_FRAME as nat,
            ).0,
            final(self).running == if run_until_breakpoint(
                old(self).ps@,
                old(self).breakpoints@,
                CYCLES_PER_FRAME as nat,
            ).1 {
                !old(self).running
            } else {
                old(self).running
            },
    {
        let mut total_cycles: usize = 0;
        let mut hit = false;
        while total_cycles < CYCLES_PER_FRAME && !hit
            invariant
                self.wf(),
                total_cycles <= CYCLES_PER_FRAME,
                self.breakpoints@ == old(self).breakpoints@,
                !hit ==> self.running == old(self).running,
                !hit ==> run_until_breakpoint(
                    old(self).ps@,
                    old(self).breakpoints@,
                    CYCLES_PER_FRAME as nat,
                ) == run_until_breakpoint(
                    self.ps@,
                    old(self).breakpoints@,
                    (CYCLES_PER_FRAME - total_cycles) as nat,
                ),
                hit ==> run_until_breakpoint(
                    old(self).ps@,
                    old(self).breakpoints@,
                    CYCLES_PER_FRAME as nat,
                ) == (self.ps@, true),
                hit ==> self.running == !old(self).running,
            decreases CYCLES_PER_FRAME - total_cycles,
        {
            let cycles = crate::cpu::run_cycle(&mut self.ps);
            if self.breakpoints.contains(&self.ps.cpu.pc) {
                self.running = !self.running;
                hit = true;
            }
            total_cycles += cycles;
        }
    }

    pub fn add_breakpoint(&mut self, address: u32)
        ensures
            final(self).breakpoints@ == old(self).breakpoints@.insert(address),
            final(self).ps@ == old(self).ps@,
            final(self).running == old(self).running,
    {
        self.breakpoints.insert(address);
    }

    pub fn remove_breakpoint(&mut self, address: u32)
        ensures
            final(self).breakpoints@ == old(self).breakpoints@.remove(address),
            final(self).ps@ == old(self).ps@,
            final(self).running == old(self).running,
    {
        self.breakpoints.remove(&address);
    }

    /// Removes the breakpoint at `address` if there is one, else adds it;
    /// returns whether `address` is now a breakpoint.
    pub fn toggle_breakpoint(&mut self, address: u32) -> (r: bool)
        ensures
            r == !old(self).breakpoints@.contains(address),
            final(self).breakpoints@ == if r {
                old(self).breakpoints@.insert(address)
            } else {
                old(self).breakpoints@.remove(address)
            },
            final(self).ps@ == old(self).ps@,
            final(self).running == old(self).running,
    {
        if self.breakpoints.contains(&address) {
            self.remove_breakpoint(address);
            false
        } else {
            self.add_breakpoint(address);
            true
        }
    }
}

/// How a watched word is shown.
#[derive(Copy, Clone, PartialEq, Eq, Structural, Debug)]
pub enum WatchFormat {
    Hex,
    Decimal,
    Binary,
}

impl WatchFormat {
    /// The text of `value` in this format: `0x` and eight upper-case
    /// hexadecimal digits, plain decimal, or `0b` and thirty-two binary digits.
    pub open spec fn text(self, value: u32) -> Seq<char> {
        match self {
            WatchFormat::Hex => "0x"@ + hex_text(value as nat, 8, true),
            WatchFormat::Decimal => dec_text(value as nat),
            WatchFormat::Binary => "0b"@ + bin_text(value as nat, 32),
        }
    }

    pub fn format_value(&self, value: u32) -> (r: String)
        ensures
            r@ == self.text(value),
    {
        match self {
            WatchFormat::Hex => {
                let mut s = "0x".to_owned();
                push_hex(&mut s, value, 8, true);
                s
            },
            WatchFormat::Decimal => {
                let mut s = String::new();
                push_dec(&mut s, value);
                assert(s@ =~= dec_text(value as nat));
                s
            },
            WatchFormat::Binary => {
                let mut s = "0b".to_owned();
                push_bin(&mut s, value, 32);
                s
            },
        }
    }
}

} // verus!
