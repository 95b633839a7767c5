//! The machine: a processor and its memory bank, wired together.

use vstd::prelude::*;
use crate::c64mem::{overlaid, C64Mem};
use crate::cpu::{Cpu, INITIAL_STATUS};
use crate::memory::IOVic;
use crate::vic::{Vic, X_SCROLL, X_SCROLL_INITIAL, Y_SCROLL, Y_SCROLL_INITIAL};

verus! {

/// Where [`Emu::start`] places the start-up program in ROM.
pub const PROGRAM_BASE: u16 = 0xE000;

/// The stack pointer that [`Emu::start`] sets.
pub const INITIAL_SP: u16 = 0xFF;

/// The start-up program: load 0x64 into the accumulator, subtract 1 and
/// compare with 0 until the difference is zero, then break.
pub open spec fn startup_program() -> Seq<u8> {
    seq![0xa9u8, 0x64u8, 0xe9u8, 0x01u8, 0xc9u8, 0x00u8, 0xd0u8, 0xfau8, 0x00u8]
}

/// A processor and the memory bank it runs on.
pub struct Emu {
    /// The processor.
    pub cpu: Cpu,
    /// The memory bank.
    pub mem: C64Mem,
}

impl Emu {
    /// A machine with a fresh processor and a fresh memory bank.
    pub fn new() -> (r: Self)
        ensures
            r.cpu == (Cpu { pc: 0, sp: 0, a: 0, x: 0, y: 0, status: INITIAL_STATUS }),
            r.mem.is_fresh(),
    {
        let cpu = Cpu::new();
        let mem = C64Mem::new();
        Emu { cpu, mem }
    }

    /// Makes the machine ready to run from `pc_addr`: places the start-up
    /// program in ROM, points the program counter at `pc_addr` and the
    /// stack pointer at the top of the stack page, and gives the video
    /// chip's scroll registers their initial values.
    pub fn start(&mut self, pc_addr: u16)
        ensures
            final(self).cpu == (Cpu { pc: pc_addr, sp: INITIAL_SP, ..old(self).cpu }),
            final(self).mem.ram == old(self).mem.ram,
            final(self).mem.rom@ == overlaid(
                old(self).mem.rom@,
                PROGRAM_BASE as int,
                startup_program(),
            ),
            final(self).mem.io == old(self).mem.with_vic_register(
                X_SCROLL,
                X_SCROLL_INITIAL,
            ).with_vic_register(Y_SCROLL, Y_SCROLL_INITIAL).io,
    {
        let test_rom: Vec<u8> = vec![0xa9, 0x64, 0xe9, 0x01, 0xc9, 0x00, 0xd0, 0xfa, 0x00];
        assert(test_rom@ =~= startup_program());
        self.mem.load_rom(&test_rom, PROGRAM_BASE);
        self.cpu.set_pc(pc_addr);
        self.cpu.set_sp(INITIAL_SP);
        let mut vic = Vic::new();
        vic.init(&mut self.mem);
    }
}

} // verus!
