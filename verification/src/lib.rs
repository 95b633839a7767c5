//! The processor and banked memory of an 8-bit home computer: a 6502-family
//! instruction interpreter over a 16-bit address space that multiplexes RAM,
//! ROM and memory-mapped chip registers under software control.

pub mod memory;
pub mod c64mem;
pub mod status;
pub mod opcode;
pub mod cpu;
pub mod instructions;
pub mod execute;
pub mod vic;
pub mod emu;
pub mod laws;
