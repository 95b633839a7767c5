//! The processor's registers, its stack and its thirteen addressing modes.

use vstd::prelude::*;
use crate::memory::{high_byte, low_byte, make_word, peek_word, split_word, word, IOMem};
use crate::opcode::{OpMode, Opcode};
use crate::status::{
    assign_zn, flag, lemma_zero_negative_follow_value, with_flag, with_zn, NEGATIVE, ZERO,
};

verus! {

/// The stack lives in the page that starts here; the stack pointer is an
/// offset from it.
pub const STACK_BASE: u16 = 0x100;

/// Address of the two-byte vector that the break instruction jumps through.
pub const BREAK_VECTOR: u16 = 0xFFFE;

/// The flag register of a fresh processor.
pub const INITIAL_STATUS: u8 = 0b001_0000;

/// The six architectural registers.
#[derive(Clone, Copy, Debug, PartialEq, Eq, Structural)]
pub struct Cpu {
    /// Address of the next instruction.
    pub pc: u16,
    /// Stack pointer, an offset from [`STACK_BASE`].
    pub sp: u16,
    /// Accumulator.
    pub a: u8,
    /// Index register X.
    pub x: u8,
    /// Index register Y.
    pub y: u8,
    /// Flag register; see [`crate::status`].
    pub status: u8,
}

/// The value of a byte read as a two's-complement number.
pub open spec fn signed(byte: u8) -> int {
    if byte < 0x80 {
        byte as int
    } else {
        byte - 0x100
    }
}

/// `value` reduced modulo 65536.
pub open spec fn wrap16(value: int) -> u16 {
    (value % 0x10000) as u16
}

/// The little-endian word that a zero-page pointer designates: its low byte
/// at `pointer`, its high byte at the next zero-page address, which wraps
/// from 0xFF to 0x00 and never reaches page 1.
pub open spec fn zero_page_word<M: IOMem>(mem: M, pointer: u8) -> u16 {
    word(mem.peek(pointer as u16), mem.peek(pointer.wrapping_add(1) as u16))
}

impl Cpu {
    /// Whether a flag of `mask` is set.
    pub open spec fn has(self, mask: u8) -> bool {
        flag(self.status, mask)
    }

    /// The registers with the flags of `mask` set if `on`, cleared
    /// otherwise.
    pub open spec fn flagged(self, mask: u8, on: bool) -> Cpu {
        Cpu { status: with_flag(self.status, mask, on), ..self }
    }

    /// The registers with the zero and negative flags recomputed from
    /// `value`.
    pub open spec fn zn(self, value: u8) -> Cpu {
        Cpu { status: with_zn(self.status, value), ..self }
    }

    /// The registers with the program counter at `address`.
    pub open spec fn at(self, address: u16) -> Cpu {
        Cpu { pc: address, ..self }
    }

    /// The address that the next push writes to. The sum wraps at 16 bits.
    pub open spec fn stack_slot(self) -> u16 {
        STACK_BASE.wrapping_add(self.sp)
    }

    /// Registers and memory after a push of `value`: the byte is stored at
    /// the stack slot, then the stack pointer drops by one, wrapping at 16
    /// bits.
    pub open spec fn pushed<M: IOMem>(self, mem: M, value: u8) -> (Cpu, M) {
        (Cpu { sp: self.sp.wrapping_sub(1), ..self }, mem.poke(self.stack_slot(), value))
    }

    /// Registers after a pop, and the byte popped: the stack pointer rises
    /// by one, wrapping at 16 bits, then the byte at the stack slot is read.
    pub open spec fn popped<M: IOMem>(self, mem: M) -> (Cpu, u8) {
        let raised = Cpu { sp: self.sp.wrapping_add(1), ..self };
        (raised, mem.peek(raised.stack_slot()))
    }

    /// Registers and memory after a push of a word: the high byte first,
    /// then the low byte.
    pub open spec fn pushed_word<M: IOMem>(self, mem: M, value: u16) -> (Cpu, M) {
        let (cpu, mem) = self.pushed(mem, high_byte(value));
        cpu.pushed(mem, low_byte(value))
    }

    /// Registers after a pop of a word, and the word popped: the low byte
    /// first, then the high byte.
    pub open spec fn popped_word<M: IOMem>(self, mem: M) -> (Cpu, u16) {
        let (cpu, low) = self.popped(mem);
        let (cpu, high) = cpu.popped(mem);
        (cpu, word(low, high))
    }

    /// The effective address of an instruction with the addressing mode
    /// `mode` whose operand bytes start at the program counter.
    pub open spec fn effective_address<M: IOMem>(self, mem: M, mode: OpMode) -> u16 {
        match mode {
            OpMode::Implied => 0,
            OpMode::Immediate => self.pc,
            OpMode::Accumulator => self.a as u16,
            OpMode::Absolute => peek_word(mem, self.pc),
            OpMode::AbsoluteX => peek_word(mem, self.pc).wrapping_add(self.x as u16),
            OpMode::AbsoluteY => peek_word(mem, self.pc).wrapping_add(self.y as u16),
            OpMode::ZeroPage => mem.peek(self.pc) as u16,
            OpMode::ZeroPageX => mem.peek(self.pc).wrapping_add(self.x) as u16,
            OpMode::ZeroPageY => mem.peek(self.pc).wrapping_add(self.y) as u16,
            OpMode::Indirect => zero_page_word(mem, mem.peek(self.pc)),
            OpMode::IndirectX => zero_page_word(mem, mem.peek(self.pc).wrapping_add(self.x)),
            OpMode::IndirectY => zero_page_word(mem, mem.peek(self.pc)).wrapping_add(
                self.y as u16,
            ),
            OpMode::Relative => wrap16(self.pc + 1 + signed(mem.peek(self.pc))),
        }
    }

    /// A processor with every register zero and only the break flag set.
    pub fn new() -> (r: Self)
        ensures
            r == (Cpu { pc: 0, sp: 0, a: 0, x: 0, y: 0, status: INITIAL_STATUS }),
    {
        Cpu { pc: 0, sp: 0, a: 0, x: 0, y: 0, status: INITIAL_STATUS }
    }

    /// Sets the address of the next instruction.
    pub fn set_pc(&mut self, address: u16)
        ensures
            *final(self) == old(self).at(address),
    {
        self.pc = address;
    }

    /// Sets the stack pointer.
    pub fn set_sp(&mut self, address: u16)
        ensures
            *final(self) == (Cpu { sp: address, ..*old(self) }),
    {
        self.sp = address;
    }

    /// Recomputes the zero and negative flags from `value`: afterwards zero
    /// is set if and only if `value` is 0, and negative if and only if bit
    /// 7 of `value` is 1.
    pub fn set_zn(&mut self, value: u8)
        ensures
            *final(self) == old(self).zn(value),
            final(self).has(ZERO) <==> value == 0,
            final(self).has(NEGATIVE) <==> value & 0x80 == 0x80,
    {
        proof {
            lemma_zero_negative_follow_value(self.status, value);
        }
        self.status = assign_zn(self.status, value);
    }

    /// Increments the stack pointer, then reads the byte it designates.
    pub fn pop_stack<M: IOMem>(&mut self, memory: &M) -> (r: u8)
        ensures
            (*final(self), r) == old(self).popped(*memory),
    {
        self.sp = self.sp.wrapping_add(1);
        memory.read_u8(STACK_BASE.wrapping_add(self.sp))
    }

    /// Stores `value` where the stack pointer designates, then decrements
    /// the stack pointer.
    pub fn push_stack<M: IOMem>(&mut self, memory: &mut M, value: u8)
        ensures
            (*final(self), *final(memory)) == old(self).pushed(*old(memory), value),
    {
        memory.write_u8(STACK_BASE.wrapping_add(self.sp), value);
        self.sp = self.sp.wrapping_sub(1);
    }

    /// Pops a word: the low byte, then the high byte.
    pub fn pop_stack_u16<M: IOMem>(&mut self, memory: &M) -> (r: u16)
        ensures
            (*final(self), r) == old(self).popped_word(*memory),
    {
        let low = self.pop_stack(memory);
        let high = self.pop_stack(memory);
        make_word(low, high)
    }

    /// Pushes a word: the high byte, then the low byte.
    pub fn push_stack_u16<M: IOMem>(&mut self, memory: &mut M, value: u16)
        ensures
            (*final(self), *final(memory)) == old(self).pushed_word(*old(memory), value),
    {
        let (low, high) = split_word(value);
        self.push_stack(memory, high);
        self.push_stack(memory, low);
    }

    /// Computes the effective address of the instruction `opcode`, whose
    /// operand bytes start at the program counter. Reads memory and changes
    /// nothing: the program counter stays on the operand bytes.
    pub fn get_mode<M: IOMem>(&self, memory: &M, opcode: &Opcode) -> (r: u16)
        ensures
            r == self.effective_address(*memory, opcode.mode),
    {
        match opcode.mode {
            OpMode::Implied => 0,
            OpMode::Immediate => self.address_immidiate(),
            OpMode::Absolute => self.address_absolute(memory),
            OpMode::AbsoluteX => self.address_absolute_x(memory),
            OpMode::AbsoluteY => self.address_absolute_y(memory),
            OpMode::Indirect => self.address_indirect(memory),
            OpMode::IndirectX => self.address_indirect_x(memory),
            OpMode::IndirectY => self.address_indirect_y(memory),
            OpMode::ZeroPage => self.address_zeropage(memory),
            OpMode::ZeroPageX => self.address_zeropage_x(memory),
            OpMode::ZeroPageY => self.address_zeropage_y(memory),
            OpMode::Accumulator => self.address_accumulator(),
            OpMode::Relative => self.address_relative(memory),
        }
    }

    /// The operand is the byte at the program counter itself.
    pub fn address_immidiate(&self) -> (r: u16)
        ensures
            r == self.pc,
    {
        self.pc
    }

    /// The operand bytes are the address, low byte first.
    pub fn address_absolute<M: IOMem>(&self, memory: &M) -> (r: u16)
        ensures
            r == peek_word(*memory, self.pc),
    {
        memory.read_u16(self.pc)
    }

    /// The absolute address plus X, wrapping at 16 bits.
    pub fn address_absolute_x<M: IOMem>(&self, memory: &M) -> (r: u16)
        ensures
            r == peek_word(*memory, self.pc).wrapping_add(self.x as u16),
    {
        let first = memory.read_u16(self.pc);
        first.wrapping_add(self.x as u16)
    }

    /// The absolute address plus Y, wrapping at 16 bits.
    pub fn address_absolute_y<M: IOMem>(&self, memory: &M) -> (r: u16)
        ensures
            r == peek_word(*memory, self.pc).wrapping_add(self.y as u16),
    {
        let first = memory.read_u16(self.pc);
        first.wrapping_add(self.y as u16)
    }

    /// The operand byte is a zero-page pointer to the address.
    pub fn address_indirect<M: IOMem>(&self, memory: &M) -> (r: u16)
        ensures
            r == zero_page_word(*memory, memory.peek(self.pc)),
    {
        let pointer = memory.read_u8(self.pc);
        let low = memory.read_u8(pointer as u16);
        let high = memory.read_u8(pointer.wrapping_add(1) as u16);
        make_word(low, high)
    }

    /// The operand byte plus X, wrapping at 8 bits, is a zero-page pointer
    /// to the address.
    pub fn address_indirect_x<M: IOMem>(&self, memory: &M) -> (r: u16)
        ensures
            r == zero_page_word(*memory, memory.peek(self.pc).wrapping_add(self.x)),
    {
        let pointer = memory.read_u8(self.pc).wrapping_add(self.x);
        let low = memory.read_u8(pointer as u16);
        let high = memory.read_u8(pointer.wrapping_add(1) as u16);
        make_word(low, high)
    }

    /// The operand byte is a zero-page pointer to a word; the address is
    /// that word plus Y, wrapping at 16 bits.
    pub fn address_indirect_y<M: IOMem>(&self, memory: &M) -> (r: u16)
        ensures
            r == zero_page_word(*memory, memory.peek(self.pc)).wrapping_add(self.y as u16),
    {
        let first = memory.read_u8(self.pc);
        let low = memory.read_u8(first as u16);
        let high = memory.read_u8(first.wrapping_add(1) as u16);
        make_word(low, high).wrapping_add(self.y as u16)
    }

    /// The operand byte is the address, in the zero page.
    pub fn address_zeropage<M: IOMem>(&self, memory: &M) -> (r: u16)
        ensures
            r == memory.peek(self.pc) as u16,
    {
        memory.read_u8(self.pc) as u16
    }

    /// The operand byte plus X, wrapping at 8 bits, is the address.
    pub fn address_zeropage_x<M: IOMem>(&self, memory: &M) -> (r: u16)
        ensures
            r == memory.peek(self.pc).wrapping_add(self.x) as u16,
    {
        let first = memory.read_u8(self.pc);
        first.wrapping_add(self.x) as u16
    }

    /// The operand byte plus Y, wrapping at 8 bits, is the address.
    pub fn address_zeropage_y<M: IOMem>(&self, memory: &M) -> (r: u16)
        ensures
            r == memory.peek(self.pc).wrapping_add(self.y) as u16,
    {
        let first = memory.read_u8(self.pc);
        first.wrapping_add(self.y) as u16
    }

    /// The accumulator's value, widened. Instructions in this mode work on
    /// the accumulator and do not use the address.
    pub fn address_accumulator(&self) -> (r: u16)
        ensures
            r == self.a as u16,
    {
        self.a as u16
    }

    /// The operand byte is a signed offset from the address that follows
    /// it; the sum wraps at 16 bits.
    pub fn address_relative<M: IOMem>(&self, memory: &M) -> (r: u16)
        ensures
            r == wrap16(self.pc + 1 + signed(memory.peek(self.pc))),
    {
        let jump = memory.read_u8(self.pc);
        let next = self.pc.wrapping_add(1);
        if jump < 0x80 {
            next.wrapping_add(jump as u16)
        } else {
            next.wrapping_sub(0x100 - jump as u16)
        }
    }
}

} // verus!
