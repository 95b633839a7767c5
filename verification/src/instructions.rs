//! The instruction handlers: what each of the 56 instructions does to the
//! registers and to memory, given its effective address.

use vstd::prelude::*;
use crate::cpu::{Cpu, BREAK_VECTOR};
use crate::memory::{low_byte, peek_word, split_word, IOMem};
use crate::opcode::OpMode;
use crate::status::{
    assign_flag, flag, test_flag, BREAK, CARRY, DECIMAL, INTERRUPT, NEGATIVE, OVERFLOW, ZERO,
};

verus! {

/// `value` shifted left by one bit; bit 7 is lost.
pub open spec fn shift_left(value: u8) -> u8 {
    (value * 2 % 256) as u8
}

/// `value` shifted right by one bit; bit 0 is lost.
pub open spec fn shift_right(value: u8) -> u8 {
    value / 2
}

/// `value` shifted left by one bit, with `carry` moved into bit 0.
pub open spec fn rotate_left(value: u8, carry: bool) -> u8 {
    (value * 2 % 256 + if carry { 1int } else { 0int }) as u8
}

/// `value` shifted right by one bit, with `carry` moved into bit 7.
pub open spec fn rotate_right(value: u8, carry: bool) -> u8 {
    (value / 2 + if carry { 0x80int } else { 0int }) as u8
}

/// Bit 7 of `value`: the bit that a shift to the left pushes out.
pub open spec fn top_bit(value: u8) -> bool {
    value >= 0x80
}

/// Bit 0 of `value`: the bit that a shift to the right pushes out.
pub open spec fn low_bit(value: u8) -> bool {
    value % 2 == 1
}

/// The bitwise complement of `value`, which is `-value - 1` in two's
/// complement.
pub open spec fn complement(value: u8) -> u8 {
    (0xFF - value) as u8
}

impl Cpu {
    /// The registers after `value` was loaded into the accumulator.
    pub open spec fn loaded_a(self, value: u8) -> Cpu {
        Cpu { a: value, ..self }.zn(value)
    }

    /// The registers after `value` was loaded into X.
    pub open spec fn loaded_x(self, value: u8) -> Cpu {
        Cpu { x: value, ..self }.zn(value)
    }

    /// The registers after `value` was loaded into Y.
    pub open spec fn loaded_y(self, value: u8) -> Cpu {
        Cpu { y: value, ..self }.zn(value)
    }

    /// The registers after a branch to `address` that is taken or not.
    pub open spec fn branched(self, taken: bool, address: u16) -> Cpu {
        if taken {
            self.at(address)
        } else {
            self
        }
    }

    /// The registers after `value` and the carry flag were added to the
    /// accumulator.
    ///
    /// The sum has nine bits. Its low eight bits are the new accumulator.
    /// Carry is set exactly when the sum exceeds eight bits. Overflow is
    /// set exactly when both addends have the same sign and the result has
    /// the other one. Zero and negative follow the new accumulator.
    pub open spec fn added(self, value: u8) -> Cpu {
        let total = self.a + value + if self.has(CARRY) { 1int } else { 0int };
        let result = (total % 256) as u8;
        let overflow = top_bit(self.a) == top_bit(value) && top_bit(result) != top_bit(self.a);
        Cpu { a: result, ..self }.flagged(CARRY, total > 0xFF).flagged(OVERFLOW, overflow).zn(
            result,
        )
    }

    /// The registers after `register` was compared with `operand`: carry
    /// is set exactly when `register >= operand`; zero and negative follow
    /// the wrapping difference.
    pub open spec fn compared(self, register: u8, operand: u8) -> Cpu {
        self.flagged(CARRY, register >= operand).zn(register.wrapping_sub(operand))
    }

    /// The registers after a bit test of `operand`: zero is set exactly
    /// when the accumulator and the operand share no bit; negative and
    /// overflow are bits 7 and 6 of the operand.
    pub open spec fn bit_tested(self, operand: u8) -> Cpu {
        self.flagged(ZERO, self.a & operand == 0).flagged(
            NEGATIVE,
            flag(operand, NEGATIVE),
        ).flagged(OVERFLOW, flag(operand, OVERFLOW))
    }

    /// The byte that a shift or rotate works on: the accumulator in
    /// accumulator mode, else the byte at `address`.
    pub open spec fn shift_operand<M: IOMem>(self, mem: M, mode: OpMode, address: u16) -> u8 {
        if mode == OpMode::Accumulator {
            self.a
        } else {
            mem.peek(address)
        }
    }

    /// Registers and memory after a shift or rotate produced `result` and
    /// pushed out the bit `carry`: the result goes to the accumulator in
    /// accumulator mode, else to memory at `address`; carry is the bit
    /// pushed out; zero and negative follow the result.
    pub open spec fn shifted<M: IOMem>(
        self,
        mem: M,
        mode: OpMode,
        address: u16,
        result: u8,
        carry: bool,
    ) -> (Cpu, M) {
        let flags = self.flagged(CARRY, carry).zn(result);
        if mode == OpMode::Accumulator {
            (Cpu { a: result, ..flags }, mem)
        } else {
            (flags, mem.poke(address, result))
        }
    }

    /// Registers and memory after the byte at `address` was replaced by
    /// `result`, with zero and negative following it.
    pub open spec fn modified<M: IOMem>(self, mem: M, address: u16, result: u8) -> (Cpu, M) {
        (self.zn(result), mem.poke(address, result))
    }

    /// Registers and memory after a break: the program counter moves past
    /// the break byte and is pushed; the break flag is set and the flag
    /// register is pushed; interrupt-disable is set; the program counter is
    /// loaded from the break vector.
    pub open spec fn interrupted<M: IOMem>(self, mem: M) -> (Cpu, M) {
        let past = self.at(self.pc.wrapping_add(1));
        let (cpu, mem) = past.pushed_word(mem, past.pc);
        let cpu = cpu.flagged(BREAK, true);
        let (cpu, mem) = cpu.pushed(mem, cpu.status);
        let cpu = cpu.flagged(INTERRUPT, true);
        (cpu.at(peek_word(mem, BREAK_VECTOR)), mem)
    }

    /// Registers and memory after a call of the subroutine at `address`:
    /// the address of the last byte of the call instruction is pushed.
    pub open spec fn called<M: IOMem>(self, mem: M, address: u16) -> (Cpu, M) {
        let (cpu, mem) = self.pushed_word(mem, self.pc.wrapping_sub(1));
        (cpu.at(address), mem)
    }

    /// The registers after a return from a subroutine: execution goes on
    /// behind the address popped.
    pub open spec fn returned<M: IOMem>(self, mem: M) -> Cpu {
        let (cpu, target) = self.popped_word(mem);
        cpu.at(target.wrapping_add(1))
    }

    /// The registers after a return from an interrupt: the flag register is
    /// popped, then the program counter.
    pub open spec fn resumed<M: IOMem>(self, mem: M) -> Cpu {
        let (cpu, status) = self.popped(mem);
        let (cpu, target) = cpu.popped_word(mem);
        Cpu { status, pc: target, ..cpu }
    }

    /// The registers after the accumulator was pulled from the stack.
    pub open spec fn pulled_a<M: IOMem>(self, mem: M) -> Cpu {
        let (cpu, value) = self.popped(mem);
        cpu.loaded_a(value)
    }

    /// The registers after the flag register was pulled from the stack.
    pub open spec fn pulled_status<M: IOMem>(self, mem: M) -> Cpu {
        let (cpu, value) = self.popped(mem);
        Cpu { status: value, ..cpu }
    }

    /// The registers after the stack pointer was set from X.
    pub open spec fn stack_from_x(self) -> Cpu {
        Cpu { sp: self.x as u16, ..self }
    }

    /// Adds `value` and the carry flag to the accumulator.
    pub fn add_a(&mut self, value: u8)
        ensures
            *final(self) == old(self).added(value),
    {
        let a = self.a;
        let carry: u16 = if test_flag(self.status, CARRY) {
            1
        } else {
            0
        };
        let sum: u16 = a as u16 + value as u16 + carry;
        let result: u8 = (sum % 256) as u8;
        assert(((value ^ result) & (result ^ a) & 0x80 != 0) == ((a >= 0x80) == (value >= 0x80)
            && (result >= 0x80) != (a >= 0x80))) by (bit_vector);
        self.status = assign_flag(self.status, CARRY, sum > 0xFF);
        self.status = assign_flag(
            self.status,
            OVERFLOW,
            (value ^ result) & (result ^ a) & 0x80 != 0,
        );
        self.a = result;
        self.set_zn(result);
    }

    /// Add with carry.
    pub fn adc<M: IOMem>(&mut self, memory: &M, address: u16)
        ensures
            *final(self) == old(self).added(memory.peek(address)),
    {
        let data = memory.read_u8(address);
        self.add_a(data);
    }

    /// Bitwise and with the accumulator.
    pub fn and<M: IOMem>(&mut self, memory: &M, address: u16)
        ensures
            *final(self) == old(self).loaded_a(old(self).a & memory.peek(address)),
    {
        let data = memory.read_u8(address);
        self.a = self.a & data;
        self.set_zn(self.a);
    }

    /// Reads the byte that a shift or rotate works on.
    pub fn read_shift_operand<M: IOMem>(&self, memory: &M, mode: OpMode, address: u16) -> (r: u8)
        ensures
            r == self.shift_operand(*memory, mode, address),
    {
        match mode {
            OpMode::Accumulator => self.a,
            _ => memory.read_u8(address),
        }
    }

    /// Stores the result of a shift or rotate and sets carry, zero and
    /// negative.
    pub fn write_shift_result<M: IOMem>(
        &mut self,
        memory: &mut M,
        mode: OpMode,
        address: u16,
        result: u8,
        carry: bool,
    )
        ensures
            (*final(self), *final(memory)) == old(self).shifted(
                *old(memory),
                mode,
                address,
                result,
                carry,
            ),
    {
        self.status = assign_flag(self.status, CARRY, carry);
        match mode {
            OpMode::Accumulator => {
                self.a = result;
            },
            _ => {
                memory.write_u8(address, result);
            },
        }
        self.set_zn(result);
    }

    /// Arithmetic shift left, of the accumulator or of memory.
    pub fn asl<M: IOMem>(&mut self, memory: &mut M, mode: OpMode, address: u16)
        ensures
            ({
                let data = old(self).shift_operand(*old(memory), mode, address);
                (*final(self), *final(memory)) == old(self).shifted(
                    *old(memory),
                    mode,
                    address,
                    shift_left(data),
                    top_bit(data),
                )
            }),
    {
        let data = self.read_shift_operand(memory, mode, address);
        assert(data << 1 == data * 2 % 256 && (data >> 7 == 1) == (data >= 0x80)) by (bit_vector);
        self.write_shift_result(memory, mode, address, data << 1, data >> 7 == 1);
    }

    /// Branch if carry is clear.
    pub fn bcc(&mut self, address: u16)
        ensures
            *final(self) == old(self).branched(!old(self).has(CARRY), address),
    {
        if !test_flag(self.status, CARRY) {
            self.pc = address;
        }
    }

    /// Branch if carry is set.
    pub fn bcs(&mut self, address: u16)
        ensures
            *final(self) == old(self).branched(old(self).has(CARRY), address),
    {
        if test_flag(self.status, CARRY) {
            self.pc = address;
        }
    }

    /// Branch if zero is set.
    pub fn beq(&mut self, address: u16)
        ensures
            *final(self) == old(self).branched(old(self).has(ZERO), address),
    {
        if test_flag(self.status, ZERO) {
            self.pc = address;
        }
    }

    /// Bit test of the accumulator against memory.
    pub fn bit<M: IOMem>(&mut self, memory: &M, address: u16)
        ensures
            *final(self) == old(self).bit_tested(memory.peek(address)),
    {
        let data = memory.read_u8(address);
        self.status = assign_flag(self.status, ZERO, self.a & data == 0);
        self.status = assign_flag(self.status, NEGATIVE, test_flag(data, NEGATIVE));
        self.status = assign_flag(self.status, OVERFLOW, test_flag(data, OVERFLOW));
    }

    /// Break.
    pub fn brk<M: IOMem>(&mut self, memory: &mut M)
        ensures
            (*final(self), *final(memory)) == old(self).interrupted(*old(memory)),
    {
        self.pc = self.pc.wrapping_add(1);
        let pc = self.pc;
        self.push_stack_u16(memory, pc);
        self.status = assign_flag(self.status, BREAK, true);
        let status = self.status;
        self.push_stack(memory, status);
        self.status = assign_flag(self.status, INTERRUPT, true);
        self.pc = memory.read_u16(BREAK_VECTOR);
    }

    /// Branch if negative is set.
    pub fn bmi(&mut self, address: u16)
        ensures
            *final(self) == old(self).branched(old(self).has(NEGATIVE), address),
    {
        if test_flag(self.status, NEGATIVE) {
            self.pc = address;
        }
    }

    /// Branch if zero is clear.
    pub fn bne(&mut self, address: u16)
        ensures
            *final(self) == old(self).branched(!old(self).has(ZERO), address),
    {
        if !test_flag(self.status, ZERO) {
            self.pc = address;
        }
    }

    /// Branch if negative is clear.
    pub fn bpl(&mut self, address: u16)
        ensures
            *final(self) == old(self).branched(!old(self).has(NEGATIVE), address),
    {
        if !test_flag(self.status, NEGATIVE) {
            self.pc = address;
        }
    }

    /// Branch if overflow is clear.
    pub fn bvc(&mut self, address: u16)
        ensures
            *final(self) == old(self).branched(!old(self).has(OVERFLOW), address),
    {
        if !test_flag(self.status, OVERFLOW) {
            self.pc = address;
        }
    }

    /// Branch if overflow is set.
    pub fn bvs(&mut self, address: u16)
        ensures
            *final(self) == old(self).branched(old(self).has(OVERFLOW), address),
    {
        if test_flag(self.status, OVERFLOW) {
            self.pc = address;
        }
    }

    /// Clear carry.
    pub fn clc(&mut self)
        ensures
            *final(self) == old(self).flagged(CARRY, false),
    {
        self.status = assign_flag(self.status, CARRY, false);
    }

    /// Clear decimal mode.
    pub fn cld(&mut self)
        ensures
            *final(self) == old(self).flagged(DECIMAL, false),
    {
        self.status = assign_flag(self.status, DECIMAL, false);
    }

    /// Clear interrupt-disable.
    pub fn cli(&mut self)
        ensures
            *final(self) == old(self).flagged(INTERRUPT, false),
    {
        self.status = assign_flag(self.status, INTERRUPT, false);
    }

    /// Clear overflow.
    pub fn clv(&mut self)
        ensures
            *final(self) == old(self).flagged(OVERFLOW, false),
    {
        self.status = assign_flag(self.status, OVERFLOW, false);
    }

    /// Sets the flags from a comparison of `register` with `operand`.
    pub fn compare(&mut self, register: u8, operand: u8)
        ensures
            *final(self) == old(self).compared(register, operand),
    {
        self.status = assign_flag(self.status, CARRY, operand <= register);
        self.set_zn(register.wrapping_sub(operand));
    }

    /// Compare memory with the accumulator.
    pub fn cmp<M: IOMem>(&mut self, memory: &M, address: u16)
        ensures
            *final(self) == old(self).compared(old(self).a, memory.peek(address)),
    {
        let with = memory.read_u8(address);
        self.compare(self.a, with);
    }

    /// Compare memory with X.
    pub fn cpx<M: IOMem>(&mut self, memory: &M, address: u16)
        ensures
            *final(self) == old(self).compared(old(self).x, memory.peek(address)),
    {
        let with = memory.read_u8(address);
        self.compare(self.x, with);
    }

    /// Compare memory with Y.
    pub fn cpy<M: IOMem>(&mut self, memory: &M, address: u16)
        ensures
            *final(self) == old(self).compared(old(self).y, memory.peek(address)),
    {
        let with = memory.read_u8(address);
        self.compare(self.y, with);
    }

    /// Decrement memory.
    pub fn dec<M: IOMem>(&mut self, memory: &mut M, address: u16)
        ensures
            (*final(self), *final(memory)) == old(self).modified(
                *old(memory),
                address,
                old(memory).peek(address).wrapping_sub(1),
            ),
    {
        let data = memory.read_u8(address).wrapping_sub(1);
        memory.write_u8(address, data);
        self.set_zn(data);
    }

    /// Decrement X.
    pub fn dex(&mut self)
        ensures
            *final(self) == old(self).loaded_x(old(self).x.wrapping_sub(1)),
    {
        self.x = self.x.wrapping_sub(1);
        self.set_zn(self.x);
    }

    /// Decrement Y.
    pub fn dey(&mut self)
        ensures
            *final(self) == old(self).loaded_y(old(self).y.wrapping_sub(1)),
    {
        self.y = self.y.wrapping_sub(1);
        self.set_zn(self.y);
    }

    /// Bitwise exclusive or with the accumulator.
    pub fn eor<M: IOMem>(&mut self, memory: &M, address: u16)
        ensures
            *final(self) == old(self).loaded_a(memory.peek(address) ^ old(self).a),
    {
        let data = memory.read_u8(address);
        self.a = data ^ self.a;
        self.set_zn(self.a);
    }

    /// Increment memory.
    pub fn inc<M: IOMem>(&mut self, memory: &mut M, address: u16)
        ensures
            (*final(self), *final(memory)) == old(self).modified(
                *old(memory),
                address,
                old(memory).peek(address).wrapping_add(1),
            ),
    {
        let data = memory.read_u8(address).wrapping_add(1);
        memory.write_u8(address, data);
        self.set_zn(data);
    }

    /// Increment X.
    pub fn inx(&mut self)
        ensures
            *final(self) == old(self).loaded_x(old(self).x.wrapping_add(1)),
    {
        self.x = self.x.wrapping_add(1);
        self.set_zn(self.x);
    }

    /// Increment Y.
    pub fn iny(&mut self)
        ensures
            *final(self) == old(self).loaded_y(old(self).y.wrapping_add(1)),
    {
        self.y = self.y.wrapping_add(1);
        self.set_zn(self.y);
    }

    /// Jump.
    pub fn jmp(&mut self, address: u16)
        ensures
            *final(self) == old(self).at(address),
    {
        self.pc = address;
    }

    /// Jump to a subroutine.
    pub fn jsr<M: IOMem>(&mut self, memory: &mut M, address: u16)
        ensures
            (*final(self), *final(memory)) == old(self).called(*old(memory), address),
    {
        let back = self.pc.wrapping_sub(1);
        self.push_stack_u16(memory, back);
        self.pc = address;
    }

    /// Load the accumulator.
    pub fn lda<M: IOMem>(&mut self, memory: &M, address: u16)
        ensures
            *final(self) == old(self).loaded_a(memory.peek(address)),
    {
        let data = memory.read_u8(address);
        self.a = data;
        self.set_zn(self.a);
    }

    /// Load X.
    pub fn ldx<M: IOMem>(&mut self, memory: &M, address: u16)
        ensures
            *final(self) == old(self).loaded_x(memory.peek(address)),
    {
        let data = memory.read_u8(address);
        self.x = data;
        self.set_zn(self.x);
    }

    /// Load Y.
    pub fn ldy<M: IOMem>(&mut self, memory: &M, address: u16)
        ensures
            *final(self) == old(self).loaded_y(memory.peek(address)),
    {
        let data = memory.read_u8(address);
        self.y = data;
        self.set_zn(self.y);
    }

    /// Logical shift right, of the accumulator or of memory.
    pub fn lsr<M: IOMem>(&mut self, memory: &mut M, mode: OpMode, address: u16)
        ensures
            ({
                let data = old(self).shift_operand(*old(memory), mode, address);
                (*final(self), *final(memory)) == old(self).shifted(
                    *old(memory),
                    mode,
                    address,
                    shift_right(data),
                    low_bit(data),
                )
            }),
    {
        let data = self.read_shift_operand(memory, mode, address);
        assert(data >> 1 == data / 2 && (data & 1 == 1) == (data % 2 == 1)) by (bit_vector);
        self.write_shift_result(memory, mode, address, data >> 1, data & 1 == 1);
    }

    /// No operation.
    pub fn nop(&mut self)
        ensures
            *final(self) == *old(self),
    {
    }

    /// Bitwise or with the accumulator.
    pub fn ora<M: IOMem>(&mut self, memory: &M, address: u16)
        ensures
            *final(self) == old(self).loaded_a(memory.peek(address) | old(self).a),
    {
        let data = memory.read_u8(address);
        self.a = data | self.a;
        self.set_zn(self.a);
    }

    /// Push the accumulator.
    pub fn pha<M: IOMem>(&mut self, memory: &mut M)
        ensures
            (*final(self), *final(memory)) == old(self).pushed(*old(memory), old(self).a),
    {
        let a = self.a;
        self.push_stack(memory, a);
    }

    /// Push the flag register.
    pub fn php<M: IOMem>(&mut self, memory: &mut M)
        ensures
            (*final(self), *final(memory)) == old(self).pushed(*old(memory), old(self).status),
    {
        let status = self.status;
        self.push_stack(memory, status);
    }

    /// Pull the accumulator.
    pub fn pla<M: IOMem>(&mut self, memory: &M)
        ensures
            *final(self) == old(self).pulled_a(*memory),
    {
        self.a = self.pop_stack(memory);
        self.set_zn(self.a);
    }

    /// Pull the flag register.
    pub fn plp<M: IOMem>(&mut self, memory: &M)
        ensures
            *final(self) == old(self).pulled_status(*memory),
    {
        self.status = self.pop_stack(memory);
    }

    /// Rotate left through carry, of the accumulator or of memory.
    pub fn rol<M: IOMem>(&mut self, memory: &mut M, mode: OpMode, address: u16)
        ensures
            ({
                let data = old(self).shift_operand(*old(memory), mode, address);
                (*final(self), *final(memory)) == old(self).shifted(
                    *old(memory),
                    mode,
                    address,
                    rotate_left(data, old(self).has(CARRY)),
                    top_bit(data),
                )
            }),
    {
        let data = self.read_shift_operand(memory, mode, address);
        let old_carry = test_flag(self.status, CARRY);
        let mut result = data << 1;
        if old_carry {
            result = result | 1;
        }
        assert((data << 1) | 1 == data * 2 % 256 + 1 && data << 1 == data * 2 % 256 && (data >> 7
            == 1) == (data >= 0x80)) by (bit_vector);
        self.write_shift_result(memory, mode, address, result, data >> 7 == 1);
    }

    /// Rotate right through carry, of the accumulator or of memory.
    pub fn ror<M: IOMem>(&mut self, memory: &mut M, mode: OpMode, address: u16)
        ensures
            ({
                let data = old(self).shift_operand(*old(memory), mode, address);
                (*final(self), *final(memory)) == old(self).shifted(
                    *old(memory),
                    mode,
                    address,
                    rotate_right(data, old(self).has(CARRY)),
                    low_bit(data),
                )
            }),
    {
        let data = self.read_shift_operand(memory, mode, address);
        let old_carry = test_flag(self.status, CARRY);
        let mut result = data >> 1;
        if old_carry {
            result = result | 0x80;
        }
        assert((data >> 1) | 0x80 == data / 2 + 0x80 && data >> 1 == data / 2 && (data & 1 == 1)
            == (data % 2 == 1)) by (bit_vector);
        self.write_shift_result(memory, mode, address, result, data & 1 == 1);
    }

    /// Return from an interrupt.
    pub fn rti<M: IOMem>(&mut self, memory: &M)
        ensures
            *final(self) == old(self).resumed(*memory),
    {
        self.status = self.pop_stack(memory);
        self.pc = self.pop_stack_u16(memory);
    }

    /// Return from a subroutine.
    pub fn rts<M: IOMem>(&mut self, memory: &M)
        ensures
            *final(self) == old(self).returned(*memory),
    {
        self.pc = self.pop_stack_u16(memory).wrapping_add(1);
    }

    /// Subtract with carry: adds the complement of the operand.
    pub fn sbc<M: IOMem>(&mut self, memory: &M, address: u16)
        ensures
            *final(self) == old(self).added(complement(memory.peek(address))),
    {
        let data = memory.read_u8(address);
        self.add_a(0xFF - data);
    }

    /// Set carry.
    pub fn sec(&mut self)
        ensures
            *final(self) == old(self).flagged(CARRY, true),
    {
        self.status = assign_flag(self.status, CARRY, true);
    }

    /// Set decimal mode.
    pub fn sed(&mut self)
        ensures
            *final(self) == old(self).flagged(DECIMAL, true),
    {
        self.status = assign_flag(self.status, DECIMAL, true);
    }

    /// Set interrupt-disable.
    pub fn sei(&mut self)
        ensures
            *final(self) == old(self).flagged(INTERRUPT, true),
    {
        self.status = assign_flag(self.status, INTERRUPT, true);
    }

    /// Store the accumulator.
    pub fn sta<M: IOMem>(&mut self, memory: &mut M, address: u16)
        ensures
            *final(self) == *old(self),
            *final(memory) == old(memory).poke(address, old(self).a),
    {
        memory.write_u8(address, self.a);
    }

    /// Store X.
    pub fn stx<M: IOMem>(&mut self, memory: &mut M, address: u16)
        ensures
            *final(self) == *old(self),
            *final(memory) == old(memory).poke(address, old(self).x),
    {
        memory.write_u8(address, self.x);
    }

    /// Store Y.
    pub fn sty<M: IOMem>(&mut self, memory: &mut M, address: u16)
        ensures
            *final(self) == *old(self),
            *final(memory) == old(memory).poke(address, old(self).y),
    {
        memory.write_u8(address, self.y);
    }

    /// Transfer the accumulator to X.
    pub fn tax(&mut self)
        ensures
            *final(self) == old(self).loaded_x(old(self).a),
    {
        self.x = self.a;
        self.set_zn(self.x);
    }

    /// Transfer the accumulator to Y.
    pub fn tay(&mut self)
        ensures
            *final(self) == old(self).loaded_y(old(self).a),
    {
        self.y = self.a;
        self.set_zn(self.y);
    }

    /// Transfer the low byte of the stack pointer to X.
    pub fn tsx(&mut self)
        ensures
            *final(self) == old(self).loaded_x(low_byte(old(self).sp)),
    {
        let (low, _) = split_word(self.sp);
        self.x = low;
        self.set_zn(self.x);
    }

    /// Transfer X to the accumulator.
    pub fn txa(&mut self)
        ensures
            *final(self) == old(self).loaded_a(old(self).x),
    {
        self.a = self.x;
        self.set_zn(self.a);
    }

    /// Transfer X to the stack pointer.
    pub fn txs(&mut self)
        ensures
            *final(self) == old(self).stack_from_x(),
    {
        self.sp = self.x as u16;
    }

    /// Transfer Y to the accumulator.
    pub fn tya(&mut self)
        ensures
            *final(self) == old(self).loaded_a(old(self).y),
    {
        self.a = self.y;
        self.set_zn(self.a);
    }
}

} // verus!
