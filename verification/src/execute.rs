//! One fetch-decode-execute step.

use vstd::prelude::*;
use crate::cpu::{wrap16, Cpu};
use crate::instructions::{
    complement, low_bit, rotate_left, rotate_right, shift_left, shift_right, top_bit,
};
use crate::memory::{low_byte, IOMem};
use crate::opcode::{get_opcode, opcode_entry, Mnemonic, Opcode};
use crate::status::{CARRY, DECIMAL, INTERRUPT, NEGATIVE, OVERFLOW, ZERO};

verus! {

/// Why a step failed.
#[derive(Clone, Copy, Debug, PartialEq, Eq, Structural)]
pub enum CpuError {
    /// The byte at the program counter has no entry in the opcode table.
    UnsupportedInstruction(u8),
    /// The table names an instruction that has no handler. Every
    /// instruction of [`Mnemonic`] has one, so a step never reports this.
    UnrecognizedMnemonic,
}

impl Cpu {
    /// The registers with the program counter moved on by `count` bytes,
    /// wrapping at 16 bits.
    pub open spec fn advanced(self, count: int) -> Cpu {
        self.at(wrap16(self.pc + count))
    }

    /// Registers and memory after the instruction `opcode` ran with the
    /// effective address `address`, the program counter already standing
    /// behind the instruction.
    pub open spec fn executed<M: IOMem>(self, mem: M, opcode: Opcode, address: u16) -> (Cpu, M) {
        let operand = mem.peek(address);
        let data = self.shift_operand(mem, opcode.mode, address);
        let carry = self.has(CARRY);
        match opcode.mnemonic {
            Mnemonic::Adc => (self.added(operand), mem),
            Mnemonic::And => (self.loaded_a(self.a & operand), mem),
            Mnemonic::Asl => self.shifted(
                mem,
                opcode.mode,
                address,
                shift_left(data),
                top_bit(data),
            ),
            Mnemonic::Bcc => (self.branched(!carry, address), mem),
            Mnemonic::Bcs => (self.branched(carry, address), mem),
            Mnemonic::Beq => (self.branched(self.has(ZERO), address), mem),
            Mnemonic::Bit => (self.bit_tested(operand), mem),
            Mnemonic::Bmi => (self.branched(self.has(NEGATIVE), address), mem),
            Mnemonic::Bne => (self.branched(!self.has(ZERO), address), mem),
            Mnemonic::Bpl => (self.branched(!self.has(NEGATIVE), address), mem),
            Mnemonic::Brk => self.interrupted(mem),
            Mnemonic::Bvc => (self.branched(!self.has(OVERFLOW), address), mem),
            Mnemonic::Bvs => (self.branched(self.has(OVERFLOW), address), mem),
            Mnemonic::Clc => (self.flagged(CARRY, false), mem),
            Mnemonic::Cld => (self.flagged(DECIMAL, false), mem),
            Mnemonic::Cli => (self.flagged(INTERRUPT, false), mem),
            Mnemonic::Clv => (self.flagged(OVERFLOW, false), mem),
            Mnemonic::Cmp => (self.compared(self.a, operand), mem),
            Mnemonic::Cpx => (self.compared(self.x, operand), mem),
            Mnemonic::Cpy => (self.compared(self.y, operand), mem),
            Mnemonic::Dec => self.modified(mem, address, operand.wrapping_sub(1)),
            Mnemonic::Dex => (self.loaded_x(self.x.wrapping_sub(1)), mem),
            Mnemonic::Dey => (self.loaded_y(self.y.wrapping_sub(1)), mem),
            Mnemonic::Eor => (self.loaded_a(operand ^ self.a), mem),
            Mnemonic::Inc => self.modified(mem, address, operand.wrapping_add(1)),
            Mnemonic::Inx => (self.loaded_x(self.x.wrapping_add(1)), mem),
            Mnemonic::Iny => (self.loaded_y(self.y.wrapping_add(1)), mem),
            Mnemonic::Jmp => (self.at(address), mem),
            Mnemonic::Jsr => self.called(mem, address),
            Mnemonic::Lda => (self.loaded_a(operand), mem),
            Mnemonic::Ldx => (self.loaded_x(operand), mem),
            Mnemonic::Ldy => (self.loaded_y(operand), mem),
            Mnemonic::Lsr => self.shifted(
                mem,
                opcode.mode,
                address,
                shift_right(data),
                low_bit(data),
            ),
            Mnemonic::Nop => (self, mem),
            Mnemonic::Ora => (self.loaded_a(operand | self.a), mem),
            Mnemonic::Pha => self.pushed(mem, self.a),
            Mnemonic::Php => self.pushed(mem, self.status),
            Mnemonic::Pla => (self.pulled_a(mem), mem),
            Mnemonic::Plp => (self.pulled_status(mem), mem),
            Mnemonic::Rol => self.shifted(
                mem,
                opcode.mode,
                address,
                rotate_left(data, carry),
                top_bit(data),
            ),
            Mnemonic::Ror => self.shifted(
                mem,
                opcode.mode,
                address,
                rotate_right(data, carry),
                low_bit(data),
            ),
            Mnemonic::Rti => (self.resumed(mem), mem),
            Mnemonic::Rts => (self.returned(mem), mem),
            Mnemonic::Sbc => (self.added(complement(operand)), mem),
            Mnemonic::Sec => (self.flagged(CARRY, true), mem),
            Mnemonic::Sed => (self.flagged(DECIMAL, true), mem),
            Mnemonic::Sei => (self.flagged(INTERRUPT, true), mem),
            Mnemonic::Sta => (self, mem.poke(address, self.a)),
            Mnemonic::Stx => (self, mem.poke(address, self.x)),
            Mnemonic::Sty => (self, mem.poke(address, self.y)),
            Mnemonic::Tax => (self.loaded_x(self.a), mem),
            Mnemonic::Tay => (self.loaded_y(self.a), mem),
            Mnemonic::Tsx => (self.loaded_x(low_byte(self.sp)), mem),
            Mnemonic::Txa => (self.loaded_a(self.x), mem),
            Mnemonic::Txs => (self.stack_from_x(), mem),
            Mnemonic::Tya => (self.loaded_a(self.y), mem),
        }
    }

    /// Registers, memory and outcome after one step.
    ///
    /// The byte at the program counter is looked up in the opcode table.
    /// Without an entry the step fails with that byte and changes nothing.
    /// With one, the program counter moves past the instruction byte, the
    /// effective address is computed there, the program counter moves past
    /// the operand bytes, and the instruction runs.
    pub open spec fn stepped<M: IOMem>(self, mem: M) -> (Cpu, M, Result<(), CpuError>) {
        let byte = mem.peek(self.pc);
        match opcode_entry(byte) {
            None => (self, mem, Err(CpuError::UnsupportedInstruction(byte))),
            Some(opcode) => {
                let fetched = self.advanced(1);
                let address = fetched.effective_address(mem, opcode.mode);
                let (cpu, mem) = fetched.advanced(opcode.bytes - 1).executed(
                    mem,
                    opcode,
                    address,
                );
                (cpu, mem, Ok(()))
            },
        }
    }

    /// Moves the program counter on by `count` bytes, wrapping at 16 bits.
    pub fn advance(&mut self, count: u8)
        ensures
            *final(self) == old(self).advanced(count as int),
    {
        self.pc = self.pc.wrapping_add(count as u16);
    }

    /// Runs the instruction `opcode` with the effective address `address`.
    pub fn execute<M: IOMem>(&mut self, memory: &mut M, opcode: &Opcode, address: u16)
        ensures
            (*final(self), *final(memory)) == old(self).executed(*old(memory), *opcode, address),
    {
        match opcode.mnemonic {
            Mnemonic::Adc => self.adc(memory, address),
            Mnemonic::And => self.and(memory, address),
            Mnemonic::Asl => self.asl(memory, opcode.mode, address),
            Mnemonic::Bcc => self.bcc(address),
            Mnemonic::Bcs => self.bcs(address),
            Mnemonic::Beq => self.beq(address),
            Mnemonic::Bit => self.bit(memory, address),
            Mnemonic::Brk => self.brk(memory),
            Mnemonic::Bmi => self.bmi(address),
            Mnemonic::Bne => self.bne(address),
            Mnemonic::Bpl => self.bpl(address),
            Mnemonic::Bvc => self.bvc(address),
            Mnemonic::Bvs => self.bvs(address),
            Mnemonic::Clc => self.clc(),
            Mnemonic::Cld => self.cld(),
            Mnemonic::Cli => self.cli(),
            Mnemonic::Clv => self.clv(),
            Mnemonic::Cmp => self.cmp(memory, address),
            Mnemonic::Cpx => self.cpx(memory, address),
            Mnemonic::Cpy => self.cpy(memory, address),
            Mnemonic::Dec => self.dec(memory, address),
            Mnemonic::Dex => self.dex(),
            Mnemonic::Dey => self.dey(),
            Mnemonic::Eor => self.eor(memory, address),
            Mnemonic::Inc => self.inc(memory, address),
            Mnemonic::Inx => self.inx(),
            Mnemonic::Iny => self.iny(),
            Mnemonic::Jmp => self.jmp(address),
            Mnemonic::Jsr => self.jsr(memory, address),
            Mnemonic::Lda => self.lda(memory, address),
            Mnemonic::Ldx => self.ldx(memory, address),
            Mnemonic::Ldy => self.ldy(memory, address),
            Mnemonic::Lsr => self.lsr(memory, opcode.mode, address),
            Mnemonic::Nop => self.nop(),
            Mnemonic::Ora => self.ora(memory, address),
            Mnemonic::Pha => self.pha(memory),
            Mnemonic::Php => self.php(memory),
            Mnemonic::Pla => self.pla(memory),
            Mnemonic::Plp => self.plp(memory),
            Mnemonic::Rol => self.rol(memory, opcode.mode, address),
            Mnemonic::Ror => self.ror(memory, opcode.mode, address),
            Mnemonic::Rti => self.rti(memory),
            Mnemonic::Rts => self.rts(memory),
            Mnemonic::Sbc => self.sbc(memory, address),
            Mnemonic::Sec => self.sec(),
            Mnemonic::Sed => self.sed(),
            Mnemonic::Sei => self.sei(),
            Mnemonic::Sta => self.sta(memory, address),
            Mnemonic::Stx => self.stx(memory, address),
            Mnemonic::Sty => self.sty(memory, address),
            Mnemonic::Tax => self.tax(),
            Mnemonic::Tay => self.tay(),
            Mnemonic::Tsx => self.tsx(),
            Mnemonic::Txa => self.txa(),
            Mnemonic::Tya => self.tya(),
            Mnemonic::Txs => self.txs(),
        }
    }

    /// Performs one fetch-decode-execute step.
    pub fn execute_instructions<M: IOMem>(&mut self, memory: &mut M) -> (r: Result<(), CpuError>)
        ensures
            (*final(self), *final(memory), r) == old(self).stepped(*old(memory)),
    {
        let byte = memory.read_u8(self.pc);
        let opcode = match get_opcode(byte) {
            Some(op) => op,
            None => {
                return Err(CpuError::UnsupportedInstruction(byte));
            },
        };
        self.advance(1);
        let address = self.get_mode(memory, &opcode);
        self.advance(opcode.bytes - 1);
        self.execute(memory, &opcode, address);
        Ok(())
    }
}

} // verus!
