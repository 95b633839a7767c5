//! The opcode table: which instruction, addressing mode and length each
//! supported instruction byte stands for.

use vstd::prelude::*;

verus! {

/// How an instruction finds its operand.
#[derive(Clone, Copy, Debug, PartialEq, Eq, Structural)]
pub enum OpMode {
    Implied,
    Immediate,
    Absolute,
    AbsoluteX,
    AbsoluteY,
    Indirect,
    IndirectX,
    IndirectY,
    ZeroPage,
    ZeroPageX,
    ZeroPageY,
    Accumulator,
    Relative,
}

/// The instructions of the processor, by their three-letter names.
#[derive(Clone, Copy, Debug, PartialEq, Eq, Structural)]
pub enum Mnemonic {
    Adc,
    And,
    Asl,
    Bcc,
    Bcs,
    Beq,
    Bit,
    Bmi,
    Bne,
    Bpl,
    Brk,
    Bvc,
    Bvs,
    Clc,
    Cld,
    Cli,
    Clv,
    Cmp,
    Cpx,
    Cpy,
    Dec,
    Dex,
    Dey,
    Eor,
    Inc,
    Inx,
    Iny,
    Jmp,
    Jsr,
    Lda,
    Ldx,
    Ldy,
    Lsr,
    Nop,
    Ora,
    Pha,
    Php,
    Pla,
    Plp,
    Rol,
    Ror,
    Rti,
    Rts,
    Sbc,
    Sec,
    Sed,
    Sei,
    Sta,
    Stx,
    Sty,
    Tax,
    Tay,
    Tsx,
    Txa,
    Txs,
    Tya,
}

/// One entry of the opcode table.
#[derive(Clone, Copy, Debug, PartialEq, Eq, Structural)]
pub struct Opcode {
    /// The instruction byte.
    pub code: u8,
    /// The instruction it selects.
    pub mnemonic: Mnemonic,
    /// How the instruction finds its operand.
    pub mode: OpMode,
    /// Length of the whole instruction in bytes, the instruction byte
    /// included.
    pub bytes: u8,
}

/// Length in bytes of an instruction with the addressing mode `mode`: the
/// instruction byte and the operand bytes that the mode takes.
pub open spec fn length_of(mode: OpMode) -> u8 {
    match mode {
        OpMode::Implied | OpMode::Accumulator => 1,
        OpMode::Immediate
        | OpMode::ZeroPage
        | OpMode::ZeroPageX
        | OpMode::ZeroPageY
        | OpMode::IndirectX
        | OpMode::IndirectY
        | OpMode::Relative => 2,
        OpMode::Absolute | OpMode::AbsoluteX | OpMode::AbsoluteY | OpMode::Indirect => 3,
    }
}

/// The instruction and addressing mode that the byte `code` encodes, if it
/// is a supported instruction byte.
pub open spec fn decoding(code: u8) -> Option<(Mnemonic, OpMode)> {
    match code {
        0x00 => Some((Mnemonic::Brk, OpMode::Implied)),
        0x01 => Some((Mnemonic::Ora, OpMode::IndirectX)),
        0x05 => Some((Mnemonic::Ora, OpMode::ZeroPage)),
        0x06 => Some((Mnemonic::Asl, OpMode::ZeroPage)),
        0x08 => Some((Mnemonic::Php, OpMode::Implied)),
        0x09 => Some((Mnemonic::Ora, OpMode::Immediate)),
        0x0A => Some((Mnemonic::Asl, OpMode::Accumulator)),
        0x0D => Some((Mnemonic::Ora, OpMode::Absolute)),
        0x0E => Some((Mnemonic::Asl, OpMode::Absolute)),
        0x10 => Some((Mnemonic::Bpl, OpMode::Relative)),
        0x11 => Some((Mnemonic::Ora, OpMode::IndirectY)),
        0x15 => Some((Mnemonic::Ora, OpMode::ZeroPageX)),
        0x16 => Some((Mnemonic::Asl, OpMode::ZeroPageX)),
        0x18 => Some((Mnemonic::Clc, OpMode::Implied)),
        0x19 => Some((Mnemonic::Ora, OpMode::AbsoluteY)),
        0x1D => Some((Mnemonic::Ora, OpMode::AbsoluteX)),
        0x1E => Some((Mnemonic::Asl, OpMode::AbsoluteX)),
        0x20 => Some((Mnemonic::Jsr, OpMode::Absolute)),
        0x21 => Some((Mnemonic::And, OpMode::IndirectX)),
        0x24 => Some((Mnemonic::Bit, OpMode::ZeroPage)),
        0x25 => Some((Mnemonic::And, OpMode::ZeroPage)),
        0x26 => Some((Mnemonic::Rol, OpMode::ZeroPage)),
        0x28 => Some((Mnemonic::Plp, OpMode::Implied)),
        0x29 => Some((Mnemonic::And, OpMode::Immediate)),
        0x2A => Some((Mnemonic::Rol, OpMode::Accumulator)),
        0x2C => Some((Mnemonic::Bit, OpMode::Absolute)),
        0x2D => Some((Mnemonic::And, OpMode::Absolute)),
        0x2E => Some((Mnemonic::Rol, OpMode::Absolute)),
        0x30 => Some((Mnemonic::Bmi, OpMode::Relative)),
        0x31 => Some((Mnemonic::And, OpMode::IndirectY)),
        0x35 => Some((Mnemonic::And, OpMode::ZeroPageX)),
        0x36 => Some((Mnemonic::Rol, OpMode::ZeroPageX)),
        0x38 => Some((Mnemonic::Sec, OpMode::Implied)),
        0x39 => Some((Mnemonic::And, OpMode::AbsoluteY)),
        0x3D => Some((Mnemonic::And, OpMode::AbsoluteX)),
        0x3E => Some((Mnemonic::Rol, OpMode::AbsoluteX)),
        0x40 => Some((Mnemonic::Rti, OpMode::Implied)),
        0x41 => Some((Mnemonic::Eor, OpMode::IndirectX)),
        0x45 => Some((Mnemonic::Eor, OpMode::ZeroPage)),
        0x46 => Some((Mnemonic::Lsr, OpMode::ZeroPage)),
        0x48 => Some((Mnemonic::Pha, OpMode::Implied)),
        0x49 => Some((Mnemonic::Eor, OpMode::Immediate)),
        0x4A => Some((Mnemonic::Lsr, OpMode::Accumulator)),
        0x4C => Some((Mnemonic::Jmp, OpMode::Absolute)),
        0x4D => Some((Mnemonic::Eor, OpMode::Absolute)),
        0x4E => Some((Mnemonic::Lsr, OpMode::Absolute)),
        0x50 => Some((Mnemonic::Bvc, OpMode::Relative)),
        0x51 => Some((Mnemonic::Eor, OpMode::IndirectY)),
        0x55 => Some((Mnemonic::Eor, OpMode::ZeroPageX)),
        0x56 => Some((Mnemonic::Lsr, OpMode::ZeroPageX)),
        0x58 => Some((Mnemonic::Cli, OpMode::Implied)),
        0x59 => Some((Mnemonic::Eor, OpMode::AbsoluteY)),
        0x5D => Some((Mnemonic::Eor, OpMode::AbsoluteX)),
        0x5E => Some((Mnemonic::Lsr, OpMode::AbsoluteX)),
        0x60 => Some((Mnemonic::Rts, OpMode::Implied)),
        0x61 => Some((Mnemonic::Adc, OpMode::IndirectX)),
        0x65 => Some((Mnemonic::Adc, OpMode::ZeroPage)),
        0x66 => Some((Mnemonic::Ror, OpMode::ZeroPage)),
        0x68 => Some((Mnemonic::Pla, OpMode::Implied)),
        0x69 => Some((Mnemonic::Adc, OpMode::Immediate)),
        0x6A => Some((Mnemonic::Ror, OpMode::Accumulator)),
        0x6C => Some((Mnemonic::Jmp, OpMode::Indirect)),
        0x6D => Some((Mnemonic::Adc, OpMode::Absolute)),
        0x6E => Some((Mnemonic::Ror, OpMode::Absolute)),
        0x70 => Some((Mnemonic::Bvs, OpMode::Relative)),
        0x71 => Some((Mnemonic::Adc, OpMode::IndirectY)),
        0x75 => Some((Mnemonic::Adc, OpMode::ZeroPageX)),
        0x76 => Some((Mnemonic::Ror, OpMode::ZeroPageX)),
        0x78 => Some((Mnemonic::Sei, OpMode::Implied)),
        0x79 => Some((Mnemonic::Adc, OpMode::AbsoluteY)),
        0x7D => Some((Mnemonic::Adc, OpMode::AbsoluteX)),
        0x7E => Some((Mnemonic::Ror, OpMode::AbsoluteX)),
        0x81 => Some((Mnemonic::Sta, OpMode::IndirectX)),
        0x84 => Some((Mnemonic::Sty, OpMode::ZeroPage)),
        0x85 => Some((Mnemonic::Sta, OpMode::ZeroPage)),
        0x86 => Some((Mnemonic::Stx, OpMode::ZeroPage)),
        0x88 => Some((Mnemonic::Dey, OpMode::Implied)),
        0x8A => Some((Mnemonic::Txa, OpMode::Implied)),
        0x8C => Some((Mnemonic::Sty, OpMode::Absolute)),
        0x8D => Some((Mnemonic::Sta, OpMode::Absolute)),
        0x8E => Some((Mnemonic::Stx, OpMode::Absolute)),
        0x90 => Some((Mnemonic::Bcc, OpMode::Relative)),
        0x91 => Some((Mnemonic::Sta, OpMode::IndirectY)),
        0x94 => Some((Mnemonic::Sty, OpMode::ZeroPageX)),
        0x95 => Some((Mnemonic::Sta, OpMode::ZeroPageX)),
        0x96 => Some((Mnemonic::Stx, OpMode::ZeroPageY)),
        0x98 => Some((Mnemonic::Tya, OpMode::Implied)),
        0x99 => Some((Mnemonic::Sta, OpMode::AbsoluteY)),
        0x9A => Some((Mnemonic::Txs, OpMode::Implied)),
        0x9D => Some((Mnemonic::Sta, OpMode::AbsoluteX)),
        0xA0 => Some((Mnemonic::Ldy, OpMode::Immediate)),
        0xA1 => Some((Mnemonic::Lda, OpMode::IndirectX)),
        0xA2 => Some((Mnemonic::Ldx, OpMode::Immediate)),
        0xA4 => Some((Mnemonic::Ldy, OpMode::ZeroPage)),
        0xA5 => Some((Mnemonic::Lda, OpMode::ZeroPage)),
        0xA6 => Some((Mnemonic::Ldx, OpMode::ZeroPage)),
        0xA8 => Some((Mnemonic::Tay, OpMode::Implied)),
        0xA9 => Some((Mnemonic::Lda, OpMode::Immediate)),
        0xAA => Some((Mnemonic::Tax, OpMode::Implied)),
        0xAC => Some((Mnemonic::Ldy, OpMode::Absolute)),
        0xAD => Some((Mnemonic::Lda, OpMode::Absolute)),
        0xAE => Some((Mnemonic::Ldx, OpMode::Absolute)),
        0xB0 => Some((Mnemonic::Bcs, OpMode::Relative)),
        0xB1 => Some((Mnemonic::Lda, OpMode::IndirectY)),
        0xB4 => Some((Mnemonic::Ldy, OpMode::ZeroPageX)),
        0xB5 => Some((Mnemonic::Lda, OpMode::ZeroPageX)),
        0xB6 => Some((Mnemonic::Ldx, OpMode::ZeroPageY)),
        0xB8 => Some((Mnemonic::Clv, OpMode::Implied)),
        0xB9 => Some((Mnemonic::Lda, OpMode::AbsoluteY)),
        0xBA => Some((Mnemonic::Tsx, OpMode::Implied)),
        0xBC => Some((Mnemonic::Ldy, OpMode::AbsoluteX)),
        0xBD => Some((Mnemonic::Lda, OpMode::AbsoluteX)),
        0xBE => Some((Mnemonic::Ldx, OpMode::AbsoluteY)),
        0xC0 => Some((Mnemonic::Cpy, OpMode::Immediate)),
        0xC1 => Some((Mnemonic::Cmp, OpMode::IndirectX)),
        0xC4 => Some((Mnemonic::Cpy, OpMode::ZeroPage)),
        0xC5 => Some((Mnemonic::Cmp, OpMode::ZeroPage)),
        0xC6 => Some((Mnemonic::Dec, OpMode::ZeroPage)),
        0xC8 => Some((Mnemonic::Iny, OpMode::Implied)),
        0xC9 => Some((Mnemonic::Cmp, OpMode::Immediate)),
        0xCA => Some((Mnemonic::Dex, OpMode::Implied)),
        0xCC => Some((Mnemonic::Cpy, OpMode::Absolute)),
        0xCD => Some((Mnemonic::Cmp, OpMode::Absolute)),
        0xCE => Some((Mnemonic::Dec, OpMode::Absolute)),
        0xD0 => Some((Mnemonic::Bne, OpMode::Relative)),
        0xD1 => Some((Mnemonic::Cmp, OpMode::IndirectY)),
        0xD5 => Some((Mnemonic::Cmp, OpMode::ZeroPageX)),
        0xD6 => Some((Mnemonic::Dec, OpMode::ZeroPageX)),
        0xD8 => Some((Mnemonic::Cld, OpMode::Implied)),
        0xD9 => Some((Mnemonic::Cmp, OpMode::AbsoluteY)),
        0xDD => Some((Mnemonic::Cmp, OpMode::AbsoluteX)),
        0xDE => Some((Mnemonic::Dec, OpMode::AbsoluteX)),
        0xE0 => Some((Mnemonic::Cpx, OpMode::Immediate)),
        0xE1 => Some((Mnemonic::Sbc, OpMode::IndirectX)),
        0xE4 => Some((Mnemonic::Cpx, OpMode::ZeroPage)),
        0xE5 => Some((Mnemonic::Sbc, OpMode::ZeroPage)),
        0xE6 => Some((Mnemonic::Inc, OpMode::ZeroPage)),
        0xE8 => Some((Mnemonic::Inx, OpMode::Implied)),
        0xE9 => Some((Mnemonic::Sbc, OpMode::Immediate)),
        0xEA => Some((Mnemonic::Nop, OpMode::Implied)),
        0xEC => Some((Mnemonic::Cpx, OpMode::Absolute)),
        0xED => Some((Mnemonic::Sbc, OpMode::Absolute)),
        0xEE => Some((Mnemonic::Inc, OpMode::Absolute)),
        0xF0 => Some((Mnemonic::Beq, OpMode::Relative)),
        0xF1 => Some((Mnemonic::Sbc, OpMode::IndirectY)),
        0xF5 => Some((Mnemonic::Sbc, OpMode::ZeroPageX)),
        0xF6 => Some((Mnemonic::Inc, OpMode::ZeroPageX)),
        0xF8 => Some((Mnemonic::Sed, OpMode::Implied)),
        0xF9 => Some((Mnemonic::Sbc, OpMode::AbsoluteY)),
        0xFD => Some((Mnemonic::Sbc, OpMode::AbsoluteX)),
        0xFE => Some((Mnemonic::Inc, OpMode::AbsoluteX)),
        _ => None,
    }
}

/// The table entry for `code`: its decoding together with the byte itself
/// and the length that the addressing mode gives.
pub open spec fn opcode_entry(code: u8) -> Option<Opcode> {
    match decoding(code) {
        Some((mnemonic, mode)) => Some(Opcode { code, mnemonic, mode, bytes: length_of(mode) }),
        None => None,
    }
}

/// Looks `byte` up in the opcode table.
pub fn get_opcode(byte: u8) -> (r: Option<Opcode>)
    ensures
        r == opcode_entry(byte),
{
    match byte {
        0x00 => Some(
            Opcode { code: 0x00, mnemonic: Mnemonic::Brk, mode: OpMode::Implied, bytes: 1 },
        ),
        0x01 => Some(
            Opcode { code: 0x01, mnemonic: Mnemonic::Ora, mode: OpMode::IndirectX, bytes: 2 },
        ),
        0x05 => Some(
            Opcode { code: 0x05, mnemonic: Mnemonic::Ora, mode: OpMode::ZeroPage, bytes: 2 },
        ),
        0x06 => Some(
            Opcode { code: 0x06, mnemonic: Mnemonic::Asl, mode: OpMode::ZeroPage, bytes: 2 },
        ),
        0x08 => Some(
            Opcode { code: 0x08, mnemonic: Mnemonic::Php, mode: OpMode::Implied, bytes: 1 },
        ),
        0x09 => Some(
            Opcode { code: 0x09, mnemonic: Mnemonic::Ora, mode: OpMode::Immediate, bytes: 2 },
        ),
        0x0A => Some(
            Opcode { code: 0x0A, mnemonic: Mnemonic::Asl, mode: OpMode::Accumulator, bytes: 1 },
        ),
        0x0D => Some(
            Opcode { code: 0x0D, mnemonic: Mnemonic::Ora, mode: OpMode::Absolute, bytes: 3 },
        ),
        0x0E => Some(
            Opcode { code: 0x0E, mnemonic: Mnemonic::Asl, mode: OpMode::Absolute, bytes: 3 },
        ),
        0x10 => Some(
            Opcode { code: 0x10, mnemonic: Mnemonic::Bpl, mode: OpMode::Relative, bytes: 2 },
        ),
        0x11 => Some(
            Opcode { code: 0x11, mnemonic: Mnemonic::Ora, mode: OpMode::IndirectY, bytes: 2 },
        ),
        0x15 => Some(
            Opcode { code: 0x15, mnemonic: Mnemonic::Ora, mode: OpMode::ZeroPageX, bytes: 2 },
        ),
        0x16 => Some(
            Opcode { code: 0x16, mnemonic: Mnemonic::Asl, mode: OpMode::ZeroPageX, bytes: 2 },
        ),
        0x18 => Some(
            Opcode { code: 0x18, mnemonic: Mnemonic::Clc, mode: OpMode::Implied, bytes: 1 },
        ),
        0x19 => Some(
            Opcode { code: 0x19, mnemonic: Mnemonic::Ora, mode: OpMode::AbsoluteY, bytes: 3 },
        ),
        0x1D => Some(
            Opcode { code: 0x1D, mnemonic: Mnemonic::Ora, mode: OpMode::AbsoluteX, bytes: 3 },
        ),
        0x1E => Some(
            Opcode { code: 0x1E, mnemonic: Mnemonic::Asl, mode: OpMode::AbsoluteX, bytes: 3 },
        ),
        0x20 => Some(
            Opcode { code: 0x20, mnemonic: Mnemonic::Jsr, mode: OpMode::Absolute, bytes: 3 },
        ),
        0x21 => Some(
            Opcode { code: 0x21, mnemonic: Mnemonic::And, mode: OpMode::IndirectX, bytes: 2 },
        ),
        0x24 => Some(
            Opcode { code: 0x24, mnemonic: Mnemonic::Bit, mode: OpMode::ZeroPage, bytes: 2 },
        ),
        0x25 => Some(
            Opcode { code: 0x25, mnemonic: Mnemonic::And, mode: OpMode::ZeroPage, bytes: 2 },
        ),
        0x26 => Some(
            Opcode { code: 0x26, mnemonic: Mnemonic::Rol, mode: OpMode::ZeroPage, bytes: 2 },
        ),
        0x28 => Some(
            Opcode { code: 0x28, mnemonic: Mnemonic::Plp, mode: OpMode::Implied, bytes: 1 },
        ),
        0x29 => Some(
            Opcode { code: 0x29, mnemonic: Mnemonic::And, mode: OpMode::Immediate, bytes: 2 },
        ),
        0x2A => Some(
            Opcode { code: 0x2A, mnemonic: Mnemonic::Rol, mode: OpMode::Accumulator, bytes: 1 },
        ),
        0x2C => Some(
            Opcode { code: 0x2C, mnemonic: Mnemonic::Bit, mode: OpMode::Absolute, bytes: 3 },
        ),
        0x2D => Some(
            Opcode { code: 0x2D, mnemonic: Mnemonic::And, mode: OpMode::Absolute, bytes: 3 },
        ),
        0x2E => Some(
            Opcode { code: 0x2E, mnemonic: Mnemonic::Rol, mode: OpMode::Absolute, bytes: 3 },
        ),
        0x30 => Some(
            Opcode { code: 0x30, mnemonic: Mnemonic::Bmi, mode: OpMode::Relative, bytes: 2 },
        ),
        0x31 => Some(
            Opcode { code: 0x31, mnemonic: Mnemonic::And, mode: OpMode::IndirectY, bytes: 2 },
        ),
        0x35 => Some(
            Opcode { code: 0x35, mnemonic: Mnemonic::And, mode: OpMode::ZeroPageX, bytes: 2 },
        ),
        0x36 => Some(
            Opcode { code: 0x36, mnemonic: Mnemonic::Rol, mode: OpMode::ZeroPageX, bytes: 2 },
        ),
        0x38 => Some(
            Opcode { code: 0x38, mnemonic: Mnemonic::Sec, mode: OpMode::Implied, bytes: 1 },
        ),
        0x39 => Some(
            Opcode { code: 0x39, mnemonic: Mnemonic::And, mode: OpMode::AbsoluteY, bytes: 3 },
        ),
        0x3D => Some(
            Opcode { code: 0x3D, mnemonic: Mnemonic::And, mode: OpMode::AbsoluteX, bytes: 3 },
        ),
        0x3E => Some(
            Opcode { code: 0x3E, mnemonic: Mnemonic::Rol, mode: OpMode::AbsoluteX, bytes: 3 },
        ),
        0x40 => Some(
            Opcode { code: 0x40, mnemonic: Mnemonic::Rti, mode: OpMode::Implied, bytes: 1 },
        ),
        0x41 => Some(
            Opcode { code: 0x41, mnemonic: Mnemonic::Eor, mode: OpMode::IndirectX, bytes: 2 },
        ),
        0x45 => Some(
            Opcode { code: 0x45, mnemonic: Mnemonic::Eor, mode: OpMode::ZeroPage, bytes: 2 },
        ),
        0x46 => Some(
            Opcode { code: 0x46, mnemonic: Mnemonic::Lsr, mode: OpMode::ZeroPage, bytes: 2 },
        ),
        0x48 => Some(
            Opcode { code: 0x48, mnemonic: Mnemonic::Pha, mode: OpMode::Implied, bytes: 1 },
        ),
        0x49 => Some(
            Opcode { code: 0x49, mnemonic: Mnemonic::Eor, mode: OpMode::Immediate, bytes: 2 },
        ),
        0x4A => Some(
            Opcode { code: 0x4A, mnemonic: Mnemonic::Lsr, mode: OpMode::Accumulator, bytes: 1 },
        ),
        0x4C => Some(
            Opcode { code: 0x4C, mnemonic: Mnemonic::Jmp, mode: OpMode::Absolute, bytes: 3 },
        ),
        0x4D => Some(
            Opcode { code: 0x4D, mnemonic: Mnemonic::Eor, mode: OpMode::Absolute, bytes: 3 },
        ),
        0x4E => Some(
            Opcode { code: 0x4E, mnemonic: Mnemonic::Lsr, mode: OpMode::Absolute, bytes: 3 },
        ),
        0x50 => Some(
            Opcode { code: 0x50, mnemonic: Mnemonic::Bvc, mode: OpMode::Relative, bytes: 2 },
        ),
        0x51 => Some(
            Opcode { code: 0x51, mnemonic: Mnemonic::Eor, mode: OpMode::IndirectY, bytes: 2 },
        ),
        0x55 => Some(
            Opcode { code: 0x55, mnemonic: Mnemonic::Eor, mode: OpMode::ZeroPageX, bytes: 2 },
        ),
        0x56 => Some(
            Opcode { code: 0x56, mnemonic: Mnemonic::Lsr, mode: OpMode::ZeroPageX, bytes: 2 },
        ),
        0x58 => Some(
            Opcode { code: 0x58, mnemonic: Mnemonic::Cli, mode: OpMode::Implied, bytes: 1 },
        ),
        0x59 => Some(
            Opcode { code: 0x59, mnemonic: Mnemonic::Eor, mode: OpMode::AbsoluteY, bytes: 3 },
        ),
        0x5D => Some(
            Opcode { code: 0x5D, mnemonic: Mnemonic::Eor, mode: OpMode::AbsoluteX, bytes: 3 },
        ),
        0x5E => Some(
            Opcode { code: 0x5E, mnemonic: Mnemonic::Lsr, mode: OpMode::AbsoluteX, bytes: 3 },
        ),
        0x60 => Some(
            Opcode { code: 0x60, mnemonic: Mnemonic::Rts, mode: OpMode::Implied, bytes: 1 },
        ),
        0x61 => Some(
            Opcode { code: 0x61, mnemonic: Mnemonic::Adc, mode: OpMode::IndirectX, bytes: 2 },
        ),
        0x65 => Some(
            Opcode { code: 0x65, mnemonic: Mnemonic::Adc, mode: OpMode::ZeroPage, bytes: 2 },
        ),
        0x66 => Some(
            Opcode { code: 0x66, mnemonic: Mnemonic::Ror, mode: OpMode::ZeroPage, bytes: 2 },
        ),
        0x68 => Some(
            Opcode { code: 0x68, mnemonic: Mnemonic::Pla, mode: OpMode::Implied, bytes: 1 },
        ),
        0x69 => Some(
            Opcode { code: 0x69, mnemonic: Mnemonic::Adc, mode: OpMode::Immediate, bytes: 2 },
        ),
        0x6A => Some(
            Opcode { code: 0x6A, mnemonic: Mnemonic::Ror, mode: OpMode::Accumulator, bytes: 1 },
        ),
        0x6C => Some(
            Opcode { code: 0x6C, mnemonic: Mnemonic::Jmp, mode: OpMode::Indirect, bytes: 3 },
        ),
        0x6D => Some(
            Opcode { code: 0x6D, mnemonic: Mnemonic::Adc, mode: OpMode::Absolute, bytes: 3 },
        ),
        0x6E => Some(
            Opcode { code: 0x6E, mnemonic: Mnemonic::Ror, mode: OpMode::Absolute, bytes: 3 },
        ),
        0x70 => Some(
            Opcode { code: 0x70, mnemonic: Mnemonic::Bvs, mode: OpMode::Relative, bytes: 2 },
        ),
        0x71 => Some(
            Opcode { code: 0x71, mnemonic: Mnemonic::Adc, mode: OpMode::IndirectY, bytes: 2 },
        ),
        0x75 => Some(
            Opcode { code: 0x75, mnemonic: Mnemonic::Adc, mode: OpMode::ZeroPageX, bytes: 2 },
        ),
        0x76 => Some(
            Opcode { code: 0x76, mnemonic: Mnemonic::Ror, mode: OpMode::ZeroPageX, bytes: 2 },
        ),
        0x78 => Some(
            Opcode { code: 0x78, mnemonic: Mnemonic::Sei, mode: OpMode::Implied, bytes: 1 },
        ),
        0x79 => Some(
            Opcode { code: 0x79, mnemonic: Mnemonic::Adc, mode: OpMode::AbsoluteY, bytes: 3 },
        ),
        0x7D => Some(
            Opcode { code: 0x7D, mnemonic: Mnemonic::Adc, mode: OpMode::AbsoluteX, bytes: 3 },
        ),
        0x7E => Some(
            Opcode { code: 0x7E, mnemonic: Mnemonic::Ror, mode: OpMode::AbsoluteX, bytes: 3 },
        ),
        0x81 => Some(
            Opcode { code: 0x81, mnemonic: Mnemonic::Sta, mode: OpMode::IndirectX, bytes: 2 },
        ),
        0x84 => Some(
            Opcode { code: 0x84, mnemonic: Mnemonic::Sty, mode: OpMode::ZeroPage, bytes: 2 },
        ),
        0x85 => Some(
            Opcode { code: 0x85, mnemonic: Mnemonic::Sta, mode: OpMode::ZeroPage, bytes: 2 },
        ),
        0x86 => Some(
            Opcode { code: 0x86, mnemonic: Mnemonic::Stx, mode: OpMode::ZeroPage, bytes: 2 },
        ),
        0x88 => Some(
            Opcode { code: 0x88, mnemonic: Mnemonic::Dey, mode: OpMode::Implied, bytes: 1 },
        ),
        0x8A => Some(
            Opcode { code: 0x8A, mnemonic: Mnemonic::Txa, mode: OpMode::Implied, bytes: 1 },
        ),
        0x8C => Some(
            Opcode { code: 0x8C, mnemonic: Mnemonic::Sty, mode: OpMode::Absolute, bytes: 3 },
        ),
        0x8D => Some(
            Opcode { code: 0x8D, mnemonic: Mnemonic::Sta, mode: OpMode::Absolute, bytes: 3 },
        ),
        0x8E => Some(
            Opcode { code: 0x8E, mnemonic: Mnemonic::Stx, mode: OpMode::Absolute, bytes: 3 },
        ),
        0x90 => Some(
            Opcode { code: 0x90, mnemonic: Mnemonic::Bcc, mode: OpMode::Relative, bytes: 2 },
        ),
        0x91 => Some(
            Opcode { code: 0x91, mnemonic: Mnemonic::Sta, mode: OpMode::IndirectY, bytes: 2 },
        ),
        0x94 => Some(
            Opcode { code: 0x94, mnemonic: Mnemonic::Sty, mode: OpMode::ZeroPageX, bytes: 2 },
        ),
        0x95 => Some(
            Opcode { code: 0x95, mnemonic: Mnemonic::Sta, mode: OpMode::ZeroPageX, bytes: 2 },
        ),
        0x96 => Some(
            Opcode { code: 0x96, mnemonic: Mnemonic::Stx, mode: OpMode::ZeroPageY, bytes: 2 },
        ),
        0x98 => Some(
            Opcode { code: 0x98, mnemonic: Mnemonic::Tya, mode: OpMode::Implied, bytes: 1 },
        ),
        0x99 => Some(
            Opcode { code: 0x99, mnemonic: Mnemonic::Sta, mode: OpMode::AbsoluteY, bytes: 3 },
        ),
        0x9A => Some(
            Opcode { code: 0x9A, mnemonic: Mnemonic::Txs, mode: OpMode::Implied, bytes: 1 },
        ),
        0x9D => Some(
            Opcode { code: 0x9D, mnemonic: Mnemonic::Sta, mode: OpMode::AbsoluteX, bytes: 3 },
        ),
        0xA0 => Some(
            Opcode { code: 0xA0, mnemonic: Mnemonic::Ldy, mode: OpMode::Immediate, bytes: 2 },
        ),
        0xA1 => Some(
            Opcode { code: 0xA1, mnemonic: Mnemonic::Lda, mode: OpMode::IndirectX, bytes: 2 },
        ),
        0xA2 => Some(
            Opcode { code: 0xA2, mnemonic: Mnemonic::Ldx, mode: OpMode::Immediate, bytes: 2 },
        ),
        0xA4 => Some(
            Opcode { code: 0xA4, mnemonic: Mnemonic::Ldy, mode: OpMode::ZeroPage, bytes: 2 },
        ),
        0xA5 => Some(
            Opcode { code: 0xA5, mnemonic: Mnemonic::Lda, mode: OpMode::ZeroPage, bytes: 2 },
        ),
        0xA6 => Some(
            Opcode { code: 0xA6, mnemonic: Mnemonic::Ldx, mode: OpMode::ZeroPage, bytes: 2 },
        ),
        0xA8 => Some(
            Opcode { code: 0xA8, mnemonic: Mnemonic::Tay, mode: OpMode::Implied, bytes: 1 },
        ),
        0xA9 => Some(
            Opcode { code: 0xA9, mnemonic: Mnemonic::Lda, mode: OpMode::Immediate, bytes: 2 },
        ),
        0xAA => Some(
            Opcode { code: 0xAA, mnemonic: Mnemonic::Tax, mode: OpMode::Implied, bytes: 1 },
        ),
        0xAC => Some(
            Opcode { code: 0xAC, mnemonic: Mnemonic::Ldy, mode: OpMode::Absolute, bytes: 3 },
        ),
        0xAD => Some(
            Opcode { code: 0xAD, mnemonic: Mnemonic::Lda, mode: OpMode::Absolute, bytes: 3 },
        ),
        0xAE => Some(
            Opcode { code: 0xAE, mnemonic: Mnemonic::Ldx, mode: OpMode::Absolute, bytes: 3 },
        ),
        0xB0 => Some(
            Opcode { code: 0xB0, mnemonic: Mnemonic::Bcs, mode: OpMode::Relative, bytes: 2 },
        ),
        0xB1 => Some(
            Opcode { code: 0xB1, mnemonic: Mnemonic::Lda, mode: OpMode::IndirectY, bytes: 2 },
        ),
        0xB4 => Some(
            Opcode { code: 0xB4, mnemonic: Mnemonic::Ldy, mode: OpMode::ZeroPageX, bytes: 2 },
        ),
        0xB5 => Some(
            Opcode { code: 0xB5, mnemonic: Mnemonic::Lda, mode: OpMode::ZeroPageX, bytes: 2 },
        ),
        0xB6 => Some(
            Opcode { code: 0xB6, mnemonic: Mnemonic::Ldx, mode: OpMode::ZeroPageY, bytes: 2 },
        ),
        0xB8 => Some(
            Opcode { code: 0xB8, mnemonic: Mnemonic::Clv, mode: OpMode::Implied, bytes: 1 },
        ),
        0xB9 => Some(
            Opcode { code: 0xB9, mnemonic: Mnemonic::Lda, mode: OpMode::AbsoluteY, bytes: 3 },
        ),
        0xBA => Some(
            Opcode { code: 0xBA, mnemonic: Mnemonic::Tsx, mode: OpMode::Implied, bytes: 1 },
        ),
        0xBC => Some(
            Opcode { code: 0xBC, mnemonic: Mnemonic::Ldy, mode: OpMode::AbsoluteX, bytes: 3 },
        ),
        0xBD => Some(
            Opcode { code: 0xBD, mnemonic: Mnemonic::Lda, mode: OpMode::AbsoluteX, bytes: 3 },
        ),
        0xBE => Some(
            Opcode { code: 0xBE, mnemonic: Mnemonic::Ldx, mode: OpMode::AbsoluteY, bytes: 3 },
        ),
        0xC0 => Some(
            Opcode { code: 0xC0, mnemonic: Mnemonic::Cpy, mode: OpMode::Immediate, bytes: 2 },
        ),
        0xC1 => Some(
            Opcode { code: 0xC1, mnemonic: Mnemonic::Cmp, mode: OpMode::IndirectX, bytes: 2 },
        ),
        0xC4 => Some(
            Opcode { code: 0xC4, mnemonic: Mnemonic::Cpy, mode: OpMode::ZeroPage, bytes: 2 },
        ),
        0xC5 => Some(
            Opcode { code: 0xC5, mnemonic: Mnemonic::Cmp, mode: OpMode::ZeroPage, bytes: 2 },
        ),
        0xC6 => Some(
            Opcode { code: 0xC6, mnemonic: Mnemonic::Dec, mode: OpMode::ZeroPage, bytes: 2 },
        ),
        0xC8 => Some(
            Opcode { code: 0xC8, mnemonic: Mnemonic::Iny, mode: OpMode::Implied, bytes: 1 },
        ),
        0xC9 => Some(
            Opcode { code: 0xC9, mnemonic: Mnemonic::Cmp, mode: OpMode::Immediate, bytes: 2 },
        ),
        0xCA => Some(
            Opcode { code: 0xCA, mnemonic: Mnemonic::Dex, mode: OpMode::Implied, bytes: 1 },
        ),
        0xCC => Some(
            Opcode { code: 0xCC, mnemonic: Mnemonic::Cpy, mode: OpMode::Absolute, bytes: 3 },
        ),
        0xCD => Some(
            Opcode { code: 0xCD, mnemonic: Mnemonic::Cmp, mode: OpMode::Absolute, bytes: 3 },
        ),
        0xCE => Some(
            Opcode { code: 0xCE, mnemonic: Mnemonic::Dec, mode: OpMode::Absolute, bytes: 3 },
        ),
        0xD0 => Some(
            Opcode { code: 0xD0, mnemonic: Mnemonic::Bne, mode: OpMode::Relative, bytes: 2 },
        ),
        0xD1 => Some(
            Opcode { code: 0xD1, mnemonic: Mnemonic::Cmp, mode: OpMode::IndirectY, bytes: 2 },
        ),
        0xD5 => Some(
            Opcode { code: 0xD5, mnemonic: Mnemonic::Cmp, mode: OpMode::ZeroPageX, bytes: 2 },
        ),
        0xD6 => Some(
            Opcode { code: 0xD6, mnemonic: Mnemonic::Dec, mode: OpMode::ZeroPageX, bytes: 2 },
        ),
        0xD8 => Some(
            Opcode { code: 0xD8, mnemonic: Mnemonic::Cld, mode: OpMode::Implied, bytes: 1 },
        ),
        0xD9 => Some(
            Opcode { code: 0xD9, mnemonic: Mnemonic::Cmp, mode: OpMode::AbsoluteY, bytes: 3 },
        ),
        0xDD => Some(
            Opcode { code: 0xDD, mnemonic: Mnemonic::Cmp, mode: OpMode::AbsoluteX, bytes: 3 },
        ),
        0xDE => Some(
            Opcode { code: 0xDE, mnemonic: Mnemonic::Dec, mode: OpMode::AbsoluteX, bytes: 3 },
        ),
        0xE0 => Some(
            Opcode { code: 0xE0, mnemonic: Mnemonic::Cpx, mode: OpMode::Immediate, bytes: 2 },
        ),
        0xE1 => Some(
            Opcode { code: 0xE1, mnemonic: Mnemonic::Sbc, mode: OpMode::IndirectX, bytes: 2 },
        ),
        0xE4 => Some(
            Opcode { code: 0xE4, mnemonic: Mnemonic::Cpx, mode: OpMode::ZeroPage, bytes: 2 },
        ),
        0xE5 => Some(
            Opcode { code: 0xE5, mnemonic: Mnemonic::Sbc, mode: OpMode::ZeroPage, bytes: 2 },
        ),
        0xE6 => Some(
            Opcode { code: 0xE6, mnemonic: Mnemonic::Inc, mode: OpMode::ZeroPage, bytes: 2 },
        ),
        0xE8 => Some(
            Opcode { code: 0xE8, mnemonic: Mnemonic::Inx, mode: OpMode::Implied, bytes: 1 },
        ),
        0xE9 => Some(
            Opcode { code: 0xE9, mnemonic: Mnemonic::Sbc, mode: OpMode::Immediate, bytes: 2 },
        ),
        0xEA => Some(
            Opcode { code: 0xEA, mnemonic: Mnemonic::Nop, mode: OpMode::Implied, bytes: 1 },
        ),
        0xEC => Some(
            Opcode { code: 0xEC, mnemonic: Mnemonic::Cpx, mode: OpMode::Absolute, bytes: 3 },
        ),
        0xED => Some(
            Opcode { code: 0xED, mnemonic: Mnemonic::Sbc, mode: OpMode::Absolute, bytes: 3 },
        ),
        0xEE => Some(
            Opcode { code: 0xEE, mnemonic: Mnemonic::Inc, mode: OpMode::Absolute, bytes: 3 },
        ),
        0xF0 => Some(
            Opcode { code: 0xF0, mnemonic: Mnemonic::Beq, mode: OpMode::Relative, bytes: 2 },
        ),
        0xF1 => Some(
            Opcode { code: 0xF1, mnemonic: Mnemonic::Sbc, mode: OpMode::IndirectY, bytes: 2 },
        ),
        0xF5 => Some(
            Opcode { code: 0xF5, mnemonic: Mnemonic::Sbc, mode: OpMode::ZeroPageX, bytes: 2 },
        ),
        0xF6 => Some(
            Opcode { code: 0xF6, mnemonic: Mnemonic::Inc, mode: OpMode::ZeroPageX, bytes: 2 },
        ),
        0xF8 => Some(
            Opcode { code: 0xF8, mnemonic: Mnemonic::Sed, mode: OpMode::Implied, bytes: 1 },
        ),
        0xF9 => Some(
            Opcode { code: 0xF9, mnemonic: Mnemonic::Sbc, mode: OpMode::AbsoluteY, bytes: 3 },
        ),
        0xFD => Some(
            Opcode { code: 0xFD, mnemonic: Mnemonic::Sbc, mode: OpMode::AbsoluteX, bytes: 3 },
        ),
        0xFE => Some(
            Opcode { code: 0xFE, mnemonic: Mnemonic::Inc, mode: OpMode::AbsoluteX, bytes: 3 },
        ),
        _ => None,
    }
}

/// Every entry of the table carries the byte it is found under and a length
/// of one to three bytes.
pub proof fn lemma_entries_are_well_formed(code: u8)
    ensures
        opcode_entry(code) matches Some(op) ==> op.code == code && 1 <= op.bytes <= 3 && op.bytes
            == length_of(op.mode),
{
}

/// No two instruction bytes stand for the same instruction in the same
/// addressing mode.
#[verifier::rlimit(60)]
pub proof fn lemma_decoding_is_injective(first: u8, second: u8)
    requires
        decoding(first) is Some,
        decoding(first) == decoding(second),
    ensures
        first == second,
{
}

} // verus!
