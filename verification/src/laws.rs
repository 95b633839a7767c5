//! Laws of the processor that relate several of its operations.

use vstd::prelude::*;
use crate::c64mem::{lemma_peek_after_poke, lemma_peek_elsewhere_after_poke, C64Mem, CONFIG};
use crate::cpu::{signed, wrap16, zero_page_word, Cpu};
use crate::execute::CpuError;
use crate::instructions::{complement, top_bit};
use crate::memory::{high_byte, lemma_word_halves, low_byte, word, IOMem};
use crate::opcode::{opcode_entry, Mnemonic, OpMode, Opcode};
use crate::status::{
    flag, lemma_flags_are_independent, lemma_zero_negative_follow_value, with_flag, with_zn,
    BREAK, CARRY, DECIMAL, INTERRUPT, NEGATIVE, OVERFLOW, ZERO,
};

verus! {

/// A byte pushed and then popped leaves every register, the stack pointer
/// among them, as it was before the push, and the byte comes back unchanged
/// exactly where the memory keeps it in the stack slot.
pub proof fn lemma_push_then_pop(cpu: Cpu, mem: C64Mem, value: u8)
    ensures
        ({
            let (pushed, stored) = cpu.pushed(mem, value);
            let (popped, back) = pushed.popped(stored);
            &&& popped == cpu
            &&& back == value <==> mem.keeps(cpu.stack_slot(), value)
        }),
{
    lemma_peek_after_poke(mem, cpu.stack_slot(), value);
}

/// A word pushed and then popped leaves every register, the stack pointer
/// among them, as it was before the push, and the word comes back unchanged
/// exactly where the memory keeps its two bytes in their stack slots:
/// wherever neither slot shows ROM.
pub proof fn lemma_push_then_pop_word(cpu: Cpu, mem: C64Mem, value: u16)
    ensures
        ({
            let (pushed, stored) = cpu.pushed_word(mem, value);
            let (popped, back) = pushed.popped_word(stored);
            let first = cpu.stack_slot();
            let second = first.wrapping_sub(1);
            &&& popped == cpu
            &&& back == value <==> mem.keeps(first, high_byte(value)) && mem.keeps(
                second,
                low_byte(value),
            )
        }),
{
    let (high, low) = (high_byte(value), low_byte(value));
    let first = cpu.stack_slot();
    let second = first.wrapping_sub(1);
    let (c1, m1) = cpu.pushed(mem, high);
    let (c2, m2) = c1.pushed(m1, low);
    assert(c1.stack_slot() == second);
    let (c3, got_low) = c2.popped(m2);
    assert(c3 == c1);
    let (c4, got_high) = c3.popped(m2);
    assert(c4 == cpu);
    if first == CONFIG {
        assert(got_low == low);
        assert(got_high == high);
    } else {
        lemma_peek_elsewhere_after_poke(mem, first, high, second);
        lemma_peek_after_poke(mem, first, high);
        if second == CONFIG {
            assert(got_low == low);
            assert(got_high == high);
        } else {
            lemma_peek_after_poke(m1, second, low);
            lemma_peek_elsewhere_after_poke(m1, second, low, first);
        }
    }
    lemma_word_halves(value, low, high);
    lemma_word_halves(value, got_low, got_high);
}

/// A subroutine call followed at once by a return leaves every register as
/// it was before the call, so that execution goes on with the instruction
/// behind the call, wherever neither stack slot shows ROM.
pub proof fn lemma_call_then_return(cpu: Cpu, mem: C64Mem, target: u16)
    requires
        !mem.shows_rom(cpu.stack_slot()),
        !mem.shows_rom(cpu.stack_slot().wrapping_sub(1)),
    ensures
        ({
            let (called, stored) = cpu.called(mem, target);
            called.returned(stored) == cpu
        }),
{
    let back = cpu.pc.wrapping_sub(1);
    lemma_push_then_pop_word(cpu, mem, back);
    let (pushed, stored) = cpu.pushed_word(mem, back);
    assert(pushed.at(target).popped_word(stored) == (cpu.at(target), back));
}

/// A break followed at once by a return from the interrupt restores the
/// stack pointer, resumes behind the break byte and leaves the break flag
/// set, wherever none of the three stack slots shows ROM and neither of
/// the first two is the configuration byte: the program counter goes to
/// the stack before the flags and comes back after them.
pub proof fn lemma_break_then_resume(cpu: Cpu, mem: C64Mem)
    requires
        !mem.shows_rom(cpu.stack_slot()),
        !mem.shows_rom(cpu.stack_slot().wrapping_sub(1)),
        !mem.shows_rom(cpu.stack_slot().wrapping_sub(2)),
        cpu.stack_slot() != CONFIG,
        cpu.stack_slot().wrapping_sub(1) != CONFIG,
    ensures
        ({
            let (broken, stored) = cpu.interrupted(mem);
            broken.resumed(stored) == cpu.at(cpu.pc.wrapping_add(1)).flagged(BREAK, true)
        }),
{
    let past = cpu.at(cpu.pc.wrapping_add(1));
    let first = cpu.stack_slot();
    let second = first.wrapping_sub(1);
    let third = first.wrapping_sub(2);
    let (c2, m2) = past.pushed_word(mem, past.pc);
    lemma_push_then_pop_word(past, mem, past.pc);
    let flagged = c2.flagged(BREAK, true);
    let (c3, m3) = flagged.pushed(m2, flagged.status);
    assert(flagged.stack_slot() == third);
    let m1 = mem.poke(first, high_byte(past.pc));
    lemma_peek_elsewhere_after_poke(mem, first, high_byte(past.pc), third);
    lemma_peek_elsewhere_after_poke(m1, second, low_byte(past.pc), third);
    lemma_push_then_pop(flagged, m2, flagged.status);
    if third != CONFIG {
        lemma_peek_elsewhere_after_poke(m2, third, flagged.status, first);
        lemma_peek_elsewhere_after_poke(m2, third, flagged.status, second);
    }
    let after = c3.flagged(INTERRUPT, true);
    let (c4, status) = after.popped(m3);
    assert(status == flagged.status);
    assert(c4.sp == c2.sp);
    assert(c4.popped_word(m3).1 == c2.popped_word(m2).1);
}

/// For a zero-page pointer at 0xFF the high byte of the word it designates
/// is fetched from 0x00, not from 0x100: the fetch wraps within the zero
/// page. This holds for the plain, the X-indexed and the Y-indexed
/// indirect mode alike.
pub proof fn lemma_zero_page_pointer_wraps<M: IOMem>(cpu: Cpu, mem: M)
    ensures
        zero_page_word(mem, 0xFF) == word(mem.peek(0x00FF), mem.peek(0x0000)),
        mem.peek(cpu.pc) == 0xFF ==> cpu.effective_address(mem, OpMode::Indirect) == word(
            mem.peek(0x00FF),
            mem.peek(0x0000),
        ),
        mem.peek(cpu.pc) == 0xFF ==> cpu.effective_address(mem, OpMode::IndirectY) == word(
            mem.peek(0x00FF),
            mem.peek(0x0000),
        ).wrapping_add(cpu.y as u16),
        mem.peek(cpu.pc).wrapping_add(cpu.x) == 0xFF ==> cpu.effective_address(
            mem,
            OpMode::IndirectX,
        ) == word(mem.peek(0x00FF), mem.peek(0x0000)),
{
}

/// The target of a branch lies the signed offset away from the address
/// behind the offset byte: within 128 bytes before it or 127 bytes after
/// it, modulo 65536.
pub proof fn lemma_branch_target<M: IOMem>(cpu: Cpu, mem: M)
    ensures
        ({
            let offset = mem.peek(cpu.pc);
            let target = cpu.effective_address(mem, OpMode::Relative);
            &&& -128 <= signed(offset) <= 127
            &&& target == wrap16(cpu.pc + 1 + signed(offset))
            &&& offset < 0x80 ==> target == cpu.pc.wrapping_add(1).wrapping_add(offset as u16)
            &&& offset >= 0x80 ==> target == cpu.pc.wrapping_add(1).wrapping_sub(
                (0x100 - offset) as u16,
            )
        }),
{
}

/// A step on a byte that the opcode table lacks fails with that byte and
/// leaves every register and all of memory as they were.
pub proof fn lemma_unsupported_changes_nothing<M: IOMem>(cpu: Cpu, mem: M)
    requires
        opcode_entry(mem.peek(cpu.pc)) is None,
    ensures
        cpu.stepped(mem).0 == cpu,
        cpu.stepped(mem).1 == mem,
        cpu.stepped(mem).2 == Err::<(), CpuError>(
            CpuError::UnsupportedInstruction(mem.peek(cpu.pc)),
        ),
{
}

/// A step fails exactly on the bytes that the opcode table lacks, and then
/// with the unsupported-instruction failure: it never reports an
/// instruction without a handler.
pub proof fn lemma_step_fails_only_on_unsupported<M: IOMem>(cpu: Cpu, mem: M)
    ensures
        cpu.stepped(mem).2 is Err <==> opcode_entry(mem.peek(cpu.pc)) is None,
        cpu.stepped(mem).2 != Err::<(), CpuError>(CpuError::UnrecognizedMnemonic),
{
}

/// After an addition the accumulator holds the low eight bits of the sum
/// of accumulator, operand and carry; carry tells whether the sum exceeded
/// eight bits; overflow tells whether the sum of the three, with
/// accumulator and operand read as signed numbers, lies outside
/// -128..=127; zero and negative follow the accumulator.
pub proof fn lemma_add_sets_flags(cpu: Cpu, value: u8)
    ensures
        ({
            let carry_in = if cpu.has(CARRY) { 1int } else { 0int };
            let total = cpu.a + value + carry_in;
            let signed_total = signed(cpu.a) + signed(value) + carry_in;
            let after = cpu.added(value);
            &&& after.a == total % 256
            &&& after.has(CARRY) <==> total > 0xFF
            &&& after.has(OVERFLOW) <==> top_bit(cpu.a) == top_bit(value) && top_bit(after.a)
                != top_bit(cpu.a)
            &&& after.has(OVERFLOW) <==> !(-128 <= signed_total <= 127)
            &&& after.has(ZERO) <==> after.a == 0
            &&& after.has(NEGATIVE) <==> top_bit(after.a)
            &&& after.pc == cpu.pc && after.sp == cpu.sp && after.x == cpu.x && after.y == cpu.y
        }),
{
    let carry_in = if cpu.has(CARRY) { 1int } else { 0int };
    let total = cpu.a + value + carry_in;
    let result = (total % 256) as u8;
    let overflow = top_bit(cpu.a) == top_bit(value) && top_bit(result) != top_bit(cpu.a);
    let s1 = with_flag(cpu.status, CARRY, total > 0xFF);
    let s2 = with_flag(s1, OVERFLOW, overflow);
    lemma_flags_are_independent(cpu.status, CARRY, total > 0xFF, OVERFLOW);
    lemma_flags_are_independent(s1, OVERFLOW, overflow, CARRY);
    lemma_zero_negative_follow_value(s2, result);
    assert(CARRY & OVERFLOW == 0 && OVERFLOW & CARRY == 0 && CARRY & (ZERO | NEGATIVE) == 0
        && OVERFLOW & (ZERO | NEGATIVE) == 0) by (bit_vector);
}

/// A subtraction is the addition of the operand's complement: with carry
/// set beforehand the accumulator holds the difference modulo 256, and
/// carry afterwards tells that no borrow was needed.
pub proof fn lemma_subtract_is_add_of_complement(cpu: Cpu, operand: u8)
    requires
        cpu.has(CARRY),
    ensures
        ({
            let after = cpu.added(complement(operand));
            &&& after.a == (cpu.a - operand) % 256
            &&& after.has(CARRY) <==> cpu.a >= operand
            &&& after.has(ZERO) <==> cpu.a == operand
        }),
{
    lemma_add_sets_flags(cpu, complement(operand));
}

/// After a comparison carry tells whether the register is at least the
/// operand, zero tells whether the two are equal, and negative is bit 7 of
/// their wrapping difference. No register but the flags changes.
pub proof fn lemma_compare_sets_flags(cpu: Cpu, register: u8, operand: u8)
    ensures
        ({
            let after = cpu.compared(register, operand);
            &&& after.has(CARRY) <==> register >= operand
            &&& after.has(ZERO) <==> register == operand
            &&& after.has(NEGATIVE) <==> top_bit(register.wrapping_sub(operand))
            &&& after == Cpu { status: after.status, ..cpu }
        }),
{
    let s1 = with_flag(cpu.status, CARRY, register >= operand);
    lemma_flags_are_independent(cpu.status, CARRY, register >= operand, ZERO);
    lemma_zero_negative_follow_value(s1, register.wrapping_sub(operand));
    assert(CARRY & (ZERO | NEGATIVE) == 0) by (bit_vector);
}

/// The instructions whose meaning defines the carry flag: additions,
/// subtractions, shifts, rotates, comparisons, the two that set and clear
/// it, and the two that pull the whole flag register from the stack.
pub open spec fn defines_carry(mnemonic: Mnemonic) -> bool {
    matches!(
        mnemonic,
        Mnemonic::Adc
            | Mnemonic::Sbc
            | Mnemonic::Asl
            | Mnemonic::Lsr
            | Mnemonic::Rol
            | Mnemonic::Ror
            | Mnemonic::Cmp
            | Mnemonic::Cpx
            | Mnemonic::Cpy
            | Mnemonic::Clc
            | Mnemonic::Sec
            | Mnemonic::Plp
            | Mnemonic::Rti
    )
}

/// The instructions whose meaning defines the overflow flag: additions,
/// subtractions, the bit test, the one that clears it, and the two that
/// pull the whole flag register from the stack.
pub open spec fn defines_overflow(mnemonic: Mnemonic) -> bool {
    matches!(
        mnemonic,
        Mnemonic::Adc
            | Mnemonic::Sbc
            | Mnemonic::Bit
            | Mnemonic::Clv
            | Mnemonic::Plp
            | Mnemonic::Rti
    )
}

/// Carry and overflow are recomputed only by the instructions whose
/// meaning defines them: every other instruction leaves them as they were.
pub proof fn lemma_carry_and_overflow_change_only_where_defined<M: IOMem>(
    cpu: Cpu,
    mem: M,
    opcode: Opcode,
    address: u16,
)
    ensures
        !defines_carry(opcode.mnemonic) ==> cpu.executed(mem, opcode, address).0.has(CARRY)
            == cpu.has(CARRY),
        !defines_overflow(opcode.mnemonic) ==> cpu.executed(mem, opcode, address).0.has(OVERFLOW)
            == cpu.has(OVERFLOW),
{
    assert forall|status: u8, value: u8| #![trigger with_zn(status, value)]
        flag(with_zn(status, value), CARRY) == flag(status, CARRY) && flag(
            with_zn(status, value),
            OVERFLOW,
        ) == flag(status, OVERFLOW) by {
        lemma_zero_negative_follow_value(status, value);
        assert(CARRY & (ZERO | NEGATIVE) == 0 && OVERFLOW & (ZERO | NEGATIVE) == 0)
            by (bit_vector);
    }
    assert forall|status: u8, mask: u8, on: bool|
        #![trigger with_flag(status, mask, on)]
        mask != 0 implies (mask & CARRY == 0 ==> flag(with_flag(status, mask, on), CARRY) == flag(
            status,
            CARRY,
        )) && (mask & OVERFLOW == 0 ==> flag(with_flag(status, mask, on), OVERFLOW) == flag(
            status,
            OVERFLOW,
        )) by {
        lemma_flags_are_independent(status, mask, on, CARRY);
        lemma_flags_are_independent(status, mask, on, OVERFLOW);
    }
    assert(DECIMAL & CARRY == 0 && DECIMAL & OVERFLOW == 0 && INTERRUPT & CARRY == 0 && INTERRUPT
        & OVERFLOW == 0 && BREAK & CARRY == 0 && BREAK & OVERFLOW == 0 && ZERO & CARRY == 0 && ZERO
        & OVERFLOW == 0 && NEGATIVE & CARRY == 0 && NEGATIVE & OVERFLOW == 0 && CARRY & OVERFLOW
        == 0 && OVERFLOW & CARRY == 0) by (bit_vector);
}

} // verus!
