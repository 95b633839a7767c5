//! The processor's flag register: one byte in which every flag is a bit of
//! its own.

use vstd::prelude::*;

verus! {

/// Set when the last result had bit 7 set.
pub const NEGATIVE: u8 = 0x80;

/// Set when an addition or subtraction overflowed as a signed operation.
pub const OVERFLOW: u8 = 0x40;

/// Set by the break instruction.
pub const BREAK: u8 = 0x10;

/// Decimal mode.
pub const DECIMAL: u8 = 0x08;

/// Interrupt disable.
pub const INTERRUPT: u8 = 0x04;

/// Set when the last result was zero.
pub const ZERO: u8 = 0x02;

/// Carry out of the last addition, subtraction, shift or comparison.
pub const CARRY: u8 = 0x01;

/// Whether a flag of `mask` is set in `status`.
pub open spec fn flag(status: u8, mask: u8) -> bool {
    status & mask != 0
}

/// `status` with the flags of `mask` set if `on`, cleared otherwise.
pub open spec fn with_flag(status: u8, mask: u8, on: bool) -> u8 {
    if on {
        status | mask
    } else {
        status & !mask
    }
}

/// `status` with the zero and negative flags recomputed from `value`: zero
/// is set exactly for 0, negative exactly for the values with bit 7 set.
pub open spec fn with_zn(status: u8, value: u8) -> u8 {
    with_flag(with_flag(status, ZERO, value == 0), NEGATIVE, value >= 0x80)
}

/// Tests a flag.
pub fn test_flag(status: u8, mask: u8) -> (r: bool)
    ensures
        r == flag(status, mask),
{
    status & mask != 0
}

/// Sets or clears a flag.
pub fn assign_flag(status: u8, mask: u8, on: bool) -> (r: u8)
    ensures
        r == with_flag(status, mask, on),
{
    if on {
        status | mask
    } else {
        status & !mask
    }
}

/// Recomputes the zero and negative flags from `value`.
pub fn assign_zn(status: u8, value: u8) -> (r: u8)
    ensures
        r == with_zn(status, value),
{
    assert((value & 0x80 != 0) == (value >= 0x80)) by (bit_vector);
    let zero = assign_flag(status, ZERO, value == 0);
    assign_flag(zero, NEGATIVE, value & 0x80 != 0)
}

/// Each flag is independent: assigning the flags of a nonempty `mask` makes
/// a test of `mask` yield what was assigned, and leaves every test of a
/// mask that shares no bit with it as it was.
pub proof fn lemma_flags_are_independent(status: u8, mask: u8, on: bool, other: u8)
    requires
        mask != 0,
    ensures
        flag(with_flag(status, mask, on), mask) == on,
        mask & other == 0 ==> with_flag(status, mask, on) & other == status & other,
        mask & other == 0 ==> flag(with_flag(status, mask, on), other) == flag(status, other),
{
    assert({
        &&& (status | mask) & mask != 0
        &&& (status & !mask) & mask == 0
        &&& mask & other == 0 ==> (status | mask) & other == status & other
        &&& mask & other == 0 ==> (status & !mask) & other == status & other
    }) by (bit_vector)
        requires
            mask != 0,
    ;
}

/// After the zero and negative flags were recomputed from `value`, the zero
/// flag is set if and only if `value` is 0, the negative flag is set if and
/// only if bit 7 of `value` is 1, and every other flag is as it was.
pub proof fn lemma_zero_negative_follow_value(status: u8, value: u8)
    ensures
        flag(with_zn(status, value), ZERO) <==> value == 0,
        flag(with_zn(status, value), NEGATIVE) <==> value & 0x80 == 0x80,
        flag(with_zn(status, value), NEGATIVE) <==> value >= 0x80,
        forall|mask: u8|
            mask & (ZERO | NEGATIVE) == 0 ==> #[trigger] flag(with_zn(status, value), mask)
                == flag(status, mask),
{
    let z = with_flag(status, ZERO, value == 0);
    let n = with_zn(status, value);
    assert({
        &&& (n & 0x02 != 0) == (value == 0)
        &&& (n & 0x80 != 0) == (value >= 0x80)
        &&& (value & 0x80 == 0x80) == (value >= 0x80)
        &&& forall|mask: u8| mask & (0x02u8 | 0x80u8) == 0 ==> n & mask == status & mask
    }) by (bit_vector)
        requires
            value == 0 ==> z == status | 0x02,
            value != 0 ==> z == status & !0x02u8,
            value >= 0x80 ==> n == z | 0x80,
            value < 0x80 ==> n == z & !0x80u8,
    ;
}

} // verus!
