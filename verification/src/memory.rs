//! The interfaces through which the processor and the chip simulations reach
//! memory, and the byte/word arithmetic they share.

use vstd::prelude::*;

verus! {

/// First address of the timer/peripheral-interface register window.
pub const CIA_FIRST: u16 = 0xDC00;

/// Last address of the timer/peripheral-interface register window.
pub const CIA_LAST: u16 = 0xDDFF;

/// First address of the video-chip control register window.
pub const VIC_FIRST: u16 = 0xD000;

/// Last address of the video-chip control register window.
pub const VIC_LAST: u16 = 0xD02E;

/// The 16-bit word whose low byte is `low` and whose high byte is `high`.
pub open spec fn word(low: u8, high: u8) -> u16 {
    (high * 256 + low) as u16
}

/// The low byte of a word.
pub open spec fn low_byte(value: u16) -> u8 {
    (value % 256) as u8
}

/// The high byte of a word.
pub open spec fn high_byte(value: u16) -> u8 {
    (value / 256) as u8
}

/// Whether `address` lies in the 512-byte peripheral-interface window.
pub open spec fn in_cia_window(address: u16) -> bool {
    CIA_FIRST <= address <= CIA_LAST
}

/// Whether `address` lies in the 47-byte video-chip window.
pub open spec fn in_vic_window(address: u16) -> bool {
    VIC_FIRST <= address <= VIC_LAST
}

/// Splitting a word and joining the halves gives the word back, and the
/// halves of a joined word are the bytes it was joined from.
pub proof fn lemma_word_halves(value: u16, low: u8, high: u8)
    ensures
        word(low_byte(value), high_byte(value)) == value,
        low_byte(word(low, high)) == low,
        high_byte(word(low, high)) == high,
{
}

/// Joins two bytes into a word, low byte first.
pub fn make_word(low: u8, high: u8) -> (r: u16)
    ensures
        r == word(low, high),
{
    let l: u16 = low as u16;
    let h: u16 = high as u16;
    assert((h << 8) | l == h * 256 + l) by (bit_vector)
        requires
            h < 256,
            l < 256,
    ;
    (h << 8) | l
}

/// The low and the high byte of a word, in that order.
pub fn split_word(value: u16) -> (r: (u8, u8))
    ensures
        r.0 == low_byte(value),
        r.1 == high_byte(value),
{
    let low: u16 = value & 0xFF;
    let high: u16 = value >> 8;
    assert(value & 0xFF == value % 256 && value >> 8 == value / 256) by (bit_vector);
    (low as u8, high as u8)
}

/// An address handed to a register window that lies outside that window.
#[derive(Clone, Copy, Debug, PartialEq, Eq, Structural)]
pub struct OutOfRange(pub u16);

/// The full 16-bit address space as the processor sees it.
///
/// `peek` and `poke` are the mathematical model of the bus: what a read of an
/// address yields in a given state, and the state that a store leaves behind.
pub trait IOMem: Sized {
    /// The byte that a read of `addr` yields.
    spec fn peek(&self, addr: u16) -> u8;

    /// The memory after `value` was stored to `addr`.
    spec fn poke(&self, addr: u16, value: u8) -> Self;

    /// Reads the byte at `addr`. Every address has a defined byte.
    fn read_u8(&self, addr: u16) -> (r: u8)
        ensures
            r == self.peek(addr),
    ;

    /// Reads a little-endian word: the low byte at `addr`, the high byte at
    /// the following address, which wraps from 0xFFFF to 0. Each byte is
    /// resolved on its own.
    fn read_u16(&self, addr: u16) -> (r: u16)
        ensures
            r == word(self.peek(addr), self.peek(addr.wrapping_add(1))),
    ;

    /// Stores `value` to `addr`.
    fn write_u8(&mut self, addr: u16, value: u8)
        ensures
            *final(self) == old(self).poke(addr, value),
    ;
}

/// The little-endian word that two single reads compose: the low byte at
/// `addr`, the high byte at the following address, wrapping at 16 bits.
pub open spec fn peek_word<M: IOMem>(mem: M, addr: u16) -> u16 {
    word(mem.peek(addr), mem.peek(addr.wrapping_add(1)))
}

/// The timer/peripheral-interface registers, addressed absolutely within
/// 0xDC00..=0xDDFF.
pub trait IOCia: Sized {
    /// The register at `address`, for an address inside the window.
    spec fn cia_register(&self, address: u16) -> u8;

    /// The state after `value` was stored to the register at `address`, for
    /// an address inside the window.
    spec fn with_cia_register(&self, address: u16, value: u8) -> Self;

    /// Reads a register; fails for an address outside the window.
    fn read(&self, address: u16) -> (r: Result<u8, OutOfRange>)
        ensures
            in_cia_window(address) ==> r == Ok::<u8, OutOfRange>(self.cia_register(address)),
            !in_cia_window(address) ==> r == Err::<u8, OutOfRange>(OutOfRange(address)),
    ;

    /// Writes a register; fails, changing nothing, for an address outside
    /// the window.
    fn write(&mut self, address: u16, value: u8) -> (r: Result<(), OutOfRange>)
        ensures
            in_cia_window(address) ==> r == Ok::<(), OutOfRange>(()) && *final(self) == old(
                self,
            ).with_cia_register(address, value),
            !in_cia_window(address) ==> r == Err::<(), OutOfRange>(OutOfRange(address))
                && *final(self) == *old(self),
    ;
}

/// The video-chip control registers, addressed absolutely within
/// 0xD000..=0xD02E.
pub trait IOVic: Sized {
    /// The register at `addr`, for an address inside the window.
    spec fn vic_register(&self, addr: u16) -> u8;

    /// The state after `value` was stored to the register at `addr`, for an
    /// address inside the window.
    spec fn with_vic_register(&self, addr: u16, value: u8) -> Self;

    /// Reads a register; fails for an address outside the window.
    fn read(&self, addr: u16) -> (r: Result<u8, OutOfRange>)
        ensures
            in_vic_window(addr) ==> r == Ok::<u8, OutOfRange>(self.vic_register(addr)),
            !in_vic_window(addr) ==> r == Err::<u8, OutOfRange>(OutOfRange(addr)),
    ;

    /// Writes a register; fails, changing nothing, for an address outside
    /// the window.
    fn write(&mut self, addr: u16, value: u8) -> (r: Result<(), OutOfRange>)
        ensures
            in_vic_window(addr) ==> r == Ok::<(), OutOfRange>(()) && *final(self) == old(
                self,
            ).with_vic_register(addr, value),
            !in_vic_window(addr) ==> r == Err::<(), OutOfRange>(OutOfRange(addr)) && *final(self)
                == *old(self),
    ;
}

} // verus!
