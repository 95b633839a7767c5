//! The memory bank: RAM, ROM and the chip-register image behind one 16-bit
//! address space, routed by the configuration byte at address 1.

use vstd::prelude::*;
use crate::memory::{
    in_cia_window, in_vic_window, make_word, IOCia, IOMem, IOVic, OutOfRange, CIA_FIRST,
    CIA_LAST, VIC_FIRST, VIC_LAST,
};

verus! {

/// Address of the data-direction byte.
pub const DATA_DIR: u16 = 0;

/// Address of the live configuration byte.
pub const CONFIG: u16 = 1;

/// Value of the data-direction byte in a fresh memory bank.
pub const DATA_DIR_DEFAULT: u8 = 0b0010_1111;

/// Value of the configuration byte in a fresh memory bank: both ROM windows
/// and the chip-register window visible.
pub const CONFIG_DEFAULT: u8 = 0b0011_0111;

/// Configuration bit that shows the BASIC ROM at 0xA000..=0xBFFF.
pub const BASIC_VISIBLE: u8 = 1;

/// Configuration bit that shows the kernel ROM at 0xE000..=0xFFFF.
pub const KERNAL_VISIBLE: u8 = 2;

/// Configuration bit that shows the chip registers at 0xD000..=0xDFFF.
pub const CHIPS_VISIBLE: u8 = 4;

/// First address of the chip-register window, which the chip-register image
/// is offset by.
pub const CHIP_BASE: u16 = 0xD000;

/// Size of the RAM and of the ROM image.
pub const SPACE: usize = 0x10000;

/// Size of the chip-register image.
pub const CHIP_SPACE: usize = 0x1000;

/// The store that an access resolves to.
#[derive(Clone, Copy, Debug, PartialEq, Eq, Structural)]
pub enum Backing {
    Ram,
    Rom,
    Chip,
}

/// Whether `addr` is one of the two configuration addresses.
pub open spec fn is_configuration(addr: u16) -> bool {
    addr == DATA_DIR || addr == CONFIG
}

/// Whether `addr` lies in the BASIC-ROM window.
pub open spec fn in_basic_window(addr: u16) -> bool {
    0xA000 <= addr <= 0xBFFF
}

/// Whether `addr` lies in the chip-register window.
pub open spec fn in_chip_window(addr: u16) -> bool {
    0xD000 <= addr <= 0xDFFF
}

/// Whether `addr` lies in the kernel-ROM window.
pub open spec fn in_kernal_window(addr: u16) -> bool {
    0xE000 <= addr <= 0xFFFF
}

/// Where a read of `addr` is routed under the configuration byte `config`.
///
/// The two configuration addresses are never banked. Each of the three
/// windows is gated by its own bit of the configuration byte; outside them,
/// and inside a window whose bit is clear, everything is RAM.
pub open spec fn read_backing(config: u8, addr: u16) -> Backing {
    if is_configuration(addr) {
        Backing::Ram
    } else if in_kernal_window(addr) && config & KERNAL_VISIBLE != 0 {
        Backing::Rom
    } else if in_basic_window(addr) && config & BASIC_VISIBLE != 0 {
        Backing::Rom
    } else if in_chip_window(addr) && config & CHIPS_VISIBLE != 0 {
        Backing::Chip
    } else {
        Backing::Ram
    }
}

/// Where a store to `addr` is routed under the configuration byte `config`.
///
/// ROM has no write path: a store into either ROM window lands in RAM
/// whatever the visibility bits say. Only the chip-register window diverts
/// stores.
pub open spec fn write_backing(config: u8, addr: u16) -> Backing {
    if !is_configuration(addr) && in_chip_window(addr) && config & CHIPS_VISIBLE != 0 {
        Backing::Chip
    } else {
        Backing::Ram
    }
}

/// Computes [`read_backing`].
pub fn resolve_read(config: u8, addr: u16) -> (r: Backing)
    ensures
        r == read_backing(config, addr),
{
    if addr == DATA_DIR || addr == CONFIG {
        Backing::Ram
    } else if 0xE000 <= addr {
        if config & KERNAL_VISIBLE != 0 {
            Backing::Rom
        } else {
            Backing::Ram
        }
    } else if 0xA000 <= addr && addr <= 0xBFFF {
        if config & BASIC_VISIBLE != 0 {
            Backing::Rom
        } else {
            Backing::Ram
        }
    } else if 0xD000 <= addr && addr <= 0xDFFF {
        if config & CHIPS_VISIBLE != 0 {
            Backing::Chip
        } else {
            Backing::Ram
        }
    } else {
        Backing::Ram
    }
}

/// Computes [`write_backing`].
pub fn resolve_write(config: u8, addr: u16) -> (r: Backing)
    ensures
        r == write_backing(config, addr),
{
    if addr == DATA_DIR || addr == CONFIG {
        Backing::Ram
    } else if 0xD000 <= addr && addr <= 0xDFFF && config & CHIPS_VISIBLE != 0 {
        Backing::Chip
    } else {
        Backing::Ram
    }
}

/// The three byte images behind the address space.
#[derive(Clone, Copy)]
pub struct C64Mem {
    /// The RAM image; bytes 0 and 1 are the banking configuration pair.
    pub ram: [u8; 0x10000],
    /// The ROM image, addressed like RAM.
    pub rom: [u8; 0x10000],
    /// The chip-register image; index 0 is address 0xD000.
    pub io: [u8; 0x1000],
}

/// `image` with the bytes from `start` on replaced by those of `data`.
pub open spec fn overlaid(image: Seq<u8>, start: int, data: Seq<u8>) -> Seq<u8> {
    Seq::new(
        image.len(),
        |i: int|
            if start <= i < start + data.len() {
                data[i - start]
            } else {
                image[i]
            },
    )
}

/// `bank` with the byte at `index` replaced by `value`.
pub open spec fn stored<const N: usize>(bank: [u8; N], index: int, value: u8) -> [u8; N] {
    vstd::array::spec_array_update(bank, index, value)
}

impl C64Mem {
    /// The live configuration byte.
    pub open spec fn config(&self) -> u8 {
        self.ram[CONFIG as int]
    }

    /// Whether a read of `addr` comes from the ROM image.
    pub open spec fn shows_rom(&self, addr: u16) -> bool {
        read_backing(self.config(), addr) == Backing::Rom
    }

    /// Whether a read of `addr` yields `value` once `value` was stored
    /// there. A store under visible ROM lands in RAM and is not seen, so
    /// there the ROM byte must be `value` already.
    pub open spec fn keeps(&self, addr: u16, value: u8) -> bool {
        self.shows_rom(addr) ==> self.rom[addr as int] == value
    }

    /// The memory with `value` stored at `addr` of the RAM image.
    pub open spec fn with_ram(&self, addr: u16, value: u8) -> C64Mem {
        C64Mem { ram: stored(self.ram, addr as int, value), ..*self }
    }

    /// The memory with `value` stored in the chip register at the absolute
    /// address `addr`, which lies in 0xD000..=0xDFFF.
    pub open spec fn with_chip(&self, addr: u16, value: u8) -> C64Mem {
        C64Mem { io: stored(self.io, addr - CHIP_BASE, value), ..*self }
    }

    /// Whether this is the memory bank as constructed: the configuration
    /// pair at its defaults and every other byte of the three images zero.
    pub open spec fn is_fresh(&self) -> bool {
        &&& self.ram@ =~= Seq::new(
            SPACE as nat,
            |i: int|
                if i == DATA_DIR {
                    DATA_DIR_DEFAULT
                } else if i == CONFIG {
                    CONFIG_DEFAULT
                } else {
                    0u8
                },
        )
        &&& self.rom@ =~= Seq::new(SPACE as nat, |i: int| 0u8)
        &&& self.io@ =~= Seq::new(CHIP_SPACE as nat, |i: int| 0u8)
    }

    /// A memory bank with the configuration pair at its defaults and every
    /// other byte of the three images zero.
    pub fn new() -> (r: Self)
        ensures
            r.is_fresh(),
    {
        let mut ram = [0u8;0x10000];
        ram[DATA_DIR as usize] = DATA_DIR_DEFAULT;
        ram[CONFIG as usize] = CONFIG_DEFAULT;
        let rom = [0u8;0x10000];
        let io = [0u8;0x1000];
        C64Mem { ram, rom, io }
    }

    /// Copies `data` into the RAM image, starting at `address`. Banking is
    /// not consulted. The range must end within the 64 KiB space.
    pub fn load_ram(&mut self, data: &Vec<u8>, address: u16)
        requires
            address + data.len() <= SPACE,
        ensures
            final(self).ram@ == overlaid(old(self).ram@, address as int, data@),
            final(self).rom == old(self).rom,
            final(self).io == old(self).io,
    {
        let base: usize = address as usize;
        let mut i: usize = 0;
        while i < data.len()
            invariant
                i <= data.len(),
                base == address,
                base + data.len() <= SPACE,
                self.rom == old(self).rom,
                self.io == old(self).io,
                self.ram@ == overlaid(old(self).ram@, base as int, data@.take(i as int)),
            decreases data.len() - i,
        {
            self.ram[base + i] = data[i];
            i = i + 1;
            assert(self.ram@ =~= overlaid(old(self).ram@, base as int, data@.take(i as int)));
        }
        assert(data@.take(i as int) =~= data@);
    }

    /// Copies `data` into the ROM image, starting at `address`. The range
    /// must end within the 64 KiB space.
    pub fn load_rom(&mut self, data: &Vec<u8>, address: u16)
        requires
            address + data.len() <= SPACE,
        ensures
            final(self).rom@ == overlaid(old(self).rom@, address as int, data@),
            final(self).ram == old(self).ram,
            final(self).io == old(self).io,
    {
        let base: usize = address as usize;
        let mut i: usize = 0;
        while i < data.len()
            invariant
                i <= data.len(),
                base == address,
                base + data.len() <= SPACE,
                self.ram == old(self).ram,
                self.io == old(self).io,
                self.rom@ == overlaid(old(self).rom@, base as int, data@.take(i as int)),
            decreases data.len() - i,
        {
            self.rom[base + i] = data[i];
            i = i + 1;
            assert(self.rom@ =~= overlaid(old(self).rom@, base as int, data@.take(i as int)));
        }
        assert(data@.take(i as int) =~= data@);
    }
}

impl IOMem for C64Mem {
    open spec fn peek(&self, addr: u16) -> u8 {
        match read_backing(self.config(), addr) {
            Backing::Ram => self.ram[addr as int],
            Backing::Rom => self.rom[addr as int],
            Backing::Chip => self.io[addr - CHIP_BASE],
        }
    }

    open spec fn poke(&self, addr: u16, value: u8) -> C64Mem {
        match write_backing(self.config(), addr) {
            Backing::Chip => self.with_chip(addr, value),
            _ => self.with_ram(addr, value),
        }
    }

    fn read_u8(&self, addr: u16) -> (r: u8) {
        match resolve_read(self.ram[CONFIG as usize], addr) {
            Backing::Ram => self.ram[addr as usize],
            Backing::Rom => self.rom[addr as usize],
            Backing::Chip => self.io[(addr - CHIP_BASE) as usize],
        }
    }

    fn read_u16(&self, addr: u16) -> (r: u16) {
        let low = self.read_u8(addr);
        let high = self.read_u8(addr.wrapping_add(1));
        make_word(low, high)
    }

    fn write_u8(&mut self, addr: u16, value: u8) {
        match resolve_write(self.ram[CONFIG as usize], addr) {
            Backing::Chip => {
                self.io[(addr - CHIP_BASE) as usize] = value;
            },
            _ => {
                self.ram[addr as usize] = value;
            },
        }
    }
}

impl IOCia for C64Mem {
    open spec fn cia_register(&self, address: u16) -> u8 {
        self.io[address - CHIP_BASE]
    }

    open spec fn with_cia_register(&self, address: u16, value: u8) -> C64Mem {
        self.with_chip(address, value)
    }

    fn read(&self, address: u16) -> (r: Result<u8, OutOfRange>) {
        if CIA_FIRST <= address && address <= CIA_LAST {
            Ok(self.io[(address - CHIP_BASE) as usize])
        } else {
            Err(OutOfRange(address))
        }
    }

    fn write(&mut self, address: u16, value: u8) -> (r: Result<(), OutOfRange>) {
        if CIA_FIRST <= address && address <= CIA_LAST {
            self.io[(address - CHIP_BASE) as usize] = value;
            Ok(())
        } else {
            Err(OutOfRange(address))
        }
    }
}

impl IOVic for C64Mem {
    open spec fn vic_register(&self, addr: u16) -> u8 {
        self.io[addr - CHIP_BASE]
    }

    open spec fn with_vic_register(&self, addr: u16, value: u8) -> C64Mem {
        self.with_chip(addr, value)
    }

    fn read(&self, addr: u16) -> (r: Result<u8, OutOfRange>) {
        if VIC_FIRST <= addr && addr <= VIC_LAST {
            Ok(self.io[(addr - CHIP_BASE) as usize])
        } else {
            Err(OutOfRange(addr))
        }
    }

    fn write(&mut self, addr: u16, value: u8) -> (r: Result<(), OutOfRange>) {
        if VIC_FIRST <= addr && addr <= VIC_LAST {
            self.io[(addr - CHIP_BASE) as usize] = value;
            Ok(())
        } else {
            Err(OutOfRange(addr))
        }
    }
}

/// While the kernel-ROM bit of the configuration byte is set, every read in
/// 0xE000..=0xFFFF yields the ROM image's byte at that address; once the bit
/// has been cleared by a store to the configuration byte, the same read
/// yields the RAM image's byte.
pub proof fn lemma_kernal_window_follows_bit(mem: C64Mem, addr: u16)
    requires
        in_kernal_window(addr),
    ensures
        mem.config() & KERNAL_VISIBLE != 0 ==> mem.peek(addr) == mem.rom[addr as int],
        mem.config() & KERNAL_VISIBLE == 0 ==> mem.peek(addr) == mem.ram[addr as int],
        mem.poke(CONFIG, mem.config() & !KERNAL_VISIBLE).peek(addr) == mem.ram[addr as int],
        mem.poke(CONFIG, mem.config() | KERNAL_VISIBLE).peek(addr) == mem.rom[addr as int],
{
    let c = mem.config();
    assert((c & !KERNAL_VISIBLE) & KERNAL_VISIBLE == 0 && (c | KERNAL_VISIBLE) & KERNAL_VISIBLE
        != 0) by (bit_vector);
}

/// The BASIC-ROM bit of the configuration byte decides in the same way what
/// a read in 0xA000..=0xBFFF yields.
pub proof fn lemma_basic_window_follows_bit(mem: C64Mem, addr: u16)
    requires
        in_basic_window(addr),
    ensures
        mem.config() & BASIC_VISIBLE != 0 ==> mem.peek(addr) == mem.rom[addr as int],
        mem.config() & BASIC_VISIBLE == 0 ==> mem.peek(addr) == mem.ram[addr as int],
        mem.poke(CONFIG, mem.config() & !BASIC_VISIBLE).peek(addr) == mem.ram[addr as int],
        mem.poke(CONFIG, mem.config() | BASIC_VISIBLE).peek(addr) == mem.rom[addr as int],
{
    let c = mem.config();
    assert((c & !BASIC_VISIBLE) & BASIC_VISIBLE == 0 && (c | BASIC_VISIBLE) & BASIC_VISIBLE != 0)
        by (bit_vector);
}

/// The chip-register bit of the configuration byte decides what a read in
/// 0xD000..=0xDFFF yields: the chip-register image, offset by the window's
/// base, or RAM.
pub proof fn lemma_chip_window_follows_bit(mem: C64Mem, addr: u16)
    requires
        in_chip_window(addr),
    ensures
        mem.config() & CHIPS_VISIBLE != 0 ==> mem.peek(addr) == mem.io[addr - CHIP_BASE],
        mem.config() & CHIPS_VISIBLE == 0 ==> mem.peek(addr) == mem.ram[addr as int],
        mem.poke(CONFIG, mem.config() & !CHIPS_VISIBLE).peek(addr) == mem.ram[addr as int],
        mem.poke(CONFIG, mem.config() | CHIPS_VISIBLE).peek(addr) == mem.io[addr - CHIP_BASE],
{
    let c = mem.config();
    assert((c & !CHIPS_VISIBLE) & CHIPS_VISIBLE == 0 && (c | CHIPS_VISIBLE) & CHIPS_VISIBLE != 0)
        by (bit_vector);
}

/// Outside the three windows every access goes to RAM, whatever the
/// configuration byte holds.
pub proof fn lemma_unbanked_is_ram(mem: C64Mem, addr: u16, value: u8)
    requires
        !in_basic_window(addr),
        !in_chip_window(addr),
        !in_kernal_window(addr),
    ensures
        mem.peek(addr) == mem.ram[addr as int],
        mem.poke(addr, value) == mem.with_ram(addr, value),
{
}

/// The two configuration addresses are never banked: a store to address 0
/// or 1 lands in RAM and a read of it comes from RAM, whatever the
/// configuration byte holds before or after.
pub proof fn lemma_configuration_pair_is_ram(mem: C64Mem, addr: u16, value: u8)
    requires
        is_configuration(addr),
    ensures
        mem.peek(addr) == mem.ram[addr as int],
        mem.poke(addr, value) == mem.with_ram(addr, value),
        mem.poke(addr, value).ram[addr as int] == value,
        mem.poke(addr, value).rom == mem.rom,
        mem.poke(addr, value).io == mem.io,
        mem.poke(addr, value).peek(addr) == value,
{
}

/// A store into either ROM window lands in RAM and leaves the ROM image as
/// it was, whatever the visibility bits say.
pub proof fn lemma_rom_has_no_write_path(mem: C64Mem, addr: u16, value: u8)
    ensures
        mem.poke(addr, value).rom == mem.rom,
        in_basic_window(addr) || in_kernal_window(addr) ==> mem.poke(addr, value)
            == mem.with_ram(addr, value),
{
}

/// A store changes no byte of the three images but the one it lands on.
pub proof fn lemma_poke_changes_one_byte(mem: C64Mem, addr: u16, value: u8)
    ensures
        write_backing(mem.config(), addr) == Backing::Chip ==> {
            &&& mem.poke(addr, value).ram == mem.ram
            &&& mem.poke(addr, value).io@ == mem.io@.update(addr - CHIP_BASE, value)
        },
        write_backing(mem.config(), addr) != Backing::Chip ==> {
            &&& mem.poke(addr, value).io == mem.io
            &&& mem.poke(addr, value).ram@ == mem.ram@.update(addr as int, value)
        },
{
}

/// A read yields what was just stored to the same address exactly where
/// the memory keeps it: everywhere but under visible ROM, and there only if
/// the ROM byte equals the byte stored.
pub proof fn lemma_peek_after_poke(mem: C64Mem, addr: u16, value: u8)
    ensures
        mem.poke(addr, value).peek(addr) == value <==> mem.keeps(addr, value),
{
}

/// A store to any address but the configuration byte leaves what every
/// other address reads as unchanged.
pub proof fn lemma_peek_elsewhere_after_poke(mem: C64Mem, addr: u16, value: u8, other: u16)
    requires
        addr != CONFIG,
        addr != other,
    ensures
        mem.poke(addr, value).peek(other) == mem.peek(other),
        mem.poke(addr, value).config() == mem.config(),
{
}

/// The processor and the chip simulations share one register image: while
/// the chip-register window is visible, a store by the bus into a register
/// window is the store through that window's own interface, and both read
/// the same byte.
pub proof fn lemma_register_image_is_shared(mem: C64Mem, addr: u16, value: u8)
    requires
        mem.config() & CHIPS_VISIBLE != 0,
    ensures
        in_cia_window(addr) ==> mem.peek(addr) == mem.cia_register(addr) && mem.poke(addr, value)
            == mem.with_cia_register(addr, value),
        in_vic_window(addr) ==> mem.peek(addr) == mem.vic_register(addr) && mem.poke(addr, value)
            == mem.with_vic_register(addr, value),
{
}

} // verus!
