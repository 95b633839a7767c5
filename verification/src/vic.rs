//! The video chip's colour palette and its view of the control registers.

use vstd::prelude::*;
use crate::memory::{in_vic_window, IOVic, OutOfRange};

verus! {

/// First of the sixteen sprite position registers, X and Y in turn.
pub const SPRITE_LOC_PTR: u16 = 0xD000;

/// Last of the sixteen sprite position registers.
pub const SPRITE_LOC_LAST: u16 = 0xD00F;

/// Most significant bits of the sprites' X positions.
pub const X_MSBS: u16 = 0xD010;

/// Vertical scroll and screen control.
pub const Y_SCROLL: u16 = 0xD011;

/// Raster counter.
pub const RASTER_COUNTER: u16 = 0xD012;

/// Light pen X position.
pub const LIGHT_PEN_X: u16 = 0xD013;

/// Light pen Y position.
pub const LIGHT_PEN_Y: u16 = 0xD014;

/// Sprite enable bits.
pub const SPRITE_ENABLE: u16 = 0xD015;

/// Horizontal scroll and screen control.
pub const X_SCROLL: u16 = 0xD016;

/// Sprite vertical expansion bits.
pub const SPRITE_Y_EXPANSION: u16 = 0xD017;

/// Memory pointers.
pub const MEM_PTR: u16 = 0xD018;

/// Interrupt register.
pub const INTERRUPT_REG: u16 = 0xD019;

/// Interrupt enable bits.
pub const INTERRUPT_ENABLE: u16 = 0xD01A;

/// Sprite-to-background priority bits.
pub const SPRITE_DATA_PRIORITY: u16 = 0xD01B;

/// Sprite multicolour bits.
pub const SPRITE_MULTY_COL: u16 = 0xD01C;

/// Sprite horizontal expansion bits.
pub const SPRITE_X_EXPANSION: u16 = 0xD01D;

/// Sprite-sprite collision bits.
pub const SPRITE_SPRITE_COLLISION: u16 = 0xD01E;

/// Sprite-background collision bits.
pub const SPRITE_DATA_COLLISION: u16 = 0xD01F;

/// Border colour.
pub const BORDER_COLOR: u16 = 0xD020;

/// Background colour 0.
pub const BACKGROUND_COLOR_0: u16 = 0xD021;

/// Background colour 1.
pub const BACKGROUND_COLOR_1: u16 = 0xD022;

/// Background colour 2.
pub const BACKGROUND_COLOR_2: u16 = 0xD023;

/// Background colour 3.
pub const BACKGROUND_COLOR_3: u16 = 0xD024;

/// Sprite multicolour 0.
pub const SPRITE_MULTY_COL0: u16 = 0xD025;

/// Sprite multicolour 1.
pub const SPRITE_MULTY_COL1: u16 = 0xD026;

/// First of the eight sprite colour registers.
pub const COLOR_SPRITE_PTR: u16 = 0xD027;

/// Value that [`Vic::init`] gives the horizontal scroll register.
pub const X_SCROLL_INITIAL: u8 = 0b0000_1000;

/// Value that [`Vic::init`] gives the vertical scroll register.
pub const Y_SCROLL_INITIAL: u8 = 0b1001_1011;

/// The sixteen colours of the chip, as 24-bit red-green-blue values.
pub open spec fn standard_palette() -> Seq<u32> {
    seq![
        0x000000u32,
        0xffffffu32,
        0x68372bu32,
        0x70a4b2u32,
        0x6f3d86u32,
        0x588d43u32,
        0x352879u32,
        0xb8c76fu32,
        0x6f4f25u32,
        0x433900u32,
        0x9a6759u32,
        0x444444u32,
        0x6c6c6cu32,
        0x9ad284u32,
        0x6c5eb5u32,
        0x959595u32,
    ]
}

/// Byte `place` of a colour value, counted from the low end: 0 is blue, 1
/// is green, 2 is red.
pub open spec fn channel(color: u32, place: nat) -> u8 {
    if place == 0 {
        (color % 256) as u8
    } else if place == 1 {
        (color / 0x100 % 256) as u8
    } else {
        (color / 0x10000 % 256) as u8
    }
}

/// What a read through the register window yields: the register inside the
/// window, a failure outside it.
pub open spec fn window_read<M: IOVic>(mem: M, addr: u16) -> Result<u8, OutOfRange> {
    if in_vic_window(addr) {
        Ok(mem.vic_register(addr))
    } else {
        Err(OutOfRange(addr))
    }
}

/// What [`Vic::read_register`] yields for `address`.
///
/// For a sprite position register the window is read at the sprite's
/// number, or at the number after it for a Y position; no such number lies
/// inside the window, so the read fails and reports the number. For the
/// vertical scroll register bit 7 is masked out. Every other address is
/// read through the window as it is.
pub open spec fn register_value<M: IOVic>(mem: M, address: u16) -> Result<u8, OutOfRange> {
    if SPRITE_LOC_PTR <= address <= SPRITE_LOC_LAST {
        let sprite = ((address - SPRITE_LOC_PTR) / 2) as u16;
        if address % 2 == 0 {
            window_read(mem, sprite)
        } else {
            window_read(mem, (sprite + 1) as u16)
        }
    } else if address == Y_SCROLL {
        Ok(mem.vic_register(address) & 0x7F)
    } else {
        window_read(mem, address)
    }
}

/// The video chip.
pub struct Vic {
    /// The colour of each of the sixteen palette entries.
    pub palette: [u32; 16],
}

impl Vic {
    /// A chip whose palette is all black.
    pub fn new() -> (r: Self)
        ensures
            r.palette@ =~= Seq::new(16, |i: int| 0u32),
    {
        Vic { palette: [0u32;16] }
    }

    /// Fills the palette with the standard colours and gives the two scroll
    /// registers their initial values.
    pub fn init<M: IOVic>(&mut self, mem: &mut M)
        ensures
            final(self).palette@ == standard_palette(),
            *final(mem) == old(mem).with_vic_register(X_SCROLL, X_SCROLL_INITIAL).with_vic_register(
                Y_SCROLL,
                Y_SCROLL_INITIAL,
            ),
    {
        let colors: [u32; 16] = [
            0x000000,
            0xffffff,
            0x68372b,
            0x70a4b2,
            0x6f3d86,
            0x588d43,
            0x352879,
            0xb8c76f,
            0x6f4f25,
            0x433900,
            0x9a6759,
            0x444444,
            0x6c6c6c,
            0x9ad284,
            0x6c5eb5,
            0x959595,
        ];
        let mut n: usize = 0;
        while n < 16
            invariant
                n <= 16,
                colors@ =~= standard_palette(),
                forall|i: int| 0 <= i < n ==> self.palette[i] == colors[i],
            decreases 16 - n,
        {
            self.palette[n] = colors[n];
            n = n + 1;
        }
        assert(self.palette@ =~= standard_palette());
        let _ = mem.write(X_SCROLL, X_SCROLL_INITIAL);
        let _ = mem.write(Y_SCROLL, Y_SCROLL_INITIAL);
    }

    /// The red channel of palette entry `index`, the green channel of the
    /// entry after it and the blue channel of the entry after that. All
    /// three entries must exist.
    pub fn get_rgb(&self, index: u8) -> (r: (u8, u8, u8))
        requires
            index <= 13,
        ensures
            r == (
                channel(self.palette[index as int], 2),
                channel(self.palette[index + 1], 1),
                channel(self.palette[index + 2], 0),
            ),
    {
        let red: u32 = self.palette[index as usize];
        let green: u32 = self.palette[index as usize + 1];
        let blue: u32 = self.palette[index as usize + 2];
        assert((red >> 16) & 0xff == red / 0x10000 % 256 && (green >> 8) & 0xff == green / 0x100
            % 256 && blue & 0xff == blue % 256) by (bit_vector);
        (((red >> 16) & 0xff) as u8, ((green >> 8) & 0xff) as u8, (blue & 0xff) as u8)
    }

    /// Reads the chip register at `address` through the register window.
    pub fn read_register<M: IOVic>(&self, mem: &M, address: u16) -> (r: Result<u8, OutOfRange>)
        ensures
            r == register_value(*mem, address),
    {
        if SPRITE_LOC_PTR <= address && address <= SPRITE_LOC_LAST {
            let index: u16 = (address & 0x000F) >> 1;
            assert((address & 0x000F) >> 1 == (address - 0xD000) / 2) by (bit_vector)
                requires
                    0xD000 <= address <= 0xD00F,
            ;
            if address % 2 == 0 {
                mem.read(index)
            } else {
                mem.read(index + 1)
            }
        } else if address == Y_SCROLL {
            match mem.read(address) {
                Ok(value) => Ok(value & 0x7F),
                Err(e) => Err(e),
            }
        } else {
            mem.read(address)
        }
    }
}

} // verus!
