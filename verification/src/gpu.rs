//! The PPU's modes, the LCD control bits, and the sprites (objects) of the OAM.
use crate::registers::{bit_set, lemma_write_bit};
use vstd::prelude::*;

verus! {

/// The four PPU modes: 0 horizontal blank, 1 vertical blank, 2 OAM scan, 3 drawing.
#[derive(Copy, Clone, PartialEq, Eq, Structural)]
pub enum Mode {
    Zero,
    One,
    Two,
    Three,
}

impl Mode {
    /// The mode number that the STAT register reports.
    pub open spec fn spec_number(self) -> u8 {
        match self {
            Mode::Zero => 0,
            Mode::One => 1,
            Mode::Two => 2,
            Mode::Three => 3,
        }
    }

    /// The mode number that the STAT register reports.
    #[verifier::when_used_as_spec(spec_number)]
    pub fn number(self) -> (r: u8)
        ensures
            r == self.spec_number(),
    {
        match self {
            Mode::Zero => 0,
            Mode::One => 1,
            Mode::Two => 2,
            Mode::Three => 3,
        }
    }
}

/// The bits of the LCD control register (0xFF40).
#[derive(Copy, Clone, PartialEq, Eq, Structural)]
pub enum LcdStatusFlag {
    LcdEnabled,
    WindowTileMapArea,
    WindowEnabled,
    TileDataArea,
    BGTileMapArea,
    ObjectSize,
    ObjectEnabled,
    BgWindowEnabled,
}

impl LcdStatusFlag {
    /// The bit number of the flag in the LCD control register.
    pub open spec fn spec_bit(self) -> u8 {
        match self {
            LcdStatusFlag::LcdEnabled => 7,
            LcdStatusFlag::WindowTileMapArea => 6,
            LcdStatusFlag::WindowEnabled => 5,
            LcdStatusFlag::TileDataArea => 4,
            LcdStatusFlag::BGTileMapArea => 3,
            LcdStatusFlag::ObjectSize => 2,
            LcdStatusFlag::ObjectEnabled => 1,
            LcdStatusFlag::BgWindowEnabled => 0,
        }
    }

    /// The flag's mask in the LCD control register.
    pub fn mask(self) -> (r: u8)
        ensures
            r == 1u8 << self.spec_bit(),
    {
        match self {
            LcdStatusFlag::LcdEnabled => 1 << 7,
            LcdStatusFlag::WindowTileMapArea => 1 << 6,
            LcdStatusFlag::WindowEnabled => 1 << 5,
            LcdStatusFlag::TileDataArea => 1 << 4,
            LcdStatusFlag::BGTileMapArea => 1 << 3,
            LcdStatusFlag::ObjectSize => 1 << 2,
            LcdStatusFlag::ObjectEnabled => 1 << 1,
            LcdStatusFlag::BgWindowEnabled => 1 << 0,
        }
    }

    /// Is this flag set in the control register value `control`?
    pub fn is_set_in(self, control: u8) -> (r: bool)
        ensures
            r == bit_set(control, self.spec_bit()),
    {
        let m = self.mask();
        proof {
            lemma_write_bit(control, self.spec_bit(), true, 0);
        }
        control & m > 0
    }
}

/// An object (sprite) of the OAM.
#[derive(Debug)]
pub struct Tile {
    pub y: u8,
    pub x: u8,
    pub tile_index: u8,
    /// 7 - Priority: 0 = No, 1 = BG and Window colors 1–3 are drawn over this OBJ
    /// 6 - Y flip: 0 = Normal, 1 = Entire OBJ is vertically mirrored
    /// 5 - X flip: 0 = Normal, 1 = Entire OBJ is horizontally mirrored
    /// 4- DMG palette [Non CGB Mode only]: 0 = OBP0, 1 = OBP1
    pub flags: u8,
}

/// Does an object at `y` (screen row + 16) of height 8, or 16 when `double_size`, cover `scanline`?
pub open spec fn covers_scanline(y: u8, scanline: u8, double_size: bool) -> bool {
    let size: int = if double_size { 16 } else { 8 };
    y - 16 <= scanline < y - 16 + size
}

impl Tile {
    /// Is the object drawn on `scanline`?
    pub fn object_in_scanline(&self, scanline: u8, double_size: bool) -> (r: bool)
        ensures
            r == covers_scanline(self.y, scanline, double_size),
    {
        let size: i16 = if !double_size { 8 } else { 16 };
        let y = self.y as i16;
        let scan = scanline as i16;
        if scan < y - 16 + size && scan >= y - 16 {
            return true;
        }
        false
    }

    /// Is the object mirrored horizontally (flag bit 5)?
    pub fn is_x_flipped(&self) -> (r: bool)
        ensures
            r == bit_set(self.flags, 5),
    {
        proof {
            lemma_write_bit(self.flags, 5, true, 0);
        }
        self.flags & (1u8 << 5u8) > 0
    }

    /// Is the object mirrored vertically (flag bit 6)?
    pub fn is_y_flipped(&self) -> (r: bool)
        ensures
            r == bit_set(self.flags, 6),
    {
        proof {
            lemma_write_bit(self.flags, 6, true, 0);
        }
        self.flags & (1u8 << 6u8) > 0
    }

    /// Is the object drawn over the background (flag bit 7 clear)?
    pub fn has_priority(&self) -> (r: bool)
        ensures
            r == !bit_set(self.flags, 7),
    {
        proof {
            lemma_write_bit(self.flags, 7, true, 0);
        }
        self.flags & (1u8 << 7u8) == 0
    }

    pub fn new(y: u8, x: u8, tile_index: u8, flags: u8) -> (r: Tile)
        ensures
            r == (Tile { y, x, tile_index, flags }),
    {
        Tile { y: y, x: x, tile_index: tile_index, flags: flags }
    }
}

} // verus!
