//! The LCD registers of the pixel processing unit (0xFF40-0xFF4B).
use crate::gameboy::memory_bus::MemoryAccessor;
use crate::registers::{bit_set, lemma_bit_masks, lemma_write_bit};
use vstd::prelude::*;

verus! {

/// The bits of the LCD control register (0xFF40).
#[derive(Copy, Clone, PartialEq, Eq, Structural)]
pub enum LcdStatusFlag {
    LcdEnabled,
    WindowTileMapArea,
    WindowEnabled,
    TileDataArea,
    BGTileMapArea,
    ObjectSize,
    ObjectEnabled,
    BgWindowEnabled,  // This is in DMG or CGB-compat
}

impl LcdStatusFlag {
    /// The bit number of the flag in the LCD control register.
    pub open spec fn spec_bit(self) -> u8 {
        match self {
            LcdStatusFlag::LcdEnabled => 7,
            LcdStatusFlag::WindowTileMapArea => 6,
            LcdStatusFlag::WindowEnabled => 5,
            LcdStatusFlag::TileDataArea => 4,
            LcdStatusFlag::BGTileMapArea => 3,
            LcdStatusFlag::ObjectSize => 2,
            LcdStatusFlag::ObjectEnabled => 1,
            LcdStatusFlag::BgWindowEnabled => 0,
        }
    }

    /// The flag's mask in the LCD control register.
    fn to_byte(self) -> (r: u8)
        ensures
            r == 1u8 << self.spec_bit(),
    {
        proof {
            lemma_bit_masks();
        }
        match self {
            LcdStatusFlag::LcdEnabled => 0x80,
            LcdStatusFlag::WindowTileMapArea => 0x40,
            LcdStatusFlag::WindowEnabled => 0x20,
            LcdStatusFlag::TileDataArea => 0x10,
            LcdStatusFlag::BGTileMapArea => 0x08,
            LcdStatusFlag::ObjectSize => 0x04,
            LcdStatusFlag::ObjectEnabled => 0x02,
            LcdStatusFlag::BgWindowEnabled => 0x01,
        }
    }
}

/// The four PPU modes: 0 horizontal blank, 1 vertical blank, 2 OAM scan, 3 drawing.
#[derive(Copy, Clone, PartialEq, Eq, Structural)]
pub enum Mode {
    Zero,
    One,
    Two,
    Three,
}

impl Mode {
    /// The mode number that the STAT register reports.
    pub open spec fn spec_number(self) -> u8 {
        match self {
            Mode::Zero => 0,
            Mode::One => 1,
            Mode::Two => 2,
            Mode::Three => 3,
        }
    }

    /// The mode number that the STAT register reports.
    #[verifier::when_used_as_spec(spec_number)]
    pub fn number(self) -> (r: u8)
        ensures
            r == self.spec_number(),
    {
        match self {
            Mode::Zero => 0,
            Mode::One => 1,
            Mode::Two => 2,
            Mode::Three => 3,
        }
    }
}

pub struct Processor {
    /// ff40
    ///
    /// 7 - LCD & PPU enable: 0 = Off; 1 = On
    ///
    /// 6 - Window tile map area: 0 = 9800–9BFF; 1 = 9C00–9FFF
    ///
    /// 5 - Window enable: 0 = Off; 1 = On
    ///
    /// 4 - BG & Window tile data area: 0 = 8800–97FF; 1 = 8000–8FFF
    ///
    /// 3 - BG tile map area: 0 = 9800–9BFF; 1 = 9C00–9FFF
    ///
    /// 2 - OBJ size: 0 = 8×8; 1 = 8×16
    ///
    /// 1 - OBJ enable: 0 = Off; 1 = On
    ///
    /// 0 - BG & Window enable / priority [Different meaning in CGB Mode]: 0 = Off; 1 = On
    pub lcd_control: u8,
    /// ff41
    ///
    /// 6 - LYC int select
    ///
    /// 5 - Mode 2 int select
    ///
    /// 4 - Mode 1 int select
    ///
    /// 3 - Mode 0 int select
    ///
    /// 2 - LYC == LY
    ///
    /// 0-1 - PPU mode
    pub lcd_status: u8,
    /// ff42
    pub scy: u8,
    /// ff43
    pub scx: u8,
    /// ff44
    pub ly: u8,
    /// ff45
    pub lyc: u8,
    /// ff46 DMA
    pub dma_last_value: u8,
    /// FF47
    pub bgp: u8,
    /// FF48
    pub obp0: u8,
    /// FF49
    pub obp1: u8,
    /// ff4a
    pub wy: u8,
    /// ff4b
    pub wx: u8,
    //Helpers
    pub win_y_counter: u8,
    pub gpu_mode: Mode,
    /// used when the LCD is disabled as a cache of the last known state of ly==lyc. This allows us
    /// to 'freeze' that value until the ppu is enabled again
    pub frozen_compare_bit: bool,
    /// used so that we only trigger the lyc==ly STAT interrupt right after one of the two changed
    /// state. It is set to true right after we update either value, then resets after we (potentially)
    /// raise the interrupt
    pub lyc_or_ly_recently_changed: bool,
}

/// Every register and helper of the processor as a plain value.
pub struct ProcessorView {
    pub lcd_control: u8,
    pub lcd_status: u8,
    pub scy: u8,
    pub scx: u8,
    pub ly: u8,
    pub lyc: u8,
    pub dma_last_value: u8,
    pub bgp: u8,
    pub obp0: u8,
    pub obp1: u8,
    pub wy: u8,
    pub wx: u8,
    pub win_y_counter: u8,
    pub gpu_mode: Mode,
    pub frozen_compare_bit: bool,
    pub lyc_or_ly_recently_changed: bool,
}

impl View for Processor {
    type V = ProcessorView;

    open spec fn view(&self) -> ProcessorView {
        ProcessorView {
            lcd_control: self.lcd_control,
            lcd_status: self.lcd_status,
            scy: self.scy,
            scx: self.scx,
            ly: self.ly,
            lyc: self.lyc,
            dma_last_value: self.dma_last_value,
            bgp: self.bgp,
            obp0: self.obp0,
            obp1: self.obp1,
            wy: self.wy,
            wx: self.wx,
            win_y_counter: self.win_y_counter,
            gpu_mode: self.gpu_mode,
            frozen_compare_bit: self.frozen_compare_bit,
            lyc_or_ly_recently_changed: self.lyc_or_ly_recently_changed,
        }
    }
}

impl ProcessorView {
    /// Is `flag` set in the LCD control register?
    pub open spec fn has(self, flag: LcdStatusFlag) -> bool {
        bit_set(self.lcd_control, flag.spec_bit())
    }

    /// The STAT register as read: bit 7 always set, the stored select bits,
    /// the LY == LYC bit (frozen while the LCD is off) and the mode (0 while off).
    pub open spec fn stat(self) -> u8 {
        let on = self.has(LcdStatusFlag::LcdEnabled);
        let compare = if on {
            self.ly == self.lyc
        } else {
            self.frozen_compare_bit
        };
        0x80 | self.lcd_status | (if compare {
            4u8
        } else {
            0u8
        }) | (if on {
            self.gpu_mode.spec_number()
        } else {
            0u8
        })
    }

    /// The first byte of the background/window tile data: 0x8000 or 0x8800.
    pub open spec fn tile_data_baseline(self) -> usize {
        if self.has(LcdStatusFlag::TileDataArea) {
            0x8000
        } else {
            0x8800
        }
    }

    /// The tile map used inside or outside the window: 0x9800 or 0x9C00.
    pub open spec fn tile_map(self, in_window: bool) -> usize {
        if (!in_window && self.has(LcdStatusFlag::BGTileMapArea)) || (in_window && self.has(
            LcdStatusFlag::WindowTileMapArea,
        )) {
            0x9c00
        } else {
            0x9800
        }
    }

    /// Is the LY == LYC STAT interrupt due: selected, LY equal to LYC, and one
    /// of them changed since?
    pub open spec fn lyc_interrupt(self) -> bool {
        bit_set(self.lcd_status, 6) && self.ly == self.lyc && self.lyc_or_ly_recently_changed
    }

    /// The byte a read of register `location` gives; 0xFF46 gives the last byte written there.
    pub open spec fn register(self, location: usize) -> u8 {
        let v = self;
        if location == 0xff40 {
            v.lcd_control
        } else if location == 0xff41 {
            v.stat()
        } else if location == 0xff42 {
            v.scy
        } else if location == 0xff43 {
            v.scx
        } else if location == 0xff44 {
            v.ly
        } else if location == 0xff45 {
            v.lyc
        } else if location == 0xff46 {
            v.dma_last_value
        } else if location == 0xff47 {
            v.bgp
        } else if location == 0xff48 {
            v.obp0
        } else if location == 0xff49 {
            v.obp1
        } else if location == 0xff4a {
            v.wy
        } else {
            v.wx
        }
    }

    /// Turning the LCD off freezes the LY == LYC bit and resets LY; turning it
    /// on starts mode 2. STAT keeps its three low bits clear; a write to LYC
    /// records whether it changed. The other registers take the byte.
    pub open spec fn written(self, location: usize, value: u8) -> ProcessorView {
        let v = self;
        if location == 0xff40 {
            let off = !bit_set(value, 7) && bit_set(v.lcd_control, 7);
            let on = bit_set(value, 7) && !bit_set(v.lcd_control, 7);
            ProcessorView {
                lcd_control: value,
                frozen_compare_bit: if off {
                    v.ly == v.lyc
                } else {
                    v.frozen_compare_bit
                },
                ly: if off {
                    0
                } else {
                    v.ly
                },
                gpu_mode: if on {
                    Mode::Two
                } else {
                    v.gpu_mode
                },
                ..v
            }
        } else if location == 0xff41 {
            ProcessorView { lcd_status: value & 0xf8, ..v }
        } else if location == 0xff42 {
            ProcessorView { scy: value, ..v }
        } else if location == 0xff43 {
            ProcessorView { scx: value, ..v }
        } else if location == 0xff45 {
            ProcessorView { lyc: value, lyc_or_ly_recently_changed: v.lyc != value, ..v }
        } else if location == 0xff46 {
            ProcessorView { dma_last_value: value, ..v }
        } else if location == 0xff47 {
            ProcessorView { bgp: value, ..v }
        } else if location == 0xff48 {
            ProcessorView { obp0: value, ..v }
        } else if location == 0xff49 {
            ProcessorView { obp1: value, ..v }
        } else if location == 0xff4a {
            ProcessorView { wy: value, ..v }
        } else {
            ProcessorView { wx: value, ..v }
        }
    }

    /// Is the STAT interrupt of the current mode selected?
    pub open spec fn mode_interrupt(self) -> bool {
        (bit_set(self.lcd_status, 5) && self.gpu_mode == Mode::Two) || (bit_set(self.lcd_status, 4)
            && self.gpu_mode == Mode::One) || (bit_set(self.lcd_status, 3) && self.gpu_mode
            == Mode::Zero)
    }
}

impl MemoryAccessor for Processor {
    /// 0xFF40-0xFF4B; 0xFF46 gives the last byte written there.
    open spec fn readable(&self, location: usize) -> bool {
        0xff40 <= location <= 0xff4b
    }

    open spec fn read_value(&self, location: usize) -> u8 {
        self@.register(location)
    }

    /// Every register but LY (0xFF44) can be written.
    open spec fn writable(&self, location: usize, value: u8) -> bool {
        0xff40 <= location <= 0xff4b && location != 0xff44
    }

    open spec fn after_write(&self, post: Self, location: usize, value: u8) -> bool {
        post@ == self@.written(location, value)
    }

    fn get(&self, location: usize) -> (r: u8) {
        if location == 0xff40 {
            self.lcd_control
        } else if location == 0xff41 {
            let compare_bit: u8 = if self.lcd_enabled() {
                if self.ly == self.lyc { 4 } else { 0 }
            } else {
                if self.frozen_compare_bit { 4 } else { 0 }
            };
            let ppu_mode = if self.lcd_enabled() {
                self.gpu_mode.number()
            } else {
                0
            };
            0x80 | self.lcd_status | compare_bit | ppu_mode
        } else if location == 0xff42 {
            self.scy
        } else if location == 0xff43 {
            self.scx
        } else if location == 0xff44 {
            self.ly
        } else if location == 0xff45 {
            self.lyc
        } else if location == 0xff46 {
            self.dma_last_value  // Write Only
        } else if location == 0xff47 {
            self.bgp
        } else if location == 0xff48 {
            self.obp0
        } else if location == 0xff49 {
            self.obp1
        } else if location == 0xff4a {
            self.wy
        } else {
            self.wx
        }
    }

    fn write(&mut self, location: usize, value: u8) {
        if location == 0xff40 {
            let enabled = LcdStatusFlag::LcdEnabled.to_byte();
            proof {
                lemma_write_bit(value, 7, true, 0);
                lemma_write_bit(self.lcd_control, 7, true, 0);
            }
            if (value & enabled == 0) && (self.lcd_control & enabled != 0) {
                // the comparison bit is frozen when the LCD is disabled since the comparator is
                // not running.
                self.frozen_compare_bit = self.ly == self.lyc;
                self.ly = 0;
            } else if (value & enabled != 0) && (self.lcd_control & enabled == 0) {
                // When re-enabling the LCD, the PPU will immediately start drawing again,
                // but the screen will stay blank during the first frame
                self.gpu_mode = Mode::Two;
            }
            self.lcd_control = value;
        } else if location == 0xff41 {
            assert(!0b111u8 == 0xf8u8) by (bit_vector);
            self.lcd_status = value & !0b111;
        } else if location == 0xff42 {
            self.scy = value;
        } else if location == 0xff43 {
            self.scx = value;
        } else if location == 0xff45 {
            self.lyc_or_ly_recently_changed = self.lyc != value;
            self.lyc = value;
        } else if location == 0xff46 {
            self.dma_last_value = value;  // This executes more
        } else if location == 0xff47 {
            self.bgp = value;
        } else if location == 0xff48 {
            self.obp0 = value;
        } else if location == 0xff49 {
            self.obp1 = value;
        } else if location == 0xff4a {
            self.wy = value;
        } else {
            self.wx = value;
        }
    }
}

impl Processor {
    pub fn is_object_double_size(&self) -> (r: bool)
        ensures
            r == self@.has(LcdStatusFlag::ObjectSize),
    {
        self.has_lcd_flag(LcdStatusFlag::ObjectSize)
    }

    pub fn is_object_enabled(&self) -> (r: bool)
        ensures
            r == self@.has(LcdStatusFlag::ObjectEnabled),
    {
        self.has_lcd_flag(LcdStatusFlag::ObjectEnabled)
    }

    pub fn is_bg_window_enabled(&self) -> (r: bool)
        ensures
            r == self@.has(LcdStatusFlag::BgWindowEnabled),
    {
        self.has_lcd_flag(LcdStatusFlag::BgWindowEnabled)
    }

    pub fn is_window_enabled(&self) -> (r: bool)
        ensures
            r == self@.has(LcdStatusFlag::WindowEnabled),
    {
        self.has_lcd_flag(LcdStatusFlag::WindowEnabled)
    }

    pub fn lcd_enabled(&self) -> (r: bool)
        ensures
            r == self@.has(LcdStatusFlag::LcdEnabled),
    {
        self.has_lcd_flag(LcdStatusFlag::LcdEnabled)
    }

    fn has_lcd_flag(&self, flag: LcdStatusFlag) -> (r: bool)
        ensures
            r == self@.has(flag),
    {
        let m = flag.to_byte();
        proof {
            lemma_write_bit(self.lcd_control, flag.spec_bit(), true, 0);
        }
        self.lcd_control & m > 0
    }

    /// For window/background only
    pub fn get_tile_data_baseline(&self) -> (r: usize)
        ensures
            r == self@.tile_data_baseline(),
    {
        if self.has_lcd_flag(LcdStatusFlag::TileDataArea) {
            0x8000
        } else {
            0x8800
        }
    }

    pub fn get_tile_map(&self, in_window: bool) -> (r: usize)
        ensures
            r == self@.tile_map(in_window),
    {
        let mut tilemap = 0x9800;
        // When LCDC.3 is enabled and the X coordinate of the current scanline is not inside the window then tilemap $9C00 is used.
        if !in_window && self.has_lcd_flag(LcdStatusFlag::BGTileMapArea) {
            tilemap = 0x9c00;
        }
        // When LCDC.6 is enabled and the X coordinate of the current scanline is inside the window then tilemap $9C00 is used.
        if in_window && self.has_lcd_flag(LcdStatusFlag::WindowTileMapArea) {
            tilemap = 0x9c00;
        }
        tilemap
    }

    pub fn should_trigger_lyc_stat_interrupt(&self) -> (r: bool)
        ensures
            r == self@.lyc_interrupt(),
    {
        proof {
            lemma_bit_masks();
            lemma_write_bit(self.lcd_status, 6, true, 0);
        }
        let equals = self.lcd_status & 0x40 > 0 && self.ly == self.lyc;
        // This should only trigger when the state changed, not every time the condition matches
        equals && self.lyc_or_ly_recently_changed
    }

    pub fn should_trigger_mode_stat_interrupt(&self) -> (r: bool)
        ensures
            r == self@.mode_interrupt(),
    {
        proof {
            lemma_bit_masks();
            lemma_write_bit(self.lcd_status, 5, true, 0);
            lemma_write_bit(self.lcd_status, 4, true, 0);
            lemma_write_bit(self.lcd_status, 3, true, 0);
        }
        if self.lcd_status & 0x20 > 0 && self.gpu_mode == Mode::Two {
            return true;
        }
        if self.lcd_status & 0x10 > 0 && self.gpu_mode == Mode::One {
            return true;
        }
        if self.lcd_status & 0x08 > 0 && self.gpu_mode == Mode::Zero {
            return true;
        }
        false
    }

    /// The registers as the boot ROM leaves them; the first frame starts in mode 2.
    pub fn new() -> (r: Self)
        ensures
            r@ == boot_view(),
    {
        Processor {
            lcd_control: 0x91,
            lcd_status: 0x80,  // Becomes 86 due to ly=lyc & gpu_mode = Two
            scy: 0,
            scx: 0,
            ly: 0,
            lyc: 0,
            wy: 0,
            wx: 0,
            bgp: 0xfc,
            obp0: 0xff,
            obp1: 0xff,
            dma_last_value: 0xff,
            win_y_counter: 0,
            gpu_mode: Mode::Two,  // First frame is empty
            frozen_compare_bit: true,
            lyc_or_ly_recently_changed: false,
        }
    }
}

/// The registers as the boot ROM leaves them.
pub open spec fn boot_view() -> ProcessorView {
    ProcessorView {
        lcd_control: 0x91,
        lcd_status: 0x80,
        scy: 0,
        scx: 0,
        ly: 0,
        lyc: 0,
        wy: 0,
        wx: 0,
        bgp: 0xfc,
        obp0: 0xff,
        obp1: 0xff,
        dma_last_value: 0xff,
        win_y_counter: 0,
        gpu_mode: Mode::Two,
        frozen_compare_bit: true,
        lyc_or_ly_recently_changed: false,
    }
}

} // verus!
