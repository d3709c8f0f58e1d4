//! The I/O registers at 0xFF00-0xFF7F: serial port, timer, LCD and a few sound registers.
use crate::gpu::LcdStatusFlag;
use crate::registers::bit_set;
use vstd::prelude::*;

verus! {

pub struct IORegisters {
    pub interrupt_flag: u8,
    /// ff01
    serial_transfer_data: u8,
    /// ff02
    serial_transfer_control: u8,
    /// FF04
    div: u8,
    /// FF05
    tima: u8,
    /// FF06
    tma: u8,
    /// FF07
    tac: u8,
    /// FF26
    audio_master: u8,
    /// ff40
    ///
    /// 7 - LCD & PPU enable: 0 = Off; 1 = On
    ///
    /// 6 - Window tile map area: 0 = 9800–9BFF; 1 = 9C00–9FFF
    ///
    /// 5 - Window enable: 0 = Off; 1 = On
    ///
    /// 4 - BG & Window tile data area: 0 = 8800–97FF; 1 = 8000–8FFF
    ///
    /// 3 - BG tile map area: 0 = 9800–9BFF; 1 = 9C00–9FFF
    ///
    /// 2 - OBJ size: 0 = 8×8; 1 = 8×16
    ///
    /// 1 - OBJ enable: 0 = Off; 1 = On
    ///
    /// 0 - BG & Window enable / priority [Different meaning in CGB Mode]: 0 = Off; 1 = On
    pub lcd_control: u8,
    /// ff41
    ///
    /// 6 - LYC int select
    ///
    /// 5 - Mode 2 int select
    ///
    /// 4 - Mode 1 int select
    ///
    /// 3 - Mode 0 int select
    ///
    /// 2 - LYC == LY
    ///
    /// 0-1 - PPU mode
    pub lcd_status: u8,
    /// ff42
    pub scy: u8,
    /// ff43
    pub scx: u8,
    /// ff44
    pub ly: u8,
    /// ff45
    lyc: u8,
    /// FF47
    pub bgp: u8,
    /// FF48
    pub obp0: u8,
    /// FF49
    obp1: u8,
    /// ff4a
    pub wy: u8,
    /// ff4b
    pub wx: u8,
}

/// The registers that a read can reach.
pub open spec fn io_readable(location: usize) -> bool {
    location == 0xff01 || location == 0xff02 || 0xff04 <= location <= 0xff07 || 0xff40
        <= location <= 0xff44 || 0xff47 <= location <= 0xff4b || location == 0xff0f || location
        == 0xff26 || 0xff10 <= location <= 0xff25
}

/// The registers that a write can reach (the scanline register LY is read-only).
pub open spec fn io_writable(location: usize) -> bool {
    location == 0xff01 || location == 0xff02 || 0xff04 <= location <= 0xff07 || 0xff40
        <= location <= 0xff43 || 0xff47 <= location <= 0xff4b || location == 0xff0f || location
        == 0xff4d || location == 0xff26 || 0xff10 <= location <= 0xff25 || 0xff30 <= location
        <= 0xff3f
}

/// The registers that store what is written to them and give it back.
pub open spec fn io_stored(location: usize) -> bool {
    location == 0xff01 || location == 0xff02 || 0xff04 <= location <= 0xff07 || 0xff40
        <= location <= 0xff43 || 0xff47 <= location <= 0xff4b || location == 0xff0f || location
        == 0xff26
}

impl IORegisters {
    /// The value a read of `location` gives.
    pub closed spec fn read_value(&self, location: usize) -> u8 {
        if location == 0xff01 {
            self.serial_transfer_data
        } else if location == 0xff02 {
            self.serial_transfer_control
        } else if location == 0xff04 {
            self.div
        } else if location == 0xff05 {
            self.tima
        } else if location == 0xff06 {
            self.tma
        } else if location == 0xff07 {
            self.tac
        } else if location == 0xff40 {
            self.lcd_control
        } else if location == 0xff41 {
            self.lcd_status
        } else if location == 0xff42 {
            self.scy
        } else if location == 0xff43 {
            self.scx
        } else if location == 0xff44 {
            self.ly
        } else if location == 0xff47 {
            self.bgp
        } else if location == 0xff48 {
            self.obp0
        } else if location == 0xff49 {
            self.obp1
        } else if location == 0xff4a {
            self.wy
        } else if location == 0xff4b {
            self.wx
        } else if location == 0xff0f {
            self.interrupt_flag
        } else if location == 0xff26 {
            self.audio_master
        } else {
            0
        }
    }

    /// Is `post` these registers after `value` is written to `location`?
    ///
    /// The register at `location` takes `value`; writes to 0xFF4D, 0xFF10-0xFF25
    /// and the wave RAM are ignored.
    pub closed spec fn after_write(&self, post: Self, location: usize, value: u8) -> bool {
        post == (if location == 0xff01 {
            IORegisters { serial_transfer_data: value, ..*self }
        } else if location == 0xff02 {
            IORegisters { serial_transfer_control: value, ..*self }
        } else if location == 0xff04 {
            IORegisters { div: value, ..*self }
        } else if location == 0xff05 {
            IORegisters { tima: value, ..*self }
        } else if location == 0xff06 {
            IORegisters { tma: value, ..*self }
        } else if location == 0xff07 {
            IORegisters { tac: value, ..*self }
        } else if location == 0xff40 {
            IORegisters { lcd_control: value, ..*self }
        } else if location == 0xff41 {
            IORegisters { lcd_status: value, ..*self }
        } else if location == 0xff42 {
            IORegisters { scy: value, ..*self }
        } else if location == 0xff43 {
            IORegisters { scx: value, ..*self }
        } else if location == 0xff47 {
            IORegisters { bgp: value, ..*self }
        } else if location == 0xff48 {
            IORegisters { obp0: value, ..*self }
        } else if location == 0xff49 {
            IORegisters { obp1: value, ..*self }
        } else if location == 0xff4a {
            IORegisters { wy: value, ..*self }
        } else if location == 0xff4b {
            IORegisters { wx: value, ..*self }
        } else if location == 0xff0f {
            IORegisters { interrupt_flag: value, ..*self }
        } else if location == 0xff26 {
            IORegisters { audio_master: value, ..*self }
        } else {
            *self
        })
    }

    pub fn get(&self, location: usize) -> (r: u8)
        requires
            io_readable(location),
        ensures
            r == self.read_value(location),
    {
        match location {
            0xff01 => self.serial_transfer_data,
            0xff02 => self.serial_transfer_control,
            0xFF04 => self.div,
            0xFF05 => self.tima,
            0xFF06 => self.tma,
            0xFF07 => self.tac,
            0xff40 => self.lcd_control,
            0xff41 => self.lcd_status,
            0xff42 => self.scy,
            0xff43 => self.scx,
            0xff44 => self.ly,
            0xff47 => self.bgp,
            0xff48 => self.obp0,
            0xff49 => self.obp1,
            0xff4a => self.wy,
            0xff4b => self.wx,
            0xff0f => self.interrupt_flag,
            0xff26 => self.audio_master,
            _ => 0,  // 0xFF10-0xFF25: the sound registers read as 0
        }
    }

    pub fn write(&mut self, location: usize, value: u8)
        requires
            io_writable(location),
        ensures
            old(self).after_write(*final(self), location, value),
    {
        match location {
            0xff01 => self.serial_transfer_data = value,
            0xff02 => self.serial_transfer_control = value,
            0xFF04 => self.div = value,
            0xFF05 => self.tima = value,
            0xFF06 => self.tma = value,
            0xFF07 => self.tac = value,
            0xff40 => self.lcd_control = value,
            0xff41 => self.lcd_status = value,
            0xff42 => self.scy = value,
            0xff43 => self.scx = value,
            0xff47 => self.bgp = value,
            0xff48 => self.obp0 = value,
            0xff49 => self.obp1 = value,
            0xff4a => self.wy = value,
            0xff4b => self.wx = value,
            0xff0f => self.interrupt_flag = value,
            0xff26 => self.audio_master = value,
            _ => {},  // 0xFF4D, the sound registers and the wave RAM are ignored
        }
    }

    /// Requests the VBlank interrupt (bit 0 of IF).
    pub fn enable_video_interrupt(&mut self)
        ensures
            old(self).after_write(*final(self), 0xff0f, old(self).read_value(0xff0f) | 0x1),
    {
        self.interrupt_flag = self.interrupt_flag | 0x1;
    }

    /// Is the LCD on (bit 7 of LCDC)?
    pub fn lcd_enabled(&self) -> (r: bool)
        ensures
            r == bit_set(self.read_value(0xff40), 7),
    {
        LcdStatusFlag::LcdEnabled.is_set_in(self.lcd_control)
    }

    /// Is `flag` set in LCDC?
    pub fn has_lcd_flag(&self, flag: LcdStatusFlag) -> (r: bool)
        ensures
            r == bit_set(self.read_value(0xff40), flag.spec_bit()),
    {
        flag.is_set_in(self.lcd_control)
    }

    /// The registers after the boot ROM.
    pub closed spec fn default_spec() -> IORegisters {
        IORegisters {
            interrupt_flag: 0,
            lcd_control: 0x91,
            lcd_status: 0,
            scy: 0,
            scx: 0,
            ly: 0,
            lyc: 0,
            serial_transfer_data: 0,
            serial_transfer_control: 0,
            wy: 0,
            wx: 0,
            div: 0,
            tima: 0,
            tma: 0,
            tac: 0,
            bgp: 0xfc,
            obp0: 0xff,
            obp1: 0xff,
            audio_master: 0xf1,
        }
    }

    /// The registers after the boot ROM.
    pub fn default() -> (r: IORegisters)
        ensures
            r == IORegisters::default_spec(),
            r.read_value(0xff40) == 0x91,
            r.read_value(0xff41) == 0,
            r.read_value(0xff44) == 0,
            r.read_value(0xff47) == 0xfc,
            r.read_value(0xff48) == 0xff,
            r.read_value(0xff49) == 0xff,
            r.read_value(0xff26) == 0xf1,
            r.read_value(0xff0f) == 0,
            r.read_value(0xff04) == 0,
            r.read_value(0xff07) == 0,
            r.read_value(0xff01) == 0,
            r.read_value(0xff02) == 0,
            r.read_value(0xff05) == 0,
            r.read_value(0xff06) == 0,
            r.read_value(0xff42) == 0,
            r.read_value(0xff43) == 0,
            r.read_value(0xff4a) == 0,
            r.read_value(0xff4b) == 0,
    {
        IORegisters {
            interrupt_flag: 0,
            lcd_control: 0x91,
            lcd_status: 0,
            scy: 0,
            scx: 0,
            ly: 0,
            lyc: 0,
            serial_transfer_data: 0,
            serial_transfer_control: 0,
            wy: 0,
            wx: 0,
            div: 0,
            tima: 0,
            tma: 0,
            tac: 0,
            bgp: 0xfc,
            obp0: 0xff,
            obp1: 0xff,
            audio_master: 0xf1,
        }
    }
}

/// A write to a storing register is read back from it; every other
/// register reads as before.
pub proof fn io_read_after_write(r: IORegisters, post: IORegisters, location: usize, value: u8, other: usize)
    requires
        r.after_write(post, location, value),
    ensures
        io_stored(location) ==> post.read_value(location) == value,
        other != location ==> post.read_value(other) == r.read_value(other),
{
}

} // verus!
