//! The memory map: banked ROM, video RAM, work RAM, OAM, I/O registers and high RAM.
pub mod io_registers;

pub use io_registers::IORegisters;
use crate::gpu;
use io_registers::{io_readable, io_stored, io_writable};
use vstd::prelude::*;

verus! {

pub struct Memory {
    rom: Vec<u8>,
    rom_bank: u8,
    high_ram: Vec<u8>,
    work_ram: Vec<u8>,
    tile_data: Vec<u8>,
    tile_maps: Vec<u8>,
    /// OAM
    oam: Vec<u8>,
    /// I/O registers
    pub io_registers: IORegisters,
    pub interrupt_enable: u8,
    debug_counter: u8,
}

/// Is `location` in the ROM window (0x0000-0x7FFF)?
pub open spec fn in_rom(location: usize) -> bool {
    location <= 0x7fff
}

/// Is `location` in high RAM (0xFF80-0xFFFE)?
pub open spec fn in_high_ram(location: usize) -> bool {
    0xff80 <= location <= 0xfffe
}

/// Is `location` in work RAM (0xC000-0xDFFF)?
pub open spec fn in_work_ram(location: usize) -> bool {
    0xc000 <= location <= 0xdfff
}

/// Is `location` in the tile data (0x8000-0x97FF)?
pub open spec fn in_tile_data(location: usize) -> bool {
    0x8000 <= location <= 0x97ff
}

/// Is `location` in the tile maps (0x9800-0x9FFF)?
pub open spec fn in_tile_maps(location: usize) -> bool {
    0x9800 <= location <= 0x9fff
}

impl Memory {
    /// The RAM areas have their fixed sizes.
    pub closed spec fn wf(&self) -> bool {
        &&& self.high_ram@.len() == 0xfffe - 0xff80 + 1
        &&& self.work_ram@.len() == 0xdfff - 0xc000 + 1
        &&& self.tile_data@.len() == 0x97ff - 0x8000 + 1
        &&& self.tile_maps@.len() == 0x9fff - 0x9800 + 1
        &&& self.oam@.len() == 0xfe9f - 0xfe00 + 1
    }

    /// The ROM.
    pub closed spec fn rom(&self) -> Seq<u8> {
        self.rom@
    }

    /// The selected ROM bank for 0x4000-0x7FFF.
    pub closed spec fn rom_bank(&self) -> u8 {
        self.rom_bank
    }

    /// The I/O registers.
    pub closed spec fn io_registers(&self) -> IORegisters {
        self.io_registers
    }

    /// The object attribute memory.
    pub closed spec fn oam(&self) -> Seq<u8> {
        self.oam@
    }

    /// The tile data (0x8000-0x97FF).
    pub closed spec fn tile_data(&self) -> Seq<u8> {
        self.tile_data@
    }

    /// Index into the ROM of a read of `location` in the ROM window.
    pub open spec fn rom_index(&self, location: usize) -> int {
        if location <= 0x3fff {
            location as int
        } else {
            location - 0x4000 + self.rom_bank() * 0x4000
        }
    }

    /// Can `location` be read through `get_rom`?
    pub closed spec fn rom_readable(&self, location: usize) -> bool {
        &&& self.wf()
        &&& if in_rom(location) {
            self.rom_index(location) < self.rom@.len()
        } else {
            in_high_ram(location) || in_work_ram(location)
        }
    }

    /// Can `location` be read?
    pub closed spec fn readable(&self, location: usize) -> bool {
        &&& self.wf()
        &&& if in_rom(location) {
            self.rom_index(location) < self.rom@.len()
        } else {
            in_high_ram(location) || in_work_ram(location) || in_tile_data(location)
                || in_tile_maps(location) || (0xff00 <= location <= 0xff77 && io_readable(
                location,
            )) || location == 0xffff
        }
    }

    /// The byte a read of `location` gives.
    pub closed spec fn read_value(&self, location: usize) -> u8 {
        if in_rom(location) {
            self.rom@[self.rom_index(location)]
        } else if in_high_ram(location) {
            self.high_ram@[location - 0xff80]
        } else if in_work_ram(location) {
            self.work_ram@[location - 0xc000]
        } else if in_tile_data(location) {
            self.tile_data@[location - 0x8000]
        } else if in_tile_maps(location) {
            self.tile_maps@[location - 0x9800]
        } else if 0xff00 <= location <= 0xff77 {
            self.io_registers.read_value(location)
        } else {
            self.interrupt_enable
        }
    }

    /// Can a DMA transfer read its 0xA0 bytes from `value` * 0x100?
    pub closed spec fn dma_readable(&self, value: u8) -> bool {
        forall|i: int| 0 <= i < 0xa0 ==> #[trigger] self.readable((value * 256 + i) as usize)
    }

    /// Can `value` be written to `location`?
    pub closed spec fn writable(&self, location: usize, value: u8) -> bool {
        &&& self.wf()
        &&& (0x2000 <= location <= 0x3fff || in_work_ram(location) || (location == 0xff46
            && self.dma_readable(value)) || (0xff00 <= location <= 0xff7f && location != 0xff46
            && io_writable(location)) || in_high_ram(location) || location == 0xffff
            || in_tile_data(location) || in_tile_maps(location))
    }

    /// Is `post` the memory after `value` is written to `location`?
    ///
    /// 0x2000-0x3FFF selects ROM bank `value` & 0x1F (0 selects 1); 0xFF46
    /// copies 0xA0 bytes from `value` * 0x100 into the OAM; the RAM areas store
    /// the byte; 0xFF00-0xFF7F go to the I/O registers.
    pub closed spec fn after_write(&self, post: Self, location: usize, value: u8) -> bool {
        &&& post.wf()
        &&& post.rom@ == self.rom@
        &&& post.rom_bank == (if 0x2000 <= location <= 0x3fff {
            if value % 32 == 0 {
                1
            } else {
                value % 32
            }
        } else {
            self.rom_bank
        })
        &&& post.work_ram@ == (if in_work_ram(location) {
            self.work_ram@.update(location - 0xc000, value)
        } else {
            self.work_ram@
        })
        &&& post.high_ram@ == (if in_high_ram(location) {
            self.high_ram@.update(location - 0xff80, value)
        } else {
            self.high_ram@
        })
        &&& post.tile_data@ == (if in_tile_data(location) {
            self.tile_data@.update(location - 0x8000, value)
        } else {
            self.tile_data@
        })
        &&& post.tile_maps@ == (if in_tile_maps(location) {
            self.tile_maps@.update(location - 0x9800, value)
        } else {
            self.tile_maps@
        })
        &&& post.oam@ == (if location == 0xff46 {
            Seq::new(0xa0, |i: int| self.read_value((value * 256 + i) as usize))
        } else {
            self.oam@
        })
        &&& post.interrupt_enable == (if location == 0xffff {
            value
        } else {
            self.interrupt_enable
        })
        &&& if 0xff00 <= location <= 0xff7f && location != 0xff46 {
            self.io_registers.after_write(post.io_registers, location, value)
        } else {
            post.io_registers == self.io_registers
        }
        &&& post.debug_counter == self.debug_counter
    }

    pub fn get(&self, location: usize) -> (r: u8)
        requires
            self.readable(location),
        ensures
            r == self.read_value(location),
    {
        if location <= 0x7fff {
            self.get_rom(location)
        } else if location <= 0xfffe && location >= 0xff80 {
            self.high_ram[location - 0xff80]
        } else if location <= 0xdfff && location >= 0xc000 {
            self.work_ram[location - 0xc000]
        } else if location <= 0x97FF && location >= 0x8000 {
            self.tile_data[location - 0x8000]
        } else if location <= 0x9FFF && location >= 0x9800 {
            self.tile_maps[location - 0x9800]
        } else if location <= 0xff77 && location >= 0xff00 {
            self.io_registers.get(location)
        } else {
            self.interrupt_enable
        }
    }

    pub fn write(&mut self, location: usize, value: u8)
        requires
            old(self).writable(location, value),
        ensures
            old(self).after_write(*final(self), location, value),
    {
        if location <= 0x3fff && location >= 0x2000 {
            assert(value & 0b11111 == value % 32) by (bit_vector);
            self.rom_bank = value & 0b11111;
            if self.rom_bank == 0 {
                self.rom_bank = 1;
            }
        } else if location <= 0xdfff && location >= 0xc000 {
            // in CGB mode, the 2nd 4k are rotatable
            self.work_ram.set(location - 0xc000, value);
        } else if location == 0xff46 {
            let source = (value as u16) << 8u16;
            assert(source == value * 256) by (bit_vector)
                requires
                    source == (value as u16) << 8u16,
            ;
            let ghost pre = *self;
            let mut i: usize = 0;
            while i < 0xA0
                invariant
                    i <= 0xa0,
                    source == value * 256,
                    pre.dma_readable(value),
                    pre.wf(),
                    self.wf(),
                    self.rom@ == pre.rom@,
                    self.rom_bank == pre.rom_bank,
                    self.work_ram@ == pre.work_ram@,
                    self.high_ram@ == pre.high_ram@,
                    self.tile_data@ == pre.tile_data@,
                    self.tile_maps@ == pre.tile_maps@,
                    self.io_registers == pre.io_registers,
                    self.interrupt_enable == pre.interrupt_enable,
                    self.debug_counter == pre.debug_counter,
                    forall|j: int|
                        0 <= j < 0xa0 ==> #[trigger] self.oam@[j] == (if j < i {
                            pre.read_value((value * 256 + j) as usize)
                        } else {
                            pre.oam@[j]
                        }),
                decreases 0xa0 - i,
            {
                assert(pre.readable((value * 256 + i as int) as usize));
                let byte = self.get(source as usize + i);
                self.oam.set(i, byte);
                i = i + 1;
            }
            assert(self.oam@ =~= Seq::new(
                0xa0,
                |j: int| pre.read_value((value * 256 + j) as usize),
            ));
        } else if location <= 0xff7f && location >= 0xff00 {
            self.io_registers.write(location, value);
        } else if location <= 0xfffe && location >= 0xff80 {
            self.high_ram.set(location - 0xff80, value);
        } else if location == 0xffff {
            self.interrupt_enable = value;
        } else if location <= 0x97FF && location >= 0x8000 {
            self.tile_data.set(location - 0x8000, value);
        } else {
            self.tile_maps.set(location - 0x9800, value);
        }
    }

    /// Reads the ROM window (bank 0, then the selected bank), high RAM or work RAM.
    pub fn get_rom(&self, location: usize) -> (r: u8)
        requires
            self.rom_readable(location),
        ensures
            r == self.read_value(location),
    {
        if location <= 0x3fff {
            self.rom[location]
        } else if location <= 0x7fff && location >= 0x4000 {
            let relative_loc = location - 0x4000;
            let actual_loc = relative_loc + (self.rom_bank as usize) * 0x4000;
            self.rom[actual_loc]
        } else if location >= 0xff80 && location <= 0xfffe {
            self.high_ram[location - 0xff80]
        } else {
            self.work_ram[location - 0xc000]
        }
    }

    /// Reads 0xFF00 + `steps`.
    pub fn get_ffxx(&self, steps: usize) -> (r: u8)
        requires
            steps <= 0xff,
            self.readable((0xff00 + steps) as usize),
        ensures
            r == self.read_value((0xff00 + steps) as usize),
    {
        let location = 0xff00 + steps as usize;
        self.get(location)
    }

    /// Writes `value` to 0xFF00 + `steps`.
    pub fn write_ffxx(&mut self, steps: u8, value: u8)
        requires
            old(self).writable((0xff00 + steps) as usize, value),
        ensures
            old(self).after_write(*final(self), (0xff00 + steps) as usize, value),
    {
        let location = 0xff00 + steps as usize;
        self.write(location, value);
    }

    /// Dumps the tile data for debugging: nothing is dumped.
    pub fn dump_tile_data(&self) {
    }

    /// Object `object` (0-39) of the OAM.
    pub fn get_oam_object(&self, object: usize) -> (r: gpu::Tile)
        requires
            self.wf(),
            object < 40,
        ensures
            r == (gpu::Tile {
                y: self.oam()[object * 4],
                x: self.oam()[object * 4 + 1],
                tile_index: self.oam()[object * 4 + 2],
                flags: self.oam()[object * 4 + 3],
            }),
    {
        let y = self.oam[object * 4];
        let x = self.oam[object * 4 + 1];
        let tile_index = self.oam[object * 4 + 2];
        let flags = self.oam[object * 4 + 3];
        gpu::Tile::new(y, x, tile_index, flags)
    }

    /// The two bytes of row `row` of tile `id` in the tile data at `baseline`.
    pub fn get_tile_data(&self, baseline: usize, id: usize, row: usize) -> (r: (u8, u8))
        requires
            self.wf(),
            0x8000 <= baseline,
            baseline - 0x8000 + id * 16 + row * 2 + 1 < 0x1800,
        ensures
            r == (
                self.tile_data()[baseline - 0x8000 + id * 16 + row * 2],
                self.tile_data()[baseline - 0x8000 + id * 16 + row * 2 + 1],
            ),
    {
        let a = self.tile_data[baseline - 0x8000 + id * 16 + row * 2];
        let b = self.tile_data[baseline - 0x8000 + id * 16 + row * 2 + 1];
        (a, b)
    }

    /// The memory at power-on, with `buffer` as the ROM and bank 1 selected.
    pub fn default_with_rom(buffer: Vec<u8>) -> (r: Memory)
        ensures
            r.wf(),
            r.rom() == buffer@,
            r.rom_bank() == 1,
            r.oam() == Seq::new(0xa0, |i: int| 0u8),
            r.tile_data() == Seq::new(0x1800, |i: int| 0u8),
            r.readable(0xffff),
            r.read_value(0xffff) == 0,
            r.io_registers() == IORegisters::default_spec(),
            forall|a: usize|
                (in_work_ram(a) || in_high_ram(a) || in_tile_data(a) || in_tile_maps(a))
                    ==> #[trigger] r.readable(a),
            forall|a: usize|
                (in_work_ram(a) || in_high_ram(a) || in_tile_data(a) || in_tile_maps(a))
                    ==> #[trigger] r.read_value(a) == 0,
    {
        let high_ram: Vec<u8> = vec![0; 0xfffe - 0xff80 + 1];
        let work_ram: Vec<u8> = vec![0; 0xdfff - 0xc000 + 1];
        let tile_data: Vec<u8> = vec![0; 0x97FF - 0x8000 + 1];
        let tile_maps: Vec<u8> = vec![0; 0x9FFF - 0x9800 + 1];
        let oam: Vec<u8> = vec![0; 0xFE9F - 0xFE00 + 1];
        assert(oam@ =~= Seq::new(0xa0, |i: int| 0u8));
        assert(tile_data@ =~= Seq::new(0x1800, |i: int| 0u8));
        let r = Memory {
            rom: buffer,
            rom_bank: 1,
            high_ram,
            work_ram,
            io_registers: IORegisters::default(),
            interrupt_enable: 0,
            tile_data,
            tile_maps,
            oam,
            debug_counter: 0,
        };
        assert(forall|a: usize|
            (in_work_ram(a) || in_high_ram(a) || in_tile_data(a) || in_tile_maps(a))
                ==> #[trigger] r.read_value(a) == 0) by {
            assert forall|a: usize|
                (in_work_ram(a) || in_high_ram(a) || in_tile_data(a) || in_tile_maps(
                    a,
                )) implies #[trigger] r.read_value(a) == 0 by {
                if in_high_ram(a) {
                    assert(r.high_ram@[a - 0xff80] == 0);
                } else if in_work_ram(a) {
                    assert(r.work_ram@[a - 0xc000] == 0);
                } else if in_tile_data(a) {
                    assert(r.tile_data@[a - 0x8000] == 0);
                } else {
                    assert(r.tile_maps@[a - 0x9800] == 0);
                }
            }
        }
        r
    }
}

/// Reading the ROM window: bank 0 at 0x0000-0x3FFF, the selected bank at
/// 0x4000-0x7FFF, wherever the ROM holds the byte.
pub proof fn rom_read(m: Memory, location: usize)
    requires
        m.wf(),
        location <= 0x7fff,
        m.rom_index(location) < m.rom().len(),
    ensures
        m.readable(location),
        m.read_value(location) == m.rom()[m.rom_index(location)],
{
}

/// Work RAM, high RAM, the tile data and the tile maps are read and written
/// freely.
pub proof fn ram_accessible(m: Memory, location: usize, value: u8)
    requires
        m.wf(),
        in_work_ram(location) || in_high_ram(location) || in_tile_data(location) || in_tile_maps(
            location,
        ),
    ensures
        m.readable(location),
        m.writable(location, value),
{
}

/// A write to 0x2000-0x3FFF selects ROM bank `value` & 0x1F, or bank 1 when
/// those bits are 0, and keeps the ROM.
pub proof fn rom_bank_write(m: Memory, post: Memory, location: usize, value: u8)
    requires
        m.after_write(post, location, value),
        0x2000 <= location <= 0x3fff,
    ensures
        post.wf(),
        post.rom() == m.rom(),
        post.rom_bank() == (if value % 32 == 0 {
            1
        } else {
            value % 32
        }),
        post.oam() == m.oam(),
        post.tile_data() == m.tile_data(),
{
}

/// A write to a storing I/O register (other than 0xFF46) is read back from
/// it, and leaves every other I/O register and the RAM areas as they read.
pub proof fn io_read_after_write(m: Memory, post: Memory, location: usize, value: u8, other: usize)
    requires
        m.writable(location, value),
        m.after_write(post, location, value),
        io_stored(location),
        other != location,
    ensures
        post.readable(location),
        post.read_value(location) == value,
        0xff00 <= other <= 0xff77 || in_work_ram(other) || in_high_ram(other) || in_tile_data(
            other,
        ) || in_tile_maps(other) ==> post.read_value(other) == m.read_value(other),
{
    io_registers::io_read_after_write(m.io_registers, post.io_registers, location, value, other);
}

/// A DMA transfer can start when its 0xA0 source bytes can be read.
pub proof fn dma_writable(m: Memory, value: u8)
    requires
        m.wf(),
        forall|i: int| 0 <= i < 0xa0 ==> #[trigger] m.readable((value * 256 + i) as usize),
    ensures
        m.writable(0xff46, value),
{
}

/// A write of `value` to 0xFF46 copies the 0xA0 bytes at `value` * 0x100,
/// as they read before the write, into the OAM, 4 bytes per object.
pub proof fn dma_copies_to_oam(m: Memory, post: Memory, value: u8)
    requires
        m.after_write(post, 0xff46, value),
    ensures
        post.wf(),
        post.oam().len() == 0xa0,
        forall|j: int| 0 <= j < 0xa0 ==> #[trigger] post.oam()[j] == m.read_value(
            (value * 256 + j) as usize,
        ),
        post.rom() == m.rom(),
        post.rom_bank() == m.rom_bank(),
        post.tile_data() == m.tile_data(),
{
}

/// A byte written to work RAM or high RAM is read back, and a write to one
/// RAM location leaves every other RAM location as it was.
pub proof fn ram_read_after_write(m: Memory, post: Memory, location: usize, value: u8, other: usize)
    requires
        m.writable(location, value),
        m.after_write(post, location, value),
        in_work_ram(location) || in_high_ram(location),
        in_work_ram(other) || in_high_ram(other),
        other != location,
    ensures
        post.readable(location),
        post.read_value(location) == value,
        post.read_value(other) == m.read_value(other),
{
}

} // verus!
