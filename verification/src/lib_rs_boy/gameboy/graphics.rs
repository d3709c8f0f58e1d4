//! The pixel processing unit of the embeddable core: the video memory, the
//! OAM scan, and the drawing of one line per scanline into the screen buffer.
pub mod processor;
pub mod window;

pub use processor::Mode;
pub use processor::Processor;
use crate::display::{sprite_drawn_value, sprite_first_x, sprite_pixel, shade_rgb, palette_shade, tile_pixel_code, HEIGHT, WIDTH, WHITE};
use crate::gameboy::memory_bus::MemoryAccessor;
use crate::gpu::{covers_scanline, Tile};
use crate::lib_rs_boy::gameboy::interrupts;
use crate::registers::{bit_set, lemma_bit_masks, lemma_write_bit};
use processor::{LcdStatusFlag, ProcessorView};
use vstd::prelude::*;

verus! {

pub struct Display {
    pub engine: crate::display::Display,
    processor: Processor,
    tile_data: Vec<u8>,
    tile_maps: Vec<u8>,
    pub oam: Vec<u8>,
    dots: u32,
    /// when in ModeTwo we are iterating the oam memory, this is the index of the next to check
    oam_memory_check_index: u8,
    oam_collected_sprites: Vec<Tile>,
    interrupt: u8,
}

/// The display as plain values.
#[verifier::ext_equal]
pub struct DisplayView {
    pub processor: ProcessorView,
    /// 0x8000-0x97FF
    pub tile_data: Seq<u8>,
    /// 0x9800-0x9FFF
    pub tile_maps: Seq<u8>,
    /// 0xFE00-0xFE9F
    pub oam: Seq<u8>,
    /// One 0xRRGGBB value per pixel, row after row.
    pub screen: Seq<u32>,
    /// Dots counted in the current mode.
    pub dots: u32,
    /// The next OAM entry the scan looks at.
    pub check_index: u8,
    /// The objects found on the current line, in OAM order.
    pub collected: Seq<Tile>,
    /// The interrupt bits raised by the last step.
    pub interrupt: u8,
}

impl View for Display {
    type V = DisplayView;

    closed spec fn view(&self) -> DisplayView {
        DisplayView {
            processor: self.processor@,
            tile_data: self.tile_data@,
            tile_maps: self.tile_maps@,
            oam: self.oam@,
            screen: self.engine.screen@,
            dots: self.dots,
            check_index: self.oam_memory_check_index,
            collected: self.oam_collected_sprites@,
            interrupt: self.interrupt,
        }
    }
}

/// OAM entry `object`: Y, X, tile index and flags, four bytes from `object` * 4.
pub open spec fn oam_object(oam: Seq<u8>, object: int) -> Tile {
    Tile { y: oam[object * 4], x: oam[object * 4 + 1], tile_index: oam[object * 4 + 2], flags: oam[object * 4 + 3] }
}

/// Index into the tile data of row `row` of tile `id`: from 0x8000 unsigned,
/// from 0x8800 with `id` read as signed and 0x9000 as tile 0.
pub open spec fn tile_row_index(baseline: usize, id: u8, row: usize) -> int {
    if baseline == 0x8800 {
        0x800 + ((id + 128) % 256) * 16 + row * 2
    } else {
        baseline - 0x8000 + id * 16 + row * 2
    }
}

/// The two bytes of row `row` of tile `id`.
pub open spec fn tile_row(tile_data: Seq<u8>, baseline: usize, id: u8, row: usize) -> (u8, u8) {
    let i = tile_row_index(baseline, id, row);
    (tile_data[i], tile_data[i + 1])
}

impl DisplayView {
    /// The sizes of the memories, and the modes and lines the processor can be in.
    pub open spec fn wf(self) -> bool {
        &&& self.tile_data.len() == 0x1800
        &&& self.tile_maps.len() == 0x800
        &&& self.oam.len() == 0xa0
        &&& self.screen.len() == WIDTH * HEIGHT
        &&& self.collected.len() <= 10
        &&& self.check_index <= 40
        &&& self.processor.ly <= 153
        &&& self.processor.gpu_mode != Mode::One ==> self.processor.ly < 144
        &&& !self.processor.has(LcdStatusFlag::LcdEnabled) ==> self.processor.ly == 0
    }
}

/// Is `location` in the tile data (0x8000-0x97FF)?
pub open spec fn in_tile_data(location: usize) -> bool {
    0x8000 <= location <= 0x97ff
}

/// Is `location` in the tile maps (0x9800-0x9FFF)?
pub open spec fn in_tile_maps(location: usize) -> bool {
    0x9800 <= location <= 0x9fff
}

/// Is `location` in the OAM (0xFE00-0xFE9F)?
pub open spec fn in_oam(location: usize) -> bool {
    0xfe00 <= location <= 0xfe9f
}

/// Is the window shown on `line`: enabled, started at or above it, and not
/// pushed off the right edge?
pub open spec fn window_active(p: ProcessorView, line: u8) -> bool {
    p.has(LcdStatusFlag::WindowEnabled) && line >= p.wy && p.wx <= 167
}

/// Where background (or window) pixel `x` of `line` comes from: its column in
/// the background or window, and the row of its tile.
pub open spec fn bg_source(v: DisplayView, line: u8, x: u8) -> (u8, (u8, u8)) {
    let p = v.processor;
    let in_window = window_active(p, line) && x + 7 >= p.wx;
    let y_pos: u8 = if in_window {
        p.win_y_counter
    } else {
        ((p.scy + line) % 256) as u8
    };
    let x_pos: u8 = if in_window {
        (x + 7 - p.wx) as u8
    } else {
        ((x + p.scx) % 256) as u8
    };
    let tile_id = v.tile_maps[p.tile_map(in_window) - 0x9800 + (y_pos / 8) * 32 + x_pos / 8];
    (x_pos, tile_row(v.tile_data, p.tile_data_baseline(), tile_id, (y_pos % 8) as usize))
}

/// The colour of background (or window) pixel `x` of `line`.
pub open spec fn bg_pixel(v: DisplayView, line: u8, x: u8) -> u32 {
    let (x_pos, data) = bg_source(v, line, x);
    shade_rgb(palette_shade(v.processor.bgp, tile_pixel_code(data, (7 - x_pos % 8) as u8)))
}

/// The screen with row `line` painted with the background, or white when the
/// background is off.
pub open spec fn background_drawn(v: DisplayView, line: u8) -> Seq<u32> {
    Seq::new(
        v.screen.len(),
        |k: int|
            if line * 160 <= k < line * 160 + 160 {
                if v.processor.has(LcdStatusFlag::BgWindowEnabled) {
                    bg_pixel(v, line, (k - line * 160) as u8)
                } else {
                    WHITE
                }
            } else {
                v.screen[k]
            },
    )
}

/// The tile of object `t` drawn on `line`: for 8x16 objects, the upper or
/// lower tile of the pair, swapped by a vertical flip.
pub open spec fn sprite_tile_index(t: Tile, line: u8, double_size: bool) -> u8 {
    if double_size {
        if line + 16 - t.y < 8 {
            if !bit_set(t.flags, 6) {
                t.tile_index & 0xfe
            } else {
                t.tile_index | 0x01
            }
        } else {
            if !bit_set(t.flags, 6) {
                t.tile_index | 0x01
            } else {
                t.tile_index & 0xfe
            }
        }
    } else {
        t.tile_index
    }
}

/// The row of the tile of object `t` that falls on `line`, flipped vertically by flag bit 6.
pub open spec fn sprite_row(t: Tile, line: u8) -> usize {
    let y_pos = 16 + line - t.y;
    (if !bit_set(t.flags, 6) {
        y_pos % 8
    } else {
        7 - y_pos % 8
    }) as usize
}

/// The palette of object `t`: OBP1 when flag bit 4 is set, else OBP0.
pub open spec fn sprite_palette(t: Tile, p: ProcessorView) -> u8 {
    if bit_set(t.flags, 4) {
        p.obp1
    } else {
        p.obp0
    }
}

/// The two bytes of the row of object `t` drawn on `line`.
pub open spec fn sprite_data(v: DisplayView, t: Tile, line: u8) -> (u8, u8) {
    tile_row(
        v.tile_data,
        0x8000,
        sprite_tile_index(t, line, v.processor.has(LcdStatusFlag::ObjectSize)),
        sprite_row(t, line),
    )
}

/// `screen` after object `t` is drawn on `line`; objects at X 0 or 168 and
/// beyond are not drawn.
pub open spec fn sprite_drawn(v: DisplayView, screen: Seq<u32>, t: Tile, line: u8) -> Seq<u32> {
    if t.x == 0 || t.x >= 168 {
        screen
    } else {
        Seq::new(
            screen.len(),
            |k: int|
                sprite_drawn_value(
                    screen,
                    t,
                    line,
                    sprite_data(v, t, line),
                    sprite_palette(t, v.processor),
                    k,
                ),
        )
    }
}

/// `screen` after the first `n` collected objects are drawn on `line`, in order.
pub open spec fn sprites_drawn(v: DisplayView, screen: Seq<u32>, line: u8, n: nat) -> Seq<u32>
    decreases n,
{
    if n == 0 {
        screen
    } else {
        sprite_drawn(v, sprites_drawn(v, screen, line, (n - 1) as nat), v.collected[n - 1], line)
    }
}

/// Can object `t` be drawn on `line` without a read outside the screen or a
/// negative row: it lies below the top of `line`, and when it is behind the
/// background every visible pixel of it is on the screen.
pub open spec fn sprite_fits(v: DisplayView, t: Tile, line: u8) -> bool {
    (0 < t.x < 168) ==> {
        &&& t.y <= line + 16
        &&& bit_set(t.flags, 7) ==> forall|column: int|
            sprite_first_x(t.x) <= column < t.x && tile_pixel_code(
                sprite_data(v, t, line),
                sprite_pixel(t.x, bit_set(t.flags, 5), column),
            ) != 0 ==> line * 160 + column < WIDTH * HEIGHT
    }
}

/// The screen after `line` is drawn: the background, then the collected objects.
pub open spec fn line_drawn(v: DisplayView, line: u8) -> Seq<u32> {
    let bg = background_drawn(v, line);
    if v.processor.has(LcdStatusFlag::ObjectEnabled) {
        sprites_drawn(v, bg, line, v.collected.len())
    } else {
        bg
    }
}

/// The objects collected after the OAM scan looked at entries `i` to `end`:
/// those that cover `line`, up to ten.
pub open spec fn scanned(
    oam: Seq<u8>,
    collected: Seq<Tile>,
    i: int,
    end: int,
    line: u8,
    double_size: bool,
) -> Seq<Tile>
    decreases end - i,
{
    if i >= end {
        collected
    } else {
        let t = oam_object(oam, i);
        let next = if covers_scanline(t.y, line, double_size) && collected.len() < 10 {
            collected.push(t)
        } else {
            collected
        };
        scanned(oam, next, i + 1, end, line, double_size)
    }
}

impl DisplayView {
    /// The display after the PPU enters `mode`: the STAT interrupt of that mode
    /// is raised when selected, and entering mode 2 or 1 on the line WY
    /// restarts the window line counter.
    pub open spec fn with_mode(self, mode: Mode) -> DisplayView {
        let p = ProcessorView { gpu_mode: mode, ..self.processor };
        DisplayView {
            processor: if p.wy == p.ly && (mode == Mode::Two || mode == Mode::One) {
                ProcessorView { win_y_counter: 0, ..p }
            } else {
                p
            },
            interrupt: if p.mode_interrupt() {
                self.interrupt | interrupts::STAT
            } else {
                self.interrupt
            },
            ..self
        }
    }

    /// Can the PPU run `dots` more dots without an overflow or a read outside
    /// the screen? The dot counter must not overflow; a line drawn at the end
    /// of mode 3 must not step the window line counter past 255, and each
    /// collected object must fit (`sprite_fits`).
    pub open spec fn can_step(self, dots: u32) -> bool {
        let p = self.processor;
        &&& self.dots + dots <= u32::MAX
        &&& (p.has(LcdStatusFlag::LcdEnabled) && p.gpu_mode == Mode::Three && self.dots + dots
            >= 172) ==> {
            &&& (p.has(LcdStatusFlag::BgWindowEnabled) && window_active(p, p.ly))
                ==> p.win_y_counter < 255
            &&& p.has(LcdStatusFlag::ObjectEnabled) ==> forall|i: int|
                0 <= i < self.collected.len() ==> sprite_fits(self, #[trigger] self.collected[i], p.ly)
        }
    }

    /// The display and the returned (interrupt bits, frame finished) after `dots` dots.
    ///
    /// With the LCD off the PPU rests on line 0 in mode 1. Otherwise the dots
    /// are added to the count of the current mode: mode 2 scans two OAM entries
    /// per dot up to the 80th and then enters mode 3; mode 3 draws the line at
    /// its 172nd dot and enters mode 0; mode 0 ends the line at its 204th dot,
    /// entering mode 1 with a VBLANK interrupt and a finished frame after line
    /// 143, mode 2 otherwise; mode 1 steps the line every 456 dots and starts
    /// the next frame after line 153. A line change raises the LY == LYC STAT
    /// interrupt when due.
    pub open spec fn stepped(self, dots: u32) -> (DisplayView, (u8, bool)) {
        let v0 = DisplayView { interrupt: 0, ..self };
        let p = self.processor;
        if !p.has(LcdStatusFlag::LcdEnabled) {
            (
                DisplayView {
                    dots: 0,
                    processor: ProcessorView { ly: 0, gpu_mode: Mode::One, ..p },
                    ..v0
                },
                (0, false),
            )
        } else {
            let d = (self.dots + dots) as u32;
            let v1 = DisplayView { dots: d, ..v0 };
            match p.gpu_mode {
                Mode::Two => {
                    let start = self.check_index as int;
                    let end = (if d < 80 { d } else { 80 }) as int / 2;
                    let v2 = DisplayView {
                        collected: scanned(
                            self.oam,
                            self.collected,
                            start,
                            end,
                            p.ly,
                            p.has(LcdStatusFlag::ObjectSize),
                        ),
                        check_index: if start < end {
                            end as u8
                        } else {
                            self.check_index
                        },
                        ..v1
                    };
                    if d >= 80 {
                        let v3 = DisplayView { dots: (d - 80) as u32, ..v2 }.with_mode(Mode::Three);
                        (v3, (v3.interrupt, false))
                    } else {
                        (v2, (0, false))
                    }
                },
                Mode::One => {
                    if d >= 456 {
                        let p2 = ProcessorView { ly: (p.ly + 1) as u8, ..p };
                        let v2 = DisplayView {
                            processor: p2,
                            dots: (d - 456) as u32,
                            interrupt: if p2.lyc_interrupt() {
                                interrupts::STAT
                            } else {
                                0
                            },
                            ..v1
                        };
                        if p2.ly > 153 {
                            let v3 = DisplayView {
                                processor: ProcessorView { ly: 0, ..p2 },
                                check_index: 0,
                                collected: Seq::empty(),
                                ..v2
                            }.with_mode(Mode::Two);
                            (v3, (v3.interrupt, false))
                        } else {
                            (v2, (v2.interrupt, false))
                        }
                    } else {
                        (v1, (0, false))
                    }
                },
                Mode::Zero => {
                    if d >= 204 {
                        let p2 = ProcessorView { ly: (p.ly + 1) as u8, ..p };
                        let v2 = DisplayView {
                            processor: p2,
                            dots: (d - 204) as u32,
                            interrupt: if p2.lyc_interrupt() {
                                interrupts::STAT
                            } else {
                                0
                            },
                            ..v1
                        };
                        if p2.ly == 144 {
                            let v3 = DisplayView {
                                interrupt: v2.interrupt | interrupts::VBLANK,
                                ..v2
                            }.with_mode(Mode::One);
                            (v3, (v3.interrupt, true))
                        } else {
                            let v3 = DisplayView {
                                check_index: 0,
                                collected: Seq::empty(),
                                ..v2
                            }.with_mode(Mode::Two);
                            (v3, (v3.interrupt, false))
                        }
                    } else {
                        (v1, (0, false))
                    }
                },
                Mode::Three => {
                    if d >= 172 {
                        let line = p.ly;
                        let counter = if p.has(LcdStatusFlag::BgWindowEnabled) && window_active(
                            p,
                            line,
                        ) {
                            (p.win_y_counter + 1) as u8
                        } else {
                            p.win_y_counter
                        };
                        let v2 = DisplayView {
                            screen: line_drawn(self, line),
                            processor: ProcessorView { win_y_counter: counter, ..p },
                            ..v1
                        }.with_mode(Mode::Zero);
                        let v3 = DisplayView { dots: (d - 172) as u32, ..v2 };
                        (v3, (v3.interrupt, false))
                    } else {
                        (v1, (0, false))
                    }
                },
            }
        }
    }
}

impl Display {
    /// The memories have their sizes and the processor is in a mode and line it can reach.
    pub closed spec fn wf(&self) -> bool {
        &&& self@.wf()
        &&& self.engine.screen@.len() == WIDTH * HEIGHT
    }

    /// OAM entry `object` as an object.
    pub fn get_oam_object(&self, object: usize) -> (r: Tile)
        requires
            object < 40,
            self@.oam.len() == 0xa0,
        ensures
            r == oam_object(self@.oam, object as int),
    {
        let y = self.oam[object * 4];
        let x = self.oam[object * 4 + 1];
        let tile_index = self.oam[object * 4 + 2];
        let flags = self.oam[object * 4 + 3];
        Tile::new(y, x, tile_index, flags)
    }

    /// The two bytes of row `row` of tile `id`, addressed from `baseline`.
    pub fn get_tile_data(&self, baseline: usize, id: u8, row: usize) -> (r: (u8, u8))
        requires
            baseline == 0x8800 || 0x8000 <= baseline,
            baseline <= 0x9800,
            row < 8,
            0 <= tile_row_index(baseline, id, row) && tile_row_index(baseline, id, row) + 1
                < self@.tile_data.len(),
        ensures
            r == tile_row(self@.tile_data, baseline, id, row),
    {
        let baseline = if baseline == 0x8800 {
            assert(((id as i8) as i16 + 128) as int == (id + 128) % 256) by (bit_vector);
            baseline - 0x8000 + (id as i8 as i16 + 128) as usize * 16
        } else {
            baseline - 0x8000 + id as usize * 16
        };
        let a = self.tile_data[baseline + row * 2];
        let b = self.tile_data[baseline + row * 2 + 1];
        (a, b)
    }

    /// Empty video memory and OAM, a black screen, and the processor as the boot ROM leaves it.
    pub fn new() -> (r: Self)
        ensures
            r.wf(),
            r@.processor == processor::boot_view(),
            r@.tile_data == Seq::new(0x1800, |i: int| 0u8),
            r@.tile_maps == Seq::new(0x800, |i: int| 0u8),
            r@.oam == Seq::new(0xa0, |i: int| 0u8),
            r@.screen == Seq::new((WIDTH * HEIGHT) as nat, |i: int| 0u32),
            r@.dots == 0,
            r@.interrupt == 0,
            r@.check_index == 0,
            r@.collected.len() == 0,
    {
        let tile_data = vec![0u8; 0x97FF - 0x8000 + 1];
        let tile_maps = vec![0u8; 0x9FFF - 0x9800 + 1];
        let oam = vec![0u8; 0xFE9F - 0xFE00 + 1];
        assert(tile_data@ =~= Seq::new(0x1800, |i: int| 0u8));
        assert(tile_maps@ =~= Seq::new(0x800, |i: int| 0u8));
        assert(oam@ =~= Seq::new(0xa0, |i: int| 0u8));
        Display {
            engine: crate::display::Display::default(),
            processor: Processor::new(),
            tile_data,
            tile_maps,
            oam,
            dots: 0,
            interrupt: 0,
            oam_memory_check_index: 0,
            oam_collected_sprites: Vec::with_capacity(10),
        }
    }
}

impl MemoryAccessor for Display {
    /// The tile data, the tile maps, the LCD registers and the OAM.
    open spec fn readable(&self, location: usize) -> bool {
        &&& self.wf()
        &&& (in_tile_data(location) || in_tile_maps(location) || 0xff40 <= location <= 0xff4b
            || in_oam(location))
    }

    open spec fn read_value(&self, location: usize) -> u8 {
        if in_tile_data(location) {
            self@.tile_data[location - 0x8000]
        } else if in_tile_maps(location) {
            self@.tile_maps[location - 0x9800]
        } else if in_oam(location) {
            self@.oam[location - 0xfe00]
        } else {
            self@.processor.register(location)
        }
    }

    /// Every readable location but LY (0xFF44) can be written.
    open spec fn writable(&self, location: usize, value: u8) -> bool {
        &&& self.wf()
        &&& (in_tile_data(location) || in_tile_maps(location) || (0xff40 <= location <= 0xff4b
            && location != 0xff44) || in_oam(location))
    }

    open spec fn after_write(&self, post: Self, location: usize, value: u8) -> bool {
        let v = self@;
        let w = post@;
        &&& post.wf()
        &&& w.tile_data == (if in_tile_data(location) {
            v.tile_data.update(location - 0x8000, value)
        } else {
            v.tile_data
        })
        &&& w.tile_maps == (if in_tile_maps(location) {
            v.tile_maps.update(location - 0x9800, value)
        } else {
            v.tile_maps
        })
        &&& w.oam == (if in_oam(location) {
            v.oam.update(location - 0xfe00, value)
        } else {
            v.oam
        })
        &&& (if 0xff40 <= location <= 0xff4b {
            w.processor == v.processor.written(location, value)
        } else {
            w.processor == v.processor
        })
        &&& w.screen == v.screen
        &&& w.dots == v.dots
        &&& w.check_index == v.check_index
        &&& w.collected == v.collected
        &&& w.interrupt == v.interrupt
    }

    fn get(&self, location: usize) -> (r: u8) {
        if location >= 0x8000 && location <= 0x97FF {
            self.tile_data[location - 0x8000]
        } else if location >= 0x9800 && location <= 0x9FFF {
            self.tile_maps[location - 0x9800]
        } else if location >= 0xff40 && location <= 0xff4b {
            self.processor.get(location)
        } else {
            self.oam[location - 0xFE00]
        }
    }

    fn write(&mut self, location: usize, value: u8) {
        if location >= 0xfe00 && location <= 0xfe9f {
            self.oam.set(location - 0xfe00, value);
        } else if location >= 0xff40 && location <= 0xff4b {
            self.processor.write(location, value);
        } else if location >= 0x8000 && location <= 0x97FF {
            self.tile_data.set(location - 0x8000, value);
        } else {
            self.tile_maps.set(location - 0x9800, value);
        }
    }
}

impl Display {
    /// Enters `mode`, raising its STAT interrupt when selected and restarting
    /// the window line counter when mode 2 or 1 begins on line WY.
    fn set_gpu_mode(&mut self, mode: Mode)
        ensures
            final(self)@ == old(self)@.with_mode(mode),
            final(self).engine.screen@.len() == old(self).engine.screen@.len(),
    {
        self.processor.gpu_mode = mode;
        if self.processor.should_trigger_mode_stat_interrupt() {
            self.interrupt = self.interrupt | interrupts::STAT;
        }
        if self.processor.wy == self.processor.ly && (mode == Mode::Two || mode == Mode::One) {
            // reset window counter
            self.processor.win_y_counter = 0;
        }
    }

    /// Where background pixel `x` of `line` comes from: its column in the
    /// background (or window) and the row of its tile.
    #[verifier::spinoff_prover]
    fn background_source(&self, line: u8, x: u8, line_in_window: bool) -> (r: (u8, (u8, u8)))
        requires
            self.wf(),
            x < 160,
            line_in_window == window_active(self@.processor, line),
        ensures
            r == bg_source(self@, line, x),
    {
        let wx = self.processor.wx;
        let in_window = line_in_window && x + 7 >= wx;
        let y_pos = if in_window {
            self.processor.win_y_counter
        } else {
            self.processor.scy.wrapping_add(line)
        };
        // which of the 8 vertical pixels of the current
        // tile is the scanline on?
        let map_row = y_pos / 8;
        let tile_map = self.processor.get_tile_map(in_window);
        // translate the current x pos to window space if necessary
        let x_pos = if in_window {
            x + 7 - wx
        } else {
            x.wrapping_add(self.processor.scx)
        };
        let tile_col = x_pos / 8;
        let address = tile_map + map_row as usize * 32 + tile_col as usize;
        assert(in_tile_maps(address));
        let tile_id = self.get(address);
        assert(tile_id == self@.tile_maps[address - 0x9800]);
        let tile_data_baseline = self.processor.get_tile_data_baseline();
        let row = y_pos as usize % 8;
        assert(0 <= tile_row_index(tile_data_baseline, tile_id, row) && tile_row_index(
            tile_data_baseline,
            tile_id,
            row,
        ) + 1 < 0x1800);
        let tile_data = self.get_tile_data(tile_data_baseline, tile_id, row);
        proof {
            let v = self@;
            let p = v.processor;
            let sy: u8 = if in_window {
                p.win_y_counter
            } else {
                ((p.scy + line) % 256) as u8
            };
            let sx: u8 = if in_window {
                (x + 7 - p.wx) as u8
            } else {
                ((x + p.scx) % 256) as u8
            };
            assert(y_pos == sy);
            assert(x_pos == sx);
            assert(tile_map == p.tile_map(in_window));
            assert(address - 0x9800 == p.tile_map(in_window) - 0x9800 + (sy / 8) * 32 + sx / 8);
            assert(tile_data == tile_row(v.tile_data, p.tile_data_baseline(), tile_id, (sy % 8) as usize));
        }
        (x_pos, tile_data)
    }

    /// Paints the current line with the background and window, or white when
    /// they are off, and steps the window line counter when the window is on
    /// the line.
    fn draw_background(&mut self)
        requires
            old(self).wf(),
            old(self)@.processor.ly < 144,
            old(self)@.processor.has(LcdStatusFlag::BgWindowEnabled) && window_active(
                old(self)@.processor,
                old(self)@.processor.ly,
            ) ==> old(self)@.processor.win_y_counter < 255,
        ensures
            final(self).wf(),
            final(self)@ == (DisplayView {
                screen: background_drawn(old(self)@, old(self)@.processor.ly),
                processor: ProcessorView {
                    win_y_counter: if old(self)@.processor.has(LcdStatusFlag::BgWindowEnabled)
                        && window_active(old(self)@.processor, old(self)@.processor.ly) {
                        (old(self)@.processor.win_y_counter + 1) as u8
                    } else {
                        old(self)@.processor.win_y_counter
                    },
                    ..old(self)@.processor
                },
                ..old(self)@
            }),
    {
        let ghost v = self@;
        let line = self.processor.ly;
        if !self.processor.is_bg_window_enabled() {
            self.engine.wipe_line(line);
            assert(self@.screen =~= background_drawn(v, line));
            return;
        }
        let wx = self.processor.wx;
        let wy = self.processor.wy;
        let in_window = self.processor.is_window_enabled() && line >= wy && wx <= (WIDTH
            + 7) as u8;
        let mut x: u8 = 0;
        while x < 160
            invariant
                x <= 160,
                self.wf(),
                line == v.processor.ly,
                line < 144,
                wx == v.processor.wx,
                in_window == window_active(v.processor, line),
                v.processor.has(LcdStatusFlag::BgWindowEnabled),
                self@ == (DisplayView { screen: self@.screen, ..v }),
                self@.screen.len() == v.screen.len(),
                forall|k: int|
                    0 <= k < v.screen.len() ==> #[trigger] self@.screen[k] == (if line * 160 <= k
                        < line * 160 + x {
                        bg_pixel(v, line, (k - line * 160) as u8)
                    } else {
                        v.screen[k]
                    }),
            decreases 160 - x,
        {
            let (x_pos, tile_data) = self.background_source(line, x, in_window);
            let palette = self.processor.bgp;
            self.engine.draw_bg_tile(x_pos, x, line, tile_data, palette);
            x = x + 1;
        }
        if in_window {
            self.processor.win_y_counter = self.processor.win_y_counter + 1;
        }
        assert(self@.screen =~= background_drawn(v, line));
    }
}

impl Display {
    /// The tile row and palette of collected object `t` on `line`.
    fn sprite_source(&self, t: &Tile, line: u8, double_size: bool) -> (r: ((u8, u8), u8))
        requires
            self.wf(),
            0 < t.x < 168,
            t.y <= line + 16,
            line < 144,
            double_size == self@.processor.has(LcdStatusFlag::ObjectSize),
        ensures
            r.0 == sprite_data(self@, *t, line),
            r.1 == sprite_palette(*t, self@.processor),
    {
        let flipped = t.is_y_flipped();
        let index = if double_size {
            if line + 16 - t.y < 8 {
                if !flipped {
                    t.tile_index & 0xfe
                } else {
                    t.tile_index | 0x01
                }
            } else {
                if !flipped {
                    t.tile_index | 0x01
                } else {
                    t.tile_index & 0xfe
                }
            }
        } else {
            t.tile_index
        };
        let y_pos = 16 + line as usize - t.y as usize;
        let final_y_pos = if !flipped {
            y_pos % 8
        } else {
            7 - (y_pos % 8)
        };
        let tile_data = self.get_tile_data(0x8000, index, final_y_pos);
        proof {
            lemma_bit_masks();
            lemma_write_bit(t.flags, 4, true, 0);
        }
        let palette = if (t.flags & 0x10) > 0 {
            self.processor.obp1
        } else {
            self.processor.obp0
        };
        (tile_data, palette)
    }

    /// Draws the collected objects on `line`, in the order they were found,
    /// when objects are on.
    fn draw_sprites(&mut self, line: u8)
        requires
            old(self).wf(),
            line < 144,
            old(self)@.processor.has(LcdStatusFlag::ObjectEnabled) ==> forall|i: int|
                0 <= i < old(self)@.collected.len() ==> sprite_fits(
                    old(self)@,
                    #[trigger] old(self)@.collected[i],
                    line,
                ),
        ensures
            final(self).wf(),
            final(self)@ == (DisplayView {
                screen: if old(self)@.processor.has(LcdStatusFlag::ObjectEnabled) {
                    sprites_drawn(old(self)@, old(self)@.screen, line, old(self)@.collected.len())
                } else {
                    old(self)@.screen
                },
                ..old(self)@
            }),
    {
        if !self.processor.is_object_enabled() {
            return;
        }
        let ghost v = self@;
        let double_size = self.processor.is_object_double_size();
        let n = self.oam_collected_sprites.len();
        let mut i: usize = 0;
        while i < n
            invariant
                i <= n,
                n == v.collected.len(),
                self.wf(),
                line < 144,
                double_size == v.processor.has(LcdStatusFlag::ObjectSize),
                forall|j: int| 0 <= j < v.collected.len() ==> sprite_fits(v, #[trigger] v.collected[j], line),
                self@ == (DisplayView { screen: self@.screen, ..v }),
                self@.screen == sprites_drawn(v, v.screen, line, i as nat),
            decreases n - i,
        {
            let t = &self.oam_collected_sprites[i];
            assert(sprite_fits(v, v.collected[i as int], line));
            if t.x == 0 || t.x >= 168 {
                i = i + 1;
                continue;
            }
            let (tile_data, palette) = self.sprite_source(t, line, double_size);
            let tile = Tile::new(t.y, t.x, t.tile_index, t.flags);
            self.engine.draw_tile(tile, line, tile_data, palette);
            proof {
                assert(self@.screen =~= sprite_drawn(v, sprites_drawn(v, v.screen, line, i as nat), v.collected[i as int], line));
            }
            i = i + 1;
        }
    }
}

/// Drawing objects reads only the collected objects, the tile data and the
/// object registers of the display.
proof fn lemma_sprites_drawn_frame(v: DisplayView, w: DisplayView, screen: Seq<u32>, line: u8, n: nat)
    requires
        v.collected == w.collected,
        v.tile_data == w.tile_data,
        v.processor.lcd_control == w.processor.lcd_control,
        v.processor.obp0 == w.processor.obp0,
        v.processor.obp1 == w.processor.obp1,
    ensures
        sprites_drawn(v, screen, line, n) == sprites_drawn(w, screen, line, n),
    decreases n,
{
    if n > 0 {
        lemma_sprites_drawn_frame(v, w, screen, line, (n - 1) as nat);
    }
}

/// Setting bits into a cleared byte gives those bits.
proof fn lemma_or_zero(b: u8)
    ensures
        0u8 | b == b,
{
    assert(0u8 | b == b) by (bit_vector);
}

impl Display {
    /// Runs the PPU for `dots` dots; returns the interrupt bits raised and
    /// whether a frame was finished (see `DisplayView::stepped`).
    pub fn gpu_step(&mut self, dots: u32) -> (r: (u8, bool))
        requires
            old(self).wf(),
            old(self)@.can_step(dots),
        ensures
            final(self).wf(),
            (final(self)@, r) == old(self)@.stepped(dots),
    {
        let ghost v = self@;
        let mut trigger_render = false;
        self.interrupt = 0;
        if !self.processor.lcd_enabled() {
            self.dots = 0;
            self.processor.ly = 0;
            // When re-enabling the LCD, the PPU will immediately start drawing again, but the screen
            // will stay blank during the first frame. This is done by setting Mode::One, probably..
            self.processor.gpu_mode = Mode::One;
            return (self.interrupt, trigger_render);
        }
        self.dots = self.dots + dots;
        let ghost d = self.dots;
        let ghost v1 = self@;
        proof {
            lemma_or_zero(interrupts::STAT);
        }
        match self.processor.gpu_mode {
            Mode::Two => {
                let line = self.processor.ly;
                let double_size = self.processor.is_object_double_size();
                // Find objects in OAM memory (1 object every 2 dots)
                let start = self.oam_memory_check_index as usize;
                let end = ((if self.dots < 80 {
                    self.dots
                } else {
                    80
                }) / 2) as usize;
                let mut i = start;
                while i < end
                    invariant
                        self.wf(),
                        start <= i,
                        start <= 40,
                        end <= 40,
                        i <= end || i == start,
                        self.oam_memory_check_index as int == i,
                        line == v1.processor.ly,
                        double_size == v1.processor.has(LcdStatusFlag::ObjectSize),
                        self@ == (DisplayView {
                            collected: self@.collected,
                            check_index: self@.check_index,
                            ..v1
                        }),
                        scanned(v1.oam, self@.collected, i as int, end as int, line, double_size)
                            == scanned(v1.oam, v1.collected, start as int, end as int, line, double_size),
                    decreases end - i,
                {
                    self.oam_memory_check_index = self.oam_memory_check_index + 1;
                    let tile = self.get_oam_object(i);
                    proof {
                        assert(tile == oam_object(v1.oam, i as int));
                        assert((i as int) < (end as int));
                        let c0 = self@.collected;
                        let next = if covers_scanline(tile.y, line, double_size) && c0.len() < 10 {
                            c0.push(tile)
                        } else {
                            c0
                        };
                        assert(scanned(v1.oam, c0, i as int, end as int, line, double_size) == scanned(
                            v1.oam,
                            next,
                            i + 1,
                            end as int,
                            line,
                            double_size,
                        ));
                    }
                    i = i + 1;
                    if !tile.object_in_scanline(line, double_size) {
                        continue;
                    }
                    // The amount of sprites already stored in the OAM Buffer must be less than 10
                    if self.oam_collected_sprites.len() == 10 {
                        continue;
                    }
                    self.oam_collected_sprites.push(tile);
                }
                if self.dots >= 80 {
                    self.dots = self.dots - 80;
                    self.set_gpu_mode(Mode::Three);
                }
            },
            Mode::One => {
                if self.dots >= 456 {
                    self.processor.ly = self.processor.ly + 1;
                    self.dots = self.dots - 456;
                    if self.processor.should_trigger_lyc_stat_interrupt() {
                        self.interrupt = self.interrupt | interrupts::STAT;
                    }
                    if self.processor.ly > 153 {
                        self.processor.ly = 0;
                        self.oam_memory_check_index = 0;
                        self.oam_collected_sprites.clear();
                        self.set_gpu_mode(Mode::Two);
                    }
                }
            },
            Mode::Zero => {
                if self.dots >= 204 {
                    self.dots = self.dots - 204;
                    self.processor.ly = self.processor.ly + 1;
                    if self.processor.should_trigger_lyc_stat_interrupt() {
                        self.interrupt = self.interrupt | interrupts::STAT;
                    }
                    if self.processor.ly == 144 {
                        self.interrupt = self.interrupt | interrupts::VBLANK;
                        trigger_render = true;
                        self.set_gpu_mode(Mode::One);
                    } else {
                        self.oam_memory_check_index = 0;
                        self.oam_collected_sprites.clear();
                        self.set_gpu_mode(Mode::Two);
                    }
                }
            },
            Mode::Three => {
                let line = self.processor.ly;
                if self.dots >= 172 {
                    // The whole line is drawn at once when the transfer ends: background
                    // first, then the objects over it (no per-dot pixel mixing).
                    self.engine.wipe_line(line);
                    proof {
                        assert(background_drawn(self@, line) =~= background_drawn(v1, line));
                    }
                    self.draw_background();
                    let ghost v2 = self@;
                    proof {
                        assert forall|i: int|
                            0 <= i < v2.collected.len() && v2.processor.has(
                                LcdStatusFlag::ObjectEnabled,
                            ) implies sprite_fits(
                            v2,
                            #[trigger] v2.collected[i],
                            line,
                        ) by {
                            assert(sprite_fits(v, v.collected[i], line));
                            assert(sprite_data(v2, v2.collected[i], line) == sprite_data(v, v.collected[i], line));
                        }
                        lemma_sprites_drawn_frame(v2, v, v2.screen, line, v2.collected.len());
                    }
                    self.draw_sprites(line);
                    proof {
                        assert(background_drawn(v1, line) =~= background_drawn(v, line));
                        assert(self@.screen == line_drawn(v, line));
                    }
                    self.set_gpu_mode(Mode::Zero);
                    self.dots = self.dots - 172;
                }
            },
        }
        proof {
            assert(self@ =~= v.stepped(dots).0);
        }
        (self.interrupt, trigger_render)
    }
}

impl Display {
    /// Does object `t` fit on `line` (`sprite_fits`)?
    fn sprite_fits_check(&self, t: &Tile, line: u8, double_size: bool) -> (r: bool)
        requires
            self.wf(),
            line < 144,
            double_size == self@.processor.has(LcdStatusFlag::ObjectSize),
        ensures
            r == sprite_fits(self@, *t, line),
    {
        if t.x == 0 || t.x >= 168 {
            return true;
        }
        if t.y > line + 16 {
            return false;
        }
        proof {
            lemma_bit_masks();
            lemma_write_bit(t.flags, 7, true, 0);
        }
        if t.flags & 0x80 == 0 {
            return true;
        }
        let (tile_data, _palette) = self.sprite_source(t, line, double_size);
        let flipped = t.is_x_flipped();
        let first: u8 = if t.x < 8 { 0 } else { t.x - 8 };
        let skip: u8 = if t.x < 8 { 8 - t.x } else { 0 };
        let mut column: u8 = first;
        while column < t.x
            invariant
                first as int == sprite_first_x(t.x),
                skip as int == (if t.x < 8 { 8 - t.x } else { 0int }),
                first <= column <= t.x,
                0 < t.x < 168,
                t.y <= line + 16,
                bit_set(t.flags, 7),
                line < 144,
                flipped == bit_set(t.flags, 5),
                tile_data == sprite_data(self@, *t, line),
                forall|c: int|
                    sprite_first_x(t.x) <= c < column && tile_pixel_code(
                        tile_data,
                        sprite_pixel(t.x, flipped, c),
                    ) != 0 ==> line * 160 + c < WIDTH * HEIGHT,
            decreases t.x - column,
        {
            let i = column - first;
            let pixel: u8 = if flipped { i } else { 7 - skip - i };
            let code = crate::display::pixel_code(tile_data, pixel);
            if code != 0 && line as usize * WIDTH + column as usize >= WIDTH * HEIGHT {
                proof {
                    assert(pixel == sprite_pixel(t.x, flipped, column as int));
                    assert(tile_pixel_code(
                        sprite_data(self@, *t, line),
                        sprite_pixel(t.x, bit_set(t.flags, 5), column as int),
                    ) != 0);
                }
                return false;
            }
            column = column + 1;
        }
        true
    }

    /// Can the PPU run `dots` more dots (`DisplayView::can_step`)?
    pub fn can_step(&self, dots: u32) -> (r: bool)
        requires
            self.wf(),
        ensures
            r == self@.can_step(dots),
    {
        if dots > u32::MAX - self.dots {
            return false;
        }
        if !(self.processor.lcd_enabled() && self.processor.gpu_mode == Mode::Three && self.dots
            + dots >= 172) {
            return true;
        }
        let line = self.processor.ly;
        let wx = self.processor.wx;
        let wy = self.processor.wy;
        let in_window = self.processor.is_window_enabled() && line >= wy && wx <= (WIDTH
            + 7) as u8;
        if self.processor.is_bg_window_enabled() && in_window && self.processor.win_y_counter
            == 255 {
            return false;
        }
        if !self.processor.is_object_enabled() {
            return true;
        }
        let double_size = self.processor.is_object_double_size();
        let n = self.oam_collected_sprites.len();
        let mut i: usize = 0;
        while i < n
            invariant
                self.wf(),
                i <= n,
                n == self@.collected.len(),
                line == self@.processor.ly,
                line < 144,
                self@.processor.has(LcdStatusFlag::LcdEnabled),
                self@.processor.has(LcdStatusFlag::ObjectEnabled),
                self@.processor.gpu_mode == Mode::Three,
                self@.dots + dots >= 172,
                double_size == self@.processor.has(LcdStatusFlag::ObjectSize),
                forall|j: int| 0 <= j < i ==> sprite_fits(self@, #[trigger] self@.collected[j], line),
            decreases n - i,
        {
            if !self.sprite_fits_check(&self.oam_collected_sprites[i], line, double_size) {
                proof {
                    assert(!sprite_fits(self@, self@.collected[i as int], line));
                }
                return false;
            }
            i = i + 1;
        }
        true
    }
}

/// The OAM scan never collects more than ten objects.
proof fn lemma_scanned_len(
    oam: Seq<u8>,
    collected: Seq<Tile>,
    i: int,
    end: int,
    line: u8,
    double_size: bool,
)
    requires
        collected.len() <= 10,
    ensures
        scanned(oam, collected, i, end, line, double_size).len() <= 10,
    decreases end - i,
{
    if i < end {
        let t = oam_object(oam, i);
        let next = if covers_scanline(t.y, line, double_size) && collected.len() < 10 {
            collected.push(t)
        } else {
            collected
        };
        lemma_scanned_len(oam, next, i + 1, end, line, double_size);
    }
}

/// Drawing objects keeps the size of the screen.
proof fn lemma_sprites_drawn_len(v: DisplayView, screen: Seq<u32>, line: u8, n: nat)
    ensures
        sprites_drawn(v, screen, line, n).len() == screen.len(),
    decreases n,
{
    if n > 0 {
        lemma_sprites_drawn_len(v, screen, line, (n - 1) as nat);
    }
}

/// A well-formed display has a well-formed view and a full screen.
pub proof fn display_wf(d: Display)
    requires
        d.wf(),
    ensures
        d@.wf(),
        d@.screen.len() == WIDTH * HEIGHT,
{
}

/// Every step keeps the display well formed: LY stays within 0-153, lines
/// 144-153 are spent in mode 1 only, LY is 0 while the LCD is off, at most
/// ten objects are collected, and the memories and screen keep their sizes.
pub proof fn step_keeps_wf(v: DisplayView, dots: u32)
    requires
        v.wf(),
    ensures
        v.stepped(dots).0.wf(),
{
    lemma_scanned_len(
        v.oam,
        v.collected,
        v.check_index as int,
        (if ((v.dots + dots) as u32) < 80 { (v.dots + dots) as u32 } else { 80 }) as int / 2,
        v.processor.ly,
        v.processor.has(LcdStatusFlag::ObjectSize),
    );
    lemma_sprites_drawn_len(v, background_drawn(v, v.processor.ly), v.processor.ly, v.collected.len());
}

/// A frame is reported finished only when line 143 has ended and the PPU
/// has entered the vertical blank on line 144.
pub proof fn frame_ends_in_vblank(v: DisplayView, dots: u32)
    requires
        v.wf(),
        v.stepped(dots).1.1,
    ensures
        v.stepped(dots).0.processor.ly == 144,
        v.stepped(dots).0.processor.gpu_mode == Mode::One,
{
}

/// With the LCD off the PPU rests on line 0 in mode 1 and raises nothing.
pub proof fn lcd_off_rests(v: DisplayView, dots: u32)
    requires
        !v.processor.has(LcdStatusFlag::LcdEnabled),
    ensures
        v.stepped(dots).0.processor.ly == 0,
        v.stepped(dots).0.processor.gpu_mode == Mode::One,
        v.stepped(dots).1 == (0u8, false),
{
}

} // verus!
