//! The 160x144 screen buffer and how tiles and sprites are drawn into it.
use crate::gpu::Tile;
use crate::registers::{bit_set, lemma_write_bit};
use vstd::prelude::*;

verus! {

pub const WIDTH: usize = 160;

pub const HEIGHT: usize = 144;

pub const WHITE: u32 = 0xffffff;

pub const LIGHT_GRAY: u32 = 0xa9a9a9;

pub const DARK_GRAY: u32 = 0x545454;

pub const BLACK: u32 = 0x000000;

/// The screen: one 0xRRGGBB value per pixel, row after row.
pub struct Display {
    pub screen: Vec<u32>,
}

/// The RGB value of DMG shade `color_code` (0 lightest, 3 darkest).
pub open spec fn shade_rgb(color_code: u8) -> u32 {
    if color_code == 0 {
        WHITE
    } else if color_code == 1 {
        LIGHT_GRAY
    } else if color_code == 2 {
        DARK_GRAY
    } else {
        BLACK
    }
}

/// The shade that `palette` gives colour number `id` (0-3): bits 2*id and 2*id+1.
pub open spec fn palette_shade(palette: u8, id: u8) -> u8 {
    ((if bit_set(palette, (2 * id + 1) as u8) {
        2u8
    } else {
        0u8
    }) + (if bit_set(palette, (2 * id) as u8) {
        1u8
    } else {
        0u8
    })) as u8
}

/// The colour number (0-3) of bit `pixel` of a tile row: the high bit from the second byte.
pub open spec fn tile_pixel_code(tile_data: (u8, u8), pixel: u8) -> u8 {
    ((if bit_set(tile_data.1, pixel) {
        2u8
    } else {
        0u8
    }) + (if bit_set(tile_data.0, pixel) {
        1u8
    } else {
        0u8
    })) as u8
}

/// A two-bit number from its high and low bit.
proof fn lemma_two_bits(m: bool, l: bool)
    ensures
        ((m as u8) << 1u8 | l as u8) == (if m { 2u8 } else { 0u8 }) + (if l { 1u8 } else { 0u8 }),
{
    assert(((m as u8) << 1u8 | l as u8) == (if m { 2u8 } else { 0u8 }) + (if l {
        1u8
    } else {
        0u8
    })) by (bit_vector);
}

/// The colour number of bit `pixel` of a tile row.
pub(crate) fn pixel_code(tile_data: (u8, u8), pixel: u8) -> (r: u8)
    requires
        pixel < 8,
    ensures
        r == tile_pixel_code(tile_data, pixel),
        r < 4,
{
    proof {
        lemma_write_bit(tile_data.0, pixel, true, 0);
        lemma_write_bit(tile_data.1, pixel, true, 0);
    }
    let lsb = tile_data.0 & (1u8 << pixel) > 0;
    let msb = tile_data.1 & (1u8 << pixel) > 0;
    proof {
        lemma_two_bits(msb, lsb);
    }
    (msb as u8) << 1u8 | lsb as u8
}

/// The RGB value of DMG shade `color_code`.
fn get_color(color_code: u8) -> (r: u32)
    ensures
        r == shade_rgb(color_code),
{
    let color = if color_code == 0 {
        WHITE  // white
    } else if color_code == 1 {
        LIGHT_GRAY  // light gray
    } else if color_code == 2 {
        DARK_GRAY  // dark gray
    } else {
        BLACK  // black
    };
    color
}

/// The shade that `palette` gives colour number `id`.
pub fn use_palette(palette: u8, id: u8) -> (r: u8)
    requires
        id < 4,
    ensures
        r == palette_shade(palette, id),
        r < 4,
{
    let bit = 1u8 << (id * 2);
    proof {
        lemma_write_bit(palette, (id * 2) as u8, true, 0);
        lemma_write_bit(palette, (id * 2 + 1) as u8, true, 0);
        assert(bit << 1u8 == 1u8 << (id * 2 + 1)) by (bit_vector)
            requires
                bit == 1u8 << (id * 2),
                id < 4,
        ;
    }
    let l = (palette & bit) != 0;
    let m = (palette & (bit << 1u8)) != 0;
    proof {
        lemma_two_bits(m, l);
    }
    let color_id = (m as u8) << 1u8 | l as u8;
    return color_id;
}

/// The column of the leftmost screen pixel a sprite at `x` (screen column + 8) can cover.
pub open spec fn sprite_first_x(x: u8) -> int {
    if x < 8 {
        0
    } else {
        x - 8
    }
}

/// The tile-row bit drawn at screen column `column` for a sprite at `x`.
///
/// Without X flip the columns take bits 7-skip down to 0, with X flip 0 upwards,
/// where `skip` is the number of columns left of the screen.
pub open spec fn sprite_pixel(x: u8, flipped: bool, column: int) -> u8 {
    let skip: int = if x < 8 { 8 - x } else { 0 };
    let i = column - sprite_first_x(x);
    (if flipped { i } else { 7 - skip - i }) as u8
}

/// The screen value at index `k` after a sprite is drawn on row `y` over `old`.
pub open spec fn sprite_drawn_value(
    old: Seq<u32>,
    tile: Tile,
    y: u8,
    tile_data: (u8, u8),
    palette: u8,
    k: int,
) -> u32 {
    let column = k - y * 160;
    let code = tile_pixel_code(tile_data, sprite_pixel(tile.x, bit_set(tile.flags, 5), column));
    if sprite_first_x(tile.x) <= column < tile.x && column < 160 && y < 144 && code != 0 && (
    !bit_set(tile.flags, 7) || old[k] == WHITE) {
        shade_rgb(palette_shade(palette, code))
    } else {
        old[k]
    }
}

impl Display {
    /// A white screen.
    pub fn default() -> (r: Display)
        ensures
            r.screen@ == Seq::new((WIDTH * HEIGHT) as nat, |i: int| 0u32),
    {
        let screen_buffer: Vec<u32> = vec![0; WIDTH * HEIGHT];
        assert(screen_buffer@ =~= Seq::new((WIDTH * HEIGHT) as nat, |i: int| 0u32));
        Display { screen: screen_buffer }
    }

    /// Paints row `line` white.
    pub fn wipe_line(&mut self, line: u8)
        requires
            line < HEIGHT,
            old(self).screen.len() == WIDTH * HEIGHT,
        ensures
            final(self).screen@.len() == old(self).screen@.len(),
            forall|k: int|
                0 <= k < old(self).screen@.len() ==> #[trigger] final(self).screen@[k] == (if line
                    * 160 <= k < line * 160 + 160 {
                    WHITE
                } else {
                    old(self).screen@[k]
                }),
    {
        let mut p: usize = 0;
        while p < WIDTH
            invariant
                p <= WIDTH,
                line < HEIGHT,
                self.screen@.len() == old(self).screen@.len(),
                old(self).screen.len() == WIDTH * HEIGHT,
                forall|k: int|
                    0 <= k < old(self).screen@.len() ==> #[trigger] self.screen@[k] == (if line
                        * 160 <= k < line * 160 + p {
                        WHITE
                    } else {
                        old(self).screen@[k]
                    }),
            decreases WIDTH - p,
        {
            self.screen.set(line as usize * WIDTH + p, 0xffffff);
            p = p + 1;
        }
    }

    /// Paints the whole screen white.
    pub fn wipe_screen(&mut self)
        ensures
            final(self).screen@ == Seq::new(old(self).screen@.len(), |i: int| WHITE),
    {
        let n = self.screen.len();
        let mut p: usize = 0;
        while p < n
            invariant
                p <= n,
                n == self.screen@.len(),
                self.screen@.len() == old(self).screen@.len(),
                forall|k: int| 0 <= k < p ==> #[trigger] self.screen@[k] == WHITE,
            decreases n - p,
        {
            self.screen.set(p, 0xffffff);
            p = p + 1;
        }
        assert(self.screen@ =~= Seq::new(old(self).screen@.len(), |i: int| WHITE));
    }

    /// Draws one background pixel at (`x`, `y`): bit 7 - `x_pos` % 8 of the tile row,
    /// through `palette`; nothing when (`x`, `y`) is off the screen.
    pub fn draw_bg_tile(&mut self, x_pos: u8, x: u8, y: u8, tile_data: (u8, u8), palette: u8)
        requires
            old(self).screen.len() == WIDTH * HEIGHT,
        ensures
            final(self).screen@ == (if y < HEIGHT && x < WIDTH {
                old(self).screen@.update(
                    y * 160 + x,
                    shade_rgb(palette_shade(palette, tile_pixel_code(tile_data, (7 - x_pos % 8) as u8))),
                )
            } else {
                old(self).screen@
            }),
    {
        let pixel = 7 - (x_pos % 8);
        let color_code = pixel_code(tile_data, pixel);
        let color_code = use_palette(palette, color_code);
        let color = get_color(color_code);
        if y as usize >= HEIGHT || x as usize >= WIDTH {
            return;
        }
        self.screen.set(y as usize * WIDTH + x as usize, color)
    }

    /// Draws the row of sprite `tile` that falls on screen row `y`: colour 0 is
    /// transparent, and a sprite behind the background only covers white pixels.
    pub fn draw_tile(&mut self, tile: Tile, y: u8, tile_data: (u8, u8), palette: u8)
        requires
            old(self).screen.len() == WIDTH * HEIGHT,
            tile.x <= 248,
            bit_set(tile.flags, 7) ==> forall|column: int|
                sprite_first_x(tile.x) <= column < tile.x && tile_pixel_code(
                    tile_data,
                    sprite_pixel(tile.x, bit_set(tile.flags, 5), column),
                ) != 0 ==> y * 160 + column < WIDTH * HEIGHT,
        ensures
            final(self).screen@.len() == old(self).screen@.len(),
            forall|k: int|
                0 <= k < old(self).screen@.len() ==> #[trigger] final(self).screen@[k]
                    == sprite_drawn_value(old(self).screen@, tile, y, tile_data, palette, k),
    {
        let skip: u8 = if tile.x < 8 {
            8 - tile.x
        } else {
            0
        };
        let count: u8 = 8 - skip;
        let flipped = tile.is_x_flipped();
        let priority = tile.has_priority();
        let ghost first = sprite_first_x(tile.x);
        let ghost row = y * 160;
        let mut i: u8 = 0;
        while i < count
            invariant
                i <= count,
                count == 8 - skip,
                skip == (if tile.x < 8 { 8 - tile.x } else { 0 }),
                tile.x <= 248,
                first == sprite_first_x(tile.x),
                row == y * 160,
                flipped == bit_set(tile.flags, 5),
                priority == !bit_set(tile.flags, 7),
                old(self).screen.len() == WIDTH * HEIGHT,
                self.screen@.len() == old(self).screen@.len(),
                !priority ==> forall|column: int|
                    first <= column < tile.x && tile_pixel_code(
                        tile_data,
                        sprite_pixel(tile.x, flipped, column),
                    ) != 0 ==> row + column < WIDTH * HEIGHT,
                forall|k: int|
                    0 <= k < old(self).screen@.len() ==> #[trigger] self.screen@[k] == (if row
                        + first <= k < row + first + i {
                        sprite_drawn_value(old(self).screen@, tile, y, tile_data, palette, k)
                    } else {
                        old(self).screen@[k]
                    }),
            decreases count - i,
        {
            let pixel = if flipped {
                i
            } else {
                count - 1 - i
            };
            let x = tile.x + (i + skip) - 8;
            let ghost k = row + x;
            assert(x == first + i);
            assert(pixel == sprite_pixel(tile.x, flipped, x as int));
            let color_code = pixel_code(tile_data, pixel);
            if color_code != 0 {
                let pixel_to_draw = y as usize * WIDTH + x as usize;
                if priority || self.screen[pixel_to_draw] == WHITE {
                    let color_code = use_palette(palette, color_code);
                    let color = get_color(color_code);
                    if (y as usize) < HEIGHT && (x as usize) < WIDTH {
                        self.screen.set(pixel_to_draw, color);
                    }
                }
            }
            i = i + 1;
        }
    }
}

/// The colour number of pixel `i` of a tile row `(lo, hi)`: the first byte
/// gives its low bit and the second its high bit, so a row (0xFF, 0x00) is
/// colour 1 throughout and (0x00, 0xFF) colour 2.
pub proof fn tile_colour_law(lo: u8, hi: u8, i: u8)
    requires
        i < 8,
    ensures
        tile_pixel_code((lo, hi), i) < 4,
        (tile_pixel_code((lo, hi), i) % 2 == 1) == bit_set(lo, i),
        (tile_pixel_code((lo, hi), i) >= 2) == bit_set(hi, i),
        tile_pixel_code((0xffu8, 0x00u8), i) == 1,
        tile_pixel_code((0x00u8, 0xffu8), i) == 2,
{
    assert(bit_set(0xffu8, i) && !bit_set(0x00u8, i)) by (bit_vector)
        requires
            i < 8,
    ;
}

/// A palette maps colour number `id` to the shade held in its bits 2*id
/// (low) and 2*id+1 (high); the palette 0xE4 maps every colour to itself.
pub proof fn palette_law(palette: u8, id: u8)
    by (bit_vector)
    requires
        id < 4,
    ensures
        palette_shade(palette, id) == (palette >> (2 * id) as u8) & 3,
        palette_shade(0xe4, id) == id,
{
}

} // verus!
