//! The scanline compositor: background, window and sprites of one scanline
//! at a time, into a framebuffer of one 32-bit colour for each pixel.

use vstd::prelude::*;
use crate::bits::{bit_is_set, flag_set_at};
use crate::cpu::{signed, wrap8};
use crate::gameboy::{Gameboy, GameboyView};
use crate::memory::special_addresses::{BGP, LCDC, OAM, OBP0, SCX, SCY, WX, WY};

verus! {

/// Pixels in a scanline.
pub const SCREEN_WIDTH: usize = 160;

/// Scanlines in a frame.
pub const SCREEN_HEIGHT: usize = 144;

/// The lightest shade.
pub const WHITE: u32 = 0xFFFF_FFFF;

/// The second shade.
pub const LIGHT_GRAY: u32 = 0xCCCC_CCFF;

/// The third shade.
pub const DARK_GRAY: u32 = 0x7777_77FF;

/// The darkest shade.
pub const BLACK: u32 = 0x0000_00FF;

/// The colour of a shade, from the lightest to the darkest.
pub open spec fn shade_color(shade: u8) -> u32 {
    if shade == 0 {
        WHITE
    } else if shade == 1 {
        LIGHT_GRAY
    } else if shade == 2 {
        DARK_GRAY
    } else {
        BLACK
    }
}

/// The shade that a palette gives to a colour number: the two bits of the
/// palette at twice the colour number.
pub open spec fn palette_shade(color_num: u8, palette: u8) -> u8 {
    ((palette >> ((2 * color_num + 1) as u8)) & 1) << 1 | ((palette >> ((2 * color_num) as u8)) & 1)
}

/// The colour that a palette gives to a colour number.
pub open spec fn palette_color(color_num: u8, palette: u8) -> u32 {
    shade_color(palette_shade(color_num, palette))
}

/// The colour number of a pixel of a tile row: its high bit comes from the
/// second bit plane and its low bit from the first.
pub open spec fn color_number(data1: u8, data2: u8, color_bit: u8) -> u8 {
    ((data2 >> color_bit) & 1) << 1 | ((data1 >> color_bit) & 1)
}

/// A colour number is one of four.
pub proof fn lemma_color_number(data1: u8, data2: u8, color_bit: u8)
    by (bit_vector)
    requires
        color_bit < 8,
    ensures
        color_number(data1, data2, color_bit) <= 3,
{
}

/// Whether the pixel of the scanline belongs to the window.
pub open spec fn in_window(s: GameboyView, line: u8, pixel: u8) -> bool {
    &&& bit_is_set(s.read_byte(LCDC as u16), 5)
    &&& s.read_byte(WY as u16) <= line
    &&& pixel >= wrap8(s.read_byte(WX as u16) - 7)
}

/// The row of the background or window map that the scanline shows.
pub open spec fn map_y(s: GameboyView, line: u8) -> u8 {
    if bit_is_set(s.read_byte(LCDC as u16), 5) && s.read_byte(WY as u16) <= line {
        (line - s.read_byte(WY as u16)) as u8
    } else {
        wrap8(s.read_byte(SCY as u16) + line)
    }
}

/// The column of the background or window map that the pixel shows.
pub open spec fn map_x(s: GameboyView, line: u8, pixel: u8) -> u8 {
    if in_window(s, line, pixel) {
        (pixel - wrap8(s.read_byte(WX as u16) - 7)) as u8
    } else {
        wrap8(pixel + s.read_byte(SCX as u16))
    }
}

/// The base address of the tile map that the scanline uses: the window on
/// the scanline selects it by bit 6 of the control register, the background
/// by bit 3.
pub open spec fn tile_map_base(s: GameboyView, line: u8) -> int {
    let control = s.read_byte(LCDC as u16);
    let select: u8 = if bit_is_set(control, 5) && s.read_byte(WY as u16) <= line {
        6
    } else {
        3
    };
    if bit_is_set(control, select) {
        0x9C00
    } else {
        0x9800
    }
}

/// The address of the data of a tile. Bit 4 of the control register selects
/// between unsigned tile numbers from 0x8000 and signed ones around 0x9000.
pub open spec fn tile_data_address(s: GameboyView, tile_num: u8) -> int {
    if bit_is_set(s.read_byte(LCDC as u16), 4) {
        0x8000 + tile_num * 16
    } else {
        0x8800 + (signed(tile_num) + 128) * 16
    }
}

/// The colour of a pixel of the background and window layer.
pub open spec fn background_color(s: GameboyView, line: u8, pixel: u8) -> u32 {
    let y = map_y(s, line);
    let x = map_x(s, line, pixel);
    let tile_num = s.read_byte((tile_map_base(s, line) + (y / 8) * 32 + x / 8) as u16);
    let row = tile_data_address(s, tile_num) + (y % 8) * 2;
    let data1 = s.read_byte(row as u16);
    let data2 = s.read_byte((row + 1) as u16);
    palette_color(color_number(data1, data2, (7 - x % 8) as u8), s.read_byte(BGP as u16))
}

/// The framebuffer with the background and window layer of one scanline
/// drawn into its row.
pub open spec fn with_background(frame: Seq<u32>, s: GameboyView, line: u8) -> Seq<u32> {
    Seq::new(
        frame.len(),
        |k: int|
            if line * 160 <= k < line * 160 + 160 {
                background_color(s, line, (k - line * 160) as u8)
            } else {
                frame[k]
            },
    )
}

/// The height of the sprites: 16 if bit 2 of the control register is set,
/// else 8.
pub open spec fn sprite_height(s: GameboyView) -> int {
    if bit_is_set(s.read_byte(LCDC as u16), 2) {
        16
    } else {
        8
    }
}

/// One byte of the attributes of a sprite.
pub open spec fn sprite_attribute(s: GameboyView, sprite: int, field: int) -> u8 {
    s.read_byte((OAM + sprite * 4 + field) as u16)
}

/// The scanline of the top row of a sprite.
pub open spec fn sprite_top(s: GameboyView, sprite: int) -> int {
    sprite_attribute(s, sprite, 0) - 16
}

/// The column of the left edge of a sprite.
pub open spec fn sprite_left(s: GameboyView, sprite: int) -> int {
    sprite_attribute(s, sprite, 1) - 8
}

/// Whether the sprite has a row on the scanline.
pub open spec fn sprite_on_line(s: GameboyView, line: u8, sprite: int) -> bool {
    sprite_top(s, sprite) <= line < sprite_top(s, sprite) + sprite_height(s)
}

/// The row of its tile that a sprite shows on the scanline; bit 6 of its
/// attributes flips it upside down.
pub open spec fn sprite_row(s: GameboyView, line: u8, sprite: int) -> int {
    let row = line - sprite_top(s, sprite);
    if bit_is_set(sprite_attribute(s, sprite, 3), 6) {
        sprite_height(s) - 1 - row
    } else {
        row
    }
}

/// The colour of one of the eight pixels of a sprite on the scanline; bit 5
/// of its attributes mirrors the row.
pub open spec fn sprite_color(s: GameboyView, line: u8, sprite: int, tile_pixel: int) -> u32 {
    let row = 0x8000 + sprite_attribute(s, sprite, 2) * 16 + sprite_row(s, line, sprite) * 2;
    let data1 = s.read_byte(row as u16);
    let data2 = s.read_byte((row + 1) as u16);
    let color_bit = if bit_is_set(sprite_attribute(s, sprite, 3), 5) {
        7 - tile_pixel
    } else {
        tile_pixel
    };
    palette_color(color_number(data1, data2, color_bit as u8), s.read_byte(OBP0 as u16))
}

/// The column of one of the eight pixels of a sprite: the highest bit of
/// the row is the leftmost pixel.
pub open spec fn sprite_column(s: GameboyView, sprite: int, tile_pixel: int) -> int {
    sprite_left(s, sprite) + 7 - tile_pixel
}

/// The framebuffer with one pixel of a sprite drawn. A white pixel is
/// transparent, and a pixel outside the screen is clipped.
pub open spec fn with_sprite_pixel(
    frame: Seq<u32>,
    s: GameboyView,
    line: u8,
    sprite: int,
    tile_pixel: int,
) -> Seq<u32> {
    let column = sprite_column(s, sprite, tile_pixel);
    let color = sprite_color(s, line, sprite, tile_pixel);
    if color != WHITE && 0 <= column < 160 {
        frame.update(line * 160 + column, color)
    } else {
        frame
    }
}

/// The framebuffer with the first `pixels` pixels of a sprite drawn.
pub open spec fn with_sprite_pixels(
    frame: Seq<u32>,
    s: GameboyView,
    line: u8,
    sprite: int,
    pixels: nat,
) -> Seq<u32>
    decreases pixels,
{
    if pixels == 0 {
        frame
    } else {
        with_sprite_pixel(
            with_sprite_pixels(frame, s, line, sprite, (pixels - 1) as nat),
            s,
            line,
            sprite,
            pixels - 1,
        )
    }
}

/// The framebuffer with the first `count` sprites of the attribute table
/// drawn on the scanline, each over the ones before it.
pub open spec fn with_sprites(frame: Seq<u32>, s: GameboyView, line: u8, count: nat) -> Seq<u32>
    decreases count,
{
    if count == 0 {
        frame
    } else {
        let before = with_sprites(frame, s, line, (count - 1) as nat);
        if sprite_on_line(s, line, count - 1) {
            with_sprite_pixels(before, s, line, count - 1, 8)
        } else {
            before
        }
    }
}

/// The framebuffer after the compositor has rendered a scanline: the
/// background and window layer if bit 0 of the control register is set,
/// then the sprites if bit 1 is set. A scanline of the vertical blank
/// renders nothing.
pub open spec fn rendered(frame: Seq<u32>, s: GameboyView, line: u8) -> Seq<u32> {
    let control = s.read_byte(LCDC as u16);
    let background = if bit_is_set(control, 0) && line < 144 {
        with_background(frame, s, line)
    } else {
        frame
    };
    if bit_is_set(control, 1) && line < 144 {
        with_sprites(background, s, line, 40)
    } else {
        background
    }
}

/// The compositor with its framebuffer, row after row.
pub struct PPU {
    pub framebuffer: [u32; 23040],
}

impl View for PPU {
    type V = Seq<u32>;

    open spec fn view(&self) -> Seq<u32> {
        self.framebuffer@
    }
}

/// Resolves a colour number through a palette.
pub fn get_color(color_num: u8, palette: u8) -> (color: u32)
    requires
        color_num <= 3,
    ensures
        color == palette_color(color_num, palette),
{
    let lo: u8 = 2 * color_num;
    let hi: u8 = lo + 1;
    let shade = ((palette >> hi) & 1) << 1u8 | ((palette >> lo) & 1);
    if shade == 0 {
        WHITE
    } else if shade == 1 {
        LIGHT_GRAY
    } else if shade == 2 {
        DARK_GRAY
    } else {
        BLACK
    }
}

/// Combines the two bit planes of a tile row into the colour number of one
/// pixel.
pub fn get_color_number(data1: u8, data2: u8, color_bit: u8) -> (color_num: u8)
    requires
        color_bit < 8,
    ensures
        color_num == color_number(data1, data2, color_bit),
        color_num <= 3,
{
    proof {
        lemma_color_number(data1, data2, color_bit);
    }
    ((data2 >> color_bit) & 1) << 1u8 | ((data1 >> color_bit) & 1)
}

/// Tells whether the window is switched on and has begun by the scanline.
fn window_on_line(gameboy: &Gameboy, line: u8) -> (on: bool)
    ensures
        on == (bit_is_set(gameboy@.read_byte(LCDC as u16), 5) && gameboy@.read_byte(WY as u16)
            <= line),
{
    flag_set_at(gameboy.read_byte(0xFF40), 5) && gameboy.read_byte(0xFF4A) <= line
}

/// Computes the row of the map that the scanline shows.
fn get_map_y(gameboy: &Gameboy, line: u8) -> (y: u8)
    ensures
        y == map_y(gameboy@, line),
{
    if window_on_line(gameboy, line) {
        line - gameboy.read_byte(0xFF4A)
    } else {
        gameboy.read_byte(0xFF42).wrapping_add(line)
    }
}

/// Computes the column of the map that the pixel shows.
fn get_map_x(gameboy: &Gameboy, line: u8, pixel: u8) -> (x: u8)
    ensures
        x == map_x(gameboy@, line, pixel),
{
    let window_x = gameboy.read_byte(0xFF4B).wrapping_sub(7);
    if window_on_line(gameboy, line) && pixel >= window_x {
        pixel - window_x
    } else {
        pixel.wrapping_add(gameboy.read_byte(0xFF43))
    }
}

/// Selects the tile map of the scanline.
fn get_tile_map_base(gameboy: &Gameboy, line: u8) -> (base: u16)
    ensures
        base == tile_map_base(gameboy@, line),
        base == 0x9800 || base == 0x9C00,
{
    let control = gameboy.read_byte(0xFF40);
    let select: u8 = if window_on_line(gameboy, line) {
        6
    } else {
        3
    };
    if flag_set_at(control, select) {
        0x9C00
    } else {
        0x9800
    }
}

/// Computes the address of the data of a tile.
fn get_tile_data_address(gameboy: &Gameboy, tile_num: u8) -> (address: u16)
    ensures
        address == tile_data_address(gameboy@, tile_num),
        0x8000 <= address <= 0x97F0,
{
    if flag_set_at(gameboy.read_byte(0xFF40), 4) {
        0x8000 + (tile_num as u16) * 16
    } else if tile_num < 0x80 {
        0x8800 + (tile_num as u16 + 128) * 16
    } else {
        0x8800 + (tile_num as u16 - 128) * 16
    }
}

/// Computes the colour of a pixel of the background and window layer.
pub fn background_pixel(gameboy: &Gameboy, line: u8, pixel: u8) -> (color: u32)
    ensures
        color == background_color(gameboy@, line, pixel),
{
    let y_pos = get_map_y(gameboy, line);
    let x_pos = get_map_x(gameboy, line, pixel);
    let tilemap = get_tile_map_base(gameboy, line);
    let tile_row: u16 = (y_pos as u16 / 8) * 32;
    let tile_col: u16 = x_pos as u16 / 8;
    let tile_num = gameboy.read_byte(tilemap + tile_row + tile_col);
    let tile_location = get_tile_data_address(gameboy, tile_num);
    let row: u16 = tile_location + ((y_pos % 8) * 2) as u16;
    let data1 = gameboy.read_byte(row);
    let data2 = gameboy.read_byte(row + 1);
    let color_num = get_color_number(data1, data2, 7 - x_pos % 8);
    get_color(color_num, gameboy.read_byte(0xFF47))
}

impl PPU {
    /// A compositor whose framebuffer is all zero.
    pub fn new() -> (ppu: PPU)
        ensures
            ppu@.len() == 23040,
            forall|k: int| 0 <= k < 23040 ==> ppu@[k] == 0,
    {
        PPU { framebuffer: [0;23040] }
    }

    /// Renders one scanline from the state of the console.
    pub fn update(&mut self, gameboy: &Gameboy, current_scanline: u8)
        ensures
            final(self)@ == rendered(old(self)@, gameboy@, current_scanline),
    {
        let control = gameboy.read_byte(0xFF40);
        if current_scanline < 144 {
            if flag_set_at(control, 0) {
                self.render_tiles(gameboy, current_scanline);
            }
            if flag_set_at(control, 1) {
                self.render_sprites(gameboy, current_scanline);
            }
        }
    }

    /// Draws the background and window layer of a scanline.
    pub fn render_tiles(&mut self, gameboy: &Gameboy, current_scanline: u8)
        requires
            current_scanline < 144,
        ensures
            final(self)@ == with_background(old(self)@, gameboy@, current_scanline),
    {
        let start: usize = current_scanline as usize * 160;
        let mut pixel: u8 = 0;
        while pixel < 160
            invariant
                pixel <= 160,
                current_scanline < 144,
                start == current_scanline * 160,
                forall|k: int|
                    start <= k < start + pixel ==> self.framebuffer@[k] == background_color(
                        gameboy@,
                        current_scanline,
                        (k - start) as u8,
                    ),
                forall|k: int|
                    0 <= k < 23040 && !(start <= k < start + pixel) ==> self.framebuffer@[k] == old(
                        self,
                    ).framebuffer@[k],
            decreases 160 - pixel,
        {
            let color = background_pixel(gameboy, current_scanline, pixel);
            self.framebuffer[start + pixel as usize] = color;
            pixel += 1;
        }
        assert(self.framebuffer@ =~= with_background(
            old(self).framebuffer@,
            gameboy@,
            current_scanline,
        ));
    }

    /// Draws the sprites that have a row on a scanline.
    pub fn render_sprites(&mut self, gameboy: &Gameboy, current_scanline: u8)
        requires
            current_scanline < 144,
        ensures
            final(self)@ == with_sprites(old(self)@, gameboy@, current_scanline, 40),
    {
        let control = gameboy.read_byte(0xFF40);
        let y_size: i16 = if flag_set_at(control, 2) {
            16
        } else {
            8
        };
        let palette = gameboy.read_byte(0xFF48);
        let mut sprite: u16 = 0;
        while sprite < 40
            invariant
                sprite <= 40,
                current_scanline < 144,
                y_size == sprite_height(gameboy@),
                palette == gameboy@.read_byte(OBP0 as u16),
                self.framebuffer@ == with_sprites(
                    old(self).framebuffer@,
                    gameboy@,
                    current_scanline,
                    sprite as nat,
                ),
            decreases 40 - sprite,
        {
            let index: u16 = 0xFE00 + sprite * 4;
            let y_pos: i16 = gameboy.read_byte(index) as i16 - 16;
            let x_pos: i16 = gameboy.read_byte(index + 1) as i16 - 8;
            let tile_location = gameboy.read_byte(index + 2);
            let attributes = gameboy.read_byte(index + 3);
            let x_flip = flag_set_at(attributes, 5);
            let y_flip = flag_set_at(attributes, 6);
            let line = current_scanline as i16;
            if line >= y_pos && line < y_pos + y_size {
                let row: i16 = if y_flip {
                    y_size - 1 - (line - y_pos)
                } else {
                    line - y_pos
                };
                let data_address: u16 = 0x8000 + (tile_location as u16) * 16 + (row * 2) as u16;
                let data1 = gameboy.read_byte(data_address);
                let data2 = gameboy.read_byte(data_address + 1);
                let ghost before = self.framebuffer@;
                let mut tile_pixel: u8 = 0;
                while tile_pixel < 8
                    invariant
                        tile_pixel <= 8,
                        sprite < 40,
                        current_scanline < 144,
                        x_pos == sprite_left(gameboy@, sprite as int),
                        palette == gameboy@.read_byte(OBP0 as u16),
                        x_flip == bit_is_set(sprite_attribute(gameboy@, sprite as int, 3), 5),
                        data_address == 0x8000 + sprite_attribute(gameboy@, sprite as int, 2) * 16
                            + sprite_row(gameboy@, current_scanline, sprite as int) * 2,
                        data1 == gameboy@.read_byte(data_address),
                        data2 == gameboy@.read_byte((data_address + 1) as u16),
                        self.framebuffer@ == with_sprite_pixels(
                            before,
                            gameboy@,
                            current_scanline,
                            sprite as int,
                            tile_pixel as nat,
                        ),
                    decreases 8 - tile_pixel,
                {
                    let color_bit: u8 = if x_flip {
                        7 - tile_pixel
                    } else {
                        tile_pixel
                    };
                    let color_num = get_color_number(data1, data2, color_bit);
                    let color = get_color(color_num, palette);
                    let column: i16 = x_pos + 7 - tile_pixel as i16;
                    if color != WHITE && column >= 0 && column < 160 {
                        self.framebuffer[current_scanline as usize * 160 + column as usize] = color;
                    }
                    tile_pixel += 1;
                }
            }
            sprite += 1;
        }
    }
}

} // verus!
