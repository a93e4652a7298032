use rust_game_boy_emulator::gameboy::Gameboy;
use rust_game_boy_emulator::ppu::{
    background_pixel, get_color, get_color_number, BLACK, DARK_GRAY, LIGHT_GRAY, PPU, WHITE,
};

const IDENTITY_PALETTE: u8 = 0b11_10_01_00;

fn console() -> Gameboy<'static> {
    let mut gameboy = Gameboy::default();
    gameboy.bus.memory[0xFF47] = IDENTITY_PALETTE;
    gameboy.bus.memory[0xFF48] = IDENTITY_PALETTE;
    gameboy
}

#[test]
fn colours_are_four_shades_of_gray() {
    assert_eq!(WHITE, 0xFFFF_FFFF);
    assert_eq!(LIGHT_GRAY, 0xCCCC_CCFF);
    assert_eq!(DARK_GRAY, 0x7777_77FF);
    assert_eq!(BLACK, 0x0000_00FF);
    assert_eq!(get_color(0, IDENTITY_PALETTE), WHITE);
    assert_eq!(get_color(1, IDENTITY_PALETTE), LIGHT_GRAY);
    assert_eq!(get_color(2, IDENTITY_PALETTE), DARK_GRAY);
    assert_eq!(get_color(3, IDENTITY_PALETTE), BLACK);
}

#[test]
fn a_palette_maps_each_colour_number_to_its_two_bits() {
    let palette = 0b00_01_10_11;
    assert_eq!(get_color(0, palette), BLACK);
    assert_eq!(get_color(1, palette), DARK_GRAY);
    assert_eq!(get_color(2, palette), LIGHT_GRAY);
    assert_eq!(get_color(3, palette), WHITE);
    assert_eq!(get_color(2, 0xFC), BLACK);
    assert_eq!(get_color(0, 0xFC), WHITE);
}

#[test]
fn colour_numbers_combine_the_two_bit_planes() {
    assert_eq!(get_color_number(0b1000_0000, 0b0000_0000, 7), 1);
    assert_eq!(get_color_number(0b0000_0000, 0b1000_0000, 7), 2);
    assert_eq!(get_color_number(0b1000_0000, 0b1000_0000, 7), 3);
    assert_eq!(get_color_number(0b1000_0000, 0b1000_0000, 6), 0);
    assert_eq!(get_color_number(0xFF, 0x00, 0), 1);
}

#[test]
fn a_new_framebuffer_is_all_zero() {
    let ppu = PPU::new();
    assert_eq!(ppu.framebuffer.len(), 160 * 144);
    assert!(ppu.framebuffer.iter().all(|pixel| *pixel == 0));
}

#[test]
fn the_background_is_drawn_into_one_row() {
    let mut gameboy = console();
    gameboy.bus.memory[0xFF40] = 0x11;
    // tile 1: row 2 has colours 3 2 1 0 3 2 1 0
    gameboy.bus.memory[0x8010 + 4] = 0b1010_1010;
    gameboy.bus.memory[0x8010 + 5] = 0b1100_1100;
    // the second tile of the first map row is tile 1
    gameboy.bus.memory[0x9801] = 1;
    let mut ppu = PPU::new();
    ppu.framebuffer = [7; 160 * 144];
    ppu.update(&gameboy, 2);
    let row = &ppu.framebuffer[2 * 160..3 * 160];
    assert_eq!(
        &row[8..16],
        &[BLACK, DARK_GRAY, LIGHT_GRAY, WHITE, BLACK, DARK_GRAY, LIGHT_GRAY, WHITE]
    );
    assert!(row[..8].iter().all(|pixel| *pixel == WHITE));
    assert!(row[16..].iter().all(|pixel| *pixel == WHITE));
    assert!(ppu.framebuffer[..2 * 160].iter().all(|pixel| *pixel == 7));
    assert!(ppu.framebuffer[3 * 160..].iter().all(|pixel| *pixel == 7));
    assert_eq!(background_pixel(&gameboy, 2, 9), DARK_GRAY);
}

#[test]
fn scrolling_moves_the_background() {
    let mut gameboy = console();
    gameboy.bus.memory[0xFF40] = 0x11;
    gameboy.bus.memory[0x8010] = 0xFF;
    gameboy.bus.memory[0x8011] = 0xFF;
    gameboy.bus.memory[0x9800 + 32 + 1] = 1;
    gameboy.bus.memory[0xFF42] = 8;
    gameboy.bus.memory[0xFF43] = 5;
    assert_eq!(background_pixel(&gameboy, 0, 2), WHITE);
    assert_eq!(background_pixel(&gameboy, 0, 3), BLACK);
    assert_eq!(background_pixel(&gameboy, 0, 10), BLACK);
    assert_eq!(background_pixel(&gameboy, 0, 11), WHITE);
    assert_eq!(background_pixel(&gameboy, 1, 3), WHITE);
    gameboy.bus.memory[0xFF42] = 0xFF;
    gameboy.bus.memory[0xFF43] = 0xFF;
    assert_eq!(background_pixel(&gameboy, 9, 9), BLACK);
}

#[test]
fn signed_tile_numbers_count_around_0x9000() {
    let mut gameboy = console();
    gameboy.bus.memory[0xFF40] = 0x01;
    gameboy.bus.memory[0x9000] = 0x80;
    gameboy.bus.memory[0x8FF0] = 0x80;
    gameboy.bus.memory[0x8FF1] = 0x80;
    gameboy.bus.memory[0x9801] = 0xFF;
    assert_eq!(background_pixel(&gameboy, 0, 0), LIGHT_GRAY);
    assert_eq!(background_pixel(&gameboy, 0, 8), BLACK);
    assert_eq!(background_pixel(&gameboy, 0, 9), WHITE);
}

#[test]
fn the_second_tile_map_is_selected_by_bit_three() {
    let mut gameboy = console();
    gameboy.bus.memory[0xFF40] = 0x19;
    gameboy.bus.memory[0x8010] = 0xFF;
    gameboy.bus.memory[0x9C00] = 1;
    assert_eq!(background_pixel(&gameboy, 0, 0), LIGHT_GRAY);
    gameboy.bus.memory[0xFF40] = 0x11;
    assert_eq!(background_pixel(&gameboy, 0, 0), WHITE);
}

#[test]
fn the_window_overlays_the_background_from_its_position() {
    let mut gameboy = console();
    gameboy.bus.memory[0xFF40] = 0x71;
    gameboy.bus.memory[0x8010] = 0xFF;
    gameboy.bus.memory[0x8011] = 0xFF;
    gameboy.bus.memory[0x9C00] = 1;
    gameboy.bus.memory[0xFF4A] = 10;
    gameboy.bus.memory[0xFF4B] = 7 + 20;
    assert_eq!(background_pixel(&gameboy, 9, 20), WHITE);
    assert_eq!(background_pixel(&gameboy, 10, 19), WHITE);
    assert_eq!(background_pixel(&gameboy, 10, 20), BLACK);
    assert_eq!(background_pixel(&gameboy, 10, 27), BLACK);
    assert_eq!(background_pixel(&gameboy, 10, 28), WHITE);
    assert_eq!(background_pixel(&gameboy, 11, 20), WHITE);
}

#[test]
fn nothing_is_drawn_when_both_layers_are_off_or_in_the_vertical_blank() {
    let mut gameboy = console();
    let mut ppu = PPU::new();
    ppu.framebuffer = [9; 160 * 144];
    gameboy.bus.memory[0xFF40] = 0x90;
    ppu.update(&gameboy, 5);
    assert!(ppu.framebuffer.iter().all(|pixel| *pixel == 9));
    gameboy.bus.memory[0xFF40] = 0x93;
    ppu.update(&gameboy, 144);
    ppu.update(&gameboy, 153);
    ppu.update(&gameboy, 255);
    assert!(ppu.framebuffer.iter().all(|pixel| *pixel == 9));
}

fn sprite(gameboy: &mut Gameboy, index: usize, y: u8, x: u8, tile: u8, attributes: u8) {
    gameboy.bus.memory[0xFE00 + index * 4] = y;
    gameboy.bus.memory[0xFE00 + index * 4 + 1] = x;
    gameboy.bus.memory[0xFE00 + index * 4 + 2] = tile;
    gameboy.bus.memory[0xFE00 + index * 4 + 3] = attributes;
}

#[test]
fn a_sprite_is_drawn_at_its_position_with_white_left_out() {
    let mut gameboy = console();
    gameboy.bus.memory[0xFF40] = 0x82;
    // tile 2, row 1: colours 3 2 1 0 0 0 0 1
    gameboy.bus.memory[0x8020 + 2] = 0b1010_0001;
    gameboy.bus.memory[0x8020 + 3] = 0b1100_0000;
    sprite(&mut gameboy, 0, 16 + 50, 8 + 30, 2, 0);
    let mut ppu = PPU::new();
    ppu.update(&gameboy, 51);
    let row = &ppu.framebuffer[51 * 160..52 * 160];
    assert_eq!(&row[30..38], &[BLACK, DARK_GRAY, LIGHT_GRAY, 0, 0, 0, 0, LIGHT_GRAY]);
    assert!(row[..30].iter().all(|pixel| *pixel == 0));
    assert!(row[38..].iter().all(|pixel| *pixel == 0));
    ppu.update(&gameboy, 50);
    ppu.update(&gameboy, 58);
    assert!(ppu.framebuffer[50 * 160..51 * 160].iter().all(|pixel| *pixel == 0));
    assert!(ppu.framebuffer[58 * 160..59 * 160].iter().all(|pixel| *pixel == 0));
}

#[test]
fn sprites_flip_in_both_directions() {
    let mut gameboy = console();
    gameboy.bus.memory[0xFF40] = 0x82;
    gameboy.bus.memory[0x8020] = 0b1000_0000;
    gameboy.bus.memory[0x8021] = 0b1000_0000;
    sprite(&mut gameboy, 3, 16, 8, 2, 0x20);
    let mut ppu = PPU::new();
    ppu.update(&gameboy, 0);
    assert_eq!(ppu.framebuffer[7], BLACK);
    assert_eq!(ppu.framebuffer[0], 0);
    sprite(&mut gameboy, 3, 16, 8, 2, 0x40);
    let mut ppu = PPU::new();
    ppu.update(&gameboy, 0);
    assert!(ppu.framebuffer[..160].iter().all(|pixel| *pixel == 0));
    ppu.update(&gameboy, 7);
    assert_eq!(ppu.framebuffer[7 * 160], BLACK);
}

#[test]
fn sprites_are_clipped_at_the_edges_of_the_screen() {
    let mut gameboy = console();
    gameboy.bus.memory[0xFF40] = 0x82;
    gameboy.bus.memory[0x8000] = 0xFF;
    gameboy.bus.memory[0x8001] = 0xFF;
    for i in 0..40 {
        sprite(&mut gameboy, i, 0, 0, 1, 0);
    }
    sprite(&mut gameboy, 0, 16, 4, 0, 0);
    sprite(&mut gameboy, 1, 16, 8 + 156, 0, 0);
    sprite(&mut gameboy, 2, 16, 0, 0, 0);
    sprite(&mut gameboy, 39, 16, 255, 0, 0);
    let mut ppu = PPU::new();
    ppu.update(&gameboy, 0);
    let row = &ppu.framebuffer[..160];
    assert!(row[..4].iter().all(|pixel| *pixel == BLACK));
    assert!(row[4..156].iter().all(|pixel| *pixel == 0));
    assert!(row[156..].iter().all(|pixel| *pixel == BLACK));
    assert!(ppu.framebuffer[160..].iter().all(|pixel| *pixel == 0));
}

#[test]
fn tall_sprites_cover_sixteen_scanlines_and_later_sprites_lie_on_top() {
    let mut gameboy = console();
    gameboy.bus.memory[0xFF40] = 0x86;
    gameboy.bus.memory[0x8000 + 30] = 0xFF;
    gameboy.bus.memory[0x8010] = 0x00;
    gameboy.bus.memory[0x8011] = 0xFF;
    for i in 0..40 {
        sprite(&mut gameboy, i, 0, 0, 0, 0);
    }
    sprite(&mut gameboy, 0, 16, 8, 0, 0);
    sprite(&mut gameboy, 1, 16 + 15, 8 + 4, 1, 0);
    let mut ppu = PPU::new();
    ppu.update(&gameboy, 15);
    let row = &ppu.framebuffer[15 * 160..16 * 160];
    assert_eq!(&row[..4], &[LIGHT_GRAY; 4]);
    assert_eq!(&row[4..12], &[DARK_GRAY; 8]);
    assert_eq!(row[12], 0);
    gameboy.bus.memory[0xFF40] = 0x82;
    let mut ppu = PPU::new();
    ppu.update(&gameboy, 15);
    assert_eq!(&ppu.framebuffer[15 * 160..15 * 160 + 4], &[0; 4]);
}

#[test]
fn sprites_are_drawn_over_the_background() {
    let mut gameboy = console();
    gameboy.bus.memory[0xFF40] = 0x93;
    gameboy.bus.memory[0x8010] = 0xF0;
    gameboy.bus.memory[0x8011] = 0xF0;
    for i in 0..40 {
        sprite(&mut gameboy, i, 0, 0, 0, 0);
    }
    sprite(&mut gameboy, 5, 16, 8, 1, 0);
    let mut ppu = PPU::new();
    ppu.update(&gameboy, 0);
    assert_eq!(&ppu.framebuffer[..4], &[BLACK; 4]);
    assert_eq!(&ppu.framebuffer[4..8], &[WHITE; 4]);
}
