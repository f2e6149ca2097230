//! Sprite composition: coverage, transparency, priority, palettes, flips
//! and the 8x16 mode.

use dmg_core::machine::Machine;

/// A machine idling on NOP / JR -2, with object palettes set apart:
/// OBP0 maps colour 1 to the light grey shade, OBP1 maps it to the dark.
fn sprite_machine() -> Machine {
    let mut cart = vec![0u8; 0x8000];
    cart[0x100] = 0x00;
    cart[0x101] = 0x18;
    cart[0x102] = 0xFE;
    let mut m = Machine::new(cart, None).unwrap();
    m.mmu.write_byte(0xFF47, 0xE4); // BGP: identity
    m.mmu.write_byte(0xFF48, 0xE4); // OBP0: colour 1 -> shade 1
    m.mmu.write_byte(0xFF49, 0xE8); // OBP1: colour 1 -> shade 2
    // Tile 1: first row all colour 1.
    m.mmu.write_byte(0x8010, 0xFF);
    m.mmu.write_byte(0x8011, 0x00);
    m
}

fn oam(m: &mut Machine, entry: u16, y: u8, x: u8, tile: u8, attr: u8) {
    let base = 0xFE00 + 4 * entry;
    m.mmu.write_byte(base, y);
    m.mmu.write_byte(base + 1, x);
    m.mmu.write_byte(base + 2, tile);
    m.mmu.write_byte(base + 3, attr);
}

const WHITE: u32 = 0xFFFFFFFF;
const LIGHT: u32 = 0xFFAAAAAA;
const DARK: u32 = 0xFF555555;

#[test]
fn sprite_draws_over_blank_background() {
    let mut m = sprite_machine();
    m.mmu.write_byte(0xFF40, 0x93); // objects on
    oam(&mut m, 0, 16, 8, 1, 0x00); // top-left corner, tile 1
    let frame = m.run_frame();
    for x in 0..8 {
        assert_eq!(frame[x], LIGHT);
    }
    assert_eq!(frame[8], WHITE); // past the sprite's width
    assert_eq!(frame[160], WHITE); // tile row 1 is transparent
}

#[test]
fn sprites_stay_off_without_enable() {
    let mut m = sprite_machine();
    m.mmu.write_byte(0xFF40, 0x91); // objects off
    oam(&mut m, 0, 16, 8, 1, 0x00);
    let frame = m.run_frame();
    assert_eq!(frame[0], WHITE);
}

#[test]
fn transparent_sprite_colour_shows_background() {
    let mut m = sprite_machine();
    m.mmu.write_byte(0xFF40, 0x93);
    oam(&mut m, 0, 16, 8, 0, 0x00); // tile 0 is blank: colour 0 everywhere
    let frame = m.run_frame();
    assert_eq!(frame[0], WHITE);
}

#[test]
fn priority_bit_defers_to_coloured_background() {
    let mut m = sprite_machine();
    m.mmu.write_byte(0xFF40, 0x93);
    // The background's first tile row is colour 1 as well.
    m.mmu.write_byte(0x9800, 0x01);
    oam(&mut m, 0, 16, 8, 1, 0x80); // behind-background priority
    let frame = m.run_frame();
    // Background row 0 is colour 1: the sprite defers.
    assert_eq!(frame[0], LIGHT);
    // Background row 1 is colour 0: the sprite row is transparent there
    // anyway, so the pixel stays white.
    assert_eq!(frame[160], WHITE);
}

#[test]
fn lower_x_wins_between_overlapping_sprites() {
    let mut m = sprite_machine();
    m.mmu.write_byte(0xFF40, 0x93);
    oam(&mut m, 0, 16, 9, 1, 0x00); // OBP0, one pixel right
    oam(&mut m, 1, 16, 8, 1, 0x10); // OBP1, further left: wins where both cover
    let frame = m.run_frame();
    // Column 1 is covered by both; the lower X (entry 1, OBP1) wins.
    assert_eq!(frame[1], DARK);
    // Column 0 is covered only by entry 1.
    assert_eq!(frame[0], DARK);
    // Column 8 is covered only by entry 0.
    assert_eq!(frame[8], LIGHT);
}

#[test]
fn oam_order_breaks_x_ties() {
    let mut m = sprite_machine();
    m.mmu.write_byte(0xFF40, 0x93);
    oam(&mut m, 0, 16, 8, 1, 0x00); // OBP0, first in OAM
    oam(&mut m, 1, 16, 8, 1, 0x10); // OBP1, same X
    let frame = m.run_frame();
    assert_eq!(frame[0], LIGHT);
}

#[test]
fn y_flip_samples_mirrored_row() {
    let mut m = sprite_machine();
    m.mmu.write_byte(0xFF40, 0x93);
    // Tile 2: only the last row holds colour 1.
    m.mmu.write_byte(0x802E, 0xFF);
    m.mmu.write_byte(0x802F, 0x00);
    oam(&mut m, 0, 16, 8, 2, 0x40); // Y flip: row 7 lands on line 0
    let frame = m.run_frame();
    assert_eq!(frame[0], LIGHT);
    assert_eq!(frame[160 * 7], WHITE);
}

#[test]
fn x_flip_samples_mirrored_column() {
    let mut m = sprite_machine();
    m.mmu.write_byte(0xFF40, 0x93);
    // Tile 2: first row, leftmost pixel only (bit 7).
    m.mmu.write_byte(0x8020, 0x80);
    m.mmu.write_byte(0x8021, 0x00);
    oam(&mut m, 0, 16, 8, 2, 0x20); // X flip: the pixel lands on column 7
    let frame = m.run_frame();
    assert_eq!(frame[0], WHITE);
    assert_eq!(frame[7], LIGHT);
}

#[test]
fn tall_sprites_pair_tiles() {
    let mut m = sprite_machine();
    m.mmu.write_byte(0xFF40, 0x97); // objects on, 8x16
    // Tile 5 row 0 holds colour 1; tile 4/5 form the pair.
    m.mmu.write_byte(0x8050, 0xFF);
    m.mmu.write_byte(0x8051, 0x00);
    oam(&mut m, 0, 16, 8, 4, 0x00);
    let frame = m.run_frame();
    // Line 8 samples the lower tile of the pair.
    assert_eq!(frame[160 * 8], LIGHT);
    assert_eq!(frame[0], WHITE);
}

#[test]
fn at_most_ten_sprites_per_line() {
    let mut m = sprite_machine();
    m.mmu.write_byte(0xFF40, 0x93);
    // Eleven sprites on line 0, at columns 0, 8, 16, ...; the eleventh
    // (entry 10, columns 80..87) is dropped by the scan cap.
    for e in 0..11u16 {
        oam(&mut m, e, 16, 8 + 8 * e as u8, 1, 0x00);
    }
    let frame = m.run_frame();
    for e in 0..10usize {
        assert_eq!(frame[8 * e], LIGHT);
    }
    assert_eq!(frame[80], WHITE);
}

#[test]
fn offscreen_sprite_is_hidden() {
    let mut m = sprite_machine();
    m.mmu.write_byte(0xFF40, 0x93);
    oam(&mut m, 0, 16, 0, 1, 0x00); // X = 0: fully off the left edge
    oam(&mut m, 1, 0, 8, 1, 0x00); // Y = 0: fully above the screen
    let frame = m.run_frame();
    assert_eq!(frame[0], WHITE);
}
