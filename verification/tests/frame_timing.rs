//! The machine as a whole: power-up state, the scanline tour over a full
//! frame, vertical-blank delivery and pixel composition.

use dmg_core::machine::Machine;

/// A cartridge whose program is NOP at 0x0100 and JR -2 after it: the CPU
/// idles harmlessly while the PPU runs.
fn idle_machine() -> Machine {
    let mut cart = vec![0u8; 0x8000];
    cart[0x100] = 0x00;
    cart[0x101] = 0x18;
    cart[0x102] = 0xFE;
    Machine::new(cart, None).unwrap()
}

#[test]
fn power_up_register_state() {
    let m = idle_machine();
    assert_eq!(m.cpu.regs.pc(), 0x0100);
    assert_eq!(m.cpu.regs.sp(), 0xFFFE);
    assert_eq!(m.cpu.regs.a(), 0x01);
    assert_eq!(m.cpu.regs.af() & 0x00FF, 0x00B0);
    assert_eq!(m.cpu.regs.bc(), 0x0013);
    assert_eq!(m.cpu.regs.de(), 0x00D8);
    assert_eq!(m.cpu.regs.hl(), 0x014D);
}

#[test]
fn ly_visits_each_line_once_per_frame() {
    let mut m = idle_machine();
    let mut total: u32 = 0;
    let mut seen: Vec<u8> = vec![m.mmu.read_byte(0xFF44)];
    while total < 70224 {
        let t = m.step();
        total += t as u32;
        let ly = m.mmu.read_byte(0xFF44);
        if *seen.last().unwrap() != ly {
            seen.push(ly);
        }
    }
    // One full frame: 0 through 153, each exactly once, then back to 0.
    let mut expect: Vec<u8> = (0..=153).collect();
    expect.push(0);
    assert_eq!(seen, expect);
}

#[test]
fn run_frame_stops_at_vblank_entry() {
    let mut m = idle_machine();
    let frame = m.run_frame();
    assert_eq!(frame.len(), 160 * 144);
    assert_eq!(m.gpu.mode, 1);
    assert_eq!(m.gpu.scan_line, 144);
    assert_eq!(m.mmu.read_byte(0xFF44), 144);
    // The VBlank interrupt was requested on entry.
    assert_eq!(m.mmu.read_byte(0xFF0F) & 0x01, 0x01);
}

#[test]
fn blank_tiles_render_white() {
    let mut m = idle_machine();
    let frame = m.run_frame();
    assert_eq!(frame[0], 0xFFFFFFFF);
    assert_eq!(frame[160 * 143 + 159], 0xFFFFFFFF);
}

#[test]
fn background_pixels_follow_tile_data() {
    let mut m = idle_machine();
    // Palette 3-2-1-0, tile map entry 0 -> tile 1, whose first row has the
    // low bitplane set: colour index 1 everywhere in row 0.
    m.mmu.write_byte(0xFF47, 0xE4);
    m.mmu.write_byte(0x9800, 0x01);
    m.mmu.write_byte(0x8010, 0xFF);
    m.mmu.write_byte(0x8011, 0x00);
    let frame = m.run_frame();
    for x in 0..8 {
        assert_eq!(frame[x], 0xFFAAAAAA);
    }
    // Row 1 of the tile is blank: colour 0.
    assert_eq!(frame[160], 0xFFFFFFFF);
    // The next tile column comes from map entry 1, still tile 0.
    assert_eq!(frame[8], 0xFFFFFFFF);
}

#[test]
fn background_scroll_shifts_sampling() {
    let mut m = idle_machine();
    m.mmu.write_byte(0xFF47, 0xE4);
    m.mmu.write_byte(0x9800, 0x01);
    m.mmu.write_byte(0x8010, 0xFF);
    m.mmu.write_byte(0x8011, 0x00);
    // Scroll four pixels right: the tile's row lands on columns 252..255
    // of the background, so screen columns 0..3 sample columns 4..7.
    m.mmu.write_byte(0xFF43, 0x04);
    let frame = m.run_frame();
    for x in 0..4 {
        assert_eq!(frame[x], 0xFFAAAAAA);
    }
    assert_eq!(frame[4], 0xFFFFFFFF);
}

#[test]
fn window_overlays_background() {
    let mut m = idle_machine();
    m.mmu.write_byte(0xFF47, 0xE4);
    // Background tile map stays all zeroes (white); the window map at
    // 0x9C00 selects tile 2, whose first row is colour 2.
    m.mmu.write_byte(0x8020, 0x00);
    m.mmu.write_byte(0x8021, 0xFF);
    m.mmu.write_byte(0x9C00, 0x02);
    // LCDC: base 0x91, window on (bit 5), window map 0x9C00 (bit 6).
    m.mmu.write_byte(0xFF40, 0x91 | 0x20 | 0x40);
    m.mmu.write_byte(0xFF4A, 0x00); // WY
    m.mmu.write_byte(0xFF4B, 0x07); // WX: window starts at column 0
    let frame = m.run_frame();
    assert_eq!(frame[0], 0xFF555555);
    assert_eq!(frame[7], 0xFF555555);
}

#[test]
fn lyc_match_sets_coincidence_and_interrupt() {
    let mut m = idle_machine();
    m.mmu.write_byte(0xFF45, 0x05); // LYC = 5
    m.mmu.write_byte(0xFF41, 0x40); // enable the LYC STAT source
    let mut total: u32 = 0;
    while total < 70224 {
        let t = m.step();
        total += t as u32;
        if m.mmu.read_byte(0xFF44) == 5 {
            break;
        }
    }
    assert_eq!(m.mmu.read_byte(0xFF44), 5);
    assert_eq!(m.mmu.read_byte(0xFF41) & 0x04, 0x04);
    assert_eq!(m.mmu.read_byte(0xFF0F) & 0x02, 0x02);
}

#[test]
fn clock_accumulates_cycles() {
    let mut m = idle_machine();
    let mut total: u128 = 0;
    for _ in 0..50 {
        total += m.step() as u128;
    }
    assert_eq!(m.clock.cycles, total);
}

#[test]
fn frames_keep_their_length() {
    let mut m = idle_machine();
    let f1 = m.run_frame();
    let f2 = m.run_frame();
    assert_eq!(f1.len(), 160 * 144);
    assert_eq!(f2.len(), 160 * 144);
    assert_eq!(m.gpu.scan_line, 144);
}
