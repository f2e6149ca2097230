//! The address map: echo RAM, the ROM region, the unused strip, the I/O
//! registers with write behaviour, DMA and the boot-ROM overlay.

use dmg_core::machine::Machine;
use dmg_core::mmu::{EmuError, MMU};

fn machine() -> Machine {
    Machine::new(vec![0u8; 0x8000], None).unwrap()
}

#[test]
fn echo_ram_mirrors_both_ways() {
    let mut m = machine();
    m.mmu.write_byte(0xC123, 0xAB);
    assert_eq!(m.mmu.read_byte(0xE123), 0xAB);
    assert_eq!(m.mmu.read_byte(0xC123), 0xAB);
    m.mmu.write_byte(0xE500, 0x77);
    assert_eq!(m.mmu.read_byte(0xC500), 0x77);
    assert_eq!(m.mmu.read_byte(0xE500), 0x77);
    m.mmu.write_byte(0xDDFF, 0x12);
    assert_eq!(m.mmu.read_byte(0xFDFF), 0x12);
}

#[test]
fn word_round_trips_in_ram() {
    let mut m = machine();
    m.mmu.write_word(0xC000, 0xBEEF);
    assert_eq!(m.mmu.read_word(0xC000), 0xBEEF);
    assert_eq!(m.mmu.read_byte(0xC000), 0xEF);
    assert_eq!(m.mmu.read_byte(0xC001), 0xBE);
    m.mmu.write_word(0xFF80, 0x1234);
    assert_eq!(m.mmu.read_word(0xFF80), 0x1234);
}

#[test]
fn rom_region_ignores_writes() {
    let mut cart = vec![0u8; 0x8000];
    cart[0x1234] = 0x99;
    let mut m = Machine::new(cart, None).unwrap();
    m.mmu.write_byte(0x1234, 0x55);
    assert_eq!(m.mmu.read_byte(0x1234), 0x99);
}

#[test]
fn unused_strip_reads_ff() {
    let mut m = machine();
    assert_eq!(m.mmu.read_byte(0xFEA5), 0xFF);
    m.mmu.write_byte(0xFEA5, 0x12);
    assert_eq!(m.mmu.read_byte(0xFEA5), 0xFF);
}

#[test]
fn ly_write_resets_to_zero() {
    let mut m = machine();
    m.mmu.set_ly(77);
    assert_eq!(m.mmu.read_byte(0xFF44), 77);
    m.mmu.write_byte(0xFF44, 123);
    assert_eq!(m.mmu.read_byte(0xFF44), 0);
}

#[test]
fn stat_write_keeps_ppu_bits() {
    let mut m = machine();
    m.mmu.set_stat_mode(3);
    m.mmu.write_byte(0xFF41, 0xFF);
    let stat = m.mmu.read_byte(0xFF41);
    assert_eq!(stat & 0x07, 0x03);
    assert_eq!(stat & 0xF8, 0xF8);
}

#[test]
fn vram_blocked_during_mode_three() {
    let mut m = machine();
    m.mmu.write_byte(0x8000, 0x11);
    assert_eq!(m.mmu.read_byte(0x8000), 0x11);
    m.mmu.set_stat_mode(3);
    m.mmu.write_byte(0x8000, 0x22);
    assert_eq!(m.mmu.read_byte(0x8000), 0x11);
    m.mmu.set_stat_mode(0);
    m.mmu.write_byte(0x8000, 0x22);
    assert_eq!(m.mmu.read_byte(0x8000), 0x22);
}

#[test]
fn oam_blocked_during_scan_and_draw() {
    let mut m = machine();
    m.mmu.set_stat_mode(2);
    m.mmu.write_byte(0xFE00, 0x44);
    assert_eq!(m.mmu.read_byte(0xFE00), 0x00);
    m.mmu.set_stat_mode(0);
    m.mmu.write_byte(0xFE00, 0x44);
    assert_eq!(m.mmu.read_byte(0xFE00), 0x44);
}

#[test]
fn dma_copies_block_into_oam() {
    let mut m = machine();
    for i in 0..160u16 {
        m.mmu.write_byte(0xC000 + i, (i as u8).wrapping_mul(3));
    }
    m.mmu.write_byte(0xFF46, 0xC0);
    for i in 0..160u16 {
        assert_eq!(m.mmu.read_byte(0xFE00 + i), (i as u8).wrapping_mul(3));
    }
    assert_eq!(m.mmu.read_byte(0xFF46), 0xC0);
}

#[test]
fn boot_overlay_unmaps_on_latch_write() {
    let mut cart = vec![0u8; 0x8000];
    cart[0x0000] = 0x77;
    let mut boot = vec![0u8; 0x100];
    boot[0x0000] = 0xAA;
    let mut m = Machine::new(cart, Some(boot)).unwrap();
    assert_eq!(m.cpu.regs.pc(), 0x0000);
    assert_eq!(m.mmu.read_byte(0x0000), 0xAA);
    m.mmu.write_byte(0xFF50, 0x01);
    assert_eq!(m.mmu.read_byte(0x0000), 0x77);
    // The latch does not re-arm.
    m.mmu.write_byte(0xFF50, 0x00);
    assert_eq!(m.mmu.read_byte(0x0000), 0x77);
}

#[test]
fn store_accumulator_reaches_echo() {
    // LD A,0x42; LD (0xC000),A
    let mut cart = vec![0u8; 0x8000];
    cart[0x100] = 0x3E;
    cart[0x101] = 0x42;
    cart[0x102] = 0xEA;
    cart[0x103] = 0x00;
    cart[0x104] = 0xC0;
    let mut m = Machine::new(cart, None).unwrap();
    m.step();
    m.step();
    assert_eq!(m.mmu.read_byte(0xC000), 0x42);
    assert_eq!(m.mmu.read_byte(0xE000), 0x42);
}

#[test]
fn high_page_loads() {
    // LD A,0x3C; LDH (0x80),A; LDH A,(0x80)
    let mut cart = vec![0u8; 0x8000];
    let prog = [0x3E, 0x3C, 0xE0, 0x80, 0x3E, 0x00, 0xF0, 0x80];
    for (i, b) in prog.iter().enumerate() {
        cart[0x100 + i] = *b;
    }
    let mut m = Machine::new(cart, None).unwrap();
    for _ in 0..4 {
        m.step();
    }
    assert_eq!(m.mmu.read_byte(0xFF80), 0x3C);
    assert_eq!(m.cpu.regs.a(), 0x3C);
}

#[test]
fn short_cartridge_is_rejected() {
    let r = Machine::new(vec![0u8; 100], None);
    assert!(r.is_err());
    match r {
        Err(e) => assert_eq!(e.message(), "cartridge image shorter than 32 KiB"),
        Ok(_) => unreachable!(),
    }
}

#[test]
fn cart_init_stamps_header() {
    let mut mmu = MMU::init(vec![0u8; 0x8000], None).unwrap();
    mmu.cart_init();
    assert_eq!(mmu.read_byte(0x0104), 0xCE);
    assert_eq!(mmu.read_byte(0x0105), 0xED);
    assert_eq!(mmu.read_byte(0x0133), 0x3E);
    assert_eq!(mmu.read_byte(0x0143), 0x80);
    assert_eq!(mmu.read_byte(0x014A), 0x01);
    assert_eq!(mmu.read_byte(0x014D), 0x01);
    assert_eq!(mmu.read_byte(0x0103), 0x00);
}

#[test]
fn mmu_error_variant() {
    let r = MMU::init(vec![0u8; 0x7FFF], None);
    assert!(matches!(r, Err(EmuError::InvalidCartridge)));
}

#[test]
fn word_access_wraps_address_space() {
    let mut m = machine();
    m.mmu.write_byte(0xFFFF, 0x12);
    let w = m.mmu.read_word(0xFFFF);
    // The high byte comes from address 0x0000, which reads cartridge ROM.
    assert_eq!(w & 0x00FF, 0x0012);
    assert_eq!(w >> 8, 0x00);
}

#[test]
fn boot_rom_executes_from_zero() {
    let mut cart = vec![0u8; 0x8000];
    cart[0x0000] = 0x00; // the cartridge starts with NOP
    let mut boot = vec![0u8; 0x100];
    boot[0x0000] = 0x3E; // LD A,0x55
    boot[0x0001] = 0x55;
    let mut m = Machine::new(cart, Some(boot)).unwrap();
    m.step();
    assert_eq!(m.cpu.regs.a(), 0x55);
    assert_eq!(m.cpu.regs.pc(), 0x0002);
}
