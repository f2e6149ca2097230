//! The register file on its own: pair views, flag encoding, and the
//! low-nibble masking of every write to F.

use dmg_core::cpu::CPU;
use dmg_core::machine::Machine;
use dmg_core::regs::Regs;

#[test]
fn reset_values() {
    let r = Regs::init();
    assert_eq!(r.pc(), 0x0100);
    assert_eq!(r.sp(), 0xFFFE);
    assert_eq!(r.a(), 0);
    assert_eq!(r.af(), 0);
    assert_eq!(r.bc(), 0);
}

#[test]
fn pairs_split_and_join() {
    let mut r = Regs::init();
    r.set_bc(0x1234);
    assert_eq!(r.b(), 0x12);
    assert_eq!(r.c(), 0x34);
    assert_eq!(r.bc(), 0x1234);
    r.set_de(0xABCD);
    assert_eq!(r.de(), 0xABCD);
    r.set_hl(0xFFFF);
    assert_eq!(r.h(), 0xFF);
    assert_eq!(r.l(), 0xFF);
}

#[test]
fn writes_to_f_mask_the_low_nibble() {
    let mut r = Regs::init();
    r.set_af(0xABCD);
    assert_eq!(r.af(), 0xABC0);
    assert_eq!(r.a(), 0xAB);

    r.set_flags(true, true, true, true);
    assert_eq!(r.af() & 0x00FF, 0x00F0);
    r.set_flags(false, false, false, false);
    assert_eq!(r.af() & 0x00FF, 0x0000);
}

#[test]
fn flag_setters_touch_one_bit() {
    let mut r = Regs::init();
    r.set_zflag(true);
    assert!(r.zflag() && !r.sflag() && !r.hflag() && !r.cflag());
    r.set_cflag(true);
    assert!(r.zflag() && r.cflag());
    r.set_zflag(false);
    assert!(!r.zflag() && r.cflag());
    r.set_sflag(true);
    r.set_hflag(true);
    assert!(r.sflag() && r.hflag() && r.cflag());
    assert_eq!(r.af() & 0x000F, 0);
}

#[test]
fn fetch_reads_at_pc_and_advances() {
    let mut cart = vec![0u8; 0x8000];
    cart[0x100] = 0x7E;
    cart[0x101] = 0x34;
    cart[0x102] = 0x12;
    let mut m = Machine::new(cart, None).unwrap();
    let op = m.cpu.fetch_ins_byte(&mut m.mmu);
    assert_eq!(op, 0x7E);
    assert_eq!(m.cpu.regs.pc(), 0x0101);
    let w = m.cpu.fetch_ins_word(&mut m.mmu);
    assert_eq!(w, 0x1234);
    assert_eq!(m.cpu.regs.pc(), 0x0103);
}

#[test]
fn fresh_processor_is_idle() {
    let c = CPU::init();
    assert!(!c.halted && !c.ime && !c.ei_pending);
    assert_eq!(c.regs.pc(), 0x0100);
}
