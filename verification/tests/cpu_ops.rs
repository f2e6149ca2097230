//! Arithmetic, logic and rotate instructions: results and flags.

use dmg_core::machine::Machine;

/// A machine around a flat 32 KiB cartridge holding `program` at 0x0100.
fn machine_with(program: &[u8]) -> Machine {
    let mut cart = vec![0u8; 0x8000];
    for (i, b) in program.iter().enumerate() {
        cart[0x100 + i] = *b;
    }
    Machine::new(cart, None).unwrap()
}

fn flags(m: &Machine) -> (bool, bool, bool, bool) {
    (
        m.cpu.regs.zflag(),
        m.cpu.regs.sflag(),
        m.cpu.regs.hflag(),
        m.cpu.regs.cflag(),
    )
}

#[test]
fn ld_r_n_loads_operand() {
    // LD B,n; LD C,n; LD D,n; LD E,n; LD H,n; LD L,n; LD A,n
    let mut m = machine_with(&[
        0x06, 0x11, 0x0E, 0x22, 0x16, 0x33, 0x1E, 0x44, 0x26, 0x55, 0x2E, 0x66, 0x3E, 0x77,
    ]);
    for _ in 0..7 {
        let t = m.step();
        assert_eq!(t, 8);
    }
    assert_eq!(m.cpu.regs.b(), 0x11);
    assert_eq!(m.cpu.regs.c(), 0x22);
    assert_eq!(m.cpu.regs.d(), 0x33);
    assert_eq!(m.cpu.regs.e(), 0x44);
    assert_eq!(m.cpu.regs.h(), 0x55);
    assert_eq!(m.cpu.regs.l(), 0x66);
    assert_eq!(m.cpu.regs.a(), 0x77);
}

#[test]
fn inc_ff_wraps_and_sets_flags() {
    // LD A,0xFF; INC A — Z=1, H=1, N=0, C untouched (1 from power-up F=0xB0).
    let mut m = machine_with(&[0x3E, 0xFF, 0x3C]);
    m.step();
    m.step();
    assert_eq!(m.cpu.regs.a(), 0x00);
    assert_eq!(flags(&m), (true, false, true, true));
}

#[test]
fn dec_zero_wraps_and_sets_flags() {
    // LD A,0x00; DEC A — result 0xFF, Z=0, N=1, H=1, C untouched.
    let mut m = machine_with(&[0x3E, 0x00, 0x3D]);
    m.step();
    m.step();
    assert_eq!(m.cpu.regs.a(), 0xFF);
    assert_eq!(flags(&m), (false, true, true, true));
}

#[test]
fn add_a_ff_to_one_carries() {
    // LD A,0x01; ADD A,0xFF — A=0, Z=1, H=1, C=1.
    let mut m = machine_with(&[0x3E, 0x01, 0xC6, 0xFF]);
    m.step();
    m.step();
    assert_eq!(m.cpu.regs.a(), 0x00);
    assert_eq!(flags(&m), (true, false, true, true));
}

#[test]
fn add_hl_bc_half_carry() {
    // LD HL,0x0FFF; LD BC,0x0001; ADD HL,BC — HL=0x1000, H=1, C=0, Z untouched.
    let mut m = machine_with(&[0x21, 0xFF, 0x0F, 0x01, 0x01, 0x00, 0x09]);
    let z_before = m.cpu.regs.zflag();
    m.step();
    m.step();
    m.step();
    assert_eq!(m.cpu.regs.hl(), 0x1000);
    let (z, n, h, c) = flags(&m);
    assert_eq!(z, z_before);
    assert!(!n && h && !c);
}

#[test]
fn add_a_a_with_high_bit() {
    // LD A,0x80; ADD A,A — A=0, Z=1, N=0, H=0, C=1.
    let mut m = machine_with(&[0x3E, 0x80, 0x87]);
    m.step();
    m.step();
    assert_eq!(m.cpu.regs.a(), 0x00);
    assert_eq!(flags(&m), (true, false, false, true));
}

#[test]
fn sub_with_borrow() {
    // LD A,0x10; SUB 0x20 — A=0xF0, N=1, C=1 (full borrow), H=0, Z=0.
    let mut m = machine_with(&[0x3E, 0x10, 0xD6, 0x20]);
    m.step();
    m.step();
    assert_eq!(m.cpu.regs.a(), 0xF0);
    assert_eq!(flags(&m), (false, true, false, true));
}

#[test]
fn sbc_uses_carry() {
    // LD A,0x10; SUB 0x20 (sets C); LD A,0x05; SBC 0x01 — 5 - 1 - 1 = 3.
    let mut m = machine_with(&[0x3E, 0x10, 0xD6, 0x20, 0x3E, 0x05, 0xDE, 0x01]);
    for _ in 0..4 {
        m.step();
    }
    assert_eq!(m.cpu.regs.a(), 0x03);
}

#[test]
fn and_or_xor_cp_flags() {
    // LD A,0x0F; AND 0xF0 — zero, H set.
    let mut m = machine_with(&[0x3E, 0x0F, 0xE6, 0xF0]);
    m.step();
    m.step();
    assert_eq!(m.cpu.regs.a(), 0x00);
    assert_eq!(flags(&m), (true, false, true, false));

    // LD A,0x0F; OR 0xF0 — 0xFF, all clear but none.
    let mut m = machine_with(&[0x3E, 0x0F, 0xF6, 0xF0]);
    m.step();
    m.step();
    assert_eq!(m.cpu.regs.a(), 0xFF);
    assert_eq!(flags(&m), (false, false, false, false));

    // LD A,0xFF; XOR 0xFF — zero.
    let mut m = machine_with(&[0x3E, 0xFF, 0xEE, 0xFF]);
    m.step();
    m.step();
    assert_eq!(m.cpu.regs.a(), 0x00);
    assert_eq!(flags(&m), (true, false, false, false));

    // LD A,0x42; CP 0x42 — A kept, Z=1, N=1.
    let mut m = machine_with(&[0x3E, 0x42, 0xFE, 0x42]);
    m.step();
    m.step();
    assert_eq!(m.cpu.regs.a(), 0x42);
    assert_eq!(flags(&m), (true, true, false, false));
}

#[test]
fn daa_adjusts_bcd_addition() {
    // 0x15 + 0x27 = 0x3C; DAA corrects to 0x42.
    let mut m = machine_with(&[0x3E, 0x15, 0xC6, 0x27, 0x27]);
    m.step();
    m.step();
    m.step();
    assert_eq!(m.cpu.regs.a(), 0x42);
    let (z, _, h, c) = flags(&m);
    assert!(!z && !h && !c);

    // 0x90 + 0x90 = 0x20 with carry; DAA corrects to 0x80 and keeps C.
    let mut m = machine_with(&[0x3E, 0x90, 0xC6, 0x90, 0x27]);
    m.step();
    m.step();
    m.step();
    assert_eq!(m.cpu.regs.a(), 0x80);
    assert!(m.cpu.regs.cflag());
}

#[test]
fn rotates_through_accumulator() {
    // LD A,0x85; RLCA — 0x0B, C=1.
    let mut m = machine_with(&[0x3E, 0x85, 0x07]);
    m.step();
    m.step();
    assert_eq!(m.cpu.regs.a(), 0x0B);
    assert!(m.cpu.regs.cflag());
    assert!(!m.cpu.regs.zflag());

    // LD A,0x01; RRCA — 0x80, C=1.
    let mut m = machine_with(&[0x3E, 0x01, 0x0F]);
    m.step();
    m.step();
    assert_eq!(m.cpu.regs.a(), 0x80);
    assert!(m.cpu.regs.cflag());

    // SCF; LD A,0x00; RRA — carry rotates into bit 7.
    let mut m = machine_with(&[0x37, 0x3E, 0x00, 0x1F]);
    m.step();
    m.step();
    m.step();
    assert_eq!(m.cpu.regs.a(), 0x80);
    assert!(!m.cpu.regs.cflag());
}

#[test]
fn cpl_scf_ccf() {
    let mut m = machine_with(&[0x3E, 0x0F, 0x2F]);
    m.step();
    m.step();
    assert_eq!(m.cpu.regs.a(), 0xF0);
    assert!(m.cpu.regs.sflag() && m.cpu.regs.hflag());

    let mut m = machine_with(&[0x37, 0x3F]);
    m.step();
    assert!(m.cpu.regs.cflag());
    m.step();
    assert!(!m.cpu.regs.cflag());
}

#[test]
fn cb_page_shifts_and_bits() {
    // LD A,0x01; SLA A — 0x02.
    let mut m = machine_with(&[0x3E, 0x01, 0xCB, 0x27]);
    m.step();
    let t = m.step();
    assert_eq!(t, 8);
    assert_eq!(m.cpu.regs.a(), 0x02);

    // LD A,0xF0; SWAP A — 0x0F.
    let mut m = machine_with(&[0x3E, 0xF0, 0xCB, 0x37]);
    m.step();
    m.step();
    assert_eq!(m.cpu.regs.a(), 0x0F);

    // LD A,0x01; BIT 0,A — Z=0, H=1; then BIT 1,A — Z=1.
    let mut m = machine_with(&[0x3E, 0x01, 0xCB, 0x47, 0xCB, 0x4F]);
    m.step();
    m.step();
    assert!(!m.cpu.regs.zflag() && m.cpu.regs.hflag());
    m.step();
    assert!(m.cpu.regs.zflag());

    // LD A,0xFF; RES 0,A — 0xFE; SET 7 on 0x00 via LD B.
    let mut m = machine_with(&[0x3E, 0xFF, 0xCB, 0x87, 0x06, 0x00, 0xCB, 0xF8]);
    m.step();
    m.step();
    assert_eq!(m.cpu.regs.a(), 0xFE);
    m.step();
    m.step();
    assert_eq!(m.cpu.regs.b(), 0x80);
}

#[test]
fn cb_ops_on_memory_at_hl() {
    // LD HL,0xC000; LD (HL),0x81; RLC (HL) — 0x03 with carry out.
    let mut m = machine_with(&[0x21, 0x00, 0xC0, 0x36, 0x81, 0xCB, 0x06]);
    m.step();
    m.step();
    let t = m.step();
    assert_eq!(t, 16);
    assert_eq!(m.mmu.read_byte(0xC000), 0x03);
    assert!(m.cpu.regs.cflag());
}

#[test]
fn inc_dec_memory_at_hl() {
    // LD HL,0xC000; INC (HL); DEC (HL); DEC (HL)
    let mut m = machine_with(&[0x21, 0x00, 0xC0, 0x34, 0x35, 0x35]);
    m.step();
    m.step();
    assert_eq!(m.mmu.read_byte(0xC000), 1);
    m.step();
    assert_eq!(m.mmu.read_byte(0xC000), 0);
    assert!(m.cpu.regs.zflag());
    m.step();
    assert_eq!(m.mmu.read_byte(0xC000), 0xFF);
}

#[test]
fn add_sp_signed_and_ld_hl_sp() {
    // LD SP,0xFFF8; ADD SP,0x08 — SP=0x0000 of low byte? 0xFFF8+8=0x10000 wraps to 0.
    let mut m = machine_with(&[0x31, 0xF8, 0xFF, 0xE8, 0x08]);
    m.step();
    m.step();
    assert_eq!(m.cpu.regs.sp(), 0x0000);
    let (z, n, h, c) = (
        m.cpu.regs.zflag(),
        m.cpu.regs.sflag(),
        m.cpu.regs.hflag(),
        m.cpu.regs.cflag(),
    );
    assert!(!z && !n && h && c);

    // LD SP,0x1000; LD HL,SP-1 — HL=0x0FFF, SP untouched.
    let mut m = machine_with(&[0x31, 0x00, 0x10, 0xF8, 0xFF]);
    m.step();
    m.step();
    assert_eq!(m.cpu.regs.hl(), 0x0FFF);
    assert_eq!(m.cpu.regs.sp(), 0x1000);
}

#[test]
fn undefined_opcode_is_quiet() {
    // 0xD3 is undefined: one machine cycle, nothing changes but PC.
    let mut m = machine_with(&[0xD3]);
    let a = m.cpu.regs.a();
    let t = m.step();
    assert_eq!(t, 4);
    assert_eq!(m.cpu.regs.a(), a);
    assert_eq!(m.cpu.regs.pc(), 0x0101);
}
