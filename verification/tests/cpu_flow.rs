//! Control flow, the stack, interrupts and the halt state.

use dmg_core::machine::Machine;

fn machine_with(program: &[u8]) -> Machine {
    let mut cart = vec![0u8; 0x8000];
    for (i, b) in program.iter().enumerate() {
        cart[0x100 + i] = *b;
    }
    Machine::new(cart, None).unwrap()
}

#[test]
fn push_pop_bc_de_hl_round_trip() {
    // LD rr,nn; PUSH rr; POP rr for BC, DE, HL.
    let cases: [(u8, u8, u8); 3] = [(0x01, 0xC5, 0xC1), (0x11, 0xD5, 0xD1), (0x21, 0xE5, 0xE1)];
    for (ld, push, pop) in cases {
        let mut m = machine_with(&[ld, 0x34, 0x12, push, pop]);
        let sp0 = m.cpu.regs.sp();
        m.step();
        m.step();
        m.step();
        let rr = match ld {
            0x01 => m.cpu.regs.bc(),
            0x11 => m.cpu.regs.de(),
            _ => m.cpu.regs.hl(),
        };
        assert_eq!(rr, 0x1234);
        assert_eq!(m.cpu.regs.sp(), sp0);
    }
}

#[test]
fn push_pop_af_masks_low_nibble() {
    // LD A,0x5A; PUSH AF; POP AF — A kept, F keeps its zero low nibble.
    let mut m = machine_with(&[0x3E, 0x5A, 0xF5, 0xF1]);
    m.step();
    let f0 = m.cpu.regs.af() & 0x00FF;
    m.step();
    m.step();
    assert_eq!(m.cpu.regs.a(), 0x5A);
    assert_eq!(m.cpu.regs.af() & 0x00FF, f0);
    assert_eq!(m.cpu.regs.af() & 0x000F, 0);
}

#[test]
fn call_and_ret_round_trip() {
    // CALL 0x0200 from 0x0100; RET at 0x0200.
    let mut cart = vec![0u8; 0x8000];
    cart[0x100] = 0xCD;
    cart[0x101] = 0x00;
    cart[0x102] = 0x02;
    cart[0x200] = 0xC9;
    let mut m = Machine::new(cart, None).unwrap();
    let sp0 = m.cpu.regs.sp();
    let t = m.step();
    assert_eq!(t, 24);
    assert_eq!(m.cpu.regs.pc(), 0x0200);
    assert_eq!(m.cpu.regs.sp(), sp0 - 2);
    let t = m.step();
    assert_eq!(t, 16);
    assert_eq!(m.cpu.regs.pc(), 0x0103);
    assert_eq!(m.cpu.regs.sp(), sp0);
}

#[test]
fn conditional_call_not_taken() {
    // CP 0 on A=1 clears Z; CALL Z,nn falls through in 12 cycles.
    let mut m = machine_with(&[0x3E, 0x01, 0xFE, 0x00, 0xCC, 0x00, 0x02]);
    m.step();
    m.step();
    let t = m.step();
    assert_eq!(t, 12);
    assert_eq!(m.cpu.regs.pc(), 0x0107);
}

#[test]
fn rst_pushes_and_vectors() {
    let mut m = machine_with(&[0xD7]);
    let sp0 = m.cpu.regs.sp();
    let t = m.step();
    assert_eq!(t, 16);
    assert_eq!(m.cpu.regs.pc(), 0x0010);
    assert_eq!(m.cpu.regs.sp(), sp0 - 2);
    assert_eq!(m.mmu.read_word(m.cpu.regs.sp()), 0x0101);
}

#[test]
fn jr_minus_two_is_a_tight_loop() {
    // JR -2 at 0x0200 lands back on 0x0200.
    let mut cart = vec![0u8; 0x8000];
    cart[0x200] = 0x18;
    cart[0x201] = 0xFE;
    let mut m = Machine::new(cart, None).unwrap();
    m.cpu.regs.set_pc(0x0200);
    let t = m.step();
    assert_eq!(t, 12);
    assert_eq!(m.cpu.regs.pc(), 0x0200);
}

#[test]
fn jr_conditional_not_taken_costs_less() {
    // Power-up leaves Z set, so JR NZ falls through in 8 cycles.
    let mut m = machine_with(&[0x20, 0x10]);
    let t = m.step();
    assert_eq!(t, 8);
    assert_eq!(m.cpu.regs.pc(), 0x0102);
}

#[test]
fn jp_and_jp_hl() {
    let mut m = machine_with(&[0xC3, 0x00, 0x03]);
    let t = m.step();
    assert_eq!(t, 16);
    assert_eq!(m.cpu.regs.pc(), 0x0300);

    let mut m = machine_with(&[0x21, 0x00, 0x04, 0xE9]);
    m.step();
    let t = m.step();
    assert_eq!(t, 4);
    assert_eq!(m.cpu.regs.pc(), 0x0400);
}

#[test]
fn nop_then_jr_loop_settles() {
    // NOP at 0x0100, JR -2 at 0x0101: PC settles on the loop, flags and
    // memory untouched.
    let mut m = machine_with(&[0x00, 0x18, 0xFE]);
    let f0 = m.cpu.regs.af() & 0x00FF;
    let mut total: u32 = 0;
    while total < 100 {
        let t = m.step();
        assert!(t % 4 == 0 && t >= 4);
        total += t as u32;
        let pc = m.cpu.regs.pc();
        assert!(pc == 0x0101 || pc == 0x0103);
    }
    assert_eq!(m.cpu.regs.af() & 0x00FF, f0);
    assert_eq!(m.mmu.read_byte(0xC000), 0);
    assert_eq!(m.mmu.read_byte(0xFF80), 0);
}

#[test]
fn ei_delays_one_instruction_then_services() {
    // EI; NOP; NOP with the VBlank interrupt pending throughout.
    let mut m = machine_with(&[0xFB, 0x00, 0x00, 0x00]);
    m.mmu.write_byte(0xFFFF, 0x01);
    m.mmu.write_byte(0xFF0F, 0x01);
    let t = m.step(); // EI
    assert_eq!(t, 4);
    let t = m.step(); // the instruction after EI still runs
    assert_eq!(t, 4);
    assert_eq!(m.cpu.regs.pc(), 0x0102);
    let sp0 = m.cpu.regs.sp();
    let t = m.step(); // now the interrupt is serviced
    assert_eq!(t, 20);
    assert_eq!(m.cpu.regs.pc(), 0x0040);
    assert_eq!(m.cpu.regs.sp(), sp0 - 2);
    assert_eq!(m.mmu.read_word(m.cpu.regs.sp()), 0x0102);
    assert_eq!(m.mmu.read_byte(0xFF0F) & 0x01, 0);
}

#[test]
fn di_blocks_servicing() {
    let mut m = machine_with(&[0xFB, 0x00, 0xF3, 0x00]);
    m.mmu.write_byte(0xFFFF, 0x01);
    m.step(); // EI
    m.step(); // NOP
    m.step(); // DI before anything is pending
    m.mmu.write_byte(0xFF0F, 0x01);
    let t = m.step(); // NOP runs; no service
    assert_eq!(t, 4);
    assert_eq!(m.cpu.regs.pc(), 0x0104);
}

#[test]
fn halt_idles_until_interrupt_pending() {
    // HALT; then INC A once something is pending (IME off: no service).
    let mut m = machine_with(&[0x76, 0x3C]);
    let t = m.step();
    assert_eq!(t, 4);
    let pc = m.cpu.regs.pc();
    for _ in 0..5 {
        let t = m.step();
        assert_eq!(t, 4);
        assert_eq!(m.cpu.regs.pc(), pc);
    }
    let a0 = m.cpu.regs.a();
    m.mmu.write_byte(0xFFFF, 0x04);
    m.mmu.write_byte(0xFF0F, 0x04);
    m.step(); // wakes and runs INC A without servicing
    assert_eq!(m.cpu.regs.a(), a0.wrapping_add(1));
}

#[test]
fn reti_restores_ime() {
    // Service the VBlank interrupt, run RETI at 0x0040, and observe a
    // second service immediately after.
    let mut cart = vec![0u8; 0x8000];
    cart[0x100] = 0xFB; // EI
    cart[0x101] = 0x00;
    cart[0x102] = 0x00;
    cart[0x040] = 0xD9; // RETI
    let mut m = Machine::new(cart, None).unwrap();
    m.mmu.write_byte(0xFFFF, 0x01);
    m.mmu.write_byte(0xFF0F, 0x01);
    m.step(); // EI
    m.step(); // NOP
    m.step(); // service, lands on 0x0040
    assert_eq!(m.cpu.regs.pc(), 0x0040);
    m.mmu.write_byte(0xFF0F, 0x01); // pend again
    let t = m.step(); // RETI pops 0x0102 and re-enables
    assert_eq!(t, 16);
    assert_eq!(m.cpu.regs.pc(), 0x0102);
    let t = m.step(); // serviced again at once
    assert_eq!(t, 20);
    assert_eq!(m.cpu.regs.pc(), 0x0040);
}

#[test]
fn stop_consumes_operand() {
    let mut m = machine_with(&[0x10, 0x00, 0x3C]);
    let t = m.step();
    assert_eq!(t, 4);
    assert_eq!(m.cpu.regs.pc(), 0x0102);
}
