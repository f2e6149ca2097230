//! The CPU interpreter: fetch, decode and execute for the full primary
//! opcode table and the CB-prefixed page, with interrupt servicing, the
//! halt state and the EI delay. The whole step is pinned by `step_spec`,
//! a specification-level transition function over the register file and
//! the memory view; `cpu_cycle` is proved to implement it exactly.

use vstd::prelude::*;

verus! {

use crate::regs::{Regs, flags_wf, mkf, zbit, nbit, hbit, cbit, word, hi, lo};
use crate::mmu::{
    MMU, MmuV, mmu_wf, read_eff, write_eff, read_word_eff, write_word_eff, wadd16,
};

/// The processor: the register file, the halt latch, the interrupt master
/// enable and the one-instruction EI delay.
pub struct CPU {
    pub regs: Regs,
    pub halted: bool,
    pub ime: bool,
    pub ei_pending: bool,
}

/// A register name, for the generic load/increment helpers.
pub enum RegIndex {
    A,
    B,
    C,
    D,
    E,
    H,
    L,
    AF,
    BC,
    DE,
    HL,
    SP,
    PC,
}

/// A branch condition tested against the flags byte.
pub enum Condition {
    Z,
    C,
    NZ,
    NC,
}

/// What one CPU step leaves behind: the processor, the memory and the
/// consumed T-cycles.
#[verifier::ext_equal]
pub struct SR {
    pub cpu: CPU,
    pub mem: MmuV,
    pub t: u8,
}

/// Processor and memory together, for helpers that may touch either.
#[verifier::ext_equal]
pub struct St {
    pub cpu: CPU,
    pub mem: MmuV,
}

pub open spec fn sr(c: CPU, m: MmuV, t: u8) -> SR {
    SR { cpu: c, mem: m, t }
}

pub open spec fn st(c: CPU, m: MmuV) -> St {
    St { cpu: c, mem: m }
}

/// The processor with PC moved by `n`, wrapping modulo 65536.
pub open spec fn bump(c: CPU, n: int) -> CPU {
    CPU { regs: Regs { pc: wadd16(c.regs.pc, n), ..c.regs }, ..c }
}

/// A signed 8-bit displacement as an integer in -128..127.
pub open spec fn sext(d: u8) -> int {
    if d < 128 {
        d as int
    } else {
        d - 256
    }
}

/// One 8-bit register replaced; only A, B, C, D, E, H, L are targets.
pub open spec fn set_r8(c: CPU, r: RegIndex, v: u8) -> CPU {
    match r {
        RegIndex::A => CPU { regs: Regs { a: v, ..c.regs }, ..c },
        RegIndex::B => CPU { regs: Regs { b: v, ..c.regs }, ..c },
        RegIndex::C => CPU { regs: Regs { c: v, ..c.regs }, ..c },
        RegIndex::D => CPU { regs: Regs { d: v, ..c.regs }, ..c },
        RegIndex::E => CPU { regs: Regs { e: v, ..c.regs }, ..c },
        RegIndex::H => CPU { regs: Regs { h: v, ..c.regs }, ..c },
        RegIndex::L => CPU { regs: Regs { l: v, ..c.regs }, ..c },
        _ => c,
    }
}

/// One register pair replaced; a write to AF masks the low nibble of F.
pub open spec fn set_r16(c: CPU, r: RegIndex, v: u16) -> CPU {
    match r {
        RegIndex::AF => CPU {
            regs: Regs { a: hi(v), f: (lo(v) / 16 * 16) as u8, ..c.regs },
            ..c
        },
        RegIndex::BC => CPU { regs: Regs { b: hi(v), c: lo(v), ..c.regs }, ..c },
        RegIndex::DE => CPU { regs: Regs { d: hi(v), e: lo(v), ..c.regs }, ..c },
        RegIndex::HL => CPU { regs: Regs { h: hi(v), l: lo(v), ..c.regs }, ..c },
        RegIndex::SP => CPU { regs: Regs { sp: v, ..c.regs }, ..c },
        RegIndex::PC => CPU { regs: Regs { pc: v, ..c.regs }, ..c },
        _ => c,
    }
}

/// The value of a register pair.
pub open spec fn get_r16(c: CPU, r: RegIndex) -> u16 {
    match r {
        RegIndex::BC => word(c.regs.b, c.regs.c),
        RegIndex::DE => word(c.regs.d, c.regs.e),
        RegIndex::HL => word(c.regs.h, c.regs.l),
        RegIndex::SP => c.regs.sp,
        _ => 0,
    }
}

/// An 8-bit register by table index: 0 B, 1 C, 2 D, 3 E, 4 H, 5 L, 7 A.
pub open spec fn get_r8_idx(c: CPU, i: u8) -> u8 {
    if i == 0 {
        c.regs.b
    } else if i == 1 {
        c.regs.c
    } else if i == 2 {
        c.regs.d
    } else if i == 3 {
        c.regs.e
    } else if i == 4 {
        c.regs.h
    } else if i == 5 {
        c.regs.l
    } else {
        c.regs.a
    }
}

/// An 8-bit register by table index replaced.
pub open spec fn set_r8_idx(c: CPU, i: u8, v: u8) -> CPU {
    if i == 0 {
        CPU { regs: Regs { b: v, ..c.regs }, ..c }
    } else if i == 1 {
        CPU { regs: Regs { c: v, ..c.regs }, ..c }
    } else if i == 2 {
        CPU { regs: Regs { d: v, ..c.regs }, ..c }
    } else if i == 3 {
        CPU { regs: Regs { e: v, ..c.regs }, ..c }
    } else if i == 4 {
        CPU { regs: Regs { h: v, ..c.regs }, ..c }
    } else if i == 5 {
        CPU { regs: Regs { l: v, ..c.regs }, ..c }
    } else {
        CPU { regs: Regs { a: v, ..c.regs }, ..c }
    }
}

/// Whether a branch condition holds under a flags byte.
pub open spec fn cond_met(f: u8, cc: Condition) -> bool {
    match cc {
        Condition::Z => zbit(f),
        Condition::NZ => !zbit(f),
        Condition::C => cbit(f),
        Condition::NC => !cbit(f),
    }
}

/// ADD / ADC into A: result modulo 256; Z from the result, N clear, H from
/// the low nibbles, C from the full sum.
pub open spec fn sp_add8(c: CPU, v: u8, use_carry: bool) -> CPU {
    let a = c.regs.a;
    let ci: int = if use_carry && cbit(c.regs.f) { 1 } else { 0 };
    let res = ((a + v + ci) % 256) as u8;
    CPU {
        regs: Regs {
            a: res,
            f: mkf(res == 0, false, a % 16 + v % 16 + ci > 15, a + v + ci > 255),
            ..c.regs
        },
        ..c
    }
}

/// SUB / SBC from A: result modulo 256; Z from the result, N set, H from a
/// low-nibble borrow, C from a full borrow.
pub open spec fn sp_sub8(c: CPU, v: u8, use_carry: bool) -> CPU {
    let a = c.regs.a;
    let ci: int = if use_carry && cbit(c.regs.f) { 1 } else { 0 };
    let res = ((a + 256 - v - ci) % 256) as u8;
    CPU {
        regs: Regs {
            a: res,
            f: mkf(res == 0, true, (a % 16) < v % 16 + ci, (a as int) < v + ci),
            ..c.regs
        },
        ..c
    }
}

/// CP: the flags of a subtraction, A kept.
pub open spec fn sp_cp(c: CPU, v: u8) -> CPU {
    let a = c.regs.a;
    let res = ((a + 256 - v) % 256) as u8;
    CPU {
        regs: Regs { f: mkf(res == 0, true, (a % 16) < v % 16, a < v), ..c.regs },
        ..c
    }
}

/// AND into A: Z from the result, N clear, H set, C clear.
pub open spec fn sp_and(c: CPU, v: u8) -> CPU {
    let res = c.regs.a & v;
    CPU { regs: Regs { a: res, f: mkf(res == 0, false, true, false), ..c.regs }, ..c }
}

/// OR into A: Z from the result, N, H, C clear.
pub open spec fn sp_or(c: CPU, v: u8) -> CPU {
    let res = c.regs.a | v;
    CPU { regs: Regs { a: res, f: mkf(res == 0, false, false, false), ..c.regs }, ..c }
}

/// XOR into A: Z from the result, N, H, C clear.
pub open spec fn sp_xor(c: CPU, v: u8) -> CPU {
    let res = c.regs.a ^ v;
    CPU { regs: Regs { a: res, f: mkf(res == 0, false, false, false), ..c.regs }, ..c }
}

/// The flags after an 8-bit increment of `old_v`: Z from the result, N
/// clear, H when the low nibble was 15, C untouched.
pub open spec fn inc8_flags(f: u8, old_v: u8) -> u8 {
    mkf((old_v + 1) % 256 == 0, false, old_v % 16 == 15, cbit(f))
}

/// The flags after an 8-bit decrement of `old_v`: Z from the result, N set,
/// H when the low nibble was 0, C untouched.
pub open spec fn dec8_flags(f: u8, old_v: u8) -> u8 {
    mkf(old_v == 1, true, old_v % 16 == 0, cbit(f))
}

/// ADD HL, rr: HL takes the 16-bit sum modulo 65536; N clear, H from bit
/// 11, C from bit 15, Z untouched.
pub open spec fn sp_add16_hl(c: CPU, v: u16) -> CPU {
    let hl = word(c.regs.h, c.regs.l);
    let res = wadd16(hl, v as int);
    CPU {
        regs: Regs {
            h: hi(res),
            l: lo(res),
            f: mkf(zbit(c.regs.f), false, hl % 0x1000 + v % 0x1000 > 0xFFF, hl + v > 0xFFFF),
            ..c.regs
        },
        ..c
    }
}

/// The flags of ADD SP, e and LD HL, SP+e: Z and N clear, H and C from the
/// low nibble and low byte of SP against the raw displacement byte.
pub open spec fn sp_e_flags(sp: u16, d: u8) -> u8 {
    mkf(false, false, sp % 16 + d % 16 > 15, sp % 256 + d > 255)
}

/// RLCA: A rotated left, bit 7 into both bit 0 and C; Z, N, H clear.
pub open spec fn sp_rlca(c: CPU) -> CPU {
    let a = c.regs.a;
    let res = ((a * 2) % 256 + a / 128) as u8;
    CPU { regs: Regs { a: res, f: mkf(false, false, false, a >= 128), ..c.regs }, ..c }
}

/// RLA: A and the carry rotated left together; Z, N, H clear.
pub open spec fn sp_rla(c: CPU) -> CPU {
    let a = c.regs.a;
    let res = ((a * 2) % 256 + (if cbit(c.regs.f) { 1int } else { 0int })) as u8;
    CPU { regs: Regs { a: res, f: mkf(false, false, false, a >= 128), ..c.regs }, ..c }
}

/// RRCA: A rotated right, bit 0 into both bit 7 and C; Z, N, H clear.
pub open spec fn sp_rrca(c: CPU) -> CPU {
    let a = c.regs.a;
    let res = (a / 2 + a % 2 * 128) as u8;
    CPU { regs: Regs { a: res, f: mkf(false, false, false, a % 2 == 1), ..c.regs }, ..c }
}

/// RRA: A and the carry rotated right together; Z, N, H clear.
pub open spec fn sp_rra(c: CPU) -> CPU {
    let a = c.regs.a;
    let res = (a / 2 + (if cbit(c.regs.f) { 128int } else { 0int })) as u8;
    CPU { regs: Regs { a: res, f: mkf(false, false, false, a % 2 == 1), ..c.regs }, ..c }
}

/// DAA: adjust A back to binary-coded decimal after an addition or a
/// subtraction, steered by N, H and C; Z from the result, H cleared, C set
/// when the high adjustment fired on the additive path.
pub open spec fn sp_daa(c: CPU) -> CPU {
    let a = c.regs.a;
    let f = c.regs.f;
    if !nbit(f) {
        let lo_adj: int = if hbit(f) || a % 16 > 9 { 0x06 } else { 0 };
        let hi_adj: int = if cbit(f) || a > 0x99 { 0x60 } else { 0 };
        let res = ((a + lo_adj + hi_adj) % 256) as u8;
        CPU {
            regs: Regs {
                a: res,
                f: mkf(res == 0, false, false, cbit(f) || a > 0x99),
                ..c.regs
            },
            ..c
        }
    } else {
        let adj: int = (if hbit(f) { 0x06int } else { 0int }) + (if cbit(f) { 0x60int } else { 0int });
        let res = ((a + 256 - adj) % 256) as u8;
        CPU { regs: Regs { a: res, f: mkf(res == 0, true, false, cbit(f)), ..c.regs }, ..c }
    }
}

/// CPL: A complemented; N and H set, Z and C untouched.
pub open spec fn sp_cpl(c: CPU) -> CPU {
    CPU {
        regs: Regs {
            a: (255 - c.regs.a) as u8,
            f: mkf(zbit(c.regs.f), true, true, cbit(c.regs.f)),
            ..c.regs
        },
        ..c
    }
}

/// SCF: carry set, N and H clear, Z untouched.
pub open spec fn sp_scf(c: CPU) -> CPU {
    CPU { regs: Regs { f: mkf(zbit(c.regs.f), false, false, true), ..c.regs }, ..c }
}

/// CCF: carry complemented, N and H clear, Z untouched.
pub open spec fn sp_ccf(c: CPU) -> CPU {
    CPU { regs: Regs { f: mkf(zbit(c.regs.f), false, false, !cbit(c.regs.f)), ..c.regs }, ..c }
}

/// PUSH: SP moves down two, the word lands there little-endian.
pub open spec fn sp_push(c: CPU, m: MmuV, v: u16) -> St {
    let nsp = wadd16(c.regs.sp, -2);
    St {
        cpu: CPU { regs: Regs { sp: nsp, ..c.regs }, ..c },
        mem: write_word_eff(m, nsp, v),
    }
}

/// POP: the word read at SP, SP moved up two, the word stored in the named
/// pair (through the AF mask for AF, or into PC for a return).
pub open spec fn sp_pop(c: CPU, m: MmuV, r: RegIndex) -> CPU {
    let v = read_word_eff(m, c.regs.sp);
    let c1 = CPU { regs: Regs { sp: wadd16(c.regs.sp, 2), ..c.regs }, ..c };
    match r {
        RegIndex::AF | RegIndex::BC | RegIndex::DE | RegIndex::HL | RegIndex::PC => set_r16(
            c1,
            r,
            v,
        ),
        _ => c1,
    }
}

/// An 8-bit load: into a named register, or into memory at `dest` when no
/// register is named.
pub open spec fn sp_ld_byte(c: CPU, m: MmuV, src: u8, reg: Option<RegIndex>, dest: u16) -> St {
    match reg {
        Some(r) => St { cpu: set_r8(c, r, src), mem: m },
        None => St { cpu: c, mem: write_eff(m, dest, src) },
    }
}

/// A 16-bit load: into a named pair, or little-endian into memory at
/// `dest` when no register is named.
pub open spec fn sp_ld_word(c: CPU, m: MmuV, src: u16, reg: Option<RegIndex>, dest: u16) -> St {
    match reg {
        Some(r) => St { cpu: set_r16(c, r, src), mem: m },
        None => St { cpu: c, mem: write_word_eff(m, dest, src) },
    }
}

/// INC on a register, a pair, or the byte at `dest`; pairs leave the flags
/// alone, 8-bit targets take `inc8_flags`.
pub open spec fn sp_inc(c: CPU, m: MmuV, reg: Option<RegIndex>, dest: u16) -> St {
    match reg {
        Some(r) => match r {
            RegIndex::A | RegIndex::B | RegIndex::C | RegIndex::D | RegIndex::E | RegIndex::H
                | RegIndex::L => {
                let v = get_r8_spec(c, r);
                let c1 = set_r8(c, r, ((v + 1) % 256) as u8);
                St {
                    cpu: CPU {
                        regs: Regs { f: inc8_flags(c.regs.f, v), ..c1.regs },
                        ..c1
                    },
                    mem: m,
                }
            },
            RegIndex::BC | RegIndex::DE | RegIndex::HL | RegIndex::SP => St {
                cpu: set_r16(c, r, wadd16(get_r16(c, r), 1)),
                mem: m,
            },
            _ => St { cpu: c, mem: m },
        },
        None => {
            let v = read_eff(m, dest);
            St {
                cpu: CPU { regs: Regs { f: inc8_flags(c.regs.f, v), ..c.regs }, ..c },
                mem: write_eff(m, dest, ((v + 1) % 256) as u8),
            }
        },
    }
}

/// DEC on a register, a pair, or the byte at `dest`; pairs leave the flags
/// alone, 8-bit targets take `dec8_flags`.
pub open spec fn sp_dec(c: CPU, m: MmuV, reg: Option<RegIndex>, dest: u16) -> St {
    match reg {
        Some(r) => match r {
            RegIndex::A | RegIndex::B | RegIndex::C | RegIndex::D | RegIndex::E | RegIndex::H
                | RegIndex::L => {
                let v = get_r8_spec(c, r);
                let c1 = set_r8(c, r, ((v + 255) % 256) as u8);
                St {
                    cpu: CPU {
                        regs: Regs { f: dec8_flags(c.regs.f, v), ..c1.regs },
                        ..c1
                    },
                    mem: m,
                }
            },
            RegIndex::BC | RegIndex::DE | RegIndex::HL | RegIndex::SP => St {
                cpu: set_r16(c, r, wadd16(get_r16(c, r), -1)),
                mem: m,
            },
            _ => St { cpu: c, mem: m },
        },
        None => {
            let v = read_eff(m, dest);
            St {
                cpu: CPU { regs: Regs { f: dec8_flags(c.regs.f, v), ..c.regs }, ..c },
                mem: write_eff(m, dest, ((v + 255) % 256) as u8),
            }
        },
    }
}

/// The value of a named 8-bit register.
pub open spec fn get_r8_spec(c: CPU, r: RegIndex) -> u8 {
    match r {
        RegIndex::A => c.regs.a,
        RegIndex::B => c.regs.b,
        RegIndex::C => c.regs.c,
        RegIndex::D => c.regs.d,
        RegIndex::E => c.regs.e,
        RegIndex::H => c.regs.h,
        RegIndex::L => c.regs.l,
        _ => 0,
    }
}


/// The result byte of a CB-page rotate/shift family applied to `v`:
/// 0 RLC, 1 RRC, 2 RL, 3 RR, 4 SLA, 5 SRA, 6 SWAP, 7 SRL.
pub open spec fn rot_res(fam: u8, v: u8, cin: bool) -> u8 {
    if fam == 0 {
        ((v * 2) % 256 + v / 128) as u8
    } else if fam == 1 {
        (v / 2 + v % 2 * 128) as u8
    } else if fam == 2 {
        ((v * 2) % 256 + (if cin { 1int } else { 0int })) as u8
    } else if fam == 3 {
        (v / 2 + (if cin { 128int } else { 0int })) as u8
    } else if fam == 4 {
        ((v * 2) % 256) as u8
    } else if fam == 5 {
        (v / 2 + v / 128 * 128) as u8
    } else if fam == 6 {
        (v % 16 * 16 + v / 16) as u8
    } else {
        v / 2
    }
}

/// The carry a CB-page rotate/shift family leaves: the bit shifted out,
/// or clear for SWAP.
pub open spec fn rot_carry(fam: u8, v: u8) -> bool {
    if fam == 0 || fam == 2 || fam == 4 {
        v >= 128
    } else if fam == 6 {
        false
    } else {
        v % 2 == 1
    }
}

/// The CB-prefixed page: rotates and shifts, BIT, RES and SET, on a
/// register or on the byte at HL. `c` stands after the 0xCB fetch, so PC
/// points at the page opcode. The cycle count covers the whole
/// instruction, prefix included.
pub open spec fn sp_cb(c: CPU, m: MmuV) -> SR {
    let op2 = read_eff(m, c.regs.pc);
    let c1 = bump(c, 1);
    let tgt = op2 % 8;
    let hl = word(c1.regs.h, c1.regs.l);
    let v = if tgt == 6 {
        read_eff(m, hl)
    } else {
        get_r8_idx(c1, tgt)
    };
    if op2 < 0x40 {
        let fam = op2 / 8;
        let res = rot_res(fam, v, cbit(c1.regs.f));
        let c2 = if tgt == 6 {
            c1
        } else {
            set_r8_idx(c1, tgt, res)
        };
        let c3 = CPU {
            regs: Regs { f: mkf(res == 0, false, false, rot_carry(fam, v)), ..c2.regs },
            ..c2
        };
        let m2 = if tgt == 6 {
            write_eff(m, hl, res)
        } else {
            m
        };
        sr(c3, m2, if tgt == 6 { 16 } else { 8 })
    } else if op2 < 0x80 {
        let b = (op2 - 0x40) / 8;
        let z = v & (1u8 << b) == 0;
        let c2 = CPU {
            regs: Regs { f: mkf(z, false, true, cbit(c1.regs.f)), ..c1.regs },
            ..c1
        };
        sr(c2, m, if tgt == 6 { 12 } else { 8 })
    } else if op2 < 0xC0 {
        let b = (op2 - 0x80) / 8;
        let res = v & !(1u8 << b);
        if tgt == 6 {
            sr(c1, write_eff(m, hl, res), 16)
        } else {
            sr(set_r8_idx(c1, tgt, res), m, 8)
        }
    } else {
        let b = (op2 - 0xC0) / 8;
        let res = v | (1u8 << b);
        if tgt == 6 {
            sr(c1, write_eff(m, hl, res), 16)
        } else {
            sr(set_r8_idx(c1, tgt, res), m, 8)
        }
    }
}

/// Whether any enabled interrupt is pending: a bit set in both IE and IF
/// among the five sources.
pub open spec fn int_pending(m: MmuV) -> bool {
    read_eff(m, 0xFFFF) & read_eff(m, 0xFF0F) & 0x1F != 0
}

/// The lowest set bit among the five interrupt sources: VBlank first.
pub open spec fn int_index(x: u8) -> u8 {
    if x % 2 == 1 {
        0
    } else if x / 2 % 2 == 1 {
        1
    } else if x / 4 % 2 == 1 {
        2
    } else if x / 8 % 2 == 1 {
        3
    } else {
        4
    }
}

/// Interrupt servicing: the master enable drops, the serviced bit leaves
/// IF, PC is pushed and control lands on the source's vector.
pub open spec fn sp_service(c: CPU, m: MmuV) -> St {
    let ie = read_eff(m, 0xFFFF);
    let iff = read_eff(m, 0xFF0F);
    let i = int_index(ie & iff & 0x1F);
    let m1 = write_eff(m, 0xFF0F, iff & !(1u8 << i));
    let c1 = CPU { ime: false, ..c };
    let pushed = sp_push(c1, m1, c1.regs.pc);
    St {
        cpu: CPU {
            regs: Regs { pc: (0x40 + 8 * i) as u16, ..pushed.cpu.regs },
            ..pushed.cpu
        },
        mem: pushed.mem,
    }
}

/// Opcodes that neither branch nor stop the fetch stream: everything but
/// the jumps, calls, returns, restarts, HALT and STOP. For these, one step
/// moves PC exactly past the instruction.
pub open spec fn straightline(op: u8) -> bool {
    match op {
        0x10 | 0x18 | 0x20 | 0x28 | 0x30 | 0x38 | 0x76 => false,
        0xC0 | 0xC2 | 0xC3 | 0xC4 | 0xC7 | 0xC8 | 0xC9 | 0xCA | 0xCC | 0xCD | 0xCF => false,
        0xD0 | 0xD2 | 0xD4 | 0xD7 | 0xD8 | 0xD9 | 0xDA | 0xDC | 0xDF => false,
        0xE7 | 0xE9 | 0xEF => false,
        0xF7 | 0xFF => false,
        _ => true,
    }
}

/// How many operand bytes follow a straight-line opcode.
pub open spec fn imm_len(op: u8) -> u8 {
    match op {
        0x01 | 0x08 | 0x11 | 0x21 | 0x31 | 0xEA | 0xFA => 2,
        0x06 | 0x0E | 0x16 | 0x1E | 0x26 | 0x2E | 0x36 | 0x3E => 1,
        0xC6 | 0xCE | 0xD6 | 0xDE | 0xE6 | 0xEE | 0xF6 | 0xFE => 1,
        0xE0 | 0xE8 | 0xF0 | 0xF8 | 0xCB => 1,
        _ => 0,
    }
}

/// The ALU family by table row: 0 ADD, 1 ADC, 2 SUB, 3 SBC, 4 AND,
/// 5 XOR, 6 OR, 7 CP.
pub open spec fn sp_alu_apply(c: CPU, fam: u8, v: u8) -> CPU {
    if fam == 0 {
        sp_add8(c, v, false)
    } else if fam == 1 {
        sp_add8(c, v, true)
    } else if fam == 2 {
        sp_sub8(c, v, false)
    } else if fam == 3 {
        sp_sub8(c, v, true)
    } else if fam == 4 {
        sp_and(c, v)
    } else if fam == 5 {
        sp_xor(c, v)
    } else if fam == 6 {
        sp_or(c, v)
    } else {
        sp_cp(c, v)
    }
}

/// The register-to-register load block 0x40-0x7F, with (HL) as source or
/// destination and HALT in the (HL),(HL) slot.
pub open spec fn sp_ld(c: CPU, m: MmuV, op: u8) -> SR {
    if op == 0x76 {
        sr(CPU { halted: true, ..c }, m, 4)
    } else {
        let src = op % 8;
        let dst = (op / 8 - 8) as u8;
        let v = if src == 6 {
            read_eff(m, word(c.regs.h, c.regs.l))
        } else {
            get_r8_idx(c, src)
        };
        if dst == 6 {
            sr(c, write_eff(m, word(c.regs.h, c.regs.l), v), 8)
        } else {
            sr(set_r8_idx(c, dst, v), m, if src == 6 { 8 } else { 4 })
        }
    }
}

/// The accumulator ALU block 0x80-0xBF.
pub open spec fn sp_alu(c: CPU, m: MmuV, op: u8) -> SR {
    let src = op % 8;
    let fam = (op / 8 - 16) as u8;
    let v = if src == 6 {
        read_eff(m, word(c.regs.h, c.regs.l))
    } else {
        get_r8_idx(c, src)
    };
    sr(sp_alu_apply(c, fam, v), m, if src == 6 { 8 } else { 4 })
}

impl CPU {
    /// Flags byte well-formed: low nibble zero.
    pub open spec fn wf(self) -> bool {
        flags_wf(self.regs.f)
    }

    /// A processor at rest: registers at their reset values, not halted,
    /// interrupts unarmed.
    pub fn init() -> (r: CPU)
        ensures
            r.regs == (Regs {
                a: 0, b: 0, c: 0, d: 0, e: 0, f: 0, h: 0, l: 0,
                sp: 0xfffe,
                pc: 0x0100,
            }),
            !r.halted && !r.ime && !r.ei_pending,
            r.wf(),
    {
        CPU { regs: Regs::init(), halted: false, ime: false, ei_pending: false }
    }

    /// Load the register values the boot ROM leaves behind on the DMG
    /// model, for machines constructed without one.
    pub fn power_up_seq(&mut self)
        ensures
            *final(self) == (CPU {
                regs: Regs {
                    a: 0x01, b: 0x00, c: 0x13, d: 0x00, e: 0xD8,
                    f: 0xB0, h: 0x01, l: 0x4D,
                    sp: 0xFFFE,
                    pc: 0x0100,
                },
                ..*old(self)
            }),
            final(self).wf(),
    {
        self.regs = Regs {
            a: 0x01, b: 0x00, c: 0x13, d: 0x00, e: 0xD8,
            f: 0xB0, h: 0x01, l: 0x4D,
            sp: 0xFFFE,
            pc: 0x0100,
        };
    }

    /// Read the byte at PC and move PC past it.
    pub fn fetch_ins_byte(&mut self, mmu: &mut MMU) -> (op: u8)
        requires
            mmu_wf(old(mmu)@),
        ensures
            *final(mmu) == *old(mmu),
            op == read_eff(old(mmu)@, old(self).regs.pc),
            *final(self) == bump(*old(self), 1),
    {
        let pc = self.regs.pc();
        let op = mmu.read_byte(pc);
        self.regs.set_pc(pc.wrapping_add(1));
        assert(pc.wrapping_add(1) == wadd16(pc, 1));
        op
    }

    /// Read the little-endian word at PC and move PC past it.
    pub fn fetch_ins_word(&mut self, mmu: &mut MMU) -> (w: u16)
        requires
            mmu_wf(old(mmu)@),
        ensures
            *final(mmu) == *old(mmu),
            w == read_word_eff(old(mmu)@, old(self).regs.pc),
            *final(self) == bump(*old(self), 2),
    {
        let pc = self.regs.pc();
        let w = mmu.read_word(pc);
        self.regs.set_pc(pc.wrapping_add(2));
        assert(pc.wrapping_add(2) == wadd16(pc, 2));
        w
    }

    /// Move a byte into a register, or into memory when none is named.
    fn ld_byte(&mut self, mmu: &mut MMU, src: u8, reg: Option<RegIndex>, dest: u16)
        requires
            mmu_wf(old(mmu)@),
        ensures
            mmu_wf(final(mmu)@),
            st(*final(self), final(mmu)@) == sp_ld_byte(*old(self), old(mmu)@, src, reg, dest),
    {
        match reg {
            Some(r) => {
                match r {
                    RegIndex::A => self.regs.set_a(src),
                    RegIndex::B => self.regs.set_b(src),
                    RegIndex::C => self.regs.set_c(src),
                    RegIndex::D => self.regs.set_d(src),
                    RegIndex::E => self.regs.set_e(src),
                    RegIndex::H => self.regs.set_h(src),
                    RegIndex::L => self.regs.set_l(src),
                    _ => (),
                }
            },
            None => {
                mmu.write_byte(dest, src);
            },
        }
    }

    /// Move a word into a register pair, or little-endian into memory when
    /// none is named.
    fn ld_word(&mut self, mmu: &mut MMU, src: u16, reg: Option<RegIndex>, dest: u16)
        requires
            mmu_wf(old(mmu)@),
        ensures
            mmu_wf(final(mmu)@),
            st(*final(self), final(mmu)@) == sp_ld_word(*old(self), old(mmu)@, src, reg, dest),
    {
        match reg {
            Some(r) => {
                match r {
                    RegIndex::AF => self.regs.set_af(src),
                    RegIndex::BC => self.regs.set_bc(src),
                    RegIndex::DE => self.regs.set_de(src),
                    RegIndex::HL => self.regs.set_hl(src),
                    RegIndex::SP => self.regs.set_sp(src),
                    RegIndex::PC => self.regs.set_pc(src),
                    _ => (),
                }
            },
            None => {
                mmu.write_word(dest, src);
            },
        }
    }

    /// Add a byte (plus the carry for ADC) into A.
    fn add_byte(&mut self, src: u8, carry: bool)
        ensures
            *final(self) == sp_add8(*old(self), src, carry),
    {
        let ci: u8 = if carry && self.regs.cflag() { 1 } else { 0 };
        let a = self.regs.a();
        let sum: u16 = a as u16 + src as u16 + ci as u16;
        let res: u8 = (sum % 256) as u8;
        self.regs.set_a(res);
        self.regs.set_flags(res == 0, false, a % 16 + src % 16 + ci > 15, sum > 255);
    }

    /// Subtract a byte (plus the carry for SBC) from A.
    fn sub_byte(&mut self, src: u8, carry: bool)
        ensures
            *final(self) == sp_sub8(*old(self), src, carry),
    {
        let ci: u8 = if carry && self.regs.cflag() { 1 } else { 0 };
        let a = self.regs.a();
        let diff: u16 = a as u16 + 256 - src as u16 - ci as u16;
        let res: u8 = (diff % 256) as u8;
        self.regs.set_a(res);
        self.regs.set_flags(
            res == 0,
            true,
            a % 16 < src % 16 + ci,
            (a as u16) < src as u16 + ci as u16,
        );
    }

    /// ADD HL, rr.
    fn add_word(&mut self, src: u16)
        ensures
            *final(self) == sp_add16_hl(*old(self), src),
    {
        let hl = self.regs.hl();
        let z = self.regs.zflag();
        let sum: u32 = hl as u32 + src as u32;
        let res: u16 = (sum % 0x10000) as u16;
        self.regs.set_hl(res);
        self.regs.set_flags(z, false, hl % 0x1000 + src % 0x1000 > 0xFFF, sum > 0xFFFF);
    }

    /// AND a byte into A.
    fn and(&mut self, val: u8)
        ensures
            *final(self) == sp_and(*old(self), val),
    {
        let res = self.regs.a() & val;
        self.regs.set_a(res);
        self.regs.set_flags(res == 0, false, true, false);
    }

    /// OR a byte into A.
    fn or(&mut self, val: u8)
        ensures
            *final(self) == sp_or(*old(self), val),
    {
        let res = self.regs.a() | val;
        self.regs.set_a(res);
        self.regs.set_flags(res == 0, false, false, false);
    }

    /// XOR a byte into A.
    fn xor(&mut self, val: u8)
        ensures
            *final(self) == sp_xor(*old(self), val),
    {
        let res = self.regs.a() ^ val;
        self.regs.set_a(res);
        self.regs.set_flags(res == 0, false, false, false);
    }

    /// Compare a byte against A: subtraction flags, A kept.
    fn cp(&mut self, val: u8)
        ensures
            *final(self) == sp_cp(*old(self), val),
    {
        let a = self.regs.a();
        let diff: u16 = a as u16 + 256 - val as u16;
        let res: u8 = (diff % 256) as u8;
        self.regs.set_flags(res == 0, true, a % 16 < val % 16, a < val);
    }

    /// INC a register, a pair, or the byte at `dest`.
    fn inc(&mut self, mmu: &mut MMU, reg: Option<RegIndex>, dest: u16)
        requires
            mmu_wf(old(mmu)@),
        ensures
            mmu_wf(final(mmu)@),
            st(*final(self), final(mmu)@) == sp_inc(*old(self), old(mmu)@, reg, dest),
    {
        match reg {
            Some(r) => {
                match r {
                    RegIndex::A => {
                        let v = self.regs.a();
                        self.regs.set_a(v.wrapping_add(1));
                        self.inc_flags(v);
                    },
                    RegIndex::B => {
                        let v = self.regs.b();
                        self.regs.set_b(v.wrapping_add(1));
                        self.inc_flags(v);
                    },
                    RegIndex::C => {
                        let v = self.regs.c();
                        self.regs.set_c(v.wrapping_add(1));
                        self.inc_flags(v);
                    },
                    RegIndex::D => {
                        let v = self.regs.d();
                        self.regs.set_d(v.wrapping_add(1));
                        self.inc_flags(v);
                    },
                    RegIndex::E => {
                        let v = self.regs.e();
                        self.regs.set_e(v.wrapping_add(1));
                        self.inc_flags(v);
                    },
                    RegIndex::H => {
                        let v = self.regs.h();
                        self.regs.set_h(v.wrapping_add(1));
                        self.inc_flags(v);
                    },
                    RegIndex::L => {
                        let v = self.regs.l();
                        self.regs.set_l(v.wrapping_add(1));
                        self.inc_flags(v);
                    },
                    RegIndex::BC => {
                        let v = self.regs.bc();
                        self.regs.set_bc(v.wrapping_add(1));
                    },
                    RegIndex::DE => {
                        let v = self.regs.de();
                        self.regs.set_de(v.wrapping_add(1));
                    },
                    RegIndex::HL => {
                        let v = self.regs.hl();
                        self.regs.set_hl(v.wrapping_add(1));
                    },
                    RegIndex::SP => {
                        let v = self.regs.sp();
                        self.regs.set_sp(v.wrapping_add(1));
                    },
                    _ => (),
                }
            },
            None => {
                let v = mmu.read_byte(dest);
                mmu.write_byte(dest, v.wrapping_add(1));
                self.inc_flags(v);
            },
        }
    }

    /// The flag update shared by the 8-bit INC forms.
    fn inc_flags(&mut self, old_v: u8)
        ensures
            *final(self) == (CPU {
                regs: Regs { f: inc8_flags(old(self).regs.f, old_v), ..old(self).regs },
                ..*old(self)
            }),
    {
        let c = self.regs.cflag();
        self.regs.set_flags(old_v == 255, false, old_v % 16 == 15, c);
        assert(old_v == 255 <==> (old_v + 1) % 256 == 0);
    }

    /// DEC a register, a pair, or the byte at `dest`.
    fn dec(&mut self, mmu: &mut MMU, reg: Option<RegIndex>, dest: u16)
        requires
            mmu_wf(old(mmu)@),
        ensures
            mmu_wf(final(mmu)@),
            st(*final(self), final(mmu)@) == sp_dec(*old(self), old(mmu)@, reg, dest),
    {
        match reg {
            Some(r) => {
                match r {
                    RegIndex::A => {
                        let v = self.regs.a();
                        self.regs.set_a(v.wrapping_sub(1));
                        self.dec_flags(v);
                    },
                    RegIndex::B => {
                        let v = self.regs.b();
                        self.regs.set_b(v.wrapping_sub(1));
                        self.dec_flags(v);
                    },
                    RegIndex::C => {
                        let v = self.regs.c();
                        self.regs.set_c(v.wrapping_sub(1));
                        self.dec_flags(v);
                    },
                    RegIndex::D => {
                        let v = self.regs.d();
                        self.regs.set_d(v.wrapping_sub(1));
                        self.dec_flags(v);
                    },
                    RegIndex::E => {
                        let v = self.regs.e();
                        self.regs.set_e(v.wrapping_sub(1));
                        self.dec_flags(v);
                    },
                    RegIndex::H => {
                        let v = self.regs.h();
                        self.regs.set_h(v.wrapping_sub(1));
                        self.dec_flags(v);
                    },
                    RegIndex::L => {
                        let v = self.regs.l();
                        self.regs.set_l(v.wrapping_sub(1));
                        self.dec_flags(v);
                    },
                    RegIndex::BC => {
                        let v = self.regs.bc();
                        self.regs.set_bc(v.wrapping_sub(1));
                    },
                    RegIndex::DE => {
                        let v = self.regs.de();
                        self.regs.set_de(v.wrapping_sub(1));
                    },
                    RegIndex::HL => {
                        let v = self.regs.hl();
                        self.regs.set_hl(v.wrapping_sub(1));
                    },
                    RegIndex::SP => {
                        let v = self.regs.sp();
                        self.regs.set_sp(v.wrapping_sub(1));
                    },
                    _ => (),
                }
            },
            None => {
                let v = mmu.read_byte(dest);
                mmu.write_byte(dest, v.wrapping_sub(1));
                self.dec_flags(v);
            },
        }
    }

    /// The flag update shared by the 8-bit DEC forms.
    fn dec_flags(&mut self, old_v: u8)
        ensures
            *final(self) == (CPU {
                regs: Regs { f: dec8_flags(old(self).regs.f, old_v), ..old(self).regs },
                ..*old(self)
            }),
    {
        let c = self.regs.cflag();
        self.regs.set_flags(old_v == 1, true, old_v % 16 == 0, c);
    }

    /// Push a word onto the stack.
    fn push(&mut self, mmu: &mut MMU, data: u16)
        requires
            mmu_wf(old(mmu)@),
        ensures
            mmu_wf(final(mmu)@),
            st(*final(self), final(mmu)@) == sp_push(*old(self), old(mmu)@, data),
    {
        let nsp = self.regs.sp().wrapping_sub(2);
        assert(nsp == wadd16(old(self).regs.sp, -2));
        self.regs.set_sp(nsp);
        mmu.write_word(nsp, data);
    }

    /// Pop a word from the stack into a register pair.
    fn pop(&mut self, mmu: &mut MMU, reg: RegIndex)
        requires
            mmu_wf(old(mmu)@),
        ensures
            *final(mmu) == *old(mmu),
            *final(self) == sp_pop(*old(self), old(mmu)@, reg),
    {
        let sp = self.regs.sp();
        let data = mmu.read_word(sp);
        let nsp = sp.wrapping_add(2);
        assert(nsp == wadd16(old(self).regs.sp, 2));
        self.regs.set_sp(nsp);
        match reg {
            RegIndex::AF => self.regs.set_af(data),
            RegIndex::BC => self.regs.set_bc(data),
            RegIndex::DE => self.regs.set_de(data),
            RegIndex::HL => self.regs.set_hl(data),
            RegIndex::PC => self.regs.set_pc(data),
            _ => (),
        }
    }

    /// Whether a branch condition holds right now.
    fn test_cond(&self, cond: &Condition) -> (r: bool)
        ensures
            r == cond_met(self.regs.f, *cond),
    {
        match cond {
            Condition::Z => self.regs.zflag(),
            Condition::NZ => !self.regs.zflag(),
            Condition::C => self.regs.cflag(),
            Condition::NC => !self.regs.cflag(),
        }
    }

    /// Set PC, unconditionally or when the condition holds; reports
    /// whether the jump was taken.
    fn jump(&mut self, val: u16, cond: Option<Condition>) -> (taken: bool)
        ensures
            taken == (cond matches Some(cc) ==> cond_met(old(self).regs.f, cc)) || cond is None,
            taken == match cond {
                Some(cc) => cond_met(old(self).regs.f, cc),
                None => true,
            },
            *final(self) == if taken {
                CPU { regs: Regs { pc: val, ..old(self).regs }, ..*old(self) }
            } else {
                *old(self)
            },
    {
        let go = match &cond {
            Some(cc) => self.test_cond(cc),
            None => true,
        };
        if go {
            self.regs.set_pc(val);
        }
        go
    }

    /// JR: fetch the signed displacement, then jump relative to the
    /// address after it.
    fn jr(&mut self, mmu: &mut MMU, cond: Option<Condition>) -> (taken: bool)
        requires
            mmu_wf(old(mmu)@),
        ensures
            *final(mmu) == *old(mmu),
            taken == match cond {
                Some(cc) => cond_met(old(self).regs.f, cc),
                None => true,
            },
            *final(self) == if taken {
                CPU {
                    regs: Regs {
                        pc: wadd16(
                            wadd16(old(self).regs.pc, 1),
                            sext(read_eff(old(mmu)@, old(self).regs.pc)),
                        ),
                        ..old(self).regs
                    },
                    ..*old(self)
                }
            } else {
                bump(*old(self), 1)
            },
    {
        let d = self.fetch_ins_byte(mmu);
        let pc = self.regs.pc();
        let target: u16 = if d < 128 {
            pc.wrapping_add(d as u16)
        } else {
            pc.wrapping_add(d as u16).wrapping_sub(256)
        };
        assert(target == wadd16(pc, sext(d)));
        self.jump(target, cond)
    }

    /// CALL: fetch the target, and when the condition holds push the
    /// return address and jump; reports whether the call was taken.
    fn call(&mut self, mmu: &mut MMU, cond: Option<Condition>) -> (taken: bool)
        requires
            mmu_wf(old(mmu)@),
        ensures
            mmu_wf(final(mmu)@),
            taken == match cond {
                Some(cc) => cond_met(old(self).regs.f, cc),
                None => true,
            },
            ({
                let c1 = bump(*old(self), 2);
                let addr = read_word_eff(old(mmu)@, old(self).regs.pc);
                if taken {
                    let pushed = sp_push(c1, old(mmu)@, c1.regs.pc);
                    st(*final(self), final(mmu)@) == st(
                        CPU { regs: Regs { pc: addr, ..pushed.cpu.regs }, ..pushed.cpu },
                        pushed.mem,
                    )
                } else {
                    st(*final(self), final(mmu)@) == st(c1, old(mmu)@)
                }
            }),
    {
        let addr = self.fetch_ins_word(mmu);
        let go = match &cond {
            Some(cc) => self.test_cond(cc),
            None => true,
        };
        if go {
            let ret_pc = self.regs.pc();
            self.push(mmu, ret_pc);
            self.regs.set_pc(addr);
        }
        go
    }

    /// RET: when the condition holds pop the return address into PC;
    /// reports whether the return was taken.
    fn ret(&mut self, mmu: &mut MMU, cond: Option<Condition>) -> (taken: bool)
        requires
            mmu_wf(old(mmu)@),
        ensures
            *final(mmu) == *old(mmu),
            taken == match cond {
                Some(cc) => cond_met(old(self).regs.f, cc),
                None => true,
            },
            *final(self) == if taken {
                sp_pop(*old(self), old(mmu)@, RegIndex::PC)
            } else {
                *old(self)
            },
    {
        let go = match &cond {
            Some(cc) => self.test_cond(cc),
            None => true,
        };
        if go {
            self.pop(mmu, RegIndex::PC);
        }
        go
    }

    /// RST: push PC and jump to the fixed vector.
    fn rst(&mut self, mmu: &mut MMU, addr: u16)
        requires
            mmu_wf(old(mmu)@),
        ensures
            mmu_wf(final(mmu)@),
            ({
                let pushed = sp_push(*old(self), old(mmu)@, old(self).regs.pc);
                st(*final(self), final(mmu)@) == st(
                    CPU { regs: Regs { pc: addr, ..pushed.cpu.regs }, ..pushed.cpu },
                    pushed.mem,
                )
            }),
    {
        let pc = self.regs.pc();
        self.push(mmu, pc);
        self.regs.set_pc(addr);
    }

    /// RLCA.
    fn rlca(&mut self)
        ensures
            *final(self) == sp_rlca(*old(self)),
    {
        let a = self.regs.a();
        let res: u8 = a % 128 * 2 + a / 128;
        assert(res == (a * 2) % 256 + a / 128) by {
            assert(a % 128 * 2 == (a * 2) % 256) by {
                assert(a * 2 == (a / 128) * 256 + (a % 128) * 2);
            }
        }
        self.regs.set_a(res);
        self.regs.set_flags(false, false, false, a >= 128);
    }

    /// RLA.
    fn rla(&mut self)
        ensures
            *final(self) == sp_rla(*old(self)),
    {
        let a = self.regs.a();
        let ci: u8 = if self.regs.cflag() { 1 } else { 0 };
        let res: u8 = a % 128 * 2 + ci;
        assert(a % 128 * 2 == (a * 2) % 256) by {
            assert(a * 2 == (a / 128) * 256 + (a % 128) * 2);
        }
        self.regs.set_a(res);
        self.regs.set_flags(false, false, false, a >= 128);
    }

    /// RRCA.
    fn rrca(&mut self)
        ensures
            *final(self) == sp_rrca(*old(self)),
    {
        let a = self.regs.a();
        let res: u8 = a / 2 + a % 2 * 128;
        self.regs.set_a(res);
        self.regs.set_flags(false, false, false, a % 2 == 1);
    }

    /// RRA.
    fn rra(&mut self)
        ensures
            *final(self) == sp_rra(*old(self)),
    {
        let a = self.regs.a();
        let ci: u8 = if self.regs.cflag() { 128 } else { 0 };
        let res: u8 = a / 2 + ci;
        self.regs.set_a(res);
        self.regs.set_flags(false, false, false, a % 2 == 1);
    }

    /// DAA.
    fn daa(&mut self)
        ensures
            *final(self) == sp_daa(*old(self)),
    {
        let a = self.regs.a();
        let n = self.regs.sflag();
        let h = self.regs.hflag();
        let cy = self.regs.cflag();
        if !n {
            let lo_adj: u16 = if h || a % 16 > 9 { 0x06 } else { 0 };
            let hi_adj: u16 = if cy || a > 0x99 { 0x60 } else { 0 };
            let res: u8 = ((a as u16 + lo_adj + hi_adj) % 256) as u8;
            self.regs.set_a(res);
            self.regs.set_flags(res == 0, false, false, cy || a > 0x99);
        } else {
            let adj: u16 = (if h { 0x06u16 } else { 0 }) + (if cy { 0x60u16 } else { 0 });
            let res: u8 = ((a as u16 + 256 - adj) % 256) as u8;
            self.regs.set_a(res);
            self.regs.set_flags(res == 0, true, false, cy);
        }
    }

    /// CPL.
    fn cpl(&mut self)
        ensures
            *final(self) == sp_cpl(*old(self)),
    {
        let a = self.regs.a();
        let z = self.regs.zflag();
        let cy = self.regs.cflag();
        self.regs.set_a(255 - a);
        self.regs.set_flags(z, true, true, cy);
    }

    /// SCF.
    fn scf(&mut self)
        ensures
            *final(self) == sp_scf(*old(self)),
    {
        let z = self.regs.zflag();
        self.regs.set_flags(z, false, false, true);
    }

    /// CCF.
    fn ccf(&mut self)
        ensures
            *final(self) == sp_ccf(*old(self)),
    {
        let z = self.regs.zflag();
        let cy = self.regs.cflag();
        self.regs.set_flags(z, false, false, !cy);
    }

    /// EI: the master enable arms after the following instruction.
    fn ei(&mut self)
        ensures
            *final(self) == (CPU { ei_pending: true, ..*old(self) }),
    {
        self.ei_pending = true;
    }

    /// DI: the master enable drops at once.
    fn di(&mut self)
        ensures
            *final(self) == (CPU { ime: false, ei_pending: false, ..*old(self) }),
    {
        self.ime = false;
        self.ei_pending = false;
    }

    /// STOP: consume the operand byte and otherwise do nothing.
    fn stop(&mut self, mmu: &mut MMU)
        requires
            mmu_wf(old(mmu)@),
        ensures
            *final(mmu) == *old(mmu),
            *final(self) == bump(*old(self), 1),
    {
        let _ = self.fetch_ins_byte(mmu);
    }

    /// HALT: stop fetching until an interrupt is pending.
    fn halt(&mut self)
        ensures
            *final(self) == (CPU { halted: true, ..*old(self) }),
    {
        self.halted = true;
    }
}

/// Build a step result from a processor/memory pair and a cycle count.
pub open spec fn sr_of(s: St, t: u8) -> SR {
    SR { cpu: s.cpu, mem: s.mem, t }
}

/// JR: the displacement byte at PC, taken relative to the address after it.
pub open spec fn sp_jr(c: CPU, m: MmuV, cond: Option<Condition>) -> SR {
    let taken = match cond {
        Some(cc) => cond_met(c.regs.f, cc),
        None => true,
    };
    if taken {
        sr(
            CPU {
                regs: Regs {
                    pc: wadd16(wadd16(c.regs.pc, 1), sext(read_eff(m, c.regs.pc))),
                    ..c.regs
                },
                ..c
            },
            m,
            12,
        )
    } else {
        sr(bump(c, 1), m, 8)
    }
}

/// JP: absolute target from the immediate word.
pub open spec fn sp_jp(c: CPU, m: MmuV, cond: Option<Condition>) -> SR {
    let addr = read_word_eff(m, c.regs.pc);
    let c1 = bump(c, 2);
    let taken = match cond {
        Some(cc) => cond_met(c.regs.f, cc),
        None => true,
    };
    if taken {
        sr(CPU { regs: Regs { pc: addr, ..c1.regs }, ..c1 }, m, 16)
    } else {
        sr(c1, m, 12)
    }
}

/// CALL: push the address after the operand, then jump to it.
pub open spec fn sp_call(c: CPU, m: MmuV, cond: Option<Condition>) -> SR {
    let addr = read_word_eff(m, c.regs.pc);
    let c1 = bump(c, 2);
    let taken = match cond {
        Some(cc) => cond_met(c.regs.f, cc),
        None => true,
    };
    if taken {
        let pushed = sp_push(c1, m, c1.regs.pc);
        sr(
            CPU { regs: Regs { pc: addr, ..pushed.cpu.regs }, ..pushed.cpu },
            pushed.mem,
            24,
        )
    } else {
        sr(c1, m, 12)
    }
}

/// RET: pop PC; a conditional return costs more when taken.
pub open spec fn sp_retc(c: CPU, m: MmuV, cond: Option<Condition>) -> SR {
    let taken = match cond {
        Some(cc) => cond_met(c.regs.f, cc),
        None => true,
    };
    if taken {
        sr(
            sp_pop(c, m, RegIndex::PC),
            m,
            match cond {
                Some(_) => 20,
                None => 16,
            },
        )
    } else {
        sr(c, m, 8)
    }
}

/// RST: push PC and land on the fixed vector.
pub open spec fn sp_rst(c: CPU, m: MmuV, addr: u16) -> SR {
    let pushed = sp_push(c, m, c.regs.pc);
    sr(CPU { regs: Regs { pc: addr, ..pushed.cpu.regs }, ..pushed.cpu }, pushed.mem, 16)
}

/// The ALU families against the immediate byte.
pub open spec fn sp_alu_imm(c: CPU, m: MmuV, fam: u8) -> SR {
    sr(sp_alu_apply(bump(c, 1), fam, read_eff(m, c.regs.pc)), m, 8)
}

/// The irregular block 0x00-0x3F: 16-bit loads and arithmetic, 8-bit
/// INC/DEC, immediate loads, the accumulator rotates, relative jumps,
/// DAA/CPL/SCF/CCF, STOP. `c` stands after the opcode fetch.
pub open spec fn sp_misc(c: CPU, m: MmuV, op: u8) -> SR {
    match op {
        0x00u8 => sr(c, m, 4),
        0x01u8 => sr_of(sp_ld_word(bump(c, 2), m, read_word_eff(m, c.regs.pc), Some(RegIndex::BC), 0), 12),
        0x02u8 => sr_of(sp_ld_byte(c, m, c.regs.a, None, word(c.regs.b, c.regs.c)), 8),
        0x03u8 => sr_of(sp_inc(c, m, Some(RegIndex::BC), 0), 8),
        0x04u8 => sr_of(sp_inc(c, m, Some(RegIndex::B), 0), 4),
        0x05u8 => sr_of(sp_dec(c, m, Some(RegIndex::B), 0), 4),
        0x06u8 => sr_of(sp_ld_byte(bump(c, 1), m, read_eff(m, c.regs.pc), Some(RegIndex::B), 0), 8),
        0x07u8 => sr(sp_rlca(c), m, 4),
        0x08u8 => sr_of(sp_ld_word(bump(c, 2), m, c.regs.sp, None, read_word_eff(m, c.regs.pc)), 20),
        0x09u8 => sr(sp_add16_hl(c, word(c.regs.b, c.regs.c)), m, 8),
        0x0Au8 => sr_of(sp_ld_byte(c, m, read_eff(m, word(c.regs.b, c.regs.c)), Some(RegIndex::A), 0), 8),
        0x0Bu8 => sr_of(sp_dec(c, m, Some(RegIndex::BC), 0), 8),
        0x0Cu8 => sr_of(sp_inc(c, m, Some(RegIndex::C), 0), 4),
        0x0Du8 => sr_of(sp_dec(c, m, Some(RegIndex::C), 0), 4),
        0x0Eu8 => sr_of(sp_ld_byte(bump(c, 1), m, read_eff(m, c.regs.pc), Some(RegIndex::C), 0), 8),
        0x0Fu8 => sr(sp_rrca(c), m, 4),
        0x10u8 => sr(bump(c, 1), m, 4),
        0x11u8 => sr_of(sp_ld_word(bump(c, 2), m, read_word_eff(m, c.regs.pc), Some(RegIndex::DE), 0), 12),
        0x12u8 => sr_of(sp_ld_byte(c, m, c.regs.a, None, word(c.regs.d, c.regs.e)), 8),
        0x13u8 => sr_of(sp_inc(c, m, Some(RegIndex::DE), 0), 8),
        0x14u8 => sr_of(sp_inc(c, m, Some(RegIndex::D), 0), 4),
        0x15u8 => sr_of(sp_dec(c, m, Some(RegIndex::D), 0), 4),
        0x16u8 => sr_of(sp_ld_byte(bump(c, 1), m, read_eff(m, c.regs.pc), Some(RegIndex::D), 0), 8),
        0x17u8 => sr(sp_rla(c), m, 4),
        0x18u8 => sp_jr(c, m, None),
        0x19u8 => sr(sp_add16_hl(c, word(c.regs.d, c.regs.e)), m, 8),
        0x1Au8 => sr_of(sp_ld_byte(c, m, read_eff(m, word(c.regs.d, c.regs.e)), Some(RegIndex::A), 0), 8),
        0x1Bu8 => sr_of(sp_dec(c, m, Some(RegIndex::DE), 0), 8),
        0x1Cu8 => sr_of(sp_inc(c, m, Some(RegIndex::E), 0), 4),
        0x1Du8 => sr_of(sp_dec(c, m, Some(RegIndex::E), 0), 4),
        0x1Eu8 => sr_of(sp_ld_byte(bump(c, 1), m, read_eff(m, c.regs.pc), Some(RegIndex::E), 0), 8),
        0x1Fu8 => sr(sp_rra(c), m, 4),
        0x20u8 => sp_jr(c, m, Some(Condition::NZ)),
        0x21u8 => sr_of(sp_ld_word(bump(c, 2), m, read_word_eff(m, c.regs.pc), Some(RegIndex::HL), 0), 12),
        0x22u8 => sr(
            set_r16(c, RegIndex::HL, wadd16(word(c.regs.h, c.regs.l), 1)),
            write_eff(m, word(c.regs.h, c.regs.l), c.regs.a),
            8,
        ),
        0x23u8 => sr_of(sp_inc(c, m, Some(RegIndex::HL), 0), 8),
        0x24u8 => sr_of(sp_inc(c, m, Some(RegIndex::H), 0), 4),
        0x25u8 => sr_of(sp_dec(c, m, Some(RegIndex::H), 0), 4),
        0x26u8 => sr_of(sp_ld_byte(bump(c, 1), m, read_eff(m, c.regs.pc), Some(RegIndex::H), 0), 8),
        0x27u8 => sr(sp_daa(c), m, 4),
        0x28u8 => sp_jr(c, m, Some(Condition::Z)),
        0x29u8 => sr(sp_add16_hl(c, word(c.regs.h, c.regs.l)), m, 8),
        0x2Au8 => ({
            let c1 = set_r8(c, RegIndex::A, read_eff(m, word(c.regs.h, c.regs.l)));
            sr(set_r16(c1, RegIndex::HL, wadd16(word(c1.regs.h, c1.regs.l), 1)), m, 8)
        }),
        0x2Bu8 => sr_of(sp_dec(c, m, Some(RegIndex::HL), 0), 8),
        0x2Cu8 => sr_of(sp_inc(c, m, Some(RegIndex::L), 0), 4),
        0x2Du8 => sr_of(sp_dec(c, m, Some(RegIndex::L), 0), 4),
        0x2Eu8 => sr_of(sp_ld_byte(bump(c, 1), m, read_eff(m, c.regs.pc), Some(RegIndex::L), 0), 8),
        0x2Fu8 => sr(sp_cpl(c), m, 4),
        0x30u8 => sp_jr(c, m, Some(Condition::NC)),
        0x31u8 => sr_of(sp_ld_word(bump(c, 2), m, read_word_eff(m, c.regs.pc), Some(RegIndex::SP), 0), 12),
        0x32u8 => sr(
            set_r16(c, RegIndex::HL, wadd16(word(c.regs.h, c.regs.l), -1)),
            write_eff(m, word(c.regs.h, c.regs.l), c.regs.a),
            8,
        ),
        0x33u8 => sr_of(sp_inc(c, m, Some(RegIndex::SP), 0), 8),
        0x34u8 => sr_of(sp_inc(c, m, None, word(c.regs.h, c.regs.l)), 12),
        0x35u8 => sr_of(sp_dec(c, m, None, word(c.regs.h, c.regs.l)), 12),
        0x36u8 => sr_of(sp_ld_byte(bump(c, 1), m, read_eff(m, c.regs.pc), None, word(c.regs.h, c.regs.l)), 12),
        0x37u8 => sr(sp_scf(c), m, 4),
        0x38u8 => sp_jr(c, m, Some(Condition::C)),
        0x39u8 => sr(sp_add16_hl(c, c.regs.sp), m, 8),
        0x3Au8 => ({
            let c1 = set_r8(c, RegIndex::A, read_eff(m, word(c.regs.h, c.regs.l)));
            sr(set_r16(c1, RegIndex::HL, wadd16(word(c1.regs.h, c1.regs.l), -1)), m, 8)
        }),
        0x3Bu8 => sr_of(sp_dec(c, m, Some(RegIndex::SP), 0), 8),
        0x3Cu8 => sr_of(sp_inc(c, m, Some(RegIndex::A), 0), 4),
        0x3Du8 => sr_of(sp_dec(c, m, Some(RegIndex::A), 0), 4),
        0x3Eu8 => sr_of(sp_ld_byte(bump(c, 1), m, read_eff(m, c.regs.pc), Some(RegIndex::A), 0), 8),
        0x3Fu8 => sr(sp_ccf(c), m, 4),
        _ => sr(c, m, 4),
    }
}

/// The control block 0xC0-0xFF: stack, calls, returns, absolute jumps,
/// restarts, the high-page loads, the stack-pointer arithmetic, EI/DI and
/// the CB prefix. The undefined encodings consume one machine cycle and
/// change nothing.
pub open spec fn sp_ctrl(c: CPU, m: MmuV, op: u8) -> SR {
    match op {
        0xC0u8 => sp_retc(c, m, Some(Condition::NZ)),
        0xC1u8 => sr(sp_pop(c, m, RegIndex::BC), m, 12),
        0xC2u8 => sp_jp(c, m, Some(Condition::NZ)),
        0xC3u8 => sp_jp(c, m, None),
        0xC4u8 => sp_call(c, m, Some(Condition::NZ)),
        0xC5u8 => sr_of(sp_push(c, m, word(c.regs.b, c.regs.c)), 16),
        0xC6u8 => sp_alu_imm(c, m, 0),
        0xC7u8 => sp_rst(c, m, 0x00),
        0xC8u8 => sp_retc(c, m, Some(Condition::Z)),
        0xC9u8 => sp_retc(c, m, None),
        0xCAu8 => sp_jp(c, m, Some(Condition::Z)),
        0xCBu8 => sp_cb(c, m),
        0xCCu8 => sp_call(c, m, Some(Condition::Z)),
        0xCDu8 => sp_call(c, m, None),
        0xCEu8 => sp_alu_imm(c, m, 1),
        0xCFu8 => sp_rst(c, m, 0x08),
        0xD0u8 => sp_retc(c, m, Some(Condition::NC)),
        0xD1u8 => sr(sp_pop(c, m, RegIndex::DE), m, 12),
        0xD2u8 => sp_jp(c, m, Some(Condition::NC)),
        0xD4u8 => sp_call(c, m, Some(Condition::NC)),
        0xD5u8 => sr_of(sp_push(c, m, word(c.regs.d, c.regs.e)), 16),
        0xD6u8 => sp_alu_imm(c, m, 2),
        0xD7u8 => sp_rst(c, m, 0x10),
        0xD8u8 => sp_retc(c, m, Some(Condition::C)),
        0xD9u8 => sr(CPU { ime: true, ..sp_pop(c, m, RegIndex::PC) }, m, 16),
        0xDAu8 => sp_jp(c, m, Some(Condition::C)),
        0xDCu8 => sp_call(c, m, Some(Condition::C)),
        0xDEu8 => sp_alu_imm(c, m, 3),
        0xDFu8 => sp_rst(c, m, 0x18),
        0xE0u8 => sr_of(
            sp_ld_byte(bump(c, 1), m, c.regs.a, None, (0xFF00 + read_eff(m, c.regs.pc)) as u16),
            12,
        ),
        0xE1u8 => sr(sp_pop(c, m, RegIndex::HL), m, 12),
        0xE2u8 => sr_of(sp_ld_byte(c, m, c.regs.a, None, (0xFF00 + c.regs.c) as u16), 8),
        0xE5u8 => sr_of(sp_push(c, m, word(c.regs.h, c.regs.l)), 16),
        0xE6u8 => sp_alu_imm(c, m, 4),
        0xE7u8 => sp_rst(c, m, 0x20),
        0xE8u8 => ({
            let d = read_eff(m, c.regs.pc);
            let c1 = bump(c, 1);
            sr(
                CPU {
                    regs: Regs {
                        sp: wadd16(c1.regs.sp, sext(d)),
                        f: sp_e_flags(c1.regs.sp, d),
                        ..c1.regs
                    },
                    ..c1
                },
                m,
                16,
            )
        }),
        0xE9u8 => sr(CPU { regs: Regs { pc: word(c.regs.h, c.regs.l), ..c.regs }, ..c }, m, 4),
        0xEAu8 => sr_of(sp_ld_byte(bump(c, 2), m, c.regs.a, None, read_word_eff(m, c.regs.pc)), 16),
        0xEEu8 => sp_alu_imm(c, m, 5),
        0xEFu8 => sp_rst(c, m, 0x28),
        0xF0u8 => sr_of(
            sp_ld_byte(
                bump(c, 1),
                m,
                read_eff(m, (0xFF00 + read_eff(m, c.regs.pc)) as u16),
                Some(RegIndex::A),
                0,
            ),
            12,
        ),
        0xF1u8 => sr(sp_pop(c, m, RegIndex::AF), m, 12),
        0xF2u8 => sr_of(
            sp_ld_byte(c, m, read_eff(m, (0xFF00 + c.regs.c) as u16), Some(RegIndex::A), 0),
            8,
        ),
        0xF3u8 => sr(CPU { ime: false, ei_pending: false, ..c }, m, 4),
        0xF5u8 => sr_of(sp_push(c, m, word(c.regs.a, (c.regs.f / 16 * 16) as u8)), 16),
        0xF6u8 => sp_alu_imm(c, m, 6),
        0xF7u8 => sp_rst(c, m, 0x30),
        0xF8u8 => ({
            let d = read_eff(m, c.regs.pc);
            let c1 = bump(c, 1);
            let nhl = wadd16(c1.regs.sp, sext(d));
            sr(
                CPU {
                    regs: Regs {
                        h: hi(nhl),
                        l: lo(nhl),
                        f: sp_e_flags(c1.regs.sp, d),
                        ..c1.regs
                    },
                    ..c1
                },
                m,
                12,
            )
        }),
        0xF9u8 => sr_of(sp_ld_word(c, m, word(c.regs.h, c.regs.l), Some(RegIndex::SP), 0), 8),
        0xFAu8 => sr_of(
            sp_ld_byte(bump(c, 2), m, read_eff(m, read_word_eff(m, c.regs.pc)), Some(RegIndex::A), 0),
            16,
        ),
        0xFBu8 => sr(CPU { ei_pending: true, ..c }, m, 4),
        0xFEu8 => sp_alu_imm(c, m, 7),
        0xFFu8 => sp_rst(c, m, 0x38),
        _ => sr(c, m, 4),
    }
}

/// One whole CPU step: a halted processor with nothing pending burns one
/// machine cycle; a pending, enabled interrupt is serviced; otherwise the
/// pending EI takes effect, the opcode at PC is fetched and the matching
/// block runs it.
pub open spec fn step_spec(c: CPU, m: MmuV) -> SR {
    if c.halted && !int_pending(m) {
        sr(c, m, 4)
    } else {
        let c0 = CPU { halted: false, ..c };
        if c0.ime && int_pending(m) {
            let s = sp_service(c0, m);
            sr(s.cpu, s.mem, 20)
        } else {
            let c1 = if c0.ei_pending {
                CPU { ime: true, ei_pending: false, ..c0 }
            } else {
                c0
            };
            let op = read_eff(m, c1.regs.pc);
            let c2 = bump(c1, 1);
            if op < 0x40 {
                sp_misc(c2, m, op)
            } else if op < 0x80 {
                sp_ld(c2, m, op)
            } else if op < 0xC0 {
                sp_alu(c2, m, op)
            } else {
                sp_ctrl(c2, m, op)
            }
        }
    }
}

/// Moving PC one past the opcode and then past up to two operand bytes
/// never lands back where it started.
pub proof fn lemma_pc_step_ne(pc: u16)
    ensures
        forall|k: int| 0 <= k <= 2 ==> wadd16(wadd16(pc, 1), k) != pc,
{
}

/// The CB-page rotate/shift families, as one executable table.
fn rot_apply(fam: u8, v: u8, cin: bool) -> (r: (u8, bool))
    requires
        fam < 8,
    ensures
        r.0 == rot_res(fam, v, cin),
        r.1 == rot_carry(fam, v),
{
    proof {
        assert(v * 2 == (v / 128) * 256 + (v % 128) * 2);
    }
    if fam == 0 {
        (v % 128 * 2 + v / 128, v >= 128)
    } else if fam == 1 {
        (v / 2 + v % 2 * 128, v % 2 == 1)
    } else if fam == 2 {
        (v % 128 * 2 + (if cin { 1 } else { 0 }), v >= 128)
    } else if fam == 3 {
        (v / 2 + (if cin { 128 } else { 0 }), v % 2 == 1)
    } else if fam == 4 {
        (v % 128 * 2, v >= 128)
    } else if fam == 5 {
        (v / 2 + v / 128 * 128, v % 2 == 1)
    } else if fam == 6 {
        (v % 16 * 16 + v / 16, false)
    } else {
        (v / 2, v % 2 == 1)
    }
}

impl CPU {
    /// An 8-bit register by table index; 6, the (HL) slot, is excluded.
    fn get_r8i(&self, i: u8) -> (r: u8)
        requires
            i < 8,
            i != 6,
        ensures
            r == get_r8_idx(*self, i),
    {
        if i == 0 {
            self.regs.b()
        } else if i == 1 {
            self.regs.c()
        } else if i == 2 {
            self.regs.d()
        } else if i == 3 {
            self.regs.e()
        } else if i == 4 {
            self.regs.h()
        } else if i == 5 {
            self.regs.l()
        } else {
            self.regs.a()
        }
    }

    /// Replace an 8-bit register by table index; 6 is excluded.
    fn set_r8i(&mut self, i: u8, v: u8)
        requires
            i < 8,
            i != 6,
        ensures
            *final(self) == set_r8_idx(*old(self), i, v),
    {
        if i == 0 {
            self.regs.set_b(v);
        } else if i == 1 {
            self.regs.set_c(v);
        } else if i == 2 {
            self.regs.set_d(v);
        } else if i == 3 {
            self.regs.set_e(v);
        } else if i == 4 {
            self.regs.set_h(v);
        } else if i == 5 {
            self.regs.set_l(v);
        } else {
            self.regs.set_a(v);
        }
    }

    /// HL moved up one, for the post-increment loads.
    fn hl_inc(&mut self)
        ensures
            *final(self) == set_r16(
                *old(self),
                RegIndex::HL,
                wadd16(word(old(self).regs.h, old(self).regs.l), 1),
            ),
    {
        let hl = self.regs.hl();
        let nhl = hl.wrapping_add(1);
        assert(nhl == wadd16(hl, 1));
        self.regs.set_hl(nhl);
    }

    /// HL moved down one, for the post-decrement loads.
    fn hl_dec(&mut self)
        ensures
            *final(self) == set_r16(
                *old(self),
                RegIndex::HL,
                wadd16(word(old(self).regs.h, old(self).regs.l), -1),
            ),
    {
        let hl = self.regs.hl();
        let nhl = hl.wrapping_sub(1);
        assert(nhl == wadd16(hl, -1));
        self.regs.set_hl(nhl);
    }

    /// ADD SP, e: the signed displacement lands in SP, with the
    /// byte-level H and C of the operation.
    fn add_sp(&mut self, d: u8)
        ensures
            *final(self) == (CPU {
                regs: Regs {
                    sp: wadd16(old(self).regs.sp, sext(d)),
                    f: sp_e_flags(old(self).regs.sp, d),
                    ..old(self).regs
                },
                ..*old(self)
            }),
    {
        let sp = self.regs.sp();
        let nsp: u16 = if d < 128 {
            sp.wrapping_add(d as u16)
        } else {
            sp.wrapping_add(d as u16).wrapping_sub(256)
        };
        assert(nsp == wadd16(sp, sext(d)));
        let h = sp % 16 + (d % 16) as u16 > 15;
        let cy = sp % 256 + d as u16 > 255;
        self.regs.set_sp(nsp);
        self.regs.set_flags(false, false, h, cy);
    }

    /// LD HL, SP+e: as `add_sp`, but the sum lands in HL and SP stays.
    fn ld_hl_sp(&mut self, d: u8)
        ensures
            *final(self) == ({
                let nhl = wadd16(old(self).regs.sp, sext(d));
                CPU {
                    regs: Regs {
                        h: hi(nhl),
                        l: lo(nhl),
                        f: sp_e_flags(old(self).regs.sp, d),
                        ..old(self).regs
                    },
                    ..*old(self)
                }
            }),
    {
        let sp = self.regs.sp();
        let nhl: u16 = if d < 128 {
            sp.wrapping_add(d as u16)
        } else {
            sp.wrapping_add(d as u16).wrapping_sub(256)
        };
        assert(nhl == wadd16(sp, sext(d)));
        let h = sp % 16 + (d % 16) as u16 > 15;
        let cy = sp % 256 + d as u16 > 255;
        self.regs.set_hl(nhl);
        self.regs.set_flags(false, false, h, cy);
    }

    /// The CB-prefixed page: fetch the page opcode and run it on a
    /// register or on the byte at HL. Returns the whole instruction's
    /// T-cycles, prefix included.
    fn decode_cb(&mut self, mmu: &mut MMU) -> (t: u8)
        requires
            mmu_wf(old(mmu)@),
        ensures
            mmu_wf(final(mmu)@),
            sr(*final(self), final(mmu)@, t) == sp_cb(*old(self), old(mmu)@),
            t == 8 || t == 12 || t == 16,
            final(self).regs.pc == wadd16(old(self).regs.pc, 1),
            old(self).wf() ==> final(self).wf(),
    {
        let op2 = self.fetch_ins_byte(mmu);
        let tgt: u8 = op2 % 8;
        let v: u8 = if tgt == 6 {
            let hl = self.regs.hl();
            mmu.read_byte(hl)
        } else {
            self.get_r8i(tgt)
        };
        if op2 < 0x40 {
            let fam: u8 = op2 / 8;
            let cin = self.regs.cflag();
            let rr = rot_apply(fam, v, cin);
            if tgt == 6 {
                let hl = self.regs.hl();
                mmu.write_byte(hl, rr.0);
            } else {
                self.set_r8i(tgt, rr.0);
            }
            self.regs.set_flags(rr.0 == 0, false, false, rr.1);
            if tgt == 6 {
                16
            } else {
                8
            }
        } else if op2 < 0x80 {
            let b: u8 = (op2 - 0x40) / 8;
            let z = v & (1u8 << b) == 0;
            let cy = self.regs.cflag();
            self.regs.set_flags(z, false, true, cy);
            if tgt == 6 {
                12
            } else {
                8
            }
        } else if op2 < 0xC0 {
            let b: u8 = (op2 - 0x80) / 8;
            let res = v & !(1u8 << b);
            if tgt == 6 {
                let hl = self.regs.hl();
                mmu.write_byte(hl, res);
                16
            } else {
                self.set_r8i(tgt, res);
                8
            }
        } else {
            let b: u8 = (op2 - 0xC0) / 8;
            let res = v | (1u8 << b);
            if tgt == 6 {
                let hl = self.regs.hl();
                mmu.write_byte(hl, res);
                16
            } else {
                self.set_r8i(tgt, res);
                8
            }
        }
    }

    /// Service the lowest pending enabled interrupt: drop the master
    /// enable, clear the bit in IF, push PC and land on the vector.
    fn service_interrupt(&mut self, mmu: &mut MMU) -> (t: u8)
        requires
            mmu_wf(old(mmu)@),
        ensures
            mmu_wf(final(mmu)@),
            st(*final(self), final(mmu)@) == sp_service(*old(self), old(mmu)@),
            t == 20,
    {
        let ie = mmu.read_byte(0xFFFF);
        let iff = mmu.read_byte(0xFF0F);
        let x: u8 = ie & iff & 0x1F;
        let i: u8 = if x % 2 == 1 {
            0
        } else if x / 2 % 2 == 1 {
            1
        } else if x / 4 % 2 == 1 {
            2
        } else if x / 8 % 2 == 1 {
            3
        } else {
            4
        };
        mmu.write_byte(0xFF0F, iff & !(1u8 << i));
        self.ime = false;
        let pc = self.regs.pc();
        self.push(mmu, pc);
        self.regs.set_pc(0x40 + 8 * i as u16);
        20
    }
}

impl CPU {
    /// The irregular block 0x00-0x3F.
    fn exec_misc(&mut self, mmu: &mut MMU, op: u8) -> (t: u8)
        requires
            mmu_wf(old(mmu)@),
            op < 0x40,
        ensures
            mmu_wf(final(mmu)@),
            sr(*final(self), final(mmu)@, t) == sp_misc(*old(self), old(mmu)@, op),
            t % 4 == 0 && 4 <= t <= 24,
            old(self).wf() ==> final(self).wf(),
            straightline(op) ==> final(self).regs.pc == wadd16(
                old(self).regs.pc,
                imm_len(op) as int,
            ),
    {
        if op < 0x10 {
            self.exec_misc_r0(mmu, op)
        } else if op < 0x20 {
            self.exec_misc_r1(mmu, op)
        } else if op < 0x30 {
            self.exec_misc_r2(mmu, op)
        } else {
            self.exec_misc_r3(mmu, op)
        }
    }

    /// The row 0x00-0x0F of the irregular block.
    #[verifier::rlimit(100)]
    fn exec_misc_r0(&mut self, mmu: &mut MMU, op: u8) -> (t: u8)
        requires
            mmu_wf(old(mmu)@),
            op < 0x10,
        ensures
            mmu_wf(final(mmu)@),
            sr(*final(self), final(mmu)@, t) == sp_misc(*old(self), old(mmu)@, op),
            t % 4 == 0 && 4 <= t <= 24,
            old(self).wf() ==> final(self).wf(),
            straightline(op) ==> final(self).regs.pc == wadd16(
                old(self).regs.pc,
                imm_len(op) as int,
            ),
    {
        match op {
            0x00u8 => 4,
            0x01u8 => {
                let d = self.fetch_ins_word(mmu);
                self.ld_word(mmu, d, Some(RegIndex::BC), 0);
                12
            },
            0x02u8 => {
                let a = self.regs.a();
                let bc = self.regs.bc();
                self.ld_byte(mmu, a, None, bc);
                8
            },
            0x03u8 => {
                self.inc(mmu, Some(RegIndex::BC), 0);
                8
            },
            0x04u8 => {
                self.inc(mmu, Some(RegIndex::B), 0);
                4
            },
            0x05u8 => {
                self.dec(mmu, Some(RegIndex::B), 0);
                4
            },
            0x06u8 => {
                let d = self.fetch_ins_byte(mmu);
                self.ld_byte(mmu, d, Some(RegIndex::B), 0);
                8
            },
            0x07u8 => {
                self.rlca();
                4
            },
            0x08u8 => {
                let addr = self.fetch_ins_word(mmu);
                let sp = self.regs.sp();
                self.ld_word(mmu, sp, None, addr);
                20
            },
            0x09u8 => {
                let v = self.regs.bc();
                self.add_word(v);
                8
            },
            0x0Au8 => {
                let bc = self.regs.bc();
                let d = mmu.read_byte(bc);
                self.ld_byte(mmu, d, Some(RegIndex::A), 0);
                8
            },
            0x0Bu8 => {
                self.dec(mmu, Some(RegIndex::BC), 0);
                8
            },
            0x0Cu8 => {
                self.inc(mmu, Some(RegIndex::C), 0);
                4
            },
            0x0Du8 => {
                self.dec(mmu, Some(RegIndex::C), 0);
                4
            },
            0x0Eu8 => {
                let d = self.fetch_ins_byte(mmu);
                self.ld_byte(mmu, d, Some(RegIndex::C), 0);
                8
            },
            0x0Fu8 => {
                self.rrca();
                4
            },
            _ => 4,
        }
    }

    /// The row 0x10-0x1F of the irregular block.
    #[verifier::rlimit(100)]
    fn exec_misc_r1(&mut self, mmu: &mut MMU, op: u8) -> (t: u8)
        requires
            mmu_wf(old(mmu)@),
            0x10 <= op < 0x20,
        ensures
            mmu_wf(final(mmu)@),
            sr(*final(self), final(mmu)@, t) == sp_misc(*old(self), old(mmu)@, op),
            t % 4 == 0 && 4 <= t <= 24,
            old(self).wf() ==> final(self).wf(),
            straightline(op) ==> final(self).regs.pc == wadd16(
                old(self).regs.pc,
                imm_len(op) as int,
            ),
    {
        match op {
            0x10u8 => {
                self.stop(mmu);
                4
            },
            0x11u8 => {
                let d = self.fetch_ins_word(mmu);
                self.ld_word(mmu, d, Some(RegIndex::DE), 0);
                12
            },
            0x12u8 => {
                let a = self.regs.a();
                let de = self.regs.de();
                self.ld_byte(mmu, a, None, de);
                8
            },
            0x13u8 => {
                self.inc(mmu, Some(RegIndex::DE), 0);
                8
            },
            0x14u8 => {
                self.inc(mmu, Some(RegIndex::D), 0);
                4
            },
            0x15u8 => {
                self.dec(mmu, Some(RegIndex::D), 0);
                4
            },
            0x16u8 => {
                let d = self.fetch_ins_byte(mmu);
                self.ld_byte(mmu, d, Some(RegIndex::D), 0);
                8
            },
            0x17u8 => {
                self.rla();
                4
            },
            0x18u8 => {
                self.jr(mmu, None);
                12
            },
            0x19u8 => {
                let v = self.regs.de();
                self.add_word(v);
                8
            },
            0x1Au8 => {
                let de = self.regs.de();
                let d = mmu.read_byte(de);
                self.ld_byte(mmu, d, Some(RegIndex::A), 0);
                8
            },
            0x1Bu8 => {
                self.dec(mmu, Some(RegIndex::DE), 0);
                8
            },
            0x1Cu8 => {
                self.inc(mmu, Some(RegIndex::E), 0);
                4
            },
            0x1Du8 => {
                self.dec(mmu, Some(RegIndex::E), 0);
                4
            },
            0x1Eu8 => {
                let d = self.fetch_ins_byte(mmu);
                self.ld_byte(mmu, d, Some(RegIndex::E), 0);
                8
            },
            0x1Fu8 => {
                self.rra();
                4
            },
            _ => 4,
        }
    }

    /// The row 0x20-0x2F of the irregular block.
    #[verifier::rlimit(100)]
    fn exec_misc_r2(&mut self, mmu: &mut MMU, op: u8) -> (t: u8)
        requires
            mmu_wf(old(mmu)@),
            0x20 <= op < 0x30,
        ensures
            mmu_wf(final(mmu)@),
            sr(*final(self), final(mmu)@, t) == sp_misc(*old(self), old(mmu)@, op),
            t % 4 == 0 && 4 <= t <= 24,
            old(self).wf() ==> final(self).wf(),
            straightline(op) ==> final(self).regs.pc == wadd16(
                old(self).regs.pc,
                imm_len(op) as int,
            ),
    {
        match op {
            0x20u8 => {
                if self.jr(mmu, Some(Condition::NZ)) {
                    12
                } else {
                    8
                }
            },
            0x21u8 => {
                let d = self.fetch_ins_word(mmu);
                self.ld_word(mmu, d, Some(RegIndex::HL), 0);
                12
            },
            0x22u8 => {
                let a = self.regs.a();
                let hl = self.regs.hl();
                self.ld_byte(mmu, a, None, hl);
                self.hl_inc();
                8
            },
            0x23u8 => {
                self.inc(mmu, Some(RegIndex::HL), 0);
                8
            },
            0x24u8 => {
                self.inc(mmu, Some(RegIndex::H), 0);
                4
            },
            0x25u8 => {
                self.dec(mmu, Some(RegIndex::H), 0);
                4
            },
            0x26u8 => {
                let d = self.fetch_ins_byte(mmu);
                self.ld_byte(mmu, d, Some(RegIndex::H), 0);
                8
            },
            0x27u8 => {
                self.daa();
                4
            },
            0x28u8 => {
                if self.jr(mmu, Some(Condition::Z)) {
                    12
                } else {
                    8
                }
            },
            0x29u8 => {
                let v = self.regs.hl();
                self.add_word(v);
                8
            },
            0x2Au8 => {
                let hl = self.regs.hl();
                let d = mmu.read_byte(hl);
                self.ld_byte(mmu, d, Some(RegIndex::A), 0);
                self.hl_inc();
                8
            },
            0x2Bu8 => {
                self.dec(mmu, Some(RegIndex::HL), 0);
                8
            },
            0x2Cu8 => {
                self.inc(mmu, Some(RegIndex::L), 0);
                4
            },
            0x2Du8 => {
                self.dec(mmu, Some(RegIndex::L), 0);
                4
            },
            0x2Eu8 => {
                let d = self.fetch_ins_byte(mmu);
                self.ld_byte(mmu, d, Some(RegIndex::L), 0);
                8
            },
            0x2Fu8 => {
                self.cpl();
                4
            },
            _ => 4,
        }
    }

    /// The row 0x30-0x3F of the irregular block.
    #[verifier::rlimit(100)]
    fn exec_misc_r3(&mut self, mmu: &mut MMU, op: u8) -> (t: u8)
        requires
            mmu_wf(old(mmu)@),
            0x30 <= op < 0x40,
        ensures
            mmu_wf(final(mmu)@),
            sr(*final(self), final(mmu)@, t) == sp_misc(*old(self), old(mmu)@, op),
            t % 4 == 0 && 4 <= t <= 24,
            old(self).wf() ==> final(self).wf(),
            straightline(op) ==> final(self).regs.pc == wadd16(
                old(self).regs.pc,
                imm_len(op) as int,
            ),
    {
        match op {
            0x30u8 => {
                if self.jr(mmu, Some(Condition::NC)) {
                    12
                } else {
                    8
                }
            },
            0x31u8 => {
                let d = self.fetch_ins_word(mmu);
                self.ld_word(mmu, d, Some(RegIndex::SP), 0);
                12
            },
            0x32u8 => {
                let a = self.regs.a();
                let hl = self.regs.hl();
                self.ld_byte(mmu, a, None, hl);
                self.hl_dec();
                8
            },
            0x33u8 => {
                self.inc(mmu, Some(RegIndex::SP), 0);
                8
            },
            0x34u8 => {
                let hl = self.regs.hl();
                self.inc(mmu, None, hl);
                12
            },
            0x35u8 => {
                let hl = self.regs.hl();
                self.dec(mmu, None, hl);
                12
            },
            0x36u8 => {
                let d = self.fetch_ins_byte(mmu);
                let hl = self.regs.hl();
                self.ld_byte(mmu, d, None, hl);
                12
            },
            0x37u8 => {
                self.scf();
                4
            },
            0x38u8 => {
                if self.jr(mmu, Some(Condition::C)) {
                    12
                } else {
                    8
                }
            },
            0x39u8 => {
                let v = self.regs.sp();
                self.add_word(v);
                8
            },
            0x3Au8 => {
                let hl = self.regs.hl();
                let d = mmu.read_byte(hl);
                self.ld_byte(mmu, d, Some(RegIndex::A), 0);
                self.hl_dec();
                8
            },
            0x3Bu8 => {
                self.dec(mmu, Some(RegIndex::SP), 0);
                8
            },
            0x3Cu8 => {
                self.inc(mmu, Some(RegIndex::A), 0);
                4
            },
            0x3Du8 => {
                self.dec(mmu, Some(RegIndex::A), 0);
                4
            },
            0x3Eu8 => {
                let d = self.fetch_ins_byte(mmu);
                self.ld_byte(mmu, d, Some(RegIndex::A), 0);
                8
            },
            0x3Fu8 => {
                self.ccf();
                4
            },
            _ => 4,
        }
    }

    /// The register-to-register load block 0x40-0x7F, with HALT at 0x76.
    fn exec_ld(&mut self, mmu: &mut MMU, op: u8) -> (t: u8)
        requires
            mmu_wf(old(mmu)@),
            0x40 <= op < 0x80,
        ensures
            mmu_wf(final(mmu)@),
            sr(*final(self), final(mmu)@, t) == sp_ld(*old(self), old(mmu)@, op),
            t % 4 == 0 && 4 <= t <= 24,
            old(self).wf() ==> final(self).wf(),
            straightline(op) ==> final(self).regs.pc == wadd16(
                old(self).regs.pc,
                imm_len(op) as int,
            ),
    {
        if op == 0x76 {
            self.halt();
            return 4;
        }
        let src: u8 = op % 8;
        let dst: u8 = op / 8 - 8;
        let v: u8 = if src == 6 {
            let hl = self.regs.hl();
            mmu.read_byte(hl)
        } else {
            self.get_r8i(src)
        };
        if dst == 6 {
            let hl = self.regs.hl();
            mmu.write_byte(hl, v);
            8
        } else {
            self.set_r8i(dst, v);
            if src == 6 {
                8
            } else {
                4
            }
        }
    }

    /// The accumulator ALU block 0x80-0xBF.
    fn exec_alu(&mut self, mmu: &mut MMU, op: u8) -> (t: u8)
        requires
            mmu_wf(old(mmu)@),
            0x80 <= op < 0xC0,
        ensures
            mmu_wf(final(mmu)@),
            sr(*final(self), final(mmu)@, t) == sp_alu(*old(self), old(mmu)@, op),
            t % 4 == 0 && 4 <= t <= 24,
            old(self).wf() ==> final(self).wf(),
            straightline(op) ==> final(self).regs.pc == wadd16(
                old(self).regs.pc,
                imm_len(op) as int,
            ),
    {
        let src: u8 = op % 8;
        let fam: u8 = op / 8 - 16;
        let v: u8 = if src == 6 {
            let hl = self.regs.hl();
            mmu.read_byte(hl)
        } else {
            self.get_r8i(src)
        };
        if fam == 0 {
            self.add_byte(v, false);
        } else if fam == 1 {
            self.add_byte(v, true);
        } else if fam == 2 {
            self.sub_byte(v, false);
        } else if fam == 3 {
            self.sub_byte(v, true);
        } else if fam == 4 {
            self.and(v);
        } else if fam == 5 {
            self.xor(v);
        } else if fam == 6 {
            self.or(v);
        } else {
            self.cp(v);
        }
        if src == 6 {
            8
        } else {
            4
        }
    }

    /// The control block 0xC0-0xFF.
    fn exec_ctrl(&mut self, mmu: &mut MMU, op: u8) -> (t: u8)
        requires
            mmu_wf(old(mmu)@),
            0xC0 <= op,
        ensures
            mmu_wf(final(mmu)@),
            sr(*final(self), final(mmu)@, t) == sp_ctrl(*old(self), old(mmu)@, op),
            t % 4 == 0 && 4 <= t <= 24,
            old(self).wf() ==> final(self).wf(),
            straightline(op) ==> final(self).regs.pc == wadd16(
                old(self).regs.pc,
                imm_len(op) as int,
            ),
    {
        if op < 0xD0 {
            self.exec_ctrl_r0(mmu, op)
        } else if op < 0xE0 {
            self.exec_ctrl_r1(mmu, op)
        } else if op < 0xF0 {
            self.exec_ctrl_r2(mmu, op)
        } else {
            self.exec_ctrl_r3(mmu, op)
        }
    }

    /// The row 0xC0-0xCF of the control block.
    #[verifier::rlimit(100)]
    fn exec_ctrl_r0(&mut self, mmu: &mut MMU, op: u8) -> (t: u8)
        requires
            mmu_wf(old(mmu)@),
            0xC0 <= op < 0xD0,
        ensures
            mmu_wf(final(mmu)@),
            sr(*final(self), final(mmu)@, t) == sp_ctrl(*old(self), old(mmu)@, op),
            t % 4 == 0 && 4 <= t <= 24,
            old(self).wf() ==> final(self).wf(),
            straightline(op) ==> final(self).regs.pc == wadd16(
                old(self).regs.pc,
                imm_len(op) as int,
            ),
    {
        match op {
            0xC0u8 => {
                if self.ret(mmu, Some(Condition::NZ)) {
                    20
                } else {
                    8
                }
            },
            0xC1u8 => {
                self.pop(mmu, RegIndex::BC);
                12
            },
            0xC2u8 => {
                let addr = self.fetch_ins_word(mmu);
                if self.jump(addr, Some(Condition::NZ)) {
                    16
                } else {
                    12
                }
            },
            0xC3u8 => {
                let addr = self.fetch_ins_word(mmu);
                self.jump(addr, None);
                16
            },
            0xC4u8 => {
                if self.call(mmu, Some(Condition::NZ)) {
                    24
                } else {
                    12
                }
            },
            0xC5u8 => {
                let v = self.regs.bc();
                self.push(mmu, v);
                16
            },
            0xC6u8 => {
                let d = self.fetch_ins_byte(mmu);
                self.add_byte(d, false);
                8
            },
            0xC7u8 => {
                self.rst(mmu, 0x00);
                16
            },
            0xC8u8 => {
                if self.ret(mmu, Some(Condition::Z)) {
                    20
                } else {
                    8
                }
            },
            0xC9u8 => {
                self.ret(mmu, None);
                16
            },
            0xCAu8 => {
                let addr = self.fetch_ins_word(mmu);
                if self.jump(addr, Some(Condition::Z)) {
                    16
                } else {
                    12
                }
            },
            0xCBu8 => self.decode_cb(mmu),
            0xCCu8 => {
                if self.call(mmu, Some(Condition::Z)) {
                    24
                } else {
                    12
                }
            },
            0xCDu8 => {
                self.call(mmu, None);
                24
            },
            0xCEu8 => {
                let d = self.fetch_ins_byte(mmu);
                self.add_byte(d, true);
                8
            },
            0xCFu8 => {
                self.rst(mmu, 0x08);
                16
            },
            _ => 4,
        }
    }

    /// The row 0xD0-0xDF of the control block.
    #[verifier::rlimit(100)]
    fn exec_ctrl_r1(&mut self, mmu: &mut MMU, op: u8) -> (t: u8)
        requires
            mmu_wf(old(mmu)@),
            0xD0 <= op < 0xE0,
        ensures
            mmu_wf(final(mmu)@),
            sr(*final(self), final(mmu)@, t) == sp_ctrl(*old(self), old(mmu)@, op),
            t % 4 == 0 && 4 <= t <= 24,
            old(self).wf() ==> final(self).wf(),
            straightline(op) ==> final(self).regs.pc == wadd16(
                old(self).regs.pc,
                imm_len(op) as int,
            ),
    {
        match op {
            0xD0u8 => {
                if self.ret(mmu, Some(Condition::NC)) {
                    20
                } else {
                    8
                }
            },
            0xD1u8 => {
                self.pop(mmu, RegIndex::DE);
                12
            },
            0xD2u8 => {
                let addr = self.fetch_ins_word(mmu);
                if self.jump(addr, Some(Condition::NC)) {
                    16
                } else {
                    12
                }
            },
            0xD4u8 => {
                if self.call(mmu, Some(Condition::NC)) {
                    24
                } else {
                    12
                }
            },
            0xD5u8 => {
                let v = self.regs.de();
                self.push(mmu, v);
                16
            },
            0xD6u8 => {
                let d = self.fetch_ins_byte(mmu);
                self.sub_byte(d, false);
                8
            },
            0xD7u8 => {
                self.rst(mmu, 0x10);
                16
            },
            0xD8u8 => {
                if self.ret(mmu, Some(Condition::C)) {
                    20
                } else {
                    8
                }
            },
            0xD9u8 => {
                self.pop(mmu, RegIndex::PC);
                self.ime = true;
                16
            },
            0xDAu8 => {
                let addr = self.fetch_ins_word(mmu);
                if self.jump(addr, Some(Condition::C)) {
                    16
                } else {
                    12
                }
            },
            0xDCu8 => {
                if self.call(mmu, Some(Condition::C)) {
                    24
                } else {
                    12
                }
            },
            0xDEu8 => {
                let d = self.fetch_ins_byte(mmu);
                self.sub_byte(d, true);
                8
            },
            0xDFu8 => {
                self.rst(mmu, 0x18);
                16
            },
            _ => 4,
        }
    }

    /// The row 0xE0-0xEF of the control block.
    #[verifier::rlimit(100)]
    fn exec_ctrl_r2(&mut self, mmu: &mut MMU, op: u8) -> (t: u8)
        requires
            mmu_wf(old(mmu)@),
            0xE0 <= op < 0xF0,
        ensures
            mmu_wf(final(mmu)@),
            sr(*final(self), final(mmu)@, t) == sp_ctrl(*old(self), old(mmu)@, op),
            t % 4 == 0 && 4 <= t <= 24,
            old(self).wf() ==> final(self).wf(),
            straightline(op) ==> final(self).regs.pc == wadd16(
                old(self).regs.pc,
                imm_len(op) as int,
            ),
    {
        match op {
            0xE0u8 => {
                let d = self.fetch_ins_byte(mmu);
                let a = self.regs.a();
                self.ld_byte(mmu, a, None, 0xFF00 + d as u16);
                12
            },
            0xE1u8 => {
                self.pop(mmu, RegIndex::HL);
                12
            },
            0xE2u8 => {
                let a = self.regs.a();
                let cr = self.regs.c();
                self.ld_byte(mmu, a, None, 0xFF00 + cr as u16);
                8
            },
            0xE5u8 => {
                let v = self.regs.hl();
                self.push(mmu, v);
                16
            },
            0xE6u8 => {
                let d = self.fetch_ins_byte(mmu);
                self.and(d);
                8
            },
            0xE7u8 => {
                self.rst(mmu, 0x20);
                16
            },
            0xE8u8 => {
                let d = self.fetch_ins_byte(mmu);
                self.add_sp(d);
                16
            },
            0xE9u8 => {
                let hl = self.regs.hl();
                self.jump(hl, None);
                4
            },
            0xEAu8 => {
                let addr = self.fetch_ins_word(mmu);
                let a = self.regs.a();
                self.ld_byte(mmu, a, None, addr);
                16
            },
            0xEEu8 => {
                let d = self.fetch_ins_byte(mmu);
                self.xor(d);
                8
            },
            0xEFu8 => {
                self.rst(mmu, 0x28);
                16
            },
            _ => 4,
        }
    }

    /// The row 0xF0-0xFF of the control block.
    #[verifier::rlimit(100)]
    fn exec_ctrl_r3(&mut self, mmu: &mut MMU, op: u8) -> (t: u8)
        requires
            mmu_wf(old(mmu)@),
            0xF0 <= op,
        ensures
            mmu_wf(final(mmu)@),
            sr(*final(self), final(mmu)@, t) == sp_ctrl(*old(self), old(mmu)@, op),
            t % 4 == 0 && 4 <= t <= 24,
            old(self).wf() ==> final(self).wf(),
            straightline(op) ==> final(self).regs.pc == wadd16(
                old(self).regs.pc,
                imm_len(op) as int,
            ),
    {
        match op {
            0xF0u8 => {
                let d = self.fetch_ins_byte(mmu);
                let v = mmu.read_byte(0xFF00 + d as u16);
                self.ld_byte(mmu, v, Some(RegIndex::A), 0);
                12
            },
            0xF1u8 => {
                self.pop(mmu, RegIndex::AF);
                12
            },
            0xF2u8 => {
                let cr = self.regs.c();
                let v = mmu.read_byte(0xFF00 + cr as u16);
                self.ld_byte(mmu, v, Some(RegIndex::A), 0);
                8
            },
            0xF3u8 => {
                self.di();
                4
            },
            0xF5u8 => {
                let v = self.regs.af();
                self.push(mmu, v);
                16
            },
            0xF6u8 => {
                let d = self.fetch_ins_byte(mmu);
                self.or(d);
                8
            },
            0xF7u8 => {
                self.rst(mmu, 0x30);
                16
            },
            0xF8u8 => {
                let d = self.fetch_ins_byte(mmu);
                self.ld_hl_sp(d);
                12
            },
            0xF9u8 => {
                let hl = self.regs.hl();
                self.ld_word(mmu, hl, Some(RegIndex::SP), 0);
                8
            },
            0xFAu8 => {
                let addr = self.fetch_ins_word(mmu);
                let v = mmu.read_byte(addr);
                self.ld_byte(mmu, v, Some(RegIndex::A), 0);
                16
            },
            0xFBu8 => {
                self.ei();
                4
            },
            0xFEu8 => {
                let d = self.fetch_ins_byte(mmu);
                self.cp(d);
                8
            },
            0xFFu8 => {
                self.rst(mmu, 0x38);
                16
            },
            _ => 4,
        }
    }

    /// One CPU step: exactly `step_spec` of the starting state. Every step
    /// burns a positive multiple of four T-cycles, at most 24; a
    /// straight-line instruction always moves PC off its own address.
    pub fn cpu_cycle(&mut self, mmu: &mut MMU) -> (t: u8)
        requires
            mmu_wf(old(mmu)@),
        ensures
            mmu_wf(final(mmu)@),
            sr(*final(self), final(mmu)@, t) == step_spec(*old(self), old(mmu)@),
            t % 4 == 0 && 4 <= t <= 24,
            old(self).wf() ==> final(self).wf(),
            ({
                let op = read_eff(old(mmu)@, old(self).regs.pc);
                (!old(self).halted && !(old(self).ime && int_pending(old(mmu)@))
                    && straightline(op)) ==> final(self).regs.pc != old(self).regs.pc
            }),
    {
        if self.halted {
            let ie = mmu.read_byte(0xFFFF);
            let iff = mmu.read_byte(0xFF0F);
            if ie & iff & 0x1F == 0 {
                return 4;
            }
            self.halted = false;
        }
        if self.ime {
            let ie = mmu.read_byte(0xFFFF);
            let iff = mmu.read_byte(0xFF0F);
            if ie & iff & 0x1F != 0 {
                return self.service_interrupt(mmu);
            }
        }
        if self.ei_pending {
            self.ime = true;
            self.ei_pending = false;
        }
        let ghost pc0: u16 = self.regs.pc;
        let op = self.fetch_ins_byte(mmu);
        proof {
            lemma_pc_step_ne(pc0);
        }
        if op < 0x40 {
            self.exec_misc(mmu, op)
        } else if op < 0x80 {
            self.exec_ld(mmu, op)
        } else if op < 0xC0 {
            self.exec_alu(mmu, op)
        } else {
            self.exec_ctrl(mmu, op)
        }
    }
}

/// Law: pushing a register pair and popping it back leaves the pair and SP
/// unchanged, provided the two stack bytes land in plain RAM.
pub proof fn lemma_push_pop_rr(c: CPU, m: MmuV, r: RegIndex)
    requires
        mmu_wf(m),
        r matches RegIndex::BC || r matches RegIndex::DE || r matches RegIndex::HL,
        crate::mmu::plain_ram(wadd16(c.regs.sp, -2)),
        crate::mmu::plain_ram(wadd16(c.regs.sp, -1)),
    ensures
        ({
            let pushed = sp_push(c, m, get_r16(c, r));
            let c2 = sp_pop(pushed.cpu, pushed.mem, r);
            get_r16(c2, r) == get_r16(c, r) && c2.regs.sp == c.regs.sp
        }),
{
    let v = get_r16(c, r);
    let nsp = wadd16(c.regs.sp, -2);
    assert(wadd16(nsp, 1) == wadd16(c.regs.sp, -1));
    assert((nsp + 1) as u16 == wadd16(nsp, 1));
    crate::mmu::lemma_word_round_trip(m, nsp, v);
    assert(hi(v) * 256 + lo(v) == v) by {
        vstd::arithmetic::div_mod::lemma_fundamental_div_mod(v as int, 256);
    }
    assert(wadd16(nsp, 2) == c.regs.sp);
}

/// Law: pushing AF and popping it back leaves A unchanged and leaves F
/// with its low nibble zeroed, provided the two stack bytes land in plain
/// RAM. On a well-formed flags byte F itself is unchanged.
pub proof fn lemma_push_pop_af(c: CPU, m: MmuV)
    requires
        mmu_wf(m),
        crate::mmu::plain_ram(wadd16(c.regs.sp, -2)),
        crate::mmu::plain_ram(wadd16(c.regs.sp, -1)),
    ensures
        ({
            let v = word(c.regs.a, (c.regs.f / 16 * 16) as u8);
            let pushed = sp_push(c, m, v);
            let c2 = sp_pop(pushed.cpu, pushed.mem, RegIndex::AF);
            &&& c2.regs.a == c.regs.a
            &&& c2.regs.f == c.regs.f / 16 * 16
            &&& flags_wf(c2.regs.f)
            &&& c2.regs.sp == c.regs.sp
            &&& (flags_wf(c.regs.f) ==> c2.regs.f == c.regs.f)
        }),
{
    let fm = (c.regs.f / 16 * 16) as u8;
    let v = word(c.regs.a, fm);
    let nsp = wadd16(c.regs.sp, -2);
    assert(wadd16(nsp, 1) == wadd16(c.regs.sp, -1));
    assert((nsp + 1) as u16 == wadd16(nsp, 1));
    crate::mmu::lemma_word_round_trip(m, nsp, v);
    assert(hi(v) == c.regs.a && lo(v) == fm) by {
        assert(v == c.regs.a * 256 + fm);
    }
    assert(wadd16(nsp, 2) == c.regs.sp);
}

/// Law: an immediate load into a register puts exactly the operand byte
/// there. For each opcode of the family, after one step the target
/// register holds the byte that followed the opcode, and memory is
/// untouched.
pub proof fn lemma_ld_r_imm(c: CPU, m: MmuV, op: u8)
    requires
        mmu_wf(m),
        !c.halted,
        !(c.ime && int_pending(m)),
        read_eff(m, c.regs.pc) == op,
        op == 0x06 || op == 0x0E || op == 0x16 || op == 0x1E || op == 0x26 || op == 0x2E || op
            == 0x3E,
    ensures
        ({
            let s = step_spec(c, m);
            let n = read_eff(m, wadd16(c.regs.pc, 1));
            &&& s.mem == m
            &&& (op == 0x06 ==> s.cpu.regs.b == n)
            &&& (op == 0x0E ==> s.cpu.regs.c == n)
            &&& (op == 0x16 ==> s.cpu.regs.d == n)
            &&& (op == 0x1E ==> s.cpu.regs.e == n)
            &&& (op == 0x26 ==> s.cpu.regs.h == n)
            &&& (op == 0x2E ==> s.cpu.regs.l == n)
            &&& (op == 0x3E ==> s.cpu.regs.a == n)
        }),
{
}

} // verus!
