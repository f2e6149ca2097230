//! The register file: eight 8-bit registers A, B, C, D, E, F, H, L and the
//! 16-bit SP and PC. The flags byte F keeps Z, N, H, C in bits 7..4; its low
//! nibble is always zero.

use vstd::prelude::*;

verus! {

/// The CPU register file.
pub struct Regs {
    pub a: u8,
    pub b: u8,
    pub c: u8,
    pub d: u8,
    pub e: u8,
    pub f: u8,
    pub h: u8,
    pub l: u8,
    pub sp: u16,
    pub pc: u16,
}

/// The low nibble of the flags byte is always zero.
pub open spec fn flags_wf(f: u8) -> bool {
    f % 16 == 0
}

/// Assemble a flags byte from the four flags: Z in bit 7, N in bit 6,
/// H in bit 5, C in bit 4, low nibble zero.
pub open spec fn mkf(z: bool, n: bool, h: bool, c: bool) -> u8 {
    ((if z { 0x80int } else { 0int }) + (if n { 0x40int } else { 0int })
        + (if h { 0x20int } else { 0int }) + (if c { 0x10int } else { 0int })) as u8
}

/// Bit 7 of the flags byte: the last result was zero.
pub open spec fn zbit(f: u8) -> bool {
    f / 128 % 2 == 1
}

/// Bit 6 of the flags byte: the last operation was a subtraction.
pub open spec fn nbit(f: u8) -> bool {
    f / 64 % 2 == 1
}

/// Bit 5 of the flags byte: half-carry.
pub open spec fn hbit(f: u8) -> bool {
    f / 32 % 2 == 1
}

/// Bit 4 of the flags byte: carry.
pub open spec fn cbit(f: u8) -> bool {
    f / 16 % 2 == 1
}

/// The 16-bit value with the given high and low bytes.
pub open spec fn word(hi: u8, lo: u8) -> u16 {
    (hi * 256 + lo) as u16
}

/// High byte of a 16-bit value.
pub open spec fn hi(w: u16) -> u8 {
    (w / 256) as u8
}

/// Low byte of a 16-bit value.
pub open spec fn lo(w: u16) -> u8 {
    (w % 256) as u8
}

/// A flags byte assembled by `mkf` reads back flag by flag, and its low
/// nibble is zero.
pub proof fn lemma_mkf(z: bool, n: bool, h: bool, c: bool)
    ensures
        zbit(mkf(z, n, h, c)) == z,
        nbit(mkf(z, n, h, c)) == n,
        hbit(mkf(z, n, h, c)) == h,
        cbit(mkf(z, n, h, c)) == c,
        flags_wf(mkf(z, n, h, c)),
{
}

impl Regs {
    /// The flags byte always has a zero low nibble.
    pub open spec fn wf(self) -> bool {
        flags_wf(self.f)
    }

    /// Registers as they stand before any instruction has run: SP and PC at
    /// their reset addresses, everything else zero.
    pub fn init() -> (r: Regs)
        ensures
            r.a == 0 && r.b == 0 && r.c == 0 && r.d == 0 && r.e == 0,
            r.f == 0 && r.h == 0 && r.l == 0,
            r.sp == 0xfffe,
            r.pc == 0x0100,
            r.wf(),
    {
        Regs {
            a: 0x00,
            b: 0x00,
            c: 0x00,
            d: 0x00,
            e: 0x00,
            f: 0x00,
            h: 0x00,
            l: 0x00,
            sp: 0xfffe,
            pc: 0x0100,
        }
    }

    pub fn a(&self) -> (r: u8)
        ensures
            r == self.a,
    {
        self.a
    }

    pub fn b(&self) -> (r: u8)
        ensures
            r == self.b,
    {
        self.b
    }

    pub fn c(&self) -> (r: u8)
        ensures
            r == self.c,
    {
        self.c
    }

    pub fn d(&self) -> (r: u8)
        ensures
            r == self.d,
    {
        self.d
    }

    pub fn e(&self) -> (r: u8)
        ensures
            r == self.e,
    {
        self.e
    }

    pub fn h(&self) -> (r: u8)
        ensures
            r == self.h,
    {
        self.h
    }

    pub fn l(&self) -> (r: u8)
        ensures
            r == self.l,
    {
        self.l
    }

    /// A and F as a pair; the low nibble of F reads as zero whatever it holds.
    pub fn af(&self) -> (r: u16)
        ensures
            r == word(self.a, (self.f / 16 * 16) as u8),
            self.wf() ==> r == word(self.a, self.f),
    {
        proof {
            if self.wf() {
                assert(self.f / 16 * 16 == self.f);
            }
        }
        self.a as u16 * 256 + (self.f / 16 * 16) as u16
    }

    pub fn bc(&self) -> (r: u16)
        ensures
            r == word(self.b, self.c),
    {
        self.b as u16 * 256 + self.c as u16
    }

    pub fn de(&self) -> (r: u16)
        ensures
            r == word(self.d, self.e),
    {
        self.d as u16 * 256 + self.e as u16
    }

    pub fn hl(&self) -> (r: u16)
        ensures
            r == word(self.h, self.l),
    {
        self.h as u16 * 256 + self.l as u16
    }

    pub fn zflag(&self) -> (r: bool)
        ensures
            r == zbit(self.f),
    {
        self.f / 128 % 2 == 1
    }

    pub fn sflag(&self) -> (r: bool)
        ensures
            r == nbit(self.f),
    {
        self.f / 64 % 2 == 1
    }

    pub fn hflag(&self) -> (r: bool)
        ensures
            r == hbit(self.f),
    {
        self.f / 32 % 2 == 1
    }

    pub fn cflag(&self) -> (r: bool)
        ensures
            r == cbit(self.f),
    {
        self.f / 16 % 2 == 1
    }

    pub fn sp(&self) -> (r: u16)
        ensures
            r == self.sp,
    {
        self.sp
    }

    pub fn pc(&self) -> (r: u16)
        ensures
            r == self.pc,
    {
        self.pc
    }

    pub fn set_a(&mut self, val: u8)
        ensures
            *final(self) == (Regs { a: val, ..*old(self) }),
    {
        self.a = val;
    }

    pub fn set_b(&mut self, val: u8)
        ensures
            *final(self) == (Regs { b: val, ..*old(self) }),
    {
        self.b = val;
    }

    pub fn set_c(&mut self, val: u8)
        ensures
            *final(self) == (Regs { c: val, ..*old(self) }),
    {
        self.c = val;
    }

    pub fn set_d(&mut self, val: u8)
        ensures
            *final(self) == (Regs { d: val, ..*old(self) }),
    {
        self.d = val;
    }

    pub fn set_e(&mut self, val: u8)
        ensures
            *final(self) == (Regs { e: val, ..*old(self) }),
    {
        self.e = val;
    }

    pub fn set_h(&mut self, val: u8)
        ensures
            *final(self) == (Regs { h: val, ..*old(self) }),
    {
        self.h = val;
    }

    pub fn set_l(&mut self, val: u8)
        ensures
            *final(self) == (Regs { l: val, ..*old(self) }),
    {
        self.l = val;
    }

    /// Write A and F as a pair; the low nibble of the flags byte is masked
    /// to zero.
    pub fn set_af(&mut self, val: u16)
        ensures
            *final(self) == (Regs { a: hi(val), f: (lo(val) / 16 * 16) as u8, ..*old(self) }),
            final(self).wf(),
    {
        self.a = (val / 256) as u8;
        self.f = (val % 256) as u8 / 16 * 16;
    }

    pub fn set_bc(&mut self, val: u16)
        ensures
            *final(self) == (Regs { b: hi(val), c: lo(val), ..*old(self) }),
    {
        self.b = (val / 256) as u8;
        self.c = (val % 256) as u8;
    }

    pub fn set_de(&mut self, val: u16)
        ensures
            *final(self) == (Regs { d: hi(val), e: lo(val), ..*old(self) }),
    {
        self.d = (val / 256) as u8;
        self.e = (val % 256) as u8;
    }

    pub fn set_hl(&mut self, val: u16)
        ensures
            *final(self) == (Regs { h: hi(val), l: lo(val), ..*old(self) }),
    {
        self.h = (val / 256) as u8;
        self.l = (val % 256) as u8;
    }

    /// Replace the whole flags byte; the low nibble is zero by construction.
    pub fn set_flags(&mut self, z: bool, n: bool, h: bool, c: bool)
        ensures
            *final(self) == (Regs { f: mkf(z, n, h, c), ..*old(self) }),
            final(self).wf(),
    {
        let zp: u8 = if z { 0x80 } else { 0 };
        let np: u8 = if n { 0x40 } else { 0 };
        let hp: u8 = if h { 0x20 } else { 0 };
        let cp: u8 = if c { 0x10 } else { 0 };
        self.f = zp + np + hp + cp;
    }

    pub fn set_zflag(&mut self, val: bool)
        requires
            old(self).wf(),
        ensures
            *final(self) == (Regs {
                f: mkf(val, nbit(old(self).f), hbit(old(self).f), cbit(old(self).f)),
                ..*old(self)
            }),
            final(self).wf(),
    {
        let n = self.sflag();
        let h = self.hflag();
        let c = self.cflag();
        self.set_flags(val, n, h, c);
    }

    pub fn set_sflag(&mut self, val: bool)
        requires
            old(self).wf(),
        ensures
            *final(self) == (Regs {
                f: mkf(zbit(old(self).f), val, hbit(old(self).f), cbit(old(self).f)),
                ..*old(self)
            }),
            final(self).wf(),
    {
        let z = self.zflag();
        let h = self.hflag();
        let c = self.cflag();
        self.set_flags(z, val, h, c);
    }

    pub fn set_hflag(&mut self, val: bool)
        requires
            old(self).wf(),
        ensures
            *final(self) == (Regs {
                f: mkf(zbit(old(self).f), nbit(old(self).f), val, cbit(old(self).f)),
                ..*old(self)
            }),
            final(self).wf(),
    {
        let z = self.zflag();
        let n = self.sflag();
        let c = self.cflag();
        self.set_flags(z, n, val, c);
    }

    pub fn set_cflag(&mut self, val: bool)
        requires
            old(self).wf(),
        ensures
            *final(self) == (Regs {
                f: mkf(zbit(old(self).f), nbit(old(self).f), hbit(old(self).f), val),
                ..*old(self)
            }),
            final(self).wf(),
    {
        let z = self.zflag();
        let n = self.sflag();
        let h = self.hflag();
        self.set_flags(z, n, h, val);
    }

    pub fn set_sp(&mut self, val: u16)
        ensures
            *final(self) == (Regs { sp: val, ..*old(self) }),
    {
        self.sp = val;
    }

    pub fn set_pc(&mut self, val: u16)
        ensures
            *final(self) == (Regs { pc: val, ..*old(self) }),
    {
        self.pc = val;
    }
}

} // verus!
