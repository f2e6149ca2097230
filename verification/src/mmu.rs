//! The memory management unit: a flat 16-bit address space with the
//! console's region semantics. Cartridge ROM is read-only, work RAM is
//! mirrored into echo RAM, the unused strip reads back 0xFF, and a handful
//! of memory-mapped I/O registers have write behaviour of their own: LY
//! resets on write, DMA copies a 160-byte block into OAM, and the boot-ROM
//! latch at 0xFF50 unmaps the 256-byte boot overlay.

use vstd::prelude::*;

verus! {

use crate::regs::word;

/// Failure at machine construction.
#[derive(Debug)]
pub enum EmuError {
    /// The cartridge image is shorter than the 32 KiB a flat ROM-only
    /// cartridge must hold.
    InvalidCartridge,
}

impl EmuError {
    /// A short description, for callers that report errors.
    pub fn message(&self) -> (r: &'static str) {
        match self {
            EmuError::InvalidCartridge => "cartridge image shorter than 32 KiB",
        }
    }
}

/// The memory state as contracts see it.
#[verifier::ext_equal]
pub struct MmuV {
    /// The 64 KiB backing store for everything above the ROM region.
    pub mem: Seq<u8>,
    /// The cartridge image; its first 32 KiB are mapped at 0x0000-0x7FFF.
    pub cart: Seq<u8>,
    /// The 256-byte boot ROM image, if one was provided.
    pub boot: Seq<u8>,
    /// While true, reads of 0x0000-0x00FF come from the boot ROM.
    pub boot_mapped: bool,
}

pub struct MMU {
    pub mem: Vec<u8>,
    pub cart: Vec<u8>,
    pub boot: Vec<u8>,
    pub boot_mapped: bool,
}

impl View for MMU {
    type V = MmuV;

    open spec fn view(&self) -> MmuV {
        MmuV { mem: self.mem@, cart: self.cart@, boot: self.boot@, boot_mapped: self.boot_mapped }
    }
}

/// The backing store spans the address space, the cartridge holds at least
/// 32 KiB, and a mapped boot ROM holds exactly 256 bytes.
pub open spec fn mmu_wf(m: MmuV) -> bool {
    &&& m.mem.len() == 0x10000
    &&& m.cart.len() >= 0x8000
    &&& (m.boot_mapped ==> m.boot.len() == 0x100)
}

/// Addition on 16-bit addresses, wrapping modulo 65536.
pub open spec fn wadd16(a: u16, n: int) -> u16 {
    ((a + n) % 0x10000) as u16
}

/// The PPU mode held in the low two bits of STAT.
pub open spec fn stat_mode(m: MmuV) -> u8 {
    (m.mem[0xFF41] % 4) as u8
}

/// The effective byte a read returns: boot overlay, then cartridge ROM,
/// echo RAM aliased down into work RAM, 0xFF in the unused strip, and the
/// backing store everywhere else.
pub open spec fn read_eff(m: MmuV, addr: u16) -> u8 {
    if addr < 0x100 && m.boot_mapped {
        m.boot[addr as int]
    } else if addr < 0x8000 {
        m.cart[addr as int]
    } else if 0xE000 <= addr && addr <= 0xFDFF {
        m.mem[addr - 0x2000]
    } else if 0xFEA0 <= addr && addr <= 0xFEFF {
        0xFF
    } else {
        m.mem[addr as int]
    }
}

/// The backing store with one byte replaced.
pub open spec fn upd(m: MmuV, addr: u16, v: u8) -> MmuV {
    MmuV { mem: m.mem.update(addr as int, v), ..m }
}

/// The DMA copy triggered by a write to 0xFF46: 160 bytes read from
/// src_hi << 8 land in OAM at 0xFE00-0xFE9F, bypassing the OAM write lock.
pub open spec fn dma_copy(m: MmuV, src_hi: u8) -> MmuV {
    MmuV {
        mem: Seq::new(
            m.mem.len(),
            |i: int|
                if 0xFE00 <= i < 0xFEA0 {
                    read_eff(m, (src_hi * 256 + (i - 0xFE00)) as u16)
                } else {
                    m.mem[i]
                },
        ),
        ..m
    }
}

/// The state a write leaves behind. ROM writes are dropped; VRAM writes are
/// dropped during PPU mode 3 and OAM writes during modes 2 and 3; writes to
/// echo RAM land in the mirrored work-RAM cell; the unused strip ignores
/// writes; STAT keeps its PPU-owned low three bits; LY resets to zero; a
/// write to 0xFF46 stores the byte and runs the DMA copy; a non-zero write
/// to 0xFF50 unmaps the boot ROM.
pub open spec fn write_eff(m: MmuV, addr: u16, v: u8) -> MmuV {
    if addr < 0x8000 {
        m
    } else if addr < 0xA000 {
        if stat_mode(m) == 3 {
            m
        } else {
            upd(m, addr, v)
        }
    } else if addr < 0xE000 {
        upd(m, addr, v)
    } else if addr <= 0xFDFF {
        upd(m, (addr - 0x2000) as u16, v)
    } else if addr <= 0xFE9F {
        if stat_mode(m) >= 2 {
            m
        } else {
            upd(m, addr, v)
        }
    } else if addr <= 0xFEFF {
        m
    } else if addr == 0xFF41 {
        upd(m, addr, (v / 8 * 8 + m.mem[0xFF41] % 8) as u8)
    } else if addr == 0xFF44 {
        upd(m, addr, 0)
    } else if addr == 0xFF46 {
        dma_copy(upd(m, addr, v), v)
    } else if addr == 0xFF50 {
        MmuV { mem: m.mem.update(0xFF50, v), boot_mapped: m.boot_mapped && v == 0, ..m }
    } else {
        upd(m, addr, v)
    }
}

/// The little-endian pair read at an address: low byte first, the high byte
/// at the next address, wrapping modulo 65536.
pub open spec fn read_word_eff(m: MmuV, addr: u16) -> u16 {
    word(read_eff(m, wadd16(addr, 1)), read_eff(m, addr))
}

/// The state a little-endian pair write leaves behind: the low byte at the
/// address, then the high byte at the next address, wrapping modulo 65536.
pub open spec fn write_word_eff(m: MmuV, addr: u16, v: u16) -> MmuV {
    write_eff(write_eff(m, addr, (v % 256) as u8), wadd16(addr, 1), (v / 256) as u8)
}

/// Echo RAM mirrors work RAM: a write to 0xC000-0xDDFF reads back both at
/// the written address and 0x2000 above it.
pub proof fn lemma_echo_mirror_low(m: MmuV, a: u16, v: u8)
    requires
        mmu_wf(m),
        0xC000 <= a <= 0xDDFF,
    ensures
        read_eff(write_eff(m, a, v), (a + 0x2000) as u16) == v,
        read_eff(write_eff(m, a, v), a) == v,
{
}

/// And symmetrically: a write to echo RAM at 0xE000-0xFDFF reads back both
/// there and 0x2000 below it.
pub proof fn lemma_echo_mirror_high(m: MmuV, a: u16, v: u8)
    requires
        mmu_wf(m),
        0xE000 <= a <= 0xFDFF,
    ensures
        read_eff(write_eff(m, a, v), (a - 0x2000) as u16) == v,
        read_eff(write_eff(m, a, v), a) == v,
{
}

/// Addresses whose writes land in a plain RAM cell with no side effects:
/// work RAM, echo RAM and high RAM.
pub open spec fn plain_ram(a: u16) -> bool {
    (0xC000 <= a && a <= 0xFDFF) || (0xFF80 <= a && a <= 0xFFFE)
}

/// A word written to plain RAM reads back unchanged.
pub proof fn lemma_word_round_trip(m: MmuV, a: u16, v: u16)
    requires
        mmu_wf(m),
        a < 0xFFFF,
        plain_ram(a),
        plain_ram((a + 1) as u16),
    ensures
        read_word_eff(write_word_eff(m, a, v), a) == v,
{
    assert(wadd16(a, 1) == (a + 1) as u16);
    assert(v / 256 * 256 + v % 256 == v) by {
        vstd::arithmetic::div_mod::lemma_fundamental_div_mod(v as int, 256);
    }
    assert(word((v / 256) as u8, (v % 256) as u8) == v);
}

/// A non-zero write to the 0xFF50 latch unmaps the boot overlay: every
/// read below 0x0100 afterwards returns the cartridge byte.
pub proof fn lemma_boot_unmap(m: MmuV, v: u8)
    requires
        mmu_wf(m),
        v != 0,
    ensures
        forall|a: u16| a < 0x100 ==> read_eff(write_eff(m, 0xFF50, v), a) == m.cart[a as int],
{
}

impl MMU {
    /// Build the memory unit around a cartridge image and an optional boot
    /// ROM. A cartridge shorter than 32 KiB is rejected. The backing store
    /// starts zeroed; the boot overlay is mapped exactly when a boot ROM
    /// was given.
    pub fn init(cart: Vec<u8>, boot: Option<Vec<u8>>) -> (r: Result<MMU, EmuError>)
        requires
            boot matches Some(b) ==> b@.len() == 0x100,
        ensures
            r is Ok <==> cart@.len() >= 0x8000,
            r matches Ok(m) ==> {
                &&& mmu_wf(m@)
                &&& m@.cart == cart@
                &&& m@.boot_mapped == boot is Some
                &&& (boot matches Some(b) ==> m@.boot == b@)
                &&& forall|i: int| 0 <= i < 0x10000 ==> m@.mem[i] == 0
            },
            r is Err ==> r matches Err(EmuError::InvalidCartridge),
    {
        if cart.len() < 0x8000 {
            return Err(EmuError::InvalidCartridge);
        }
        let mut mem: Vec<u8> = Vec::new();
        let mut i: usize = 0;
        while i < 0x10000
            invariant
                mem@.len() == i,
                i <= 0x10000,
                forall|j: int| 0 <= j < i ==> mem@[j] == 0,
            decreases 0x10000 - i,
        {
            mem.push(0);
            i = i + 1;
        }
        let (boot_vec, mapped): (Vec<u8>, bool) = match boot {
            Some(b) => (b, true),
            None => (Vec::new(), false),
        };
        Ok(MMU { mem, cart, boot: boot_vec, boot_mapped: mapped })
    }

    /// Stamp the canonical flat-cartridge header into the cartridge image:
    /// the 48-byte logo bitmap at 0x0104 and the ROM-only classification
    /// bytes around 0x0143.
    #[verifier::rlimit(100)]
    pub fn cart_init(&mut self)
        requires
            mmu_wf(old(self)@),
        ensures
            mmu_wf(final(self)@),
            final(self)@.mem == old(self)@.mem,
            final(self)@.boot == old(self)@.boot,
            final(self)@.boot_mapped == old(self)@.boot_mapped,
            final(self)@.cart.len() == old(self)@.cart.len(),
            forall|i: int|
                0 <= i < old(self)@.cart.len() && !(0x104 <= i < 0x134) && i != 0x143 && i != 0x146
                    && i != 0x147 && i != 0x148 && i != 0x149 && i != 0x14A && i != 0x14D
                    ==> final(self)@.cart[i] == old(self)@.cart[i],
            final(self).cart@[0x104] == 0xCE,
            final(self).cart@[0x105] == 0xED,
            final(self).cart@[0x106] == 0x66,
            final(self).cart@[0x107] == 0x66,
            final(self).cart@[0x108] == 0xCC,
            final(self).cart@[0x109] == 0x0D,
            final(self).cart@[0x10A] == 0x00,
            final(self).cart@[0x10B] == 0x0B,
            final(self).cart@[0x10C] == 0x03,
            final(self).cart@[0x10D] == 0x73,
            final(self).cart@[0x10E] == 0x00,
            final(self).cart@[0x10F] == 0x83,
            final(self).cart@[0x110] == 0x00,
            final(self).cart@[0x111] == 0x0C,
            final(self).cart@[0x112] == 0x00,
            final(self).cart@[0x113] == 0x0D,
            final(self).cart@[0x114] == 0x00,
            final(self).cart@[0x115] == 0x08,
            final(self).cart@[0x116] == 0x11,
            final(self).cart@[0x117] == 0x1F,
            final(self).cart@[0x118] == 0x88,
            final(self).cart@[0x119] == 0x89,
            final(self).cart@[0x11A] == 0x00,
            final(self).cart@[0x11B] == 0x0E,
            final(self).cart@[0x11C] == 0xDC,
            final(self).cart@[0x11D] == 0xCC,
            final(self).cart@[0x11E] == 0x6E,
            final(self).cart@[0x11F] == 0xE6,
            final(self).cart@[0x120] == 0xDD,
            final(self).cart@[0x121] == 0xDD,
            final(self).cart@[0x122] == 0xD9,
            final(self).cart@[0x123] == 0x99,
            final(self).cart@[0x124] == 0xBB,
            final(self).cart@[0x125] == 0xBB,
            final(self).cart@[0x126] == 0x67,
            final(self).cart@[0x127] == 0x63,
            final(self).cart@[0x128] == 0x6E,
            final(self).cart@[0x129] == 0x0E,
            final(self).cart@[0x12A] == 0xEC,
            final(self).cart@[0x12B] == 0xCC,
            final(self).cart@[0x12C] == 0xDD,
            final(self).cart@[0x12D] == 0xDC,
            final(self).cart@[0x12E] == 0x99,
            final(self).cart@[0x12F] == 0x9F,
            final(self).cart@[0x130] == 0xBB,
            final(self).cart@[0x131] == 0xB9,
            final(self).cart@[0x132] == 0x33,
            final(self).cart@[0x133] == 0x3E,
            final(self)@.cart[0x143] == 0x80,
            final(self)@.cart[0x146] == 0x00,
            final(self)@.cart[0x147] == 0x00,
            final(self)@.cart[0x148] == 0x00,
            final(self)@.cart[0x149] == 0x00,
            final(self)@.cart[0x14A] == 0x01,
            final(self)@.cart[0x14D] == 0x01,
    {
        self.cart.set(0x104, 0xCE);
        self.cart.set(0x105, 0xED);
        self.cart.set(0x106, 0x66);
        self.cart.set(0x107, 0x66);
        self.cart.set(0x108, 0xCC);
        self.cart.set(0x109, 0x0D);
        self.cart.set(0x10A, 0x00);
        self.cart.set(0x10B, 0x0B);
        self.cart.set(0x10C, 0x03);
        self.cart.set(0x10D, 0x73);
        self.cart.set(0x10E, 0x00);
        self.cart.set(0x10F, 0x83);
        self.cart.set(0x110, 0x00);
        self.cart.set(0x111, 0x0C);
        self.cart.set(0x112, 0x00);
        self.cart.set(0x113, 0x0D);
        self.cart.set(0x114, 0x00);
        self.cart.set(0x115, 0x08);
        self.cart.set(0x116, 0x11);
        self.cart.set(0x117, 0x1F);
        self.cart.set(0x118, 0x88);
        self.cart.set(0x119, 0x89);
        self.cart.set(0x11A, 0x00);
        self.cart.set(0x11B, 0x0E);
        self.cart.set(0x11C, 0xDC);
        self.cart.set(0x11D, 0xCC);
        self.cart.set(0x11E, 0x6E);
        self.cart.set(0x11F, 0xE6);
        self.cart.set(0x120, 0xDD);
        self.cart.set(0x121, 0xDD);
        self.cart.set(0x122, 0xD9);
        self.cart.set(0x123, 0x99);
        self.cart.set(0x124, 0xBB);
        self.cart.set(0x125, 0xBB);
        self.cart.set(0x126, 0x67);
        self.cart.set(0x127, 0x63);
        self.cart.set(0x128, 0x6E);
        self.cart.set(0x129, 0x0E);
        self.cart.set(0x12A, 0xEC);
        self.cart.set(0x12B, 0xCC);
        self.cart.set(0x12C, 0xDD);
        self.cart.set(0x12D, 0xDC);
        self.cart.set(0x12E, 0x99);
        self.cart.set(0x12F, 0x9F);
        self.cart.set(0x130, 0xBB);
        self.cart.set(0x131, 0xB9);
        self.cart.set(0x132, 0x33);
        self.cart.set(0x133, 0x3E);
        self.cart.set(0x143, 0x80);
        self.cart.set(0x146, 0x00);
        self.cart.set(0x147, 0x00);
        self.cart.set(0x148, 0x00);
        self.cart.set(0x149, 0x00);
        self.cart.set(0x14A, 0x01);
        self.cart.set(0x14D, 0x01);
    }

    /// The effective byte at an address, honouring the boot overlay, the
    /// ROM mapping, the echo mirror and the unused strip.
    pub fn read_byte(&mut self, addr: u16) -> (r: u8)
        requires
            mmu_wf(old(self)@),
        ensures
            *final(self) == *old(self),
            r == read_eff(old(self)@, addr),
    {
        if addr < 0x100 && self.boot_mapped {
            self.boot[addr as usize]
        } else if addr < 0x8000 {
            self.cart[addr as usize]
        } else if 0xE000 <= addr && addr <= 0xFDFF {
            self.mem[(addr - 0x2000) as usize]
        } else if 0xFEA0 <= addr && addr <= 0xFEFF {
            0xFF
        } else {
            self.mem[addr as usize]
        }
    }

    /// Store a byte, honouring every region's write policy.
    pub fn write_byte(&mut self, addr: u16, data: u8)
        requires
            mmu_wf(old(self)@),
        ensures
            mmu_wf(final(self)@),
            final(self)@ == write_eff(old(self)@, addr, data),
    {
        if addr < 0x8000 {
            // ROM region: writes are dropped (MBC control is out of scope).
        } else if addr < 0xA000 {
            if self.mem[0xFF41] % 4 != 3 {
                self.mem.set(addr as usize, data);
            }
        } else if addr < 0xE000 {
            self.mem.set(addr as usize, data);
        } else if addr <= 0xFDFF {
            self.mem.set((addr - 0x2000) as usize, data);
        } else if addr <= 0xFE9F {
            if self.mem[0xFF41] % 4 < 2 {
                self.mem.set(addr as usize, data);
            }
        } else if addr <= 0xFEFF {
            // Unused strip: writes are ignored.
        } else if addr == 0xFF41 {
            let kept: u8 = self.mem[0xFF41] % 8;
            self.mem.set(0xFF41, data / 8 * 8 + kept);
        } else if addr == 0xFF44 {
            self.mem.set(0xFF44, 0);
        } else if addr == 0xFF46 {
            self.mem.set(0xFF46, data);
            self.dma_transfer(data);
        } else if addr == 0xFF50 {
            self.mem.set(0xFF50, data);
            if data != 0 {
                self.boot_mapped = false;
            }
        } else {
            self.mem.set(addr as usize, data);
        }
    }

    /// The DMA copy: 160 bytes starting at src_hi << 8 land in OAM. Reads
    /// go through the effective-read rules of the current state; the
    /// destination bytes are overwritten regardless of the PPU mode.
    fn dma_transfer(&mut self, src_hi: u8)
        requires
            mmu_wf(old(self)@),
        ensures
            mmu_wf(final(self)@),
            final(self)@ == dma_copy(old(self)@, src_hi),
    {
        let base: u16 = src_hi as u16 * 256;
        let mut buf: Vec<u8> = Vec::new();
        let mut i: usize = 0;
        while i < 160
            invariant
                mmu_wf(self@),
                *self == *old(self),
                i <= 160,
                buf@.len() == i,
                forall|j: int|
                    0 <= j < i ==> buf@[j] == read_eff(old(self)@, (src_hi * 256 + j) as u16),
                base == src_hi as int * 256,
            decreases 160 - i,
        {
            let b = self.read_byte(base + i as u16);
            buf.push(b);
            i = i + 1;
        }
        let mut k: usize = 0;
        while k < 160
            invariant
                mmu_wf(self@),
                k <= 160,
                buf@.len() == 160,
                forall|j: int|
                    0 <= j < 160 ==> buf@[j] == read_eff(old(self)@, (src_hi * 256 + j) as u16),
                self@.cart == old(self)@.cart,
                self@.boot == old(self)@.boot,
                self@.boot_mapped == old(self)@.boot_mapped,
                self@.mem.len() == 0x10000,
                forall|j: int| 0 <= j < 0xFE00 ==> self@.mem[j] == old(self)@.mem[j],
                forall|j: int| 0xFE00 + k <= j < 0x10000 ==> self@.mem[j] == old(self)@.mem[j],
                forall|j: int| 0xFE00 <= j < 0xFE00 + k ==> self@.mem[j] == buf@[j - 0xFE00],
            decreases 160 - k,
        {
            self.mem.set(0xFE00 + k, buf[k]);
            k = k + 1;
        }
        assert(self@.mem =~= dma_copy(old(self)@, src_hi).mem);
        assert(self@ =~= dma_copy(old(self)@, src_hi));
    }

    /// The little-endian pair at an address; the high byte comes from the
    /// next address, wrapping modulo 65536.
    pub fn read_word(&mut self, addr: u16) -> (r: u16)
        requires
            mmu_wf(old(self)@),
        ensures
            *final(self) == *old(self),
            r == read_word_eff(old(self)@, addr),
    {
        let lo_b = self.read_byte(addr);
        let hi_b = self.read_byte(addr.wrapping_add(1));
        assert(addr.wrapping_add(1) == wadd16(addr, 1));
        hi_b as u16 * 256 + lo_b as u16
    }

    /// Store a little-endian pair: the low byte at the address, the high
    /// byte at the next address, wrapping modulo 65536.
    pub fn write_word(&mut self, addr: u16, data: u16)
        requires
            mmu_wf(old(self)@),
        ensures
            mmu_wf(final(self)@),
            final(self)@ == write_word_eff(old(self)@, addr, data),
    {
        self.write_byte(addr, (data % 256) as u8);
        assert(addr.wrapping_add(1) == wadd16(addr, 1));
        self.write_byte(addr.wrapping_add(1), (data / 256) as u8);
    }

    /// The PPU's own write of the current scanline into LY; unlike a CPU
    /// write through the bus this does not reset the register.
    pub fn set_ly(&mut self, v: u8)
        requires
            mmu_wf(old(self)@),
        ensures
            mmu_wf(final(self)@),
            final(self)@ == upd(old(self)@, 0xFF44, v),
    {
        self.mem.set(0xFF44, v);
    }

    /// The PPU's write of its mode into the low two bits of STAT.
    pub fn set_stat_mode(&mut self, mode: u8)
        requires
            mmu_wf(old(self)@),
            mode < 4,
        ensures
            mmu_wf(final(self)@),
            final(self)@ == upd(
                old(self)@,
                0xFF41,
                (old(self)@.mem[0xFF41] / 4 * 4 + mode) as u8,
            ),
    {
        let kept: u8 = self.mem[0xFF41] / 4 * 4;
        self.mem.set(0xFF41, kept + mode);
    }

    /// The PPU's write of the LY == LYC comparison into bit 2 of STAT.
    pub fn set_stat_coincidence(&mut self, on: bool)
        requires
            mmu_wf(old(self)@),
        ensures
            mmu_wf(final(self)@),
            final(self)@ == upd(
                old(self)@,
                0xFF41,
                ((if on {
                    old(self)@.mem[0xFF41] - old(self)@.mem[0xFF41] / 4 % 2 * 4 + 4
                } else {
                    old(self)@.mem[0xFF41] - old(self)@.mem[0xFF41] / 4 % 2 * 4
                }) as u8),
            ),
    {
        let cur: u8 = self.mem[0xFF41];
        let without: u8 = cur - cur / 4 % 2 * 4;
        if on {
            self.mem.set(0xFF41, without + 4);
        } else {
            self.mem.set(0xFF41, without);
        }
    }

    /// Raise one of the five interrupt-request bits in IF (0xFF0F).
    pub fn request_interrupt(&mut self, bit: u8)
        requires
            mmu_wf(old(self)@),
            bit < 5,
        ensures
            mmu_wf(final(self)@),
            final(self)@ == upd(old(self)@, 0xFF0F, (old(self)@.mem[0xFF0F] | (1u8 << bit)) as u8),
    {
        let cur: u8 = self.mem[0xFF0F];
        self.mem.set(0xFF0F, cur | (1u8 << bit));
    }
}

} // verus!
