//! The pixel processing unit: a scanline state machine driven by the CPU's
//! cycle counts. Each visible line passes through OAM scan (mode 2, 80
//! T-cycles), drawing (mode 3, 172) and horizontal blank (mode 0, 204);
//! after line 143 come ten lines of vertical blank (mode 1, 456 each), and
//! the frame wraps. The `frame_pos` spec function maps the machine's state
//! to its position in the 70224-cycle frame; `step` is proved to conserve
//! it exactly, which pins LY to `frame_pos / 456` throughout. At each
//! mode-3 exit one scanline of background and window pixels is composed
//! into the 160 x 144 frame buffer through the BGP palette.

use vstd::prelude::*;

verus! {

use crate::mmu::{MMU, MmuV, mmu_wf, read_eff, upd};

/// The PPU state as contracts see it.
#[verifier::ext_equal]
pub struct GpuV {
    pub mode: u8,
    pub cycles: u32,
    pub ly: u8,
    pub win_line: u8,
    pub frame: Seq<u32>,
}

/// What one PPU step leaves behind.
#[verifier::ext_equal]
pub struct GR {
    pub g: GpuV,
    pub m: MmuV,
    pub entered_vblank: bool,
}

pub struct GPU {
    pub mode: u8,
    pub cycles: u32,
    pub scan_line: u8,
    pub win_line: u8,
    pub frame: Vec<u32>,
}

impl View for GPU {
    type V = GpuV;

    open spec fn view(&self) -> GpuV {
        GpuV {
            mode: self.mode,
            cycles: self.cycles,
            ly: self.scan_line,
            win_line: self.win_line,
            frame: self.frame@,
        }
    }
}

/// How many T-cycles a mode lasts on one line.
pub open spec fn phase_len(mode: u8) -> u32 {
    if mode == 2 {
        80
    } else if mode == 3 {
        172
    } else if mode == 0 {
        204
    } else {
        456
    }
}

/// The mode is one of the four, the cycle accumulator sits inside the
/// current phase, LY matches the mode's line range, the window line
/// counter never exceeds the lines drawn so far, and the frame buffer
/// covers 160 x 144 pixels.
pub open spec fn gpu_wf(g: GpuV) -> bool {
    &&& g.mode <= 3
    &&& g.cycles < phase_len(g.mode)
    &&& (g.mode == 1 ==> 144 <= g.ly <= 153)
    &&& (g.mode != 1 ==> g.ly <= 143)
    &&& ((g.mode == 2 || g.mode == 3) ==> g.win_line <= g.ly)
    &&& (g.mode == 0 ==> g.win_line <= g.ly + 1)
    &&& (g.mode == 1 ==> g.win_line <= 144)
    &&& g.frame.len() == 160 * 144
}

/// The position inside the 70224-cycle frame: whole lines below LY, plus
/// the finished phases of the current line, plus the cycle accumulator.
pub open spec fn frame_pos(g: GpuV) -> int {
    if g.mode == 2 {
        g.ly * 456 + g.cycles
    } else if g.mode == 3 {
        g.ly * 456 + 80 + g.cycles
    } else if g.mode == 0 {
        g.ly * 456 + 252 + g.cycles
    } else {
        g.ly * 456 + g.cycles
    }
}

/// In a well-formed PPU the current scanline is the frame position divided
/// by the line length.
pub proof fn lemma_ly_tracks_frame_pos(g: GpuV)
    requires
        gpu_wf(g),
    ensures
        0 <= frame_pos(g) < 70224,
        g.ly == frame_pos(g) / 456,
{
}

/// STAT with the mode bits replaced, as the PPU writes it.
pub open spec fn set_mode_m(m: MmuV, mode: u8) -> MmuV {
    upd(m, 0xFF41, (m.mem[0xFF41] / 4 * 4 + mode) as u8)
}

/// STAT with the LY == LYC coincidence bit replaced.
pub open spec fn set_coin_m(m: MmuV, on: bool) -> MmuV {
    upd(
        m,
        0xFF41,
        ((if on {
            m.mem[0xFF41] - m.mem[0xFF41] / 4 % 2 * 4 + 4
        } else {
            m.mem[0xFF41] - m.mem[0xFF41] / 4 % 2 * 4
        }) as u8),
    )
}

/// IF with one request bit raised.
pub open spec fn req_if(m: MmuV, bit: u8) -> MmuV {
    upd(m, 0xFF0F, (m.mem[0xFF0F] | (1u8 << bit)) as u8)
}

/// The memory after LY moves to a new line: LY is written, the
/// coincidence bit follows the LYC compare, and a match raises the STAT
/// interrupt when STAT bit 6 allows it.
pub open spec fn after_line_change(m: MmuV, nly: u8) -> MmuV {
    let m1 = upd(m, 0xFF44, nly);
    let coin = read_eff(m1, 0xFF45) == nly;
    let m2 = set_coin_m(m1, coin);
    if coin && read_eff(m2, 0xFF41) / 64 % 2 == 1 {
        req_if(m2, 1)
    } else {
        m2
    }
}

/// The memory after a mode transition: the STAT mode bits are written;
/// entering HBlank or OAM scan raises the STAT interrupt when the matching
/// enable bit allows it, and entering VBlank raises the VBlank interrupt
/// and optionally the STAT one.
pub open spec fn after_mode_change(m: MmuV, mode: u8) -> MmuV {
    let m1 = set_mode_m(m, mode);
    let stat = read_eff(m1, 0xFF41);
    if mode == 0 && stat / 8 % 2 == 1 {
        req_if(m1, 1)
    } else if mode == 2 && stat / 32 % 2 == 1 {
        req_if(m1, 1)
    } else if mode == 1 {
        let m2 = req_if(m1, 0);
        if stat / 16 % 2 == 1 {
            req_if(m2, 1)
        } else {
            m2
        }
    } else {
        m1
    }
}

/// Whether the window overlays the given scanline: enabled by LCDC bit 5,
/// started at or above the line by WY, and on-screen by WX.
pub open spec fn win_on_line(m: MmuV, ly: u8) -> bool {
    let lcdc = read_eff(m, 0xFF40);
    let wy = read_eff(m, 0xFF4A);
    let wx = read_eff(m, 0xFF4B);
    lcdc / 32 % 2 == 1 && wy <= ly && wx <= 166
}

/// The address of a tile's 16 bytes under the LCDC bit-4 addressing mode:
/// unsigned from 0x8000, or signed around 0x9000.
pub open spec fn tile_addr(lcdc: u8, tile: u8) -> u16 {
    if lcdc / 16 % 2 == 1 {
        (0x8000 + tile * 16) as u16
    } else if tile < 128 {
        (0x9000 + tile * 16) as u16
    } else {
        (0x8800 + (tile - 128) * 16) as u16
    }
}

/// The 2-bit colour index a tile yields at a row and column: the high bit
/// from the row's second byte, the low bit from the first.
pub open spec fn tile_color_index(m: MmuV, taddr: u16, row: int, col: int) -> u8 {
    let b1 = read_eff(m, (taddr + 2 * row) as u16);
    let b2 = read_eff(m, (taddr + 2 * row + 1) as u16);
    let bitpos = (7 - col) as u8;
    (((b2 >> bitpos) & 1) * 2 + ((b1 >> bitpos) & 1)) as u8
}

/// The background colour index at screen coordinates (x, ly): scrolled by
/// SCX/SCY, looked up in the LCDC bit-3 tile map, fetched under the LCDC
/// bit-4 addressing mode.
pub open spec fn bg_color_index(m: MmuV, ly: u8, x: int) -> u8 {
    let lcdc = read_eff(m, 0xFF40);
    let scy = read_eff(m, 0xFF42);
    let scx = read_eff(m, 0xFF43);
    let bgy = (ly + scy) % 256;
    let bgx = (x + scx) % 256;
    let map_base: int = if lcdc / 8 % 2 == 1 {
        0x9C00
    } else {
        0x9800
    };
    let tile = read_eff(m, (map_base + (bgy / 8) * 32 + bgx / 8) as u16);
    tile_color_index(m, tile_addr(lcdc, tile), bgy % 8, bgx % 8)
}

/// The window colour index at screen column x on window line `wline`,
/// looked up in the LCDC bit-6 tile map.
pub open spec fn win_color_index(m: MmuV, wline: u8, x: int) -> u8 {
    let lcdc = read_eff(m, 0xFF40);
    let wx = read_eff(m, 0xFF4B);
    let col = x + 7 - wx;
    let map_base: int = if lcdc / 64 % 2 == 1 {
        0x9C00
    } else {
        0x9800
    };
    let tile = read_eff(m, (map_base + (wline / 8) * 32 + col / 8) as u16);
    tile_color_index(m, tile_addr(lcdc, tile), (wline as int) % 8, col % 8)
}


/// The Y byte of OAM entry i: the sprite's top line plus 16.
pub open spec fn oam_y(m: MmuV, i: int) -> u8 {
    read_eff(m, (0xFE00 + 4 * i) as u16)
}

/// The X byte of OAM entry i: the sprite's left column plus 8.
pub open spec fn oam_x(m: MmuV, i: int) -> u8 {
    read_eff(m, (0xFE00 + 4 * i + 1) as u16)
}

/// The tile byte of OAM entry i.
pub open spec fn oam_tile(m: MmuV, i: int) -> u8 {
    read_eff(m, (0xFE00 + 4 * i + 2) as u16)
}

/// The attribute byte of OAM entry i: priority in bit 7, Y flip in bit 6,
/// X flip in bit 5, the object palette in bit 4.
pub open spec fn oam_attr(m: MmuV, i: int) -> u8 {
    read_eff(m, (0xFE00 + 4 * i + 3) as u16)
}

/// Sprite height under LCDC bit 2: 8, or 16 for paired tiles.
pub open spec fn sprite_h(m: MmuV) -> int {
    if read_eff(m, 0xFF40) / 4 % 2 == 1 {
        16
    } else {
        8
    }
}

/// Whether OAM entry i covers scanline ly.
pub open spec fn sprite_on_line(m: MmuV, ly: u8, i: int) -> bool {
    oam_y(m, i) <= ly + 16 < oam_y(m, i) + sprite_h(m)
}

/// The OAM scan over entries 0..n: the candidates for the line, in OAM
/// order, capped at ten.
pub open spec fn scan_cands(m: MmuV, ly: u8, n: int) -> Seq<int>
    decreases n,
{
    if n <= 0 {
        Seq::empty()
    } else {
        let prev = scan_cands(m, ly, n - 1);
        if sprite_on_line(m, ly, n - 1) && prev.len() < 10 {
            prev.push(n - 1)
        } else {
            prev
        }
    }
}

/// Every OAM-scan candidate is a real entry index and covers the line,
/// and the scan never keeps more than ten.
pub proof fn lemma_scan_cands_props(m: MmuV, ly: u8, n: int)
    ensures
        scan_cands(m, ly, n).len() <= 10,
        forall|j: int|
            0 <= j < scan_cands(m, ly, n).len() ==> 0 <= #[trigger] scan_cands(m, ly, n)[j] < n
                && sprite_on_line(m, ly, scan_cands(m, ly, n)[j]),
    decreases n,
{
    if n > 0 {
        lemma_scan_cands_props(m, ly, n - 1);
    }
}

/// The 2-bit colour index sprite i yields at (x, ly): flipped per the
/// attribute bits, paired tiles in 8x16 mode, always from the 0x8000 bank.
pub open spec fn sprite_ci(m: MmuV, ly: u8, x: int, i: int) -> u8 {
    let attr = oam_attr(m, i);
    let h = sprite_h(m);
    let row0 = ly + 16 - oam_y(m, i);
    let row = if attr / 64 % 2 == 1 {
        h - 1 - row0
    } else {
        row0
    };
    let col0 = x + 8 - oam_x(m, i);
    let col = if attr / 32 % 2 == 1 {
        7 - col0
    } else {
        col0
    };
    let tile: int = if h == 16 {
        oam_tile(m, i) / 2 * 2 + (if row >= 8 {
            1int
        } else {
            0int
        })
    } else {
        oam_tile(m, i) as int
    };
    tile_color_index(m, (0x8000 + tile * 16) as u16, row % 8, col)
}

/// Whether sprite i paints column x on line ly over a background colour
/// index `bgci`: it covers the column, its own colour is non-zero, and
/// its priority bit defers only to non-zero background.
pub open spec fn sprite_paints(m: MmuV, ly: u8, x: int, i: int, bgci: u8) -> bool {
    &&& oam_x(m, i) <= x + 8 < oam_x(m, i) + 8
    &&& sprite_ci(m, ly, x, i) != 0
    &&& (oam_attr(m, i) / 128 % 2 == 0 || bgci == 0)
}

/// The winning sprite among the first k candidates: of those that paint
/// the column, the one with the smallest X; on equal X the earlier OAM
/// entry wins.
pub open spec fn sprite_winner(m: MmuV, ly: u8, cs: Seq<int>, x: int, bgci: u8, k: int) -> Option<
    int,
>
    decreases k,
{
    if k <= 0 {
        Option::None
    } else {
        let prev = sprite_winner(m, ly, cs, x, bgci, k - 1);
        let i = cs[k - 1];
        if sprite_paints(m, ly, x, i, bgci) {
            match prev {
                Option::None => Option::Some(i),
                Option::Some(b) => if oam_x(m, i) < oam_x(m, b) {
                    Option::Some(i)
                } else {
                    prev
                },
            }
        } else {
            prev
        }
    }
}

/// A 2-bit colour translated through a palette byte.
pub open spec fn palette_color(pal: u8, idx: u8) -> u8 {
    (pal >> (2 * idx) as u8) & 3
}

/// The four grey levels as 32-bit pixels, lightest first.
pub open spec fn shade(ci: u8) -> u32 {
    if ci == 0 {
        0xFFFFFFFFu32
    } else if ci == 1 {
        0xFFAAAAAAu32
    } else if ci == 2 {
        0xFF555555u32
    } else {
        0xFF000000u32
    }
}

/// One output pixel: the window where it covers the column, the scrolled
/// background elsewhere, and on top of both — when LCDC bit 1 enables
/// objects — the winning sprite of the line's OAM scan, through its own
/// object palette.
pub open spec fn line_pixel(m: MmuV, ly: u8, wline: u8, x: int) -> u32 {
    let lcdc = read_eff(m, 0xFF40);
    let wy = read_eff(m, 0xFF4A);
    let wx = read_eff(m, 0xFF4B);
    let base_ci = if lcdc / 32 % 2 == 1 && wy <= ly && wx <= 166 && x + 7 >= wx {
        win_color_index(m, wline, x)
    } else {
        bg_color_index(m, ly, x)
    };
    let cs = scan_cands(m, ly, 40);
    let sw = if lcdc / 2 % 2 == 1 {
        sprite_winner(m, ly, cs, x, base_ci, cs.len() as int)
    } else {
        Option::<int>::None
    };
    match sw {
        Option::Some(i) => {
            let obp = if oam_attr(m, i) / 16 % 2 == 1 {
                read_eff(m, 0xFF49)
            } else {
                read_eff(m, 0xFF48)
            };
            shade(palette_color(obp, sprite_ci(m, ly, x, i)))
        },
        Option::None => shade(palette_color(read_eff(m, 0xFF47), base_ci)),
    }
}

/// The frame buffer with row `ly` recomposed from the current memory.
pub open spec fn render_line(fr: Seq<u32>, m: MmuV, ly: u8, wline: u8) -> Seq<u32> {
    Seq::new(
        fr.len(),
        |i: int|
            if ly * 160 <= i < ly * 160 + 160 {
                line_pixel(m, ly, wline, i - ly * 160)
            } else {
                fr[i]
            },
    )
}

/// One PPU step: the cycle accumulator grows by `t`; when it crosses the
/// current phase, the machine moves to the next phase, rendering the line
/// at the mode-3 exit, stepping LY at each line end with the LYC compare,
/// and raising the VBlank and STAT requests the enables call for.
pub open spec fn gpu_step_spec(g: GpuV, m: MmuV, t: u32) -> GR {
    let cyc = (g.cycles + t) as u32;
    if g.mode == 2 {
        if cyc >= 80 {
            GR {
                g: GpuV { mode: 3, cycles: (cyc - 80) as u32, ..g },
                m: after_mode_change(m, 3),
                entered_vblank: false,
            }
        } else {
            GR { g: GpuV { cycles: cyc, ..g }, m, entered_vblank: false }
        }
    } else if g.mode == 3 {
        if cyc >= 172 {
            let g1 = GpuV {
                mode: 0,
                cycles: (cyc - 172) as u32,
                frame: render_line(g.frame, m, g.ly, g.win_line),
                win_line: if win_on_line(m, g.ly) {
                    (g.win_line + 1) as u8
                } else {
                    g.win_line
                },
                ..g
            };
            GR { g: g1, m: after_mode_change(m, 0), entered_vblank: false }
        } else {
            GR { g: GpuV { cycles: cyc, ..g }, m, entered_vblank: false }
        }
    } else if g.mode == 0 {
        if cyc >= 204 {
            let nly = (g.ly + 1) as u8;
            let m1 = after_line_change(m, nly);
            if nly == 144 {
                GR {
                    g: GpuV { mode: 1, cycles: (cyc - 204) as u32, ly: nly, ..g },
                    m: after_mode_change(m1, 1),
                    entered_vblank: true,
                }
            } else {
                GR {
                    g: GpuV { mode: 2, cycles: (cyc - 204) as u32, ly: nly, ..g },
                    m: after_mode_change(m1, 2),
                    entered_vblank: false,
                }
            }
        } else {
            GR { g: GpuV { cycles: cyc, ..g }, m, entered_vblank: false }
        }
    } else {
        if cyc >= 456 {
            if g.ly == 153 {
                let m1 = after_line_change(m, 0);
                GR {
                    g: GpuV { mode: 2, cycles: (cyc - 456) as u32, ly: 0, win_line: 0, ..g },
                    m: after_mode_change(m1, 2),
                    entered_vblank: false,
                }
            } else {
                let nly = (g.ly + 1) as u8;
                GR {
                    g: GpuV { cycles: (cyc - 456) as u32, ly: nly, ..g },
                    m: after_line_change(m, nly),
                    entered_vblank: false,
                }
            }
        } else {
            GR { g: GpuV { cycles: cyc, ..g }, m, entered_vblank: false }
        }
    }
}

/// The background colour index at (x, ly), executably.
fn bg_ci(mmu: &mut MMU, ly: u8, x: usize) -> (ci: u8)
    requires
        mmu_wf(old(mmu)@),
        x < 160,
        ly <= 143,
    ensures
        *final(mmu) == *old(mmu),
        ci == bg_color_index(old(mmu)@, ly, x as int),
        ci <= 3,
{
    let lcdc = mmu.read_byte(0xFF40);
    let scy = mmu.read_byte(0xFF42);
    let scx = mmu.read_byte(0xFF43);
    let bgy: u16 = (ly as u16 + scy as u16) % 256;
    let bgx: u16 = (x as u16 + scx as u16) % 256;
    let map_base: u16 = if lcdc / 8 % 2 == 1 {
        0x9C00
    } else {
        0x9800
    };
    let tile = mmu.read_byte(map_base + bgy / 8 * 32 + bgx / 8);
    let taddr: u16 = if lcdc / 16 % 2 == 1 {
        0x8000 + tile as u16 * 16
    } else if tile < 128 {
        0x9000 + tile as u16 * 16
    } else {
        0x8800 + (tile as u16 - 128) * 16
    };
    let b1 = mmu.read_byte(taddr + 2 * (bgy % 8));
    let b2 = mmu.read_byte(taddr + 2 * (bgy % 8) + 1);
    let bitpos: u8 = (7 - bgx % 8) as u8;
    assert((b2 >> bitpos) & 1 <= 1 && (b1 >> bitpos) & 1 <= 1) by (bit_vector);
    ((b2 >> bitpos) & 1) * 2 + ((b1 >> bitpos) & 1)
}

/// The window colour index at column x on window line `wline`, executably.
fn win_ci(mmu: &mut MMU, wline: u8, x: usize) -> (ci: u8)
    requires
        mmu_wf(old(mmu)@),
        x < 160,
        wline <= 144,
        x + 7 >= read_eff(old(mmu)@, 0xFF4B),
        read_eff(old(mmu)@, 0xFF4B) <= 166,
    ensures
        *final(mmu) == *old(mmu),
        ci == win_color_index(old(mmu)@, wline, x as int),
        ci <= 3,
{
    let lcdc = mmu.read_byte(0xFF40);
    let wx = mmu.read_byte(0xFF4B);
    let col: u16 = x as u16 + 7 - wx as u16;
    let map_base: u16 = if lcdc / 64 % 2 == 1 {
        0x9C00
    } else {
        0x9800
    };
    let tile = mmu.read_byte(map_base + wline as u16 / 8 * 32 + col / 8);
    let taddr: u16 = if lcdc / 16 % 2 == 1 {
        0x8000 + tile as u16 * 16
    } else if tile < 128 {
        0x9000 + tile as u16 * 16
    } else {
        0x8800 + (tile as u16 - 128) * 16
    };
    let b1 = mmu.read_byte(taddr + 2 * (wline as u16 % 8));
    let b2 = mmu.read_byte(taddr + 2 * (wline as u16 % 8) + 1);
    let bitpos: u8 = (7 - col % 8) as u8;
    assert((b2 >> bitpos) & 1 <= 1 && (b1 >> bitpos) & 1 <= 1) by (bit_vector);
    ((b2 >> bitpos) & 1) * 2 + ((b1 >> bitpos) & 1)
}


/// The line's OAM scan, executably: the first ten covering entries.
fn collect_sprites(mmu: &mut MMU, ly: u8) -> (cs: Vec<u8>)
    requires
        mmu_wf(old(mmu)@),
        ly <= 143,
    ensures
        *final(mmu) == *old(mmu),
        cs@.len() == scan_cands(old(mmu)@, ly, 40).len(),
        forall|j: int| 0 <= j < cs@.len() ==> cs@[j] as int == scan_cands(old(mmu)@, ly, 40)[j],
{
    let h: u16 = if mmu.read_byte(0xFF40) / 4 % 2 == 1 {
        16
    } else {
        8
    };
    let mut cs: Vec<u8> = Vec::new();
    let mut i: u16 = 0;
    while i < 40
        invariant
            mmu_wf(mmu@),
            *mmu == *old(mmu),
            i <= 40,
            h as int == sprite_h(mmu@),
            cs@.len() == scan_cands(mmu@, ly, i as int).len(),
            forall|j: int|
                0 <= j < cs@.len() ==> cs@[j] as int == scan_cands(mmu@, ly, i as int)[j],
        decreases 40 - i,
    {
        let sy = mmu.read_byte(0xFE00 + 4 * i);
        if cs.len() < 10 && sy as u16 <= ly as u16 + 16 && (ly as u16) + 16 < sy as u16 + h {
            cs.push(i as u8);
        }
        i = i + 1;
    }
    cs
}

/// The colour index a covering sprite yields at (x, ly), executably.
fn sprite_ci_at(mmu: &mut MMU, ly: u8, x: usize, i: u8) -> (ci: u8)
    requires
        mmu_wf(old(mmu)@),
        i < 40,
        x < 160,
        ly <= 143,
        sprite_on_line(old(mmu)@, ly, i as int),
        oam_x(old(mmu)@, i as int) <= x + 8 < oam_x(old(mmu)@, i as int) + 8,
    ensures
        *final(mmu) == *old(mmu),
        ci == sprite_ci(old(mmu)@, ly, x as int, i as int),
        ci <= 3,
{
    let base: u16 = 0xFE00 + 4 * i as u16;
    let sy = mmu.read_byte(base);
    let sx = mmu.read_byte(base + 1);
    let tile = mmu.read_byte(base + 2);
    let attr = mmu.read_byte(base + 3);
    let h: u16 = if mmu.read_byte(0xFF40) / 4 % 2 == 1 {
        16
    } else {
        8
    };
    let row0: u16 = ly as u16 + 16 - sy as u16;
    let row: u16 = if attr / 64 % 2 == 1 {
        h - 1 - row0
    } else {
        row0
    };
    let col0: u16 = x as u16 + 8 - sx as u16;
    let col: u16 = if attr / 32 % 2 == 1 {
        7 - col0
    } else {
        col0
    };
    let t: u16 = if h == 16 {
        (tile / 2 * 2) as u16 + (if row >= 8 {
            1
        } else {
            0
        })
    } else {
        tile as u16
    };
    let taddr: u16 = 0x8000 + t * 16;
    let b1 = mmu.read_byte(taddr + 2 * (row % 8));
    let b2 = mmu.read_byte(taddr + 2 * (row % 8) + 1);
    let bitpos: u8 = (7 - col % 8) as u8;
    assert((b2 >> bitpos) & 1 <= 1 && (b1 >> bitpos) & 1 <= 1) by (bit_vector);
    ((b2 >> bitpos) & 1) * 2 + ((b1 >> bitpos) & 1)
}

/// One output pixel, executably; `cs` holds the line's OAM-scan result.
#[verifier::rlimit(60)]
fn pixel_at(mmu: &mut MMU, ly: u8, wline: u8, x: usize, cs: &Vec<u8>) -> (px: u32)
    requires
        mmu_wf(old(mmu)@),
        x < 160,
        ly <= 143,
        wline <= 144,
        cs@.len() == scan_cands(old(mmu)@, ly, 40).len(),
        forall|j: int| 0 <= j < cs@.len() ==> cs@[j] as int == scan_cands(old(mmu)@, ly, 40)[j],
    ensures
        *final(mmu) == *old(mmu),
        px == line_pixel(old(mmu)@, ly, wline, x as int),
{
    let ghost m0 = old(mmu)@;
    let ghost css = scan_cands(m0, ly, 40);
    proof {
        lemma_scan_cands_props(m0, ly, 40);
    }
    let lcdc = mmu.read_byte(0xFF40);
    let wy = mmu.read_byte(0xFF4A);
    let wx = mmu.read_byte(0xFF4B);
    let base_ci: u8 = if lcdc / 32 % 2 == 1 && wy <= ly && wx <= 166 && x + 7 >= wx as usize {
        win_ci(mmu, wline, x)
    } else {
        bg_ci(mmu, ly, x)
    };
    let mut sel: bool = false;
    let mut sel_i: u8 = 0;
    if lcdc / 2 % 2 == 1 {
        let mut k: usize = 0;
        while k < cs.len()
            invariant
                mmu_wf(mmu@),
                *mmu == *old(mmu),
                m0 == mmu@,
                css == scan_cands(m0, ly, 40),
                x < 160,
                ly <= 143,
                k <= cs@.len(),
                cs@.len() == css.len(),
                forall|j: int| 0 <= j < cs@.len() ==> cs@[j] as int == css[j],
                forall|j: int|
                    0 <= j < css.len() ==> 0 <= #[trigger] css[j] < 40 && sprite_on_line(
                        m0,
                        ly,
                        css[j],
                    ),
                ({
                    let w = sprite_winner(m0, ly, css, x as int, base_ci, k as int);
                    if sel {
                        w == Option::Some(sel_i as int)
                    } else {
                        w is None
                    }
                }),
                sel ==> sel_i < 40 && sprite_paints(m0, ly, x as int, sel_i as int, base_ci)
                    && sprite_on_line(m0, ly, sel_i as int),
            decreases cs@.len() - k,
        {
            let i = cs[k];
            proof {
                assert(cs@[k as int] as int == css[k as int]);
                assert(0 <= css[k as int] < 40);
                assert(sprite_on_line(m0, ly, css[k as int]));
            }
            let sx = mmu.read_byte(0xFE00 + 4 * i as u16 + 1);
            if sx as usize <= x + 8 && x + 8 < sx as usize + 8 {
                let ci = sprite_ci_at(mmu, ly, x, i);
                let attr = mmu.read_byte(0xFE00 + 4 * i as u16 + 3);
                if ci != 0 && (attr / 128 % 2 == 0 || base_ci == 0) {
                    if !sel {
                        sel = true;
                        sel_i = i;
                    } else {
                        let bx = mmu.read_byte(0xFE00 + 4 * sel_i as u16 + 1);
                        if sx < bx {
                            sel_i = i;
                        }
                    }
                }
            }
            k = k + 1;
        }
    }
    if sel {
        let attr = mmu.read_byte(0xFE00 + 4 * sel_i as u16 + 3);
        let obp = if attr / 16 % 2 == 1 {
            mmu.read_byte(0xFF49)
        } else {
            mmu.read_byte(0xFF48)
        };
        let ci = sprite_ci_at(mmu, ly, x, sel_i);
        let color = (obp >> (2 * ci)) & 3;
        if color == 0 {
            0xFFFFFFFF
        } else if color == 1 {
            0xFFAAAAAA
        } else if color == 2 {
            0xFF555555
        } else {
            0xFF000000
        }
    } else {
        let pal = mmu.read_byte(0xFF47);
        let color = (pal >> (2 * base_ci)) & 3;
        if color == 0 {
            0xFFFFFFFF
        } else if color == 1 {
            0xFFAAAAAA
        } else if color == 2 {
            0xFF555555
        } else {
            0xFF000000
        }
    }
}

impl GPU {
    /// A PPU at the top of a frame: OAM scan on line 0, empty accumulator,
    /// a white frame buffer.
    pub fn init() -> (r: GPU)
        ensures
            gpu_wf(r@),
            r@.mode == 2 && r@.cycles == 0 && r@.ly == 0 && r@.win_line == 0,
            forall|i: int| 0 <= i < 160 * 144 ==> r@.frame[i] == 0xFFFFFFFFu32,
    {
        let mut frame: Vec<u32> = Vec::new();
        let mut i: usize = 0;
        while i < 160 * 144
            invariant
                frame@.len() == i,
                i <= 160 * 144,
                forall|j: int| 0 <= j < i ==> frame@[j] == 0xFFFFFFFFu32,
            decreases 160 * 144 - i,
        {
            frame.push(0xFFFFFFFF);
            i = i + 1;
        }
        GPU { mode: 2, cycles: 0, scan_line: 0, win_line: 0, frame }
    }

    /// A copy of the frame buffer: 160 x 144 pixels, row-major.
    pub fn output(&self) -> (r: Vec<u32>)
        requires
            gpu_wf(self@),
        ensures
            r@ == self@.frame,
    {
        let mut r: Vec<u32> = Vec::new();
        let mut i: usize = 0;
        while i < self.frame.len()
            invariant
                r@.len() == i,
                i <= self.frame.len(),
                forall|j: int| 0 <= j < i ==> r@[j] == self.frame@[j],
                self.frame@.len() == 160 * 144,
            decreases self.frame@.len() - i,
        {
            r.push(self.frame[i]);
            i = i + 1;
        }
        proof {
            assert(r@ =~= self@.frame);
        }
        r
    }

    /// Compose the current scanline into the frame buffer.
    fn render_scanline(&mut self, mmu: &mut MMU)
        requires
            gpu_wf(old(self)@),
            mmu_wf(old(mmu)@),
            old(self)@.ly <= 143,
        ensures
            *final(mmu) == *old(mmu),
            final(self)@ == (GpuV {
                frame: render_line(
                    old(self)@.frame,
                    old(mmu)@,
                    old(self)@.ly,
                    old(self)@.win_line,
                ),
                ..old(self)@
            }),
    {
        let ly = self.scan_line;
        let wline = self.win_line;
        let base: usize = ly as usize * 160;
        let cs = collect_sprites(mmu, ly);
        let mut x: usize = 0;
        while x < 160
            invariant
                mmu_wf(mmu@),
                *mmu == *old(mmu),
                x <= 160,
                ly == old(self)@.ly,
                wline == old(self)@.win_line,
                ly <= 143,
                wline <= 144,
                base == ly * 160,
                self.mode == old(self).mode,
                self.cycles == old(self).cycles,
                self.scan_line == old(self).scan_line,
                self.win_line == old(self).win_line,
                self.frame@.len() == 160 * 144,
                old(self)@.frame.len() == 160 * 144,
                forall|j: int|
                    0 <= j < 160 * 144 && !(base <= j < base + x) ==> self.frame@[j]
                        == old(self)@.frame[j],
                forall|j: int|
                    base <= j < base + x ==> self.frame@[j] == line_pixel(
                        mmu@,
                        ly,
                        wline,
                        j - base,
                    ),
                cs@.len() == scan_cands(mmu@, ly, 40).len(),
                forall|j: int| 0 <= j < cs@.len() ==> cs@[j] as int == scan_cands(mmu@, ly, 40)[j],
            decreases 160 - x,
        {
            let px = pixel_at(mmu, ly, wline, x, &cs);
            self.frame.set(base + x, px);
            x = x + 1;
        }
        proof {
            assert(self@.frame =~= render_line(
                old(self)@.frame,
                old(mmu)@,
                old(self)@.ly,
                old(self)@.win_line,
            ));
            assert(self@ =~= (GpuV {
                frame: render_line(
                    old(self)@.frame,
                    old(mmu)@,
                    old(self)@.ly,
                    old(self)@.win_line,
                ),
                ..old(self)@
            }));
        }
    }

    /// Advance the PPU by the T-cycles one CPU step consumed. The frame
    /// position moves forward by exactly `t` modulo one frame, and the
    /// report of a vertical-blank entry is precise: it happens exactly
    /// when the position crosses the start of line 144.
    #[verifier::rlimit(100)]
    pub fn step(&mut self, mmu: &mut MMU, t: u32) -> (entered: bool)
        requires
            gpu_wf(old(self)@),
            mmu_wf(old(mmu)@),
            t <= 80,
        ensures
            gpu_wf(final(self)@),
            mmu_wf(final(mmu)@),
            (GR { g: final(self)@, m: final(mmu)@, entered_vblank: entered }) == gpu_step_spec(
                old(self)@,
                old(mmu)@,
                t,
            ),
            frame_pos(final(self)@) == (frame_pos(old(self)@) + t) % 70224,
            entered == (frame_pos(old(self)@) < 65664 && frame_pos(old(self)@) + t >= 65664),
    {
        self.cycles = self.cycles + t;
        if self.mode == 2 {
            if self.cycles >= 80 {
                self.cycles = self.cycles - 80;
                self.mode = 3;
                mmu.set_stat_mode(3);
            }
            false
        } else if self.mode == 3 {
            if self.cycles >= 172 {
                self.cycles = self.cycles - 172;
                self.render_scanline(mmu);
                let lcdc = mmu.read_byte(0xFF40);
                let wy = mmu.read_byte(0xFF4A);
                let wx = mmu.read_byte(0xFF4B);
                if lcdc / 32 % 2 == 1 && wy <= self.scan_line && wx <= 166 {
                    self.win_line = self.win_line + 1;
                }
                self.mode = 0;
                mmu.set_stat_mode(0);
                let stat = mmu.read_byte(0xFF41);
                if stat / 8 % 2 == 1 {
                    mmu.request_interrupt(1);
                }
            }
            false
        } else if self.mode == 0 {
            if self.cycles >= 204 {
                self.cycles = self.cycles - 204;
                let nly = self.scan_line + 1;
                self.scan_line = nly;
                self.line_change(mmu, nly);
                if nly == 144 {
                    self.mode = 1;
                    mmu.set_stat_mode(1);
                    let stat = mmu.read_byte(0xFF41);
                    mmu.request_interrupt(0);
                    if stat / 16 % 2 == 1 {
                        mmu.request_interrupt(1);
                    }
                    true
                } else {
                    self.mode = 2;
                    mmu.set_stat_mode(2);
                    let stat = mmu.read_byte(0xFF41);
                    if stat / 32 % 2 == 1 {
                        mmu.request_interrupt(1);
                    }
                    false
                }
            } else {
                false
            }
        } else {
            if self.cycles >= 456 {
                self.cycles = self.cycles - 456;
                if self.scan_line == 153 {
                    self.scan_line = 0;
                    self.win_line = 0;
                    self.line_change(mmu, 0);
                    self.mode = 2;
                    mmu.set_stat_mode(2);
                    let stat = mmu.read_byte(0xFF41);
                    if stat / 32 % 2 == 1 {
                        mmu.request_interrupt(1);
                    }
                } else {
                    let nly = self.scan_line + 1;
                    self.scan_line = nly;
                    self.line_change(mmu, nly);
                }
            }
            false
        }
    }

    /// Write the new LY, refresh the coincidence bit and raise the STAT
    /// request on an enabled match.
    fn line_change(&mut self, mmu: &mut MMU, nly: u8)
        requires
            mmu_wf(old(mmu)@),
        ensures
            *final(self) == *old(self),
            mmu_wf(final(mmu)@),
            final(mmu)@ == after_line_change(old(mmu)@, nly),
    {
        mmu.set_ly(nly);
        let lyc = mmu.read_byte(0xFF45);
        let coin = lyc == nly;
        mmu.set_stat_coincidence(coin);
        let stat = mmu.read_byte(0xFF41);
        if coin && stat / 64 % 2 == 1 {
            mmu.request_interrupt(1);
        }
    }
}

/// Law: over one full frame of 70224 T-cycles the scanline register
/// returns to where it began. Together with `lemma_ly_tracks_frame_pos` —
/// LY is the frame position divided by the 456-cycle line — this pins the
/// scanline's tour: each value 0..=153 is held on exactly the 456
/// positions of its own line, once per frame.
pub proof fn lemma_ly_frame_cycle(g1: GpuV, g2: GpuV)
    requires
        gpu_wf(g1),
        gpu_wf(g2),
        frame_pos(g2) == (frame_pos(g1) + 70224) % 70224,
    ensures
        frame_pos(g2) == frame_pos(g1),
        g2.ly == g1.ly,
{
    lemma_ly_tracks_frame_pos(g1);
    lemma_ly_tracks_frame_pos(g2);
}

/// Entering the vertical blank always leaves the VBlank request visible:
/// after the line change to the blank's first line and the transition into
/// mode 1, bit 0 of IF is set.
pub proof fn lemma_vblank_requests(m: MmuV, nly: u8)
    requires
        mmu_wf(m),
    ensures
        read_eff(after_mode_change(after_line_change(m, nly), 1), 0xFF0F) % 2 == 1,
{
    let ml = after_line_change(m, nly);
    let m1 = set_mode_m(ml, 1);
    let y = m1.mem[0xFF0F];
    assert((y | (1u8 << 0u8)) % 2 == 1) by (bit_vector);
    assert(((y | (1u8 << 0u8)) | (1u8 << 1u8)) % 2 == 1) by (bit_vector);
}

} // verus!
