//! The whole console: the CPU, the memory unit, the PPU and the cycle
//! clock, sequenced instruction by instruction. `new` builds the machine
//! around a cartridge image; `run_frame` advances it to the next
//! vertical-blank entry and hands out the finished frame.

use vstd::prelude::*;

verus! {

use crate::clock::Clock;
use crate::cpu::{CPU, step_spec};
use crate::gpu::{GPU, gpu_step_spec, gpu_wf, frame_pos};
use crate::mmu::{MMU, EmuError, mmu_wf, read_eff};
use crate::regs::Regs;

/// The machine: one of each component, no sharing.
pub struct Machine {
    pub cpu: CPU,
    pub mmu: MMU,
    pub gpu: GPU,
    pub clock: Clock,
}

impl Machine {
    /// Every component well-formed.
    pub open spec fn wf(self) -> bool {
        &&& self.cpu.wf()
        &&& mmu_wf(self.mmu@)
        &&& gpu_wf(self.gpu@)
    }

    /// Build a machine around a cartridge image and an optional 256-byte
    /// boot ROM. A cartridge shorter than 32 KiB is rejected. Without a
    /// boot ROM, the registers and the LCD registers take the values the
    /// DMG boot ROM leaves behind and execution starts at 0x0100; with
    /// one, execution starts at 0x0000 inside the overlay.
    pub fn new(cart: Vec<u8>, boot: Option<Vec<u8>>) -> (r: Result<Machine, EmuError>)
        requires
            boot matches Some(b) ==> b@.len() == 0x100,
        ensures
            r is Ok <==> cart@.len() >= 0x8000,
            r matches Err(e) ==> e matches EmuError::InvalidCartridge,
            r matches Ok(mach) ==> {
                &&& mach.wf()
                &&& mach.mmu@.cart == cart@
                &&& mach.gpu@.mode == 2 && mach.gpu@.cycles == 0 && mach.gpu@.ly == 0
                &&& mach.clock.cycles == 0
                &&& !mach.cpu.halted && !mach.cpu.ime && !mach.cpu.ei_pending
                &&& (boot is None ==> {
                    &&& mach.cpu.regs == (Regs {
                        a: 0x01, b: 0x00, c: 0x13, d: 0x00, e: 0xD8,
                        f: 0xB0, h: 0x01, l: 0x4D,
                        sp: 0xFFFE,
                        pc: 0x0100,
                    })
                    &&& !mach.mmu@.boot_mapped
                    &&& read_eff(mach.mmu@, 0xFF40) == 0x91
                    &&& read_eff(mach.mmu@, 0xFF47) == 0xFC
                })
                &&& (boot is Some ==> {
                    &&& mach.cpu.regs.pc == 0
                    &&& mach.mmu@.boot_mapped
                    &&& mach.mmu@.boot == boot->0@
                })
            },
    {
        let has_boot = boot.is_some();
        let mut mmu = match MMU::init(cart, boot) {
            Ok(m) => m,
            Err(e) => {
                return Err(e);
            },
        };
        let mut cpu = CPU::init();
        if has_boot {
            cpu.regs.set_pc(0);
        } else {
            cpu.power_up_seq();
            mmu.write_byte(0xFF40, 0x91);
            mmu.write_byte(0xFF47, 0xFC);
        }
        Ok(Machine { cpu, mmu, gpu: GPU::init(), clock: Clock::init() })
    }

    /// One instruction: the CPU runs a step, the PPU and the clock advance
    /// by the consumed T-cycles.
    pub fn step(&mut self) -> (t: u8)
        requires
            old(self).wf(),
        ensures
            final(self).wf(),
            t % 4 == 0 && 4 <= t <= 24,
            ({
                let s = step_spec(old(self).cpu, old(self).mmu@);
                let g = gpu_step_spec(old(self).gpu@, s.mem, s.t as u32);
                &&& final(self).cpu == s.cpu
                &&& final(self).gpu@ == g.g
                &&& final(self).mmu@ == g.m
                &&& t == s.t
            }),
            frame_pos(final(self).gpu@) == (frame_pos(old(self).gpu@) + t) % 70224,
            final(self).clock.cycles == (old(self).clock.cycles + t) % (u128::MAX + 1),
    {
        let t = self.cpu.cpu_cycle(&mut self.mmu);
        self.gpu.step(&mut self.mmu, t as u32);
        self.clock.tick(t as u32);
        t
    }

    /// Run until the PPU enters the vertical blank, then hand out the
    /// finished 160 x 144 frame; the vertical-blank interrupt request is
    /// visible in IF when it returns.
    pub fn run_frame(&mut self) -> (fr: Vec<u32>)
        requires
            old(self).wf(),
        ensures
            final(self).wf(),
            fr@ == final(self).gpu@.frame,
            final(self).gpu@.mode == 1,
            final(self).gpu@.ly == 144,
            read_eff(final(self).mmu@, 0xFF0F) % 2 == 1,
    {
        loop
            invariant
                self.wf(),
            ensures
                self.wf(),
                self.gpu@.mode == 1,
                self.gpu@.ly == 144,
                read_eff(self.mmu@, 0xFF0F) % 2 == 1,
            decreases (if frame_pos(self.gpu@) < 65664 {
                65664 - frame_pos(self.gpu@)
            } else {
                65664 + 70224 - frame_pos(self.gpu@)
            }),
        {
            let ghost pos0: int = frame_pos(self.gpu@);
            let t = self.cpu.cpu_cycle(&mut self.mmu);
            let ghost g_mid = self.gpu@;
            let ghost m_mid = self.mmu@;
            let entered = self.gpu.step(&mut self.mmu, t as u32);
            self.clock.tick(t as u32);
            if entered {
                proof {
                    let g = self.gpu@;
                    assert(frame_pos(g) == pos0 + t);
                    assert(65664 <= frame_pos(g) < 65688);
                    assert(g.mode == 1 && g.ly == 144) by {
                        if g.mode != 1 {
                            assert(frame_pos(g) <= 143 * 456 + 252 + 203);
                        }
                    }
                    crate::gpu::lemma_vblank_requests(m_mid, (g_mid.ly + 1) as u8);
                }
                break;
            }
        }
        self.gpu.output()
    }
}

} // verus!
