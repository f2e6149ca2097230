//! Core of a DMG hand-held console emulator: the register file, the memory
//! management unit, the CPU interpreter and the pixel processing unit, each
//! specified and verified. Presentation of frames and loading of ROM images
//! from disk live outside this crate.

pub mod clock;
pub mod cpu;
pub mod gpu;
pub mod machine;
pub mod mmu;
pub mod regs;
