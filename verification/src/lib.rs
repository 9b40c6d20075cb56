//! Instruction-set simulator for an 8-bit handheld game console core.
//!
//! The crate models a processor core bound to a memory-mapped bus that routes
//! every 16-bit address to cartridge ROM, working RAM, high RAM, a display
//! controller, or a sound controller.  Every component's behaviour is stated
//! as a specification-level state transformer and the executable code is
//! verified against it.

pub mod apu;
pub mod cpu;
pub mod fault;
pub mod gpu;
pub mod interconnect;
pub mod mmu;
