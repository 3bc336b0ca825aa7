//! Emulator core for a classic 8-bit home console built around the MOS 6502
//! microprocessor: a verified instruction-set interpreter with bit-exact flag
//! semantics, a segmented virtual memory bus, an operand/addressing-mode
//! model, an instruction decoder, and an iNES / NES 2.0 cartridge decoder.

pub mod clock;
pub mod cpu;
pub mod decoder;
pub mod exec;
pub mod instr;
pub mod flags;
pub mod mem;
pub mod nes;
pub mod operand;
pub mod pc;
pub mod rom;
pub mod virt;
