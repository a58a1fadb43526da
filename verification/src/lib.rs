//! Instruction-level emulation of the MOS 6502 CPU variant used by the NES:
//! a 64KB address bus with region-based mirroring, a 256-entry opcode table
//! built from descriptor records, and a fetch-decode-execute engine with
//! exact register, flag and addressing-mode semantics.
pub mod cpu;
pub mod memory;
pub mod rom_loader;

mod text;
