//! Cycle-accurate core of an 8-bit game console: a 6502-family CPU
//! interpreter, the tile/sprite picture processor's timing and register
//! engine, and the cartridge address-decoding unit, with machine-checked
//! contracts for instruction semantics, cycle counts and register side
//! effects.

pub mod cartridge;
pub mod console;
pub mod cpu;
pub mod cpu_exec;
pub mod cpu_fetch;
pub mod cpu_laws;
pub mod cpu_ops;
pub mod flags;
pub mod nrom;
pub mod opcodes;
pub mod ppu;
pub mod ppu_timing;
pub mod ram;
