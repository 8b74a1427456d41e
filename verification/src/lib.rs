//! Instruction-execution core of an emulator for an 8-bit handheld system:
//! a register file with condition flags, a memory-mapped bus, and the engine
//! that fetches, decodes and executes one instruction at a time.

pub mod add_signed;
pub mod cpu;
pub mod debugger;
pub mod error;
pub mod gameboy;
pub mod interconnect;
pub mod laws;
pub mod word;
