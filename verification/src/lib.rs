//! A verified CHIP-8 virtual machine core: instruction decoder, memory,
//! register file, call stack, and the per-instruction execution semantics.

pub mod cpu;
pub mod instructions;
pub mod memory;
