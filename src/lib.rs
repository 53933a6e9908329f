//! A small register machine: four byte registers, a condition flag and a
//! 256-byte memory that doubles as a downward-growing stack, driven by a
//! stream of opcodes and operand bytes.

pub mod vm;
pub mod laws;

pub use vm::{Flag, Instr, Reg, VM};
