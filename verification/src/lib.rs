//! A 6502 CPU interpreter whose instruction semantics are verified.
//!
//! `cpu` holds the processor and the mathematical model its contracts speak
//! of, `flags` the status register, and `opcodes` the table that decodes an
//! opcode byte into an instruction, its length and its addressing mode;
//! `laws` proves properties that relate several operations of the model,
//! and `instruction_laws` states what each instruction does to the bytes,
//! registers and flags of the machine.

pub mod cpu;
pub mod flags;
pub mod instruction_laws;
pub mod laws;
pub mod opcodes;
