//! An instruction-level emulator of the W65C02S 8-bit microprocessor.
//!
//! The processor state, the opcode table, operand resolution, instruction
//! execution and interrupt sequencing are all executable Rust whose behaviour
//! is stated over a mathematical model of the machine and proved by Verus.

pub mod cpu;
