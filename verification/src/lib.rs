//! Instruction-level core of an SM83-class 8-bit CPU: a segmented memory
//! bus, a register and flag file, the instruction set, the opcode dispatcher
//! and the execution loop, each with a machine-checked contract.

pub mod fault;
pub mod bus;
pub mod registers;
pub mod cpu;
pub mod instructions;
pub mod laws;
