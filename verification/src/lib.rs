//! A CHIP-8 virtual machine: memory and display, register file, opcode
//! dispatch and the stepper that paces the two timers.

pub mod fault;
pub mod memory;
pub mod registers;
pub mod rng;
pub mod instruction;
pub mod semantics;
pub mod execute;
pub mod cpu;
pub mod machine;
pub mod laws;
pub mod mnemonic;
