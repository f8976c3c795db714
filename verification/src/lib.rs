//! Instruction-execution core of a Z80-class 8-bit CPU driving a small
//! home-computer-style machine: register/flag state, operand descriptors,
//! a two-level opcode decoder, and the operation semantics, together with
//! the bus/cartridge address-space model they run against.

pub mod bus;
pub mod cartridge;
pub mod cpu;
pub mod error;
pub mod executor;
pub mod flags;
pub mod io;
pub mod operands;
pub mod operations;
pub mod state;
pub mod vm;
