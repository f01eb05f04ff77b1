//! Instruction-execution core of an LR35902-style 8-bit CPU.
//!
//! The crate holds a register file, the packed condition-flags byte, a closed
//! instruction set whose operands are legal by construction, and the state
//! transition `CPU::execute`. Every function carries a contract over the
//! mathematical model in `alu`, and the contracts are proved.

pub mod alu;
pub mod cpu;
pub mod flags;
pub mod instruction;
pub mod registers;
