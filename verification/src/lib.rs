//! Instruction-execution core of an 8/16-bit CPU emulator in the style of the
//! Game Boy's LR35902: a register file with paired 16-bit access, an opcode
//! dispatcher for the 16-bit increment family, and exact cycle accounting.

pub mod engine;
pub mod registers;
