//! Instruction-level core of a Game-Boy-class (Sharp LR35902) CPU emulator:
//! register file and flags, the ALU with its precise flag-update rules, the
//! opcode decoder (including the 0xCB-prefixed extended space), and the
//! fetch-decode-execute step.

pub mod cpu;
pub mod flags;
pub mod instructions;
pub mod memory;
pub mod registers;
