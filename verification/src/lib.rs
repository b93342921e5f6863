//! A cycle-stepped core of the MOS 6502 processor over 64 KiB of memory,
//! with a disassembler and the logic of a small demonstration, all of it
//! verified with Verus against a mathematical model of the machine.

pub mod addressing;
pub mod bits;
pub mod bus;
pub mod cpu_6502;
pub mod demo;
pub mod disassembler;
pub mod flags;
pub mod instruction;
pub mod operations;
pub mod program;
pub mod state;
pub mod theorems;
