//! An emulator of the Intel 8080 processor, with the I/O logic of the
//! Space Invaders arcade board.
//!
//! `semantics` states what each instruction does to a mathematical model of
//! the processor; `cpu` is the executable processor, proved to follow it.
pub mod flags;
pub mod semantics;
pub mod cpu;
pub mod laws;
pub mod invaders;
pub mod console;
pub mod disasm;
