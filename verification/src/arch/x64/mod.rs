//! The earlier x86-64 support layer, kept for the interfaces that the CPU
//! context and system call code use.
pub mod instructions;
pub mod registers;
pub mod structures;
