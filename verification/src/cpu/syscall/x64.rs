//! The registers that the x86-64 system call entry saves.
use vstd::prelude::*;

verus! {

/// The callee-saved registers that the system call entry pushes.
#[derive(Debug, Clone, Copy, PartialEq, Eq, Structural)]
pub struct Registers {
    pub r15: u64,
    pub r14: u64,
    pub r13: u64,
    pub r12: u64,
    pub rbp: u64,
    pub rbx: u64,
}

} // verus!
