//! Registers of the earlier x86-64 layer.
pub mod control;
pub mod msr;

pub use crate::arch::x86_64::registers::RFlags;

use crate::arch::x64::structures::gdt::{
    kernel_code_selector, kernel_data_selector, user_code_selector, user_data_selector,
};
use crate::arch::x86_64::structures::gdt::{selector_bits, PrivilegeLevel};
use vstd::prelude::*;

verus! {

/// The segment registers and flags of a context.
#[derive(Debug, Clone, Copy)]
pub struct SpecialRegisters {
    pub cs: u64,
    pub ss: u64,
    pub flags: RFlags,
}

impl SpecialRegisters {
    /// The kernel code and data segments, with `flags`.
    pub fn with_kernel_segments(flags: RFlags) -> (r: Self)
        ensures
            r.cs == selector_bits(1, PrivilegeLevel::Ring0),
            r.ss == selector_bits(2, PrivilegeLevel::Ring0),
            r.flags == flags,
    {
        Self {
            cs: kernel_code_selector().as_u16() as u64,
            ss: kernel_data_selector().as_u16() as u64,
            flags,
        }
    }

    /// The user code and user data selectors, with `flags`.
    pub fn flags_with_user_segments(flags: RFlags) -> (r: Self)
        ensures
            r.cs == selector_bits(4, PrivilegeLevel::Ring3),
            r.ss == selector_bits(3, PrivilegeLevel::Ring3),
            r.flags == flags,
    {
        Self {
            cs: user_code_selector().as_u16() as u64,
            ss: user_data_selector().as_u16() as u64,
            flags,
        }
    }
}

/// The general-purpose registers of a context.
#[derive(Debug, Clone, Copy, PartialEq, Eq, Structural)]
pub struct GeneralRegisters {
    pub rax: u64,
    pub rbx: u64,
    pub rcx: u64,
    pub rdx: u64,
    pub rsi: u64,
    pub rdi: u64,
    pub rbp: u64,
    pub r8: u64,
    pub r9: u64,
    pub r10: u64,
    pub r11: u64,
    pub r12: u64,
    pub r13: u64,
    pub r14: u64,
    pub r15: u64,
}

impl GeneralRegisters {
    /// Every register zero.
    pub open spec fn spec_empty() -> GeneralRegisters {
        GeneralRegisters {
            rax: 0,
            rbx: 0,
            rcx: 0,
            rdx: 0,
            rsi: 0,
            rdi: 0,
            rbp: 0,
            r8: 0,
            r9: 0,
            r10: 0,
            r11: 0,
            r12: 0,
            r13: 0,
            r14: 0,
            r15: 0,
        }
    }

    /// Every register zero.
    pub fn empty() -> (r: Self)
        ensures
            r == Self::spec_empty(),
    {
        Self {
            rax: 0,
            rbx: 0,
            rcx: 0,
            rdx: 0,
            rsi: 0,
            rdi: 0,
            rbp: 0,
            r8: 0,
            r9: 0,
            r10: 0,
            r11: 0,
            r12: 0,
            r13: 0,
            r14: 0,
            r15: 0,
        }
    }
}

/// The registers that the System V calling convention preserves, as the
/// system call entry saves them.
#[derive(Debug, Clone, Copy, PartialEq, Eq, Structural)]
pub struct PreservedRegistersSysv64 {
    pub r15: u64,
    pub r14: u64,
    pub r13: u64,
    pub r12: u64,
    pub rbp: u64,
    pub rbx: u64,
    pub rfl: u64,
    pub rsp: u64,
}

} // verus!
