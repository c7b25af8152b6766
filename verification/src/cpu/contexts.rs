//! Saved execution contexts of tasks.
use crate::arch::x64::registers::RFlags;
use crate::arch::x64::structures::gdt::{
    kernel_code_selector, kernel_data_selector, user_code_selector, user_data_selector,
};
use crate::arch::x86_64::registers::rflags::RFLAGS_INTERRUPT_FLAG;
use crate::arch::x86_64::structures::gdt::{selector_bits, PrivilegeLevel};
use vstd::prelude::*;

verus! {

/// The general-purpose registers of a task.
#[derive(Debug, Clone, Copy, PartialEq, Eq, Structural)]
pub struct Registers {
    pub rax: u64,
    pub rbx: u64,
    pub rcx: u64,
    pub rdx: u64,
    pub rsi: u64,
    pub rdi: u64,
    pub rbp: u64,
    pub r8: u64,
    pub r9: u64,
    pub r10: u64,
    pub r11: u64,
    pub r12: u64,
    pub r13: u64,
    pub r14: u64,
    pub r15: u64,
}

impl Registers {
    /// Every register zero.
    pub open spec fn spec_zeroed() -> Registers {
        Registers {
            rax: 0,
            rbx: 0,
            rcx: 0,
            rdx: 0,
            rsi: 0,
            rdi: 0,
            rbp: 0,
            r8: 0,
            r9: 0,
            r10: 0,
            r11: 0,
            r12: 0,
            r13: 0,
            r14: 0,
            r15: 0,
        }
    }
}

impl Default for Registers {
    /// Every register zero.
    fn default() -> (r: Self)
        ensures
            r == Registers::spec_zeroed(),
    {
        Registers {
            rax: 0,
            rbx: 0,
            rcx: 0,
            rdx: 0,
            rsi: 0,
            rdi: 0,
            rbp: 0,
            r8: 0,
            r9: 0,
            r10: 0,
            r11: 0,
            r12: 0,
            r13: 0,
            r14: 0,
            r15: 0,
        }
    }
}

/// The segment selectors and flags of a task.
#[derive(Debug, Clone, Copy)]
pub struct State {
    pub cs: u64,
    pub ss: u64,
    pub flags: RFlags,
}

impl State {
    /// Kernel segments, with `flags`.
    pub fn kernel(flags: RFlags) -> (r: Self)
        ensures
            r.cs == selector_bits(1, PrivilegeLevel::Ring0),
            r.ss == selector_bits(2, PrivilegeLevel::Ring0),
            r.flags == flags,
    {
        Self {
            cs: kernel_code_selector().as_u16() as u64,
            ss: kernel_data_selector().as_u16() as u64,
            flags,
        }
    }

    /// The user code and user data selectors, with `flags`.
    pub fn user(flags: RFlags) -> (r: Self)
        ensures
            r.cs == selector_bits(4, PrivilegeLevel::Ring3),
            r.ss == selector_bits(3, PrivilegeLevel::Ring3),
            r.flags == flags,
    {
        Self {
            cs: user_code_selector().as_u16() as u64,
            ss: user_data_selector().as_u16() as u64,
            flags,
        }
    }
}

/// Where a task continues: its instruction and stack pointers.
#[derive(Debug, Clone, Copy, PartialEq, Eq, Structural)]
pub struct Control {
    pub ip: u64,
    pub sp: u64,
}

/// The saved registers of a task.
#[derive(Debug, Clone, Copy)]
pub enum ContextType {
    /// A task that entered the kernel through a system call.
    Syscall { rax: u64, rdi: u64, rsi: u64, rdx: u64, r10: u64, r8: u64, r9: u64 },
    /// A task with a full register set.
    Arch { gprs: Registers, state: State },
}

impl ContextType {
    /// Zeroed registers and kernel segments, with interrupts enabled.
    pub fn kernel_default() -> (r: Self)
        ensures
            r matches ContextType::Arch { gprs, state } && gprs == Registers::spec_zeroed()
                && state.cs == selector_bits(1, PrivilegeLevel::Ring0) && state.ss == selector_bits(
                2,
                PrivilegeLevel::Ring0,
            ) && state.flags.spec_bits() == RFLAGS_INTERRUPT_FLAG,
    {
        ContextType::Arch { gprs: Registers::default(), state: State::kernel(RFlags::interrupt_flag()) }
    }

    /// Zeroed registers and user segments, with interrupts enabled.
    pub fn user_default() -> (r: Self)
        ensures
            r matches ContextType::Arch { gprs, state } && gprs == Registers::spec_zeroed()
                && state.cs == selector_bits(4, PrivilegeLevel::Ring3) && state.ss == selector_bits(
                3,
                PrivilegeLevel::Ring3,
            ) && state.flags.spec_bits() == RFLAGS_INTERRUPT_FLAG,
    {
        ContextType::Arch { gprs: Registers::default(), state: State::user(RFlags::interrupt_flag()) }
    }
}

/// A task's execution context.
#[derive(Debug, Clone, Copy)]
pub struct Context {
    control: Control,
    ty: ContextType,
}

impl Context {
    pub closed spec fn spec_control(&self) -> Control {
        self.control
    }

    pub closed spec fn spec_ty(&self) -> ContextType {
        self.ty
    }

    /// A kernel task starting at the entry point `ip` on the stack `sp`.
    pub fn new_kernel(ip: u64, sp: u64) -> (r: Self)
        ensures
            r.spec_control() == (Control { ip, sp }),
            r.spec_ty() matches ContextType::Arch { gprs, state } && gprs == Registers::spec_zeroed()
                && state.cs == selector_bits(1, PrivilegeLevel::Ring0) && state.ss == selector_bits(
                2,
                PrivilegeLevel::Ring0,
            ) && state.flags.spec_bits() == RFLAGS_INTERRUPT_FLAG,
    {
        Context { control: Control { ip, sp }, ty: ContextType::kernel_default() }
    }

    /// A user task starting at the entry point `ip` on the stack `sp`.
    pub fn new_user(ip: u64, sp: u64) -> (r: Self)
        ensures
            r.spec_control() == (Control { ip, sp }),
            r.spec_ty() matches ContextType::Arch { gprs, state } && gprs == Registers::spec_zeroed()
                && state.cs == selector_bits(4, PrivilegeLevel::Ring3) && state.ss == selector_bits(
                3,
                PrivilegeLevel::Ring3,
            ) && state.flags.spec_bits() == RFLAGS_INTERRUPT_FLAG,
    {
        Context { control: Control { ip, sp }, ty: ContextType::user_default() }
    }

    /// Where the task continues.
    pub fn control(&self) -> (r: Control)
        ensures
            r == self.spec_control(),
    {
        self.control
    }

    /// The task's saved registers.
    pub fn ty(&self) -> (r: ContextType)
        ensures
            r == self.spec_ty(),
    {
        self.ty
    }
}

} // verus!
