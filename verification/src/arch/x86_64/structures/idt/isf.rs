//! The interrupt stack frame that the processor pushes on interrupt or
//! exception entry.
use crate::arch::x86_64::registers::RFlags;
use crate::arch::x86_64::registers::rflags::RFLAGS_ALL;
use crate::arch::x86_64::structures::gdt::{
    kcode_selector, kdata_selector, lemma_selector_round_trip, selector_bits, ucode_selector,
    udata_selector, PrivilegeLevel, SegmentSelector,
};
use vstd::prelude::*;

verus! {

/// The interrupt stack frame pushed by the CPU on interrupt or exception
/// entry.
#[derive(Debug, Clone, Copy, PartialEq, Eq, Structural)]
pub struct InterruptStackFrame {
    /// The instruction to return to.
    instruction_pointer: u64,
    /// The code segment selector to return to.
    code_segment: u16,
    /// The flags register before the interrupt handler was invoked.
    cpu_flags: u64,
    /// The stack pointer at the time of the interrupt.
    stack_pointer: u64,
    /// The stack segment selector at the time of the interrupt.
    stack_segment: u16,
}

impl InterruptStackFrame {
    pub closed spec fn spec_instruction_pointer(self) -> u64 {
        self.instruction_pointer
    }

    pub closed spec fn spec_code_segment(self) -> u16 {
        self.code_segment
    }

    pub closed spec fn spec_cpu_flags(self) -> u64 {
        self.cpu_flags
    }

    pub closed spec fn spec_stack_pointer(self) -> u64 {
        self.stack_pointer
    }

    pub closed spec fn spec_stack_segment(self) -> u16 {
        self.stack_segment
    }

    /// Constructs a new [`InterruptStackFrame`].
    pub fn new(
        instruction_pointer: u64,
        code_segment: SegmentSelector,
        cpu_flags: RFlags,
        stack_pointer: u64,
        stack_segment: SegmentSelector,
    ) -> (r: Self)
        ensures
            r.spec_instruction_pointer() == instruction_pointer,
            r.spec_code_segment() == code_segment.view_bits(),
            r.spec_cpu_flags() == cpu_flags.spec_bits(),
            r.spec_stack_pointer() == stack_pointer,
            r.spec_stack_segment() == stack_segment.view_bits(),
    {
        Self {
            instruction_pointer,
            code_segment: code_segment.as_u16(),
            cpu_flags: cpu_flags.bits(),
            stack_pointer,
            stack_segment: stack_segment.as_u16(),
        }
    }

    /// A frame that returns to kernel code: the kernel code and data
    /// selectors, with interrupts enabled.
    pub fn new_kernel(instruction_pointer: u64, stack_pointer: u64) -> (r: Self)
        ensures
            r.spec_instruction_pointer() == instruction_pointer,
            r.spec_code_segment() == selector_bits(1, PrivilegeLevel::Ring0),
            r.spec_cpu_flags() == 0x202,
            r.spec_stack_pointer() == stack_pointer,
            r.spec_stack_segment() == selector_bits(2, PrivilegeLevel::Ring0),
    {
        Self::new(
            instruction_pointer,
            kcode_selector(),
            RFlags::interrupt_flag(),
            stack_pointer,
            kdata_selector(),
        )
    }

    /// A frame that returns to user code: the user code and data selectors,
    /// with interrupts enabled.
    pub fn new_user(instruction_pointer: u64, stack_pointer: u64) -> (r: Self)
        ensures
            r.spec_instruction_pointer() == instruction_pointer,
            r.spec_code_segment() == selector_bits(4, PrivilegeLevel::Ring3),
            r.spec_cpu_flags() == 0x202,
            r.spec_stack_pointer() == stack_pointer,
            r.spec_stack_segment() == selector_bits(3, PrivilegeLevel::Ring3),
    {
        Self::new(
            instruction_pointer,
            ucode_selector(),
            RFlags::interrupt_flag(),
            stack_pointer,
            udata_selector(),
        )
    }

    /// The return instruction pointer.
    pub fn get_instruction_pointer(&self) -> (r: u64)
        ensures
            r == self.spec_instruction_pointer(),
    {
        self.instruction_pointer
    }

    /// Stores a new return instruction pointer.
    pub fn set_instruction_pointer(&mut self, instruction_pointer: u64)
        ensures
            final(self).spec_instruction_pointer() == instruction_pointer,
            final(self).spec_code_segment() == old(self).spec_code_segment(),
            final(self).spec_cpu_flags() == old(self).spec_cpu_flags(),
            final(self).spec_stack_pointer() == old(self).spec_stack_pointer(),
            final(self).spec_stack_segment() == old(self).spec_stack_segment(),
    {
        self.instruction_pointer = instruction_pointer;
    }

    /// The return code segment selector, rebuilt from its index and its
    /// privilege level; the table-indicator bit (bit 2) is not kept.
    pub fn get_code_segment(&self) -> (r: SegmentSelector)
        ensures
            r.view_bits() == self.spec_code_segment() & 0xFFFB,
    {
        let cs = self.code_segment;
        let level = PrivilegeLevel::try_from_u16(cs & 0b11);
        proof {
            lemma_rebuilt_selector(cs);
        }
        match level {
            Some(pl) => SegmentSelector::new(cs >> 3, pl),
            None => SegmentSelector::new(cs >> 3, PrivilegeLevel::Ring0),
        }
    }

    /// Stores a new return code segment selector.
    pub fn set_code_segment(&mut self, segment_selector: SegmentSelector)
        ensures
            final(self).spec_instruction_pointer() == old(self).spec_instruction_pointer(),
            final(self).spec_code_segment() == segment_selector.view_bits(),
            final(self).spec_cpu_flags() == old(self).spec_cpu_flags(),
            final(self).spec_stack_pointer() == old(self).spec_stack_pointer(),
            final(self).spec_stack_segment() == old(self).spec_stack_segment(),
    {
        self.code_segment = segment_selector.as_u16();
    }

    /// The return CPU flags.
    pub fn get_cpu_flags(&self) -> (r: RFlags)
        ensures
            r.spec_bits() == self.spec_cpu_flags() & RFLAGS_ALL,
    {
        RFlags::from_bits_truncate(self.cpu_flags)
    }

    /// Stores new return CPU flags.
    pub fn set_cpu_flags(&mut self, cpu_flags: RFlags)
        ensures
            final(self).spec_instruction_pointer() == old(self).spec_instruction_pointer(),
            final(self).spec_code_segment() == old(self).spec_code_segment(),
            final(self).spec_cpu_flags() == cpu_flags.spec_bits(),
            final(self).spec_stack_pointer() == old(self).spec_stack_pointer(),
            final(self).spec_stack_segment() == old(self).spec_stack_segment(),
    {
        self.cpu_flags = cpu_flags.bits();
    }

    /// The return stack pointer.
    pub fn get_stack_pointer(&self) -> (r: u64)
        ensures
            r == self.spec_stack_pointer(),
    {
        self.stack_pointer
    }

    /// Stores a new return stack pointer.
    pub fn set_stack_pointer(&mut self, stack_pointer: u64)
        ensures
            final(self).spec_instruction_pointer() == old(self).spec_instruction_pointer(),
            final(self).spec_code_segment() == old(self).spec_code_segment(),
            final(self).spec_cpu_flags() == old(self).spec_cpu_flags(),
            final(self).spec_stack_pointer() == stack_pointer,
            final(self).spec_stack_segment() == old(self).spec_stack_segment(),
    {
        self.stack_pointer = stack_pointer;
    }

    /// The return stack segment selector, rebuilt from its index and its
    /// privilege level; the table-indicator bit (bit 2) is not kept.
    pub fn get_stack_segment(&self) -> (r: SegmentSelector)
        ensures
            r.view_bits() == self.spec_stack_segment() & 0xFFFB,
    {
        let ss = self.stack_segment;
        let level = PrivilegeLevel::try_from_u16(ss & 0b11);
        proof {
            lemma_rebuilt_selector(ss);
        }
        match level {
            Some(pl) => SegmentSelector::new(ss >> 3, pl),
            None => SegmentSelector::new(ss >> 3, PrivilegeLevel::Ring0),
        }
    }

    /// Stores a new return stack segment selector.
    pub fn set_stack_segment(&mut self, segment_selector: SegmentSelector)
        ensures
            final(self).spec_instruction_pointer() == old(self).spec_instruction_pointer(),
            final(self).spec_code_segment() == old(self).spec_code_segment(),
            final(self).spec_cpu_flags() == old(self).spec_cpu_flags(),
            final(self).spec_stack_pointer() == old(self).spec_stack_pointer(),
            final(self).spec_stack_segment() == segment_selector.view_bits(),
    {
        self.stack_segment = segment_selector.as_u16();
    }
}

/// Rebuilding a selector from its index and its level gives it back without
/// its table-indicator bit (bit 2).
proof fn lemma_rebuilt_selector(s: u16)
    ensures
        s & 3u16 < 4,
        selector_bits(s >> 3u16, PrivilegeLevel::spec_from_bits(s & 3u16)) == s & 0xFFFBu16,
{
    let r = s & 3u16;
    assert(r < 4 && ((s >> 3u16) << 3u16) | r == s & 0xFFFBu16) by (bit_vector)
        requires
            r == s & 3u16,
    ;
    assert(PrivilegeLevel::spec_from_bits(r).spec_bits() == r);
}

} // verus!
