//! Interrupt descriptor table set-up of the earlier x86-64 layer.
pub mod exceptions;

use crate::arch::x86_64::structures::gdt::SegmentSelector;
use crate::arch::x86_64::structures::idt::error_codes::PageFaultErrorCode;
use crate::arch::x86_64::structures::idt::isf::InterruptStackFrame;
use crate::arch::x86_64::structures::idt::InterruptDescriptorTable;
use crate::bitfield::u16_with_bit;
use vstd::prelude::*;

verus! {

/// Indexes of the interrupt stacks that exceptions use.
#[derive(Debug, Clone, Copy, PartialEq, Eq, Structural)]
pub enum StackTableIndex {
    Debug,
    NonMaskable,
    DoubleFault,
    MachineCheck,
}

impl StackTableIndex {
    /// The numeric index (0 to 3).
    pub open spec fn spec_index(self) -> u16 {
        match self {
            StackTableIndex::Debug => 0,
            StackTableIndex::NonMaskable => 1,
            StackTableIndex::DoubleFault => 2,
            StackTableIndex::MachineCheck => 3,
        }
    }

    /// The numeric index (0 to 3).
    pub fn as_u16(self) -> (r: u16)
        ensures
            r == self.spec_index(),
    {
        match self {
            StackTableIndex::Debug => 0,
            StackTableIndex::NonMaskable => 1,
            StackTableIndex::DoubleFault => 2,
            StackTableIndex::MachineCheck => 3,
        }
    }
}

/// Points every interrupt entry (vectors 32 to 255) at its stub:
/// `irq_stubs[vector - 32]`, through the code segment `cs` (the current code
/// segment), marking it present and keeping its other options.
pub fn set_stub_handlers(idt: &mut InterruptDescriptorTable, irq_stubs: &[usize; 224], cs: SegmentSelector)
    ensures
        final(idt).spec_exceptions() == old(idt).spec_exceptions(),
        forall|i: int|
            0 <= i < 224 ==> {
                &&& (#[trigger] final(idt).spec_interrupts()[i]).spec_handler_addr() == irq_stubs@[i] as u64
                &&& final(idt).spec_interrupts()[i].spec_options().spec_cs() == cs
                &&& final(idt).spec_interrupts()[i].spec_options().spec_bits() == u16_with_bit(
                    old(idt).spec_interrupts()[i].spec_options().spec_bits(),
                    15,
                    true,
                )
                &&& final(idt).spec_interrupts()[i].spec_reserved() == old(idt).spec_interrupts()[i].spec_reserved()
            },
{
    proof {
        idt.lemma_lengths();
    }
    let mut vector: u16 = 32;
    while vector <= 255
        invariant
            32 <= vector <= 256,
            idt.spec_interrupts().len() == 224,
            idt.spec_exceptions() == old(idt).spec_exceptions(),
            forall|k: int|
                vector - 32 <= k < 224 ==> #[trigger] idt.spec_interrupts()[k] == old(idt).spec_interrupts()[k],
            forall|k: int|
                0 <= k < vector - 32 ==> {
                    &&& (#[trigger] idt.spec_interrupts()[k]).spec_handler_addr() == irq_stubs@[k] as u64
                    &&& idt.spec_interrupts()[k].spec_options().spec_cs() == cs
                    &&& idt.spec_interrupts()[k].spec_options().spec_bits() == u16_with_bit(
                        old(idt).spec_interrupts()[k].spec_options().spec_bits(),
                        15,
                        true,
                    )
                    &&& idt.spec_interrupts()[k].spec_reserved() == old(idt).spec_interrupts()[k].spec_reserved()
                },
        decreases 256 - vector,
    {
        let entry = idt.index_mut(vector as u8);
        entry.set_handler_addr(irq_stubs[(vector - 32) as usize], cs);
        proof {
            idt.lemma_lengths();
        }
        vector = vector + 1;
    }
}

/// Why a page fault happened.
#[derive(Debug, Clone, Copy, PartialEq, Eq, Structural)]
pub enum PageFaultReason {
    /// The page is mapped, but not with the access attempted.
    BadPermissions,
    /// The page is not mapped.
    NotMapped,
}

/// What an exception is about.
#[derive(Debug, Clone, Copy, PartialEq, Eq, Structural)]
pub enum ExceptionKind {
    /// A page fault at address `ptr`.
    PageFault { ptr: u64, reason: PageFaultReason },
}

/// An exception, as the rest of the kernel sees it: what it is about and
/// the instruction and stack pointers it interrupted.
#[derive(Debug, Clone, Copy, PartialEq, Eq, Structural)]
pub struct Exception {
    pub kind: ExceptionKind,
    pub instruction_pointer: u64,
    pub stack_pointer: u64,
}

/// The exception a page fault at `address` with error code `err` becomes:
/// a protection violation is a permissions fault, anything else an unmapped
/// page; the instruction and stack pointers come from the stack frame. The
/// address and both pointers are never null.
pub fn page_fault_exception(isf: &InterruptStackFrame, err: PageFaultErrorCode, address: u64) -> (r:
    Exception)
    requires
        address != 0,
        isf.spec_instruction_pointer() != 0,
        isf.spec_stack_pointer() != 0,
    ensures
        r.kind == (ExceptionKind::PageFault {
            ptr: address,
            reason: if err.spec_bits() & PageFaultErrorCode::PROTECTION_VIOLATION
                == PageFaultErrorCode::PROTECTION_VIOLATION {
                PageFaultReason::BadPermissions
            } else {
                PageFaultReason::NotMapped
            },
        }),
        r.instruction_pointer == isf.spec_instruction_pointer(),
        r.stack_pointer == isf.spec_stack_pointer(),
{
    let reason = if err.contains(PageFaultErrorCode::PROTECTION_VIOLATION) {
        PageFaultReason::BadPermissions
    } else {
        PageFaultReason::NotMapped
    };
    Exception {
        kind: ExceptionKind::PageFault { ptr: address, reason },
        instruction_pointer: isf.get_instruction_pointer(),
        stack_pointer: isf.get_stack_pointer(),
    }
}

} // verus!
