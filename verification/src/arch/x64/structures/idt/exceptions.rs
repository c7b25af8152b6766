//! Exception handlers and their stacks in the earlier x86-64 layer.
use crate::arch::x86_64::structures::gdt::SegmentSelector;
use crate::arch::x86_64::structures::idt::InterruptDescriptorTable;
use crate::arch::x86_64::structures::tss::InterruptStackTableIndex;
use crate::bitfield::{u16_with_bit, u16_with_bits};
use vstd::prelude::*;

verus! {

/// Indexes of the interrupt stacks that exceptions use.
#[derive(Debug, Clone, Copy, PartialEq, Eq, Structural)]
pub enum StackTableIndex {
    Debug,
    NonMaskable,
    DoubleFault,
    MachineCheck,
}

impl StackTableIndex {
    /// The numeric index (0 to 3).
    pub open spec fn spec_index(self) -> usize {
        match self {
            StackTableIndex::Debug => 0,
            StackTableIndex::NonMaskable => 1,
            StackTableIndex::DoubleFault => 2,
            StackTableIndex::MachineCheck => 3,
        }
    }

    /// The numeric index (0 to 3).
    pub fn as_usize(self) -> (r: usize)
        ensures
            r == self.spec_index(),
    {
        match self {
            StackTableIndex::Debug => 0,
            StackTableIndex::NonMaskable => 1,
            StackTableIndex::DoubleFault => 2,
            StackTableIndex::MachineCheck => 3,
        }
    }
}


impl StackTableIndex {
    /// The interrupt stack table slot of the same number.
    pub open spec fn spec_table_index(self) -> InterruptStackTableIndex {
        match self {
            StackTableIndex::Debug => InterruptStackTableIndex::Debug,
            StackTableIndex::NonMaskable => InterruptStackTableIndex::NonMaskableInterrupt,
            StackTableIndex::DoubleFault => InterruptStackTableIndex::DoubleFault,
            StackTableIndex::MachineCheck => InterruptStackTableIndex::MachineCheck,
        }
    }

    /// The interrupt stack table slot of the same number.
    pub fn table_index(self) -> (r: InterruptStackTableIndex)
        ensures
            r == self.spec_table_index(),
    {
        match self {
            StackTableIndex::Debug => InterruptStackTableIndex::Debug,
            StackTableIndex::NonMaskable => InterruptStackTableIndex::NonMaskableInterrupt,
            StackTableIndex::DoubleFault => InterruptStackTableIndex::DoubleFault,
            StackTableIndex::MachineCheck => InterruptStackTableIndex::MachineCheck,
        }
    }
}

/// Whether exception vector `vector` gets a handler: divide error, debug,
/// non-maskable interrupt, breakpoint, overflow, bound range, invalid
/// opcode, device not available, double fault (0 to 8), invalid TSS,
/// segment not present, stack segment, general protection, page fault (10
/// to 14), x87 floating point, alignment check, machine check, SIMD
/// floating point, virtualization (16 to 20) and security (30).
pub open spec fn has_exception_handler(vector: int) -> bool {
    (0 <= vector <= 8) || (10 <= vector <= 14) || (16 <= vector <= 20) || vector == 30
}

/// The stack an exception handler runs on, where it has its own: debug,
/// non-maskable interrupt, double fault and machine check.
pub open spec fn exception_stack_index(vector: int) -> Option<StackTableIndex> {
    if vector == 1 {
        Some(StackTableIndex::Debug)
    } else if vector == 2 {
        Some(StackTableIndex::NonMaskable)
    } else if vector == 8 {
        Some(StackTableIndex::DoubleFault)
    } else if vector == 18 {
        Some(StackTableIndex::MachineCheck)
    } else {
        None
    }
}

/// The stack an exception handler runs on, where it has its own.
fn stack_index_for(vector: u8) -> (r: Option<StackTableIndex>)
    ensures
        r == exception_stack_index(vector as int),
{
    if vector == 1 {
        Some(StackTableIndex::Debug)
    } else if vector == 2 {
        Some(StackTableIndex::NonMaskable)
    } else if vector == 8 {
        Some(StackTableIndex::DoubleFault)
    } else if vector == 18 {
        Some(StackTableIndex::MachineCheck)
    } else {
        None
    }
}

/// The option bits of an exception entry after its handler is set: present,
/// and on its own stack where it has one.
pub open spec fn handled_option_bits(bits: u16, vector: int) -> u16 {
    match exception_stack_index(vector) {
        Some(index) => u16_with_bits(
            u16_with_bit(bits, 15, true),
            0,
            3,
            (index.spec_table_index().spec_index() + 1) as u16,
        ),
        None => u16_with_bit(bits, 15, true),
    }
}

/// Points each exception that has a handler at `handlers[vector]`, through
/// the code segment `cs`, marking it present and putting the debug,
/// non-maskable interrupt, double fault and machine check handlers on their
/// own stacks; the other entries stay as they were.
pub fn set_exception_handlers(
    idt: &mut InterruptDescriptorTable,
    handlers: &[usize; 32],
    cs: SegmentSelector,
)
    ensures
        final(idt).spec_interrupts() == old(idt).spec_interrupts(),
        forall|v: int|
            0 <= v < 32 && !has_exception_handler(v) ==> #[trigger] final(idt).spec_exceptions()[v]
                == old(idt).spec_exceptions()[v],
        forall|v: int|
            #![trigger final(idt).spec_exceptions()[v]]
            0 <= v < 32 && has_exception_handler(v) ==> {
                &&& final(idt).spec_exceptions()[v].spec_handler_addr() == handlers@[v] as u64
                &&& final(idt).spec_exceptions()[v].spec_options().spec_cs() == cs
                &&& final(idt).spec_exceptions()[v].spec_options().spec_bits() == handled_option_bits(
                    old(idt).spec_exceptions()[v].spec_options().spec_bits(),
                    v,
                )
                &&& final(idt).spec_exceptions()[v].spec_reserved() == old(
                    idt,
                ).spec_exceptions()[v].spec_reserved()
            },
{
    proof {
        idt.lemma_lengths();
    }
    let mut vector: u8 = 0;
    while vector < 32
        invariant
            vector <= 32,
            idt.spec_exceptions().len() == 32,
            idt.spec_interrupts() == old(idt).spec_interrupts(),
            forall|v: int|
                vector <= v < 32 ==> #[trigger] idt.spec_exceptions()[v] == old(
                    idt,
                ).spec_exceptions()[v],
            forall|v: int|
                0 <= v < vector && !has_exception_handler(v) ==> #[trigger] idt.spec_exceptions()[v]
                    == old(idt).spec_exceptions()[v],
            forall|v: int|
                #![trigger idt.spec_exceptions()[v]]
                0 <= v < vector && has_exception_handler(v) ==> {
                    &&& idt.spec_exceptions()[v].spec_handler_addr() == handlers@[v] as u64
                    &&& idt.spec_exceptions()[v].spec_options().spec_cs() == cs
                    &&& idt.spec_exceptions()[v].spec_options().spec_bits() == handled_option_bits(
                        old(idt).spec_exceptions()[v].spec_options().spec_bits(),
                        v,
                    )
                    &&& idt.spec_exceptions()[v].spec_reserved() == old(
                        idt,
                    ).spec_exceptions()[v].spec_reserved()
                },
        decreases 32 - vector,
    {
        let handled = vector <= 8 || (10 <= vector && vector <= 14) || (16 <= vector && vector <= 20)
            || vector == 30;
        if handled {
            let address = handlers[vector as usize];
            let stack = stack_index_for(vector);
            let entry = idt.exception_mut(vector);
            entry.set_handler_addr(address, cs);
            match stack {
                Some(index) => entry.set_stack_index(index.table_index()),
                None => {},
            }
        }
        vector = vector + 1;
    }
}

} // verus!
