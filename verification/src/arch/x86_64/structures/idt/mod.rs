//! The interrupt descriptor table.
pub mod entry;
pub mod error_codes;
pub mod isf;

use crate::arch::x86_64::structures::gdt::PrivilegeLevel;
use crate::arch::x86_64::structures::tss::InterruptStackTableIndex;
use crate::bitfield::{
    lemma_u16_bits_of_with_bits, lemma_u16_masks, u16_bits, u16_with_bit, u16_with_bits,
};
use entry::{Entry, OPTIONS_MINIMAL_BITS};
use vstd::prelude::*;

verus! {

/// Option bits of an entry built by [`Entry::new`].
pub open spec fn present_bits() -> u16 {
    u16_with_bit(OPTIONS_MINIMAL_BITS, 15, true)
}

/// Option bits of an entry built by [`Entry::new_with_stack`].
pub open spec fn stack_bits(index: InterruptStackTableIndex) -> u16 {
    u16_with_bits(present_bits(), 0, 3, (index.spec_index() + 1) as u16)
}

/// The interrupt number whose stub [`InterruptDescriptorTable::init`] puts
/// into interrupt slot `slot` (vector `slot + 32`): the system call stub
/// (128) first, then the stubs 32 to 37, 39, 38, 40 to 127 and 129 to 255.
pub open spec fn init_irq_for_slot(slot: int) -> int {
    if slot == 0 {
        128
    } else if slot == 7 {
        39
    } else if slot == 8 {
        38
    } else if slot <= 96 {
        slot + 31
    } else {
        slot + 32
    }
}

/// Whether exception vector `vector` gets a handler stub in
/// [`InterruptDescriptorTable::init`]: every vector from 0 to 20 except 9
/// and 15.
pub open spec fn has_exception_stub(vector: int) -> bool {
    0 <= vector <= 20 && vector != 9 && vector != 15
}

/// The interrupt stack that exception vector `vector` runs on, if any.
pub open spec fn exception_stack(vector: int) -> Option<InterruptStackTableIndex> {
    if vector == 1 {
        Some(InterruptStackTableIndex::Debug)
    } else if vector == 2 {
        Some(InterruptStackTableIndex::NonMaskableInterrupt)
    } else if vector == 8 {
        Some(InterruptStackTableIndex::DoubleFault)
    } else if vector == 18 {
        Some(InterruptStackTableIndex::MachineCheck)
    } else {
        None
    }
}

/// The stack field (option bits 0..3) of an entry: 0 for an entry that runs
/// on the interrupted stack, and one more than the interrupt stack's index
/// for the debug (1), non-maskable interrupt (2), double fault (3) and
/// machine check (4) stacks.
pub proof fn lemma_entry_stack_field()
    ensures
        u16_bits(present_bits(), 0, 3) == 0,
        u16_bits(stack_bits(InterruptStackTableIndex::Debug), 0, 3) == 1,
        u16_bits(stack_bits(InterruptStackTableIndex::NonMaskableInterrupt), 0, 3) == 2,
        u16_bits(stack_bits(InterruptStackTableIndex::DoubleFault), 0, 3) == 3,
        u16_bits(stack_bits(InterruptStackTableIndex::MachineCheck), 0, 3) == 4,
{
    lemma_u16_masks();
    assert(u16_bits(u16_with_bit(0b1110_0000_0000u16, 15, true), 0, 3) == 0) by (bit_vector);
    lemma_u16_bits_of_with_bits(present_bits(), 0, 3, 1, 0, 3);
    lemma_u16_bits_of_with_bits(present_bits(), 0, 3, 2, 0, 3);
    lemma_u16_bits_of_with_bits(present_bits(), 0, 3, 3, 0, 3);
    lemma_u16_bits_of_with_bits(present_bits(), 0, 3, 4, 0, 3);
}

/// An interrupt descriptor table with 256 entries: 32 for processor
/// exceptions (vectors 0 to 31) and 224 for interrupts (vectors 32 to 255).
#[derive(Debug, Clone, Copy)]
pub struct InterruptDescriptorTable {
    exceptions: [Entry; 32],
    interrupts: [Entry; 224],
}

/// The interrupt number whose stub goes into interrupt slot `slot`
/// ([`init_irq_for_slot`]).
fn slot_irq(slot: usize) -> (r: usize)
    requires
        slot < 224,
    ensures
        r == init_irq_for_slot(slot as int),
        32 <= r <= 255,
{
    if slot == 0 {
        128
    } else if slot == 7 {
        39
    } else if slot == 8 {
        38
    } else if slot <= 96 {
        slot + 31
    } else {
        slot + 32
    }
}

impl InterruptDescriptorTable {
    /// The 32 exception entries, by vector.
    pub closed spec fn spec_exceptions(&self) -> Seq<Entry> {
        self.exceptions@
    }

    /// The 224 interrupt entries; entry `i` is vector `i + 32`.
    pub closed spec fn spec_interrupts(&self) -> Seq<Entry> {
        self.interrupts@
    }

    /// The table has 32 exception and 224 interrupt entries.
    pub proof fn lemma_lengths(&self)
        ensures
            self.spec_exceptions().len() == 32,
            self.spec_interrupts().len() == 224,
    {
    }

    /// The table that the kernel loads. `exception_stubs[v]` is the address
    /// of the stub for exception vector `v` (used for the vectors that
    /// [`has_exception_stub`] names) and `irq_stubs[i]` the address of the
    /// stub for interrupt `i + 32`. The debug, non-maskable, double fault and
    /// machine check exceptions run on their interrupt stacks; the system
    /// call stub may be invoked from ring 3.
    pub fn init(exception_stubs: &[usize; 32], irq_stubs: &[usize; 224]) -> (r: Self)
        ensures
            forall|v: int|
                0 <= v < 32 && !has_exception_stub(v) ==> #[trigger] r.spec_exceptions()[v]
                    == Entry::spec_missing(),
            forall|v: int|
                #![trigger r.spec_exceptions()[v]]
                has_exception_stub(v) && exception_stack(v) is None ==> r.spec_exceptions()[v].is_kernel_entry(
                    exception_stubs@[v] as u64,
                    present_bits(),
                ),
            forall|v: int|
                #![trigger r.spec_exceptions()[v]]
                has_exception_stub(v) && exception_stack(v) is Some ==> r.spec_exceptions()[v].is_kernel_entry(
                    exception_stubs@[v] as u64,
                    stack_bits(exception_stack(v)->0),
                ),
            u16_bits(r.spec_exceptions()[1].spec_options().spec_bits(), 0, 3) == 1,
            u16_bits(r.spec_exceptions()[2].spec_options().spec_bits(), 0, 3) == 2,
            u16_bits(r.spec_exceptions()[8].spec_options().spec_bits(), 0, 3) == 3,
            u16_bits(r.spec_exceptions()[18].spec_options().spec_bits(), 0, 3) == 4,
            forall|v: int|
                has_exception_stub(v) && v != 1 && v != 2 && v != 8 && v != 18 ==> u16_bits(
                    (#[trigger] r.spec_exceptions()[v]).spec_options().spec_bits(),
                    0,
                    3,
                ) == 0,
            r.spec_interrupts()[0].is_kernel_entry(
                irq_stubs@[96] as u64,
                u16_with_bits(present_bits(), 13, 15, 3),
            ),
            forall|slot: int|
                1 <= slot < 224 ==> (#[trigger] r.spec_interrupts()[slot]).is_kernel_entry(
                    irq_stubs@[init_irq_for_slot(slot) - 32] as u64,
                    present_bits(),
                ),
    {
        let mut exceptions = [Entry::missing();32];
        let mut v: usize = 0;
        while v < 32
            invariant
                0 <= v <= 32,
                forall|u: int| 0 <= u < 32 && !has_exception_stub(u) ==> #[trigger] exceptions@[u] == Entry::spec_missing(),
                forall|u: int|
                    #![trigger exceptions@[u]]
                    0 <= u < v && has_exception_stub(u) && exception_stack(u) is None
                        ==> exceptions@[u].is_kernel_entry(exception_stubs@[u] as u64, present_bits()),
                forall|u: int|
                    #![trigger exceptions@[u]]
                    0 <= u < v && has_exception_stub(u) && exception_stack(u) is Some
                        ==> exceptions@[u].is_kernel_entry(
                        exception_stubs@[u] as u64,
                        stack_bits(exception_stack(u)->0),
                    ),
            decreases 32 - v,
        {
            if v == 1 {
                exceptions[v] = Entry::new_with_stack(exception_stubs[v], InterruptStackTableIndex::Debug);
            } else if v == 2 {
                exceptions[v] = Entry::new_with_stack(
                    exception_stubs[v],
                    InterruptStackTableIndex::NonMaskableInterrupt,
                );
            } else if v == 8 {
                exceptions[v] = Entry::new_with_stack(
                    exception_stubs[v],
                    InterruptStackTableIndex::DoubleFault,
                );
            } else if v == 18 {
                exceptions[v] = Entry::new_with_stack(
                    exception_stubs[v],
                    InterruptStackTableIndex::MachineCheck,
                );
            } else if v <= 20 && v != 9 && v != 15 {
                exceptions[v] = Entry::new(exception_stubs[v]);
            }
            v = v + 1;
        }
        let mut interrupts = [Entry::missing();224];
        interrupts[0] = Entry::new_with_privilege(irq_stubs[96], PrivilegeLevel::Ring3);
        let mut slot: usize = 1;
        while slot < 224
            invariant
                1 <= slot <= 224,
                interrupts@[0].is_kernel_entry(
                    irq_stubs@[96] as u64,
                    u16_with_bits(present_bits(), 13, 15, 3),
                ),
                forall|k: int|
                    1 <= k < slot ==> (#[trigger] interrupts@[k]).is_kernel_entry(
                        irq_stubs@[init_irq_for_slot(k) - 32] as u64,
                        present_bits(),
                    ),
            decreases 224 - slot,
        {
            let irq = slot_irq(slot);
            interrupts[slot] = Entry::new(irq_stubs[irq - 32]);
            slot = slot + 1;
        }
        proof {
            lemma_entry_stack_field();
            assert(has_exception_stub(1) && has_exception_stub(2) && has_exception_stub(8)
                && has_exception_stub(18));
            assert(exceptions@[1].spec_options().spec_bits() == stack_bits(
                InterruptStackTableIndex::Debug,
            ));
            assert(exceptions@[2].spec_options().spec_bits() == stack_bits(
                InterruptStackTableIndex::NonMaskableInterrupt,
            ));
            assert(exceptions@[8].spec_options().spec_bits() == stack_bits(
                InterruptStackTableIndex::DoubleFault,
            ));
            assert(exceptions@[18].spec_options().spec_bits() == stack_bits(
                InterruptStackTableIndex::MachineCheck,
            ));
        }
        Self { exceptions, interrupts }
    }

    /// The entry of interrupt vector `index`; exception vectors (0 to 31)
    /// cannot be indexed.
    pub fn index(&self, index: u8) -> (r: &Entry)
        requires
            index >= 32,
        ensures
            *r == self.spec_interrupts()[index - 32],
    {
        &self.interrupts[(index - 32) as usize]
    }

    /// Mutable access to the entry of interrupt vector `index`; exception
    /// vectors (0 to 31) cannot be indexed.
    pub fn index_mut(&mut self, index: u8) -> (r: &mut Entry)
        requires
            index >= 32,
        ensures
            *r == old(self).spec_interrupts()[index - 32],
            final(self).spec_interrupts() == old(self).spec_interrupts().update(
                index - 32,
                *final(r),
            ),
            final(self).spec_exceptions() == old(self).spec_exceptions(),
    {
        &mut self.interrupts[(index - 32) as usize]
    }

    /// Mutable access to the entry of exception vector `vector`.
    pub fn exception_mut(&mut self, vector: u8) -> (r: &mut Entry)
        requires
            vector < 32,
        ensures
            *r == old(self).spec_exceptions()[vector as int],
            final(self).spec_exceptions() == old(self).spec_exceptions().update(
                vector as int,
                *final(r),
            ),
            final(self).spec_interrupts() == old(self).spec_interrupts(),
    {
        &mut self.exceptions[vector as usize]
    }

    /// The entry of exception vector `vector`.
    pub fn exception(&self, vector: u8) -> (r: &Entry)
        requires
            vector < 32,
        ensures
            *r == self.spec_exceptions()[vector as int],
    {
        &self.exceptions[vector as usize]
    }

    /// Size of the table in bytes: 256 entries of 16 bytes.
    pub const SIZE_IN_BYTES: usize = 4096;
}

} // verus!
