//! The task state segment and the interrupt stack table indexes.
use super::gdt::{
    lemma_system_descriptor_ring0, selector_bits, system_descriptor_bits, GlobalDescriptorTable,
    PrivilegeLevel, SegmentDescriptor, SegmentSelector, SystemSegmentDescriptor,
};
use vstd::prelude::*;

verus! {

/// Pre-defined indexes into the interrupt stack table (IST).
#[derive(Debug, Clone, Copy, PartialEq, Eq, Structural)]
pub enum InterruptStackTableIndex {
    Debug,
    NonMaskableInterrupt,
    DoubleFault,
    MachineCheck,
    Unknown,
}

impl InterruptStackTableIndex {
    /// The numeric index (`u16::from`): 0 to 3 for the named stacks, 4 for
    /// `Unknown`.
    pub open spec fn spec_index(self) -> u16 {
        match self {
            InterruptStackTableIndex::Debug => 0,
            InterruptStackTableIndex::NonMaskableInterrupt => 1,
            InterruptStackTableIndex::DoubleFault => 2,
            InterruptStackTableIndex::MachineCheck => 3,
            InterruptStackTableIndex::Unknown => 4,
        }
    }

    /// The numeric index (`u16::from`).
    pub fn as_u16(self) -> (r: u16)
        ensures
            r == self.spec_index(),
    {
        match self {
            InterruptStackTableIndex::Debug => 0,
            InterruptStackTableIndex::NonMaskableInterrupt => 1,
            InterruptStackTableIndex::DoubleFault => 2,
            InterruptStackTableIndex::MachineCheck => 3,
            InterruptStackTableIndex::Unknown => 4,
        }
    }

    /// The index for `value` (`InterruptStackTableIndex::from`): values
    /// other than 0 to 3 give `Unknown`.
    pub fn from_u16(value: u16) -> (r: Self)
        ensures
            value < 4 ==> r.spec_index() == value,
            value >= 4 ==> r == InterruptStackTableIndex::Unknown,
    {
        if value == 0 {
            InterruptStackTableIndex::Debug
        } else if value == 1 {
            InterruptStackTableIndex::NonMaskableInterrupt
        } else if value == 2 {
            InterruptStackTableIndex::DoubleFault
        } else if value == 3 {
            InterruptStackTableIndex::MachineCheck
        } else {
            InterruptStackTableIndex::Unknown
        }
    }
}

/// The contents of a 64-bit task state segment. Stack addresses are kept as
/// integers; zero stands for an empty slot.
#[derive(Debug, Clone, Copy)]
pub struct TaskStateSegment {
    /// The stacks used when a privilege level change occurs from a lower
    /// privilege level to a higher one (e.g. ring 3 to ring 0).
    privilege_stack_table: [u64; 3],
    /// The stacks used when an entry in the interrupt descriptor table has
    /// an IST value other than 0.
    interrupt_stack_table: [u64; 7],
    /// The 16-bit offset to the I/O permission bit map from the TSS base.
    iomap_base: u16,
}

impl TaskStateSegment {
    pub closed spec fn spec_privilege_stacks(&self) -> Seq<u64> {
        self.privilege_stack_table@
    }

    pub closed spec fn spec_interrupt_stacks(&self) -> Seq<u64> {
        self.interrupt_stack_table@
    }

    pub closed spec fn spec_iomap_base(&self) -> u16 {
        self.iomap_base
    }

    /// A task state segment with every stack slot empty and an I/O map
    /// offset of zero (`TaskStateSegment::default`).
    pub fn default() -> (r: Self)
        ensures
            r.spec_privilege_stacks() == Seq::new(3, |i: int| 0u64),
            r.spec_interrupt_stacks() == Seq::new(7, |i: int| 0u64),
            r.spec_iomap_base() == 0,
    {
        let r = Self { privilege_stack_table: [0; 3], interrupt_stack_table: [0; 7], iomap_base: 0 };
        assert(r.privilege_stack_table@ =~= Seq::new(3, |i: int| 0u64));
        assert(r.interrupt_stack_table@ =~= Seq::new(7, |i: int| 0u64));
        r
    }

    /// The task state segment that each hardware thread loads: the ring-0
    /// stack for privilege changes, and one stack for each of the faults
    /// that cannot be disabled or are caused by runtime errors (debug,
    /// non-maskable interrupt, double fault, machine check), in the
    /// interrupt stack table slots that [`InterruptStackTableIndex`] names.
    pub fn new_local(
        ring0_stack: u64,
        debug_stack: u64,
        non_maskable_stack: u64,
        double_fault_stack: u64,
        machine_check_stack: u64,
    ) -> (r: Self)
        ensures
            r.spec_privilege_stacks() == seq![ring0_stack, 0u64, 0u64],
            r.spec_interrupt_stacks() == seq![
                debug_stack,
                non_maskable_stack,
                double_fault_stack,
                machine_check_stack,
                0u64,
                0u64,
                0u64,
            ],
            r.spec_iomap_base() == 0,
    {
        let mut tss = Self::default();
        tss.privilege_stack_table[0] = ring0_stack;
        tss.interrupt_stack_table[InterruptStackTableIndex::Debug.as_u16() as usize] = debug_stack;
        tss.interrupt_stack_table[InterruptStackTableIndex::NonMaskableInterrupt.as_u16() as usize] =
            non_maskable_stack;
        tss.interrupt_stack_table[InterruptStackTableIndex::DoubleFault.as_u16() as usize] =
            double_fault_stack;
        tss.interrupt_stack_table[InterruptStackTableIndex::MachineCheck.as_u16() as usize] =
            machine_check_stack;
        assert(tss.privilege_stack_table@ =~= seq![ring0_stack, 0u64, 0u64]);
        assert(tss.interrupt_stack_table@ =~= seq![
            debug_stack,
            non_maskable_stack,
            double_fault_stack,
            machine_check_stack,
            0u64,
            0u64,
            0u64,
        ]);
        tss
    }

    /// The stack for privilege level `ring` (0 to 2).
    pub fn privilege_stack(&self, ring: usize) -> (r: u64)
        requires
            ring < 3,
        ensures
            r == self.spec_privilege_stacks()[ring as int],
    {
        self.privilege_stack_table[ring]
    }

    /// The interrupt stack table slot `index` (0 to 6).
    pub fn interrupt_stack(&self, index: usize) -> (r: u64)
        requires
            index < 7,
        ensures
            r == self.spec_interrupt_stacks()[index as int],
    {
        self.interrupt_stack_table[index]
    }

    /// The table and selector with which a hardware thread loads its task
    /// state segment, which lies at `tss_address`: a copy of the static
    /// table with the segment's system descriptor appended, and the selector
    /// of that descriptor, to load into the task register while the copy is
    /// the loaded table.
    pub fn load_local(static_gdt: &GlobalDescriptorTable, tss_address: u64) -> (r: (
        GlobalDescriptorTable,
        SegmentSelector,
    ))
        requires
            static_gdt.wf(),
            static_gdt.spec_len() + 2 <= 7,
        ensures
            r.0.wf(),
            r.0.spec_len() == static_gdt.spec_len() + 2,
            r.0.spec_table() == static_gdt.spec_table().subrange(0, static_gdt.spec_len() as int)
                + seq![
                system_descriptor_bits(tss_address) as u64,
                (system_descriptor_bits(tss_address) >> 64u128) as u64,
            ] + static_gdt.spec_table().subrange(static_gdt.spec_len() + 2int, 7),
            r.1.view_bits() == selector_bits(static_gdt.spec_len() as u16, PrivilegeLevel::Ring0),
    {
        let mut temp_gdt = *static_gdt;
        let descriptor = SystemSegmentDescriptor::from_tss(tss_address);
        proof {
            lemma_system_descriptor_ring0(tss_address);
        }
        let selector = temp_gdt.append_segment(descriptor);
        (temp_gdt, selector)
    }
}

} // verus!
