//! Processor-defined in-memory structures.
pub mod gdt;
pub mod idt;
pub mod tss;

use vstd::prelude::*;

verus! {

/// A pointer to a descriptor table (GDT / IDT), in the form that `lgdt` and
/// `lidt` take: the table's size in bytes less one, and its address.
#[derive(Debug, Clone, Copy, PartialEq, Eq, Structural)]
pub struct DescriptorTablePointer {
    /// Size of the table in bytes, less 1.
    limit: u16,
    /// Address of the table.
    base: u64,
}

impl DescriptorTablePointer {
    pub closed spec fn spec_limit(&self) -> u16 {
        self.limit
    }

    pub closed spec fn spec_base(&self) -> u64 {
        self.base
    }

    /// The pointer to a table of `size_in_bytes` bytes at `base`. The size,
    /// less one, must fit into 16 bits.
    pub fn from_table(size_in_bytes: usize, base: u64) -> (r: Self)
        requires
            1 <= size_in_bytes <= 0x1_0000,
        ensures
            r.spec_limit() == size_in_bytes - 1,
            r.spec_base() == base,
    {
        Self { limit: (size_in_bytes - 1) as u16, base }
    }

    /// Size of the table in bytes, less 1.
    pub fn limit(&self) -> (r: u16)
        ensures
            r == self.spec_limit(),
    {
        self.limit
    }

    /// Address of the table.
    pub fn base(&self) -> (r: u64)
        ensures
            r == self.spec_base(),
    {
        self.base
    }
}

} // verus!
