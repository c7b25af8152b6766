//! Interrupt descriptor table entries.
use crate::arch::x86_64::structures::gdt::{
    kcode_selector, selector_bits, PrivilegeLevel, SegmentSelector,
};
use crate::arch::x86_64::structures::tss::InterruptStackTableIndex;
use crate::bitfield::{
    lemma_u16_masks, lemma_u64_bits_fit, lemma_u64_masks, u16_set_bit, u16_set_bits,
    u16_with_bit, u16_with_bits, u64_bits, u64_get_bits,
};
use vstd::prelude::*;

verus! {

/// The option bits of a minimal entry: a 64-bit interrupt gate, not present,
/// interrupt stack 0, privilege level 0.
pub const OPTIONS_MINIMAL_BITS: u16 = 0b1110_0000_0000;

/// Represents the 4 non-offset bytes of an IDT entry: the code segment
/// selector and the option bits (interrupt stack index in bits 0..3, "keep
/// interrupts enabled" in bit 8, gate type in bits 8..12, privilege level in
/// bits 13..15, present in bit 15).
#[derive(Debug, Clone, Copy, PartialEq, Eq, Structural)]
pub struct Options {
    cs: SegmentSelector,
    bits: u16,
}

impl Options {
    pub closed spec fn spec_cs(self) -> SegmentSelector {
        self.cs
    }

    pub closed spec fn spec_bits(self) -> u16 {
        self.bits
    }

    /// Creates a minimal options field with all the must-be-one bits set: a
    /// null code selector, interrupt stack 0, privilege level 0.
    pub fn minimal() -> (r: Self)
        ensures
            r.spec_cs().view_bits() == 0,
            r.spec_cs() == SegmentSelector::spec_raw(0),
            r.spec_bits() == OPTIONS_MINIMAL_BITS,
    {
        Options { cs: SegmentSelector::null(), bits: OPTIONS_MINIMAL_BITS }
    }

    /// The code segment used by the handler.
    pub fn code_selector(&self) -> (r: SegmentSelector)
        ensures
            r == self.spec_cs(),
    {
        self.cs
    }

    /// The raw option bits.
    pub fn bits(&self) -> (r: u16)
        ensures
            r == self.spec_bits(),
    {
        self.bits
    }

    /// Sets the code segment that will be used by this interrupt.
    pub fn set_code_selector(&mut self, cs: SegmentSelector)
        ensures
            final(self).spec_cs() == cs,
            final(self).spec_bits() == old(self).spec_bits(),
    {
        self.cs = cs;
    }

    /// Sets or resets the present bit (bit 15).
    pub fn set_present(&mut self, present: bool)
        ensures
            final(self).spec_cs() == old(self).spec_cs(),
            final(self).spec_bits() == u16_with_bit(old(self).spec_bits(), 15, present),
    {
        self.bits = u16_set_bit(self.bits, 15, present);
    }

    /// Lets the CPU disable hardware interrupts when the handler is invoked
    /// (bit 8 cleared) or not (bit 8 set).
    pub fn set_disable_interrupts(&mut self, disable: bool)
        ensures
            final(self).spec_cs() == old(self).spec_cs(),
            final(self).spec_bits() == u16_with_bit(old(self).spec_bits(), 8, !disable),
    {
        self.bits = u16_set_bit(self.bits, 8, !disable);
    }

    /// Sets the required privilege level (DPL) for invoking the handler
    /// (bits 13..15).
    pub fn set_privilege_level(&mut self, value: PrivilegeLevel)
        ensures
            final(self).spec_cs() == old(self).spec_cs(),
            final(self).spec_bits() == u16_with_bits(old(self).spec_bits(), 13, 15, value.spec_bits()),
    {
        proof {
            lemma_u16_masks();
        }
        self.bits = u16_set_bits(self.bits, 13, 15, value.as_u16());
    }

    /// Assigns an interrupt stack table stack to this handler. The hardware
    /// index starts at 1 while [`InterruptStackTableIndex`] starts at 0, so
    /// bits 0..3 receive the index plus one.
    pub fn set_stack_index(&mut self, index: InterruptStackTableIndex)
        ensures
            final(self).spec_cs() == old(self).spec_cs(),
            final(self).spec_bits() == u16_with_bits(
                old(self).spec_bits(),
                0,
                3,
                (index.spec_index() + 1) as u16,
            ),
    {
        proof {
            lemma_u16_masks();
        }
        self.bits = u16_set_bits(self.bits, 0, 3, index.as_u16() + 1);
    }
}

/// An interrupt descriptor table entry: the handler address split into
/// three parts, and the options.
#[derive(Debug, Clone, Copy, PartialEq, Eq, Structural)]
pub struct Entry {
    pointer_low: u16,
    options: Options,
    pointer_middle: u16,
    pointer_high: u32,
    reserved: u32,
}

/// The handler address that an entry's three pointer parts give.
pub open spec fn join_handler_addr(low: u16, middle: u16, high: u32) -> u64 {
    ((high as u64) << 32u64) | ((middle as u64) << 16u64) | (low as u64)
}

impl Entry {
    pub closed spec fn spec_options(self) -> Options {
        self.options
    }

    pub closed spec fn spec_reserved(self) -> u32 {
        self.reserved
    }

    /// The handler address the entry holds.
    pub closed spec fn spec_handler_addr(self) -> u64 {
        join_handler_addr(self.pointer_low, self.pointer_middle, self.pointer_high)
    }

    /// The entry that [`Entry::missing`] builds.
    pub closed spec fn spec_missing() -> Entry {
        Entry {
            pointer_low: 0,
            pointer_middle: 0,
            pointer_high: 0,
            options: Options { cs: SegmentSelector::spec_raw(0), bits: OPTIONS_MINIMAL_BITS },
            reserved: 0,
        }
    }

    /// Whether the entry is present, refers to `address` through the kernel
    /// code selector, and holds the option bits `bits`.
    pub open spec fn is_kernel_entry(self, address: u64, bits: u16) -> bool {
        &&& self.spec_handler_addr() == address
        &&& self.spec_options().spec_cs().view_bits() == selector_bits(1, PrivilegeLevel::Ring0)
        &&& self.spec_options().spec_bits() == bits
        &&& self.spec_reserved() == 0
    }

    /// Creates a non-present IDT entry (but sets the must-be-one bits).
    pub fn missing() -> (r: Self)
        ensures
            r == Entry::spec_missing(),
            r.spec_handler_addr() == 0,
            r.spec_options().spec_cs().view_bits() == 0,
            r.spec_options().spec_bits() == OPTIONS_MINIMAL_BITS,
            r.spec_reserved() == 0,
    {
        let r = Entry {
            pointer_low: 0,
            pointer_middle: 0,
            pointer_high: 0,
            options: Options::minimal(),
            reserved: 0,
        };
        assert(join_handler_addr(0, 0, 0) == 0) by (bit_vector);
        r
    }

    /// A present entry for the handler at `address`, through the kernel code
    /// selector.
    pub fn new(address: usize) -> (r: Self)
        ensures
            r.is_kernel_entry(address as u64, u16_with_bit(OPTIONS_MINIMAL_BITS, 15, true)),
    {
        let mut entry = Entry::missing();
        let a = address as u64;
        let low = u64_get_bits(a, 0, 16);
        let middle = u64_get_bits(a, 16, 32);
        let high = u64_get_bits(a, 32, 64);
        proof {
            lemma_u64_bits_fit(a, 0, 16);
            lemma_u64_bits_fit(a, 16, 32);
            lemma_u64_bits_fit(a, 32, 64);
            lemma_u64_masks();
        }
        entry.pointer_low = low as u16;
        entry.pointer_middle = middle as u16;
        entry.pointer_high = high as u32;
        entry.options.set_code_selector(kcode_selector());
        entry.options.set_present(true);
        proof {
            lemma_handler_addr_split(a);
        }
        entry
    }

    /// [`Entry::new`], with the handler running on the interrupt stack
    /// `interrupt_stack_table_index`.
    pub fn new_with_stack(address: usize, interrupt_stack_table_index: InterruptStackTableIndex) -> (r:
        Self)
        ensures
            r.is_kernel_entry(
                address as u64,
                u16_with_bits(
                    u16_with_bit(OPTIONS_MINIMAL_BITS, 15, true),
                    0,
                    3,
                    (interrupt_stack_table_index.spec_index() + 1) as u16,
                ),
            ),
    {
        let mut entry = Self::new(address);
        entry.options.set_stack_index(interrupt_stack_table_index);
        entry
    }

    /// [`Entry::new`], invocable from privilege level `privilege_level`.
    pub fn new_with_privilege(address: usize, privilege_level: PrivilegeLevel) -> (r: Self)
        ensures
            r.is_kernel_entry(
                address as u64,
                u16_with_bits(
                    u16_with_bit(OPTIONS_MINIMAL_BITS, 15, true),
                    13,
                    15,
                    privilege_level.spec_bits(),
                ),
            ),
    {
        let mut entry = Self::new(address);
        entry.options.set_privilege_level(privilege_level);
        entry
    }

    /// Points the entry at the handler at `address` through the code segment
    /// `cs` and marks it present, keeping its other options.
    pub fn set_handler_addr(&mut self, address: usize, cs: SegmentSelector)
        ensures
            final(self).spec_handler_addr() == address as u64,
            final(self).spec_options().spec_cs() == cs,
            final(self).spec_options().spec_bits() == u16_with_bit(
                old(self).spec_options().spec_bits(),
                15,
                true,
            ),
            final(self).spec_reserved() == old(self).spec_reserved(),
    {
        let a = address as u64;
        let low = u64_get_bits(a, 0, 16);
        let middle = u64_get_bits(a, 16, 32);
        let high = u64_get_bits(a, 32, 64);
        proof {
            lemma_u64_bits_fit(a, 0, 16);
            lemma_u64_bits_fit(a, 16, 32);
            lemma_u64_bits_fit(a, 32, 64);
            lemma_u64_masks();
        }
        self.pointer_low = low as u16;
        self.pointer_middle = middle as u16;
        self.pointer_high = high as u32;
        self.options.set_code_selector(cs);
        self.options.set_present(true);
        proof {
            lemma_handler_addr_split(a);
        }
    }

    /// Runs the handler on the interrupt stack `index`, keeping everything
    /// else.
    pub fn set_stack_index(&mut self, index: InterruptStackTableIndex)
        ensures
            final(self).spec_handler_addr() == old(self).spec_handler_addr(),
            final(self).spec_options().spec_cs() == old(self).spec_options().spec_cs(),
            final(self).spec_options().spec_bits() == u16_with_bits(
                old(self).spec_options().spec_bits(),
                0,
                3,
                (index.spec_index() + 1) as u16,
            ),
            final(self).spec_reserved() == old(self).spec_reserved(),
    {
        self.options.set_stack_index(index);
    }

    /// The handler address the entry holds.
    pub fn handler_addr(&self) -> (r: u64)
        ensures
            r == self.spec_handler_addr(),
    {
        (self.pointer_high as u64) << 32 | (self.pointer_middle as u64) << 16 | self.pointer_low as u64
    }

    /// The entry's options.
    pub fn options(&self) -> (r: Options)
        ensures
            r == self.spec_options(),
    {
        self.options
    }
}

/// Splitting an address into the three pointer parts and joining them again
/// gives the address back.
pub proof fn lemma_handler_addr_split(a: u64)
    ensures
        join_handler_addr(
            u64_bits(a, 0, 16) as u16,
            u64_bits(a, 16, 32) as u16,
            u64_bits(a, 32, 64) as u32,
        ) == a,
{
    assert(((((a >> 32u64) & !(u64::MAX << 32u64)) as u32 as u64) << 32u64) | ((((a >> 16u64)
        & !(u64::MAX << 16u64)) as u16 as u64) << 16u64) | (((a >> 0u64) & !(u64::MAX << 16u64)) as u16
        as u64) == a) by (bit_vector);
}

} // verus!
