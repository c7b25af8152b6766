//! Error codes pushed by the processor for some exceptions.
use crate::bitfield::{lemma_u64_bits_fit, lemma_u64_masks, u64_bit, u64_bits, u64_get_bit, u64_get_bits};
use vstd::prelude::*;

verus! {

/// Every bit that a named page fault error code flag holds: bits 0 to 6,
/// 15 and 31.
pub const PAGE_FAULT_ERROR_CODE_ALL: u64 = 0x8000_807F;

/// Describes a page fault error code (AMD Volume 2: 8.4.2, Intel Volume 3A:
/// 4.7).
#[derive(Debug, Clone, Copy, PartialEq, Eq, PartialOrd, Ord, Hash, Structural)]
pub struct PageFaultErrorCode(u64);

impl PageFaultErrorCode {
    /// The page fault was caused by a page-protection violation (else by a
    /// not-present page).
    pub const PROTECTION_VIOLATION: u64 = 0x1;

    /// The access was a write (else a read).
    pub const CAUSED_BY_WRITE: u64 = 0x2;

    /// The access happened in user mode (CPL=3).
    pub const USER_MODE: u64 = 0x4;

    /// The processor read a 1 from a reserved field of a page-translation
    /// entry.
    pub const MALFORMED_TABLE: u64 = 0x8;

    /// The access was an instruction fetch.
    pub const INSTRUCTION_FETCH: u64 = 0x10;

    /// Caused by a protection key.
    pub const PROTECTION_KEY: u64 = 0x20;

    /// Caused by a shadow stack access.
    pub const SHADOW_STACK: u64 = 0x40;

    /// Caused by SGX access-control requirements (Intel-only).
    pub const SGX: u64 = 0x8000;

    /// Caused by an RMP violation (AMD-only).
    pub const RMP: u64 = 0x8000_0000;

    pub closed spec fn spec_bits(self) -> u64 {
        self.0
    }

    /// The named flags of `bits` (`PageFaultErrorCode::from_bits_truncate`).
    pub fn from_bits_truncate(bits: u64) -> (r: Self)
        ensures
            r.spec_bits() == bits & PAGE_FAULT_ERROR_CODE_ALL,
    {
        PageFaultErrorCode(bits & PAGE_FAULT_ERROR_CODE_ALL)
    }

    /// The raw bits.
    pub fn bits(self) -> (r: u64)
        ensures
            r == self.spec_bits(),
    {
        self.0
    }

    /// Whether every bit of `flags` is set.
    pub fn contains(self, flags: u64) -> (r: bool)
        ensures
            r == (self.spec_bits() & flags == flags),
    {
        self.0 & flags == flags
    }
}

/// The possible descriptor tables that a [`SelectorErrorCode`] refers to.
#[derive(Debug, Clone, Copy, PartialEq, Eq, Structural)]
pub enum DescriptorTableKind {
    /// Global Descriptor Table.
    GDT,
    /// Interrupt Descriptor Table.
    IDT,
    /// Logical Descriptor Table.
    LDT,
}

/// The table kind encoded by the two bits `bits` of a selector error code.
pub open spec fn spec_table_kind(bits: u64) -> DescriptorTableKind {
    if bits == 0 {
        DescriptorTableKind::GDT
    } else if bits == 2 {
        DescriptorTableKind::LDT
    } else {
        DescriptorTableKind::IDT
    }
}

/// An error code referencing a segment selector: external event in bit 0,
/// table kind in bits 1..3, table index in bits 3..16.
#[derive(Debug, Clone, Copy, PartialEq, Eq, Structural)]
pub struct SelectorErrorCode(u64);

impl SelectorErrorCode {
    pub closed spec fn spec_bits(self) -> u64 {
        self.0
    }

    /// Creates a [`SelectorErrorCode`]. Returns `None` if any reserved bit
    /// (16 to 63) is set.
    pub fn new(flags: u64) -> (r: Option<Self>)
        ensures
            r is Some <==> flags & 0xFFFF_FFFF_FFFF_0000 == 0,
            r matches Some(code) ==> code.spec_bits() == flags,
    {
        if (flags & 0xFFFF_FFFF_FFFF_0000) == 0 {
            Some(Self(flags))
        } else {
            None
        }
    }

    /// Whether the exception occurred during delivery of an external event,
    /// such as an interrupt or an earlier exception.
    pub fn is_external(self) -> (r: bool)
        ensures
            r == u64_bit(self.spec_bits(), 0),
    {
        u64_get_bit(self.0, 0)
    }

    /// The descriptor table this error code refers to.
    pub fn table_kind(self) -> (r: DescriptorTableKind)
        ensures
            r == spec_table_kind(u64_bits(self.spec_bits(), 1, 3)),
    {
        let bits = u64_get_bits(self.0, 1, 3);
        if bits == 0 {
            DescriptorTableKind::GDT
        } else if bits == 2 {
            DescriptorTableKind::LDT
        } else {
            DescriptorTableKind::IDT
        }
    }

    /// Table index of the entry which caused the error.
    pub fn table_index(self) -> (r: u16)
        ensures
            r == u64_bits(self.spec_bits(), 3, 16),
    {
        let bits = u64_get_bits(self.0, 3, 16);
        proof {
            lemma_u64_bits_fit(self.0, 3, 16);
            lemma_u64_masks();
        }
        bits as u16
    }

    /// Whether the error code is zero, as opposed to referring to a
    /// descriptor.
    pub fn is_null(self) -> (r: bool)
        ensures
            r == (self.spec_bits() == 0),
    {
        self.0 == 0
    }
}

} // verus!
