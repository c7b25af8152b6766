//! Model-specific registers of the earlier x86-64 layer: what the kernel
//! reads from them and the writes it makes.
use crate::arch::x86_64::registers::model_specific::MsrWrite;
use crate::arch::x86_64::registers::RFlags;
use crate::arch::x86_64::structures::gdt::SegmentSelector;
use crate::bitfield::{u64_bit, u64_get_bit, u64_set_bit, u64_with_bit};
use vstd::prelude::*;

verus! {

/// The processor does not support model-specific registers.
#[derive(Debug)]
pub struct NotSupported;

/// The APIC base register (address 0x1B).
pub struct IA32_APIC_BASE;

impl IA32_APIC_BASE {
    /// Whether the APIC belongs to the bootstrap processor (bit 8).
    pub fn get_is_bsp(raw: u64) -> (r: bool)
        ensures
            r == u64_bit(raw, 8),
    {
        u64_get_bit(raw, 8)
    }

    /// Whether x2APIC mode is enabled (bit 10).
    pub fn get_is_x2_mode(raw: u64) -> (r: bool)
        ensures
            r == u64_bit(raw, 10),
    {
        u64_get_bit(raw, 10)
    }

    /// Whether the APIC is enabled (bit 11).
    pub fn get_hw_enabled(raw: u64) -> (r: bool)
        ensures
            r == u64_bit(raw, 11),
    {
        u64_get_bit(raw, 11)
    }

    /// The APIC's physical base address (bits 12 to 35).
    pub fn get_base_address(raw: u64) -> (r: u64)
        ensures
            r == raw & 0xF_FFFF_F000,
    {
        raw & 0xF_FFFF_F000
    }
}

/// The extended feature enable register (address 0xC000_0080).
pub struct IA32_EFER;

impl IA32_EFER {
    /// The register's address.
    pub const ADDRESS: u32 = 0xC000_0080;

    /// The long-mode active bit (bit 10).
    pub fn get_lma(raw: u64) -> (r: bool)
        ensures
            r == u64_bit(raw, 10),
    {
        u64_get_bit(raw, 10)
    }

    /// The write that sets the long-mode enable bit (bit 8) to `set`.
    pub fn set_lme(raw: u64, set: bool) -> (r: MsrWrite)
        ensures
            r == (MsrWrite { address: 0xC000_0080, value: u64_with_bit(raw, 8, set) }),
    {
        MsrWrite { address: Self::ADDRESS, value: u64_set_bit(raw, 8, set) }
    }

    /// The write that sets the `syscall`/`sysret` enable bit (bit 0) to
    /// `set`.
    pub fn set_sce(raw: u64, set: bool) -> (r: MsrWrite)
        ensures
            r == (MsrWrite { address: 0xC000_0080, value: u64_with_bit(raw, 0, set) }),
    {
        MsrWrite { address: Self::ADDRESS, value: u64_set_bit(raw, 0, set) }
    }

    /// The no-execute enable bit (bit 11).
    pub fn get_nxe(raw: u64) -> (r: bool)
        ensures
            r == u64_bit(raw, 11),
    {
        u64_get_bit(raw, 11)
    }

    /// The write that sets the no-execute enable bit (bit 11) to `set`.
    pub fn set_nxe(raw: u64, set: bool) -> (r: MsrWrite)
        ensures
            r == (MsrWrite { address: 0xC000_0080, value: u64_with_bit(raw, 11, set) }),
    {
        MsrWrite { address: Self::ADDRESS, value: u64_set_bit(raw, 11, set) }
    }
}

/// The `syscall`/`sysret` segment selector register (address 0xC000_0081).
pub struct IA32_STAR;

/// The value that [`IA32_STAR::set_selectors`] writes: the table index of
/// `high` shifted to bit 51 and that of `low` shifted to bit 35.
pub open spec fn star_value(low: SegmentSelector, high: SegmentSelector) -> u64 {
    (((high.view_bits() >> 3u16) as u64) << 51u64) | (((low.view_bits() >> 3u16) as u64) << 35u64)
}

impl IA32_STAR {
    /// The write that sets the selectors used by `syscall` and `sysret`.
    pub fn set_selectors(low_selector: SegmentSelector, high_selector: SegmentSelector) -> (r:
        MsrWrite)
        ensures
            r == (MsrWrite { address: 0xC000_0081, value: star_value(low_selector, high_selector) }),
    {
        let high = high_selector.gdt_index() as u64;
        let low = low_selector.gdt_index() as u64;
        MsrWrite { address: 0xC000_0081, value: high << 51 | low << 35 }
    }
}

/// The `syscall` target instruction pointer (address 0xC000_0082).
pub struct IA32_LSTAR;

impl IA32_LSTAR {
    /// The write that makes `syscall` jump to `entry_address`.
    pub fn set_syscall(entry_address: u64) -> (r: MsrWrite)
        ensures
            r == (MsrWrite { address: 0xC000_0082, value: entry_address }),
    {
        MsrWrite { address: 0xC000_0082, value: entry_address }
    }
}

/// The flags cleared on `syscall` (address 0xC000_0084).
pub struct IA32_SFMASK;

impl IA32_SFMASK {
    /// The write that clears `rflags` on `syscall`.
    pub fn set_rflags_mask(rflags: RFlags) -> (r: MsrWrite)
        ensures
            r == (MsrWrite { address: 0xC000_0084, value: rflags.spec_bits() }),
    {
        MsrWrite { address: 0xC000_0084, value: rflags.bits() }
    }
}

/// The timestamp counter deadline (address 0x6E0).
pub struct IA32_TSC_DEADLINE;

impl IA32_TSC_DEADLINE {
    /// The write that sets the deadline.
    pub fn set(value: u64) -> (r: MsrWrite)
        ensures
            r == (MsrWrite { address: 0x6E0, value }),
    {
        MsrWrite { address: 0x6E0, value }
    }
}

} // verus!
