//! Model-specific registers: what the kernel reads from them and the values
//! it writes to them. Each write is described by an [`MsrWrite`] for the
//! platform to carry out with `wrmsr`.
use crate::bitfield::{u64_bit, u64_get_bit, u64_set_bit, u64_with_bit};
use vstd::prelude::*;

verus! {

/// A write of `value` to the model-specific register at `address`.
#[derive(Debug, Clone, Copy, PartialEq, Eq, Structural)]
pub struct MsrWrite {
    pub address: u32,
    pub value: u64,
}

/// The APIC base register.
pub struct IA32_APIC_BASE;

impl IA32_APIC_BASE {
    /// The register's address.
    pub const REGISTER_ADDRESS: u32 = 0x1B;
}

/// The timestamp counter deadline of the local APIC timer.
pub struct IA32_TSC_DEADLINE;

impl IA32_TSC_DEADLINE {
    /// The register's address.
    pub const REGISTER_ADDRESS: u32 = 0x6E0;

    /// Sets the timestamp counter deadline for the local APIC timer (if it
    /// is in deadline mode).
    pub fn set(value: u64) -> (r: MsrWrite)
        ensures
            r == (MsrWrite { address: 0x6E0, value }),
    {
        MsrWrite { address: Self::REGISTER_ADDRESS, value }
    }
}

/// The extended feature enable register.
pub struct IA32_EFER;

impl IA32_EFER {
    /// The register's address.
    pub const REGISTER_ADDRESS: u32 = 0xC000_0080;

    /// The `IA32_EFER.LMA` (long-mode active) bit, bit 10 of `raw`.
    pub fn get_long_mode_active(raw: u64) -> (r: bool)
        ensures
            r == u64_bit(raw, 10),
    {
        u64_get_bit(raw, 10)
    }

    /// The `IA32_EFER.NXE` (no-execute enable) bit, bit 11 of `raw`.
    pub fn get_no_execute_enable(raw: u64) -> (r: bool)
        ensures
            r == u64_bit(raw, 11),
    {
        u64_get_bit(raw, 11)
    }

    /// The write that sets the `IA32_EFER.NXE` bit to `enable` when the
    /// register holds `raw`; the other bits are kept.
    pub fn set_no_execute_enable(raw: u64, enable: bool) -> (r: MsrWrite)
        ensures
            r == (MsrWrite { address: 0xC000_0080, value: u64_with_bit(raw, 11, enable) }),
    {
        MsrWrite { address: Self::REGISTER_ADDRESS, value: u64_set_bit(raw, 11, enable) }
    }
}

/// Holds the address of the hardware thread's local state.
pub struct IA32_KERNEL_GS_BASE;

impl IA32_KERNEL_GS_BASE {
    /// The register's address.
    pub const REGISTER_ADDRESS: u32 = 0xC000_0102;

    /// The local state address held in `raw`, if it is not zero.
    pub fn get_local_state_ptr(raw: u64) -> (r: Option<u64>)
        ensures
            raw == 0 <==> r is None,
            r matches Some(address) ==> address == raw,
    {
        if raw == 0 {
            None
        } else {
            Some(raw)
        }
    }

    /// The write that sets the local state address.
    pub fn set_local_state_ptr(address: u64) -> (r: MsrWrite)
        requires
            address != 0,
        ensures
            r == (MsrWrite { address: 0xC000_0102, value: address }),
    {
        MsrWrite { address: Self::REGISTER_ADDRESS, value: address }
    }
}

/// The processor ID returned by `rdtscp` and `rdpid`.
pub struct IA32_TSC_AUX;

impl IA32_TSC_AUX {
    /// The register's address.
    pub const REGISTER_ADDRESS: u32 = 0xC000_0103;

    /// The write that sets the processor ID.
    pub fn set(processor_id: u32) -> (r: MsrWrite)
        ensures
            r == (MsrWrite { address: 0xC000_0103, value: processor_id as u64 }),
    {
        MsrWrite { address: Self::REGISTER_ADDRESS, value: processor_id as u64 }
    }
}

} // verus!
