//! Interrupt controller devices.
pub mod local_apic;
pub mod x2apic;
