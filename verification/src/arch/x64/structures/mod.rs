//! Descriptor tables of the earlier x86-64 layer.
pub mod gdt;
pub mod idt;
