//! Control registers: the CR0 and CR4 flags the kernel uses, and the CR3
//! layout.
use crate::bitfield::{u64_bits, u64_get_bits};
use vstd::prelude::*;

verus! {

/// CR0.PE: protected mode enable (bit 0).
pub const CR0_PE: u64 = 0x1;
/// CR0.MP: monitor coprocessor (bit 1).
pub const CR0_MP: u64 = 0x2;
/// CR0.EM: emulation (bit 2).
pub const CR0_EM: u64 = 0x4;
/// CR0.TS: task switched (bit 3).
pub const CR0_TS: u64 = 0x8;
/// CR0.ET: extension type (bit 4).
pub const CR0_ET: u64 = 0x10;
/// CR0.NE: numeric error (bit 5).
pub const CR0_NE: u64 = 0x20;
/// CR0.WP: write protect (bit 16).
pub const CR0_WP: u64 = 0x1_0000;
/// CR0.AM: alignment mask (bit 18).
pub const CR0_AM: u64 = 0x4_0000;
/// CR0.NW: not write-through (bit 29).
pub const CR0_NW: u64 = 0x2000_0000;
/// CR0.CD: cache disable (bit 30).
pub const CR0_CD: u64 = 0x4000_0000;
/// CR0.PG: paging (bit 31).
pub const CR0_PG: u64 = 0x8000_0000;

/// CR4.DE: debugging extensions (bit 3).
pub const CR4_DE: u64 = 0x8;
/// CR4.PAE: physical address extension (bit 5).
pub const CR4_PAE: u64 = 0x20;
/// CR4.MCE: machine-check enable (bit 6).
pub const CR4_MCE: u64 = 0x40;
/// CR4.PGE: page global enable (bit 7).
pub const CR4_PGE: u64 = 0x80;
/// CR4.OSFXSR: operating system support for `fxsave`/`fxrstor` (bit 9).
pub const CR4_OSFXSR: u64 = 0x200;
/// CR4.OSXMMEXCPT: unmasked SIMD floating-point exceptions (bit 10).
pub const CR4_OSXMMEXCPT: u64 = 0x400;
/// CR4.UMIP: user-mode instruction prevention (bit 11).
pub const CR4_UMIP: u64 = 0x800;
/// CR4.FSGSBASE: `rdfsbase` and friends (bit 16).
pub const CR4_FSGSBASE: u64 = 0x1_0000;
/// CR4.PCIDE: process-context identifiers (bit 17).
pub const CR4_PCIDE: u64 = 0x2_0000;
/// CR4.SMEP: supervisor-mode execution prevention (bit 20).
pub const CR4_SMEP: u64 = 0x10_0000;
/// CR4.SMAP: supervisor-mode access prevention (bit 21).
pub const CR4_SMAP: u64 = 0x20_0000;

/// The page fault linear address register.
pub struct CR2;

/// The page table root register: the root table's frame address, with the
/// address space ID in its low bits.
pub struct CR3;

impl CR3 {
    /// The value to write to CR3 for the root table at `frame_address` and
    /// the address space `address_space_id` (`CR3::write`).
    pub fn write_value(frame_address: u64, address_space_id: u64) -> (r: u64)
        ensures
            r == frame_address | address_space_id,
    {
        frame_address | address_space_id
    }

    /// Splits the CR3 value `value` into the root table's frame index (bits
    /// `page_bits..physical_address_bits`) and the address space ID (bits
    /// `0..page_bits`) (`CR3::read`).
    pub fn read_fields(value: u64, page_bits: u64, physical_address_bits: u64) -> (r: (u64, u64))
        requires
            0 < page_bits < physical_address_bits <= 64,
        ensures
            r.0 == u64_bits(value, page_bits, physical_address_bits),
            r.1 == u64_bits(value, 0, page_bits),
    {
        let address_space_id = u64_get_bits(value, 0, page_bits as usize);
        let frame_index = u64_get_bits(value, page_bits as usize, physical_address_bits as usize);
        (frame_index, address_space_id)
    }
}

} // verus!
