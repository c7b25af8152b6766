//! Control registers of the earlier x86-64 layer: CR0 and CR3 values.
use vstd::prelude::*;

verus! {

/// Every bit that a named CR0 flag holds: PE, MP, EM, TS, ET, NE (bits 0 to
/// 5), WP (16), AM (18), NW (29), CD (30), PG (31).
pub const CR0_FLAGS_ALL: u64 = 0xE005_003F;

/// A set of CR0 flags.
#[derive(Debug, Clone, Copy, PartialEq, Eq, Structural)]
pub struct CR0Flags(u64);

impl CR0Flags {
    pub closed spec fn spec_bits(self) -> u64 {
        self.0
    }

    /// The named flags of `bits` (`CR0Flags::from_bits_truncate`).
    pub fn from_bits_truncate(bits: u64) -> (r: Self)
        ensures
            r.spec_bits() == bits & CR0_FLAGS_ALL,
    {
        CR0Flags(bits & CR0_FLAGS_ALL)
    }

    /// The raw bits.
    pub fn bits(self) -> (r: u64)
        ensures
            r == self.spec_bits(),
    {
        self.0
    }
}

/// The CR0 register.
pub struct CR0;

impl CR0 {
    /// The flags that reading CR0 gives for its raw value `raw`
    /// (`CR0::read`).
    pub fn read(raw: u64) -> (r: CR0Flags)
        ensures
            r.spec_bits() == raw & CR0_FLAGS_ALL,
    {
        CR0Flags::from_bits_truncate(raw)
    }

    /// The flags to write to enable `flags` when CR0 holds `current`
    /// (`CR0::enable`).
    pub fn enable(current: CR0Flags, flags: CR0Flags) -> (r: CR0Flags)
        ensures
            r.spec_bits() == current.spec_bits() | flags.spec_bits(),
    {
        CR0Flags(current.0 | flags.0)
    }

    /// The flags to write to disable `flags` when CR0 holds `current`
    /// (`CR0::disable`).
    pub fn disable(current: CR0Flags, flags: CR0Flags) -> (r: CR0Flags)
        ensures
            r.spec_bits() == current.spec_bits() & !flags.spec_bits(),
    {
        CR0Flags(current.0 & !flags.0)
    }
}

/// The page fault linear address register.
pub struct CR2;

/// CR3's page-level write-through (bit 3) and cache-disable (bit 4) flags.
pub const CR3_FLAGS_ALL: u64 = 0x18;

/// The page table root register.
pub struct CR3;

impl CR3 {
    /// The value to write for the root table at `address` with `flags`
    /// (`CR3::write`).
    pub fn write_value(address: u64, flags: u64) -> (r: u64)
        ensures
            r == address | (flags & CR3_FLAGS_ALL),
    {
        address | (flags & CR3_FLAGS_ALL)
    }

    /// The root table's address (the value with its low 12 bits cleared)
    /// and the flags of the CR3 value `value` (`CR3::read`).
    pub fn read_fields(value: u64) -> (r: (u64, u64))
        ensures
            r.0 == value & !0xFFFu64,
            r.1 == value & CR3_FLAGS_ALL,
    {
        (value & !0xFFFu64, value & CR3_FLAGS_ALL)
    }
}

} // verus!
