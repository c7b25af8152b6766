//! The RFLAGS register.
use vstd::prelude::*;

verus! {

/// Bit 1 of RFLAGS, which always reads as one; every named flag except
/// [`RFLAGS_ID`] includes it.
pub const RFLAGS_REQ_RESERVED: u64 = 0x2;

/// Carry flag (bit 0).
pub const RFLAGS_CARRY_FLAG: u64 = 0x3;

/// Parity flag (bit 2).
pub const RFLAGS_PARITY_FLAG: u64 = 0x6;

/// Auxiliary carry flag (bit 4).
pub const RFLAGS_AUXILIARY_CARRY_FLAG: u64 = 0x12;

/// Zero flag (bit 6).
pub const RFLAGS_ZERO_FLAG: u64 = 0x42;

/// Sign flag (bit 7).
pub const RFLAGS_SIGN_FLAG: u64 = 0x82;

/// Single-step mode (bit 8).
pub const RFLAGS_TRAP_FLAG: u64 = 0x102;

/// Interrupts enabled (bit 9).
pub const RFLAGS_INTERRUPT_FLAG: u64 = 0x202;

/// String direction (bit 10).
pub const RFLAGS_DIRECTION_FLAG: u64 = 0x402;

/// Signed overflow (bit 11).
pub const RFLAGS_OVERFLOW_FLAG: u64 = 0x802;

/// Low bit of the I/O privilege level (bit 12).
pub const RFLAGS_IOPL_LOW: u64 = 0x1002;

/// High bit of the I/O privilege level (bit 13).
pub const RFLAGS_IOPL_HIGH: u64 = 0x2002;

/// Nested task (bit 14).
pub const RFLAGS_NESTED_TASK: u64 = 0x4002;

/// Resume flag (bit 16).
pub const RFLAGS_RESUME_FLAG: u64 = 0x10002;

/// Virtual-8086 mode (bit 17).
pub const RFLAGS_VIRTUAL_8086_MODE: u64 = 0x20002;

/// Alignment checking in ring 3 (bit 18).
pub const RFLAGS_ALIGNMENT_CHECK: u64 = 0x40002;

/// Virtual interrupt flag (bit 19).
pub const RFLAGS_VIRTUAL_INTERRUPT: u64 = 0x80002;

/// Virtual interrupt pending (bit 20).
pub const RFLAGS_VIRTUAL_INTERRUPT_PENDING: u64 = 0x100002;

/// CPUID available (bit 21).
pub const RFLAGS_ID: u64 = 0x20_0000;

/// Every bit that some named flag holds.
pub const RFLAGS_ALL: u64 = 0x003F_7FD7;

/// A set of RFLAGS bits, holding only bits of named flags.
#[derive(Debug, Clone, Copy, PartialEq, Eq, Structural)]
pub struct RFlags(u64);

impl RFlags {
    pub closed spec fn spec_bits(self) -> u64 {
        self.0
    }

    /// The flags of `bits` that some named flag holds
    /// (`RFlags::from_bits_truncate`).
    pub fn from_bits_truncate(bits: u64) -> (r: Self)
        ensures
            r.spec_bits() == bits & RFLAGS_ALL,
    {
        RFlags(bits & RFLAGS_ALL)
    }

    /// Interprets the raw RFLAGS value that the platform read from the
    /// register (`RFlags::read`).
    pub fn read(raw: u64) -> (r: Self)
        ensures
            r.spec_bits() == raw & RFLAGS_ALL,
    {
        Self::from_bits_truncate(raw)
    }

    /// The empty set.
    pub fn empty() -> (r: Self)
        ensures
            r.spec_bits() == 0,
    {
        RFlags(0)
    }

    /// Every named flag.
    pub fn all() -> (r: Self)
        ensures
            r.spec_bits() == RFLAGS_ALL,
    {
        RFlags(RFLAGS_ALL)
    }

    /// The interrupt flag, with the always-set bit 1.
    pub fn interrupt_flag() -> (r: Self)
        ensures
            r.spec_bits() == RFLAGS_INTERRUPT_FLAG,
    {
        RFlags(RFLAGS_INTERRUPT_FLAG)
    }

    /// The raw bits.
    pub fn bits(self) -> (r: u64)
        ensures
            r == self.spec_bits(),
    {
        self.0
    }

    /// Whether every bit of `other` is set in `self`.
    pub fn contains(self, other: Self) -> (r: bool)
        ensures
            r == (self.spec_bits() & other.spec_bits() == other.spec_bits()),
    {
        self.0 & other.0 == other.0
    }

    /// The union of the two sets.
    pub fn union(self, other: Self) -> (r: Self)
        ensures
            r.spec_bits() == self.spec_bits() | other.spec_bits(),
    {
        RFlags(self.0 | other.0)
    }

    /// Sets (`value`) or clears every bit of `other` (`RFlags::set`).
    pub fn set(&mut self, other: Self, value: bool)
        ensures
            final(self).spec_bits() == if value {
                old(self).spec_bits() | other.spec_bits()
            } else {
                old(self).spec_bits() & !other.spec_bits()
            },
    {
        if value {
            self.0 = self.0 | other.0;
        } else {
            self.0 = self.0 & !other.0;
        }
    }

    /// The value to write to RFLAGS when the flags of `flags` are to be set
    /// (`set`) or cleared in the current flags `current`
    /// (`RFlags::set_flags`).
    pub fn set_flags(current: Self, flags: Self, set: bool) -> (r: Self)
        ensures
            r.spec_bits() == if set {
                current.spec_bits() | flags.spec_bits()
            } else {
                current.spec_bits() & !flags.spec_bits()
            },
    {
        let mut new_flags = current;
        new_flags.set(flags, set);
        new_flags
    }
}

/// Whether interrupts are enabled, given the raw RFLAGS value: both the
/// interrupt flag (bit 9) and the always-set bit 1 must be set.
pub fn interrupts_enabled(raw_rflags: u64) -> (r: bool)
    ensures
        r == (raw_rflags & RFLAGS_INTERRUPT_FLAG == RFLAGS_INTERRUPT_FLAG),
{
    let flags = RFlags::read(raw_rflags);
    let r = flags.contains(RFlags::interrupt_flag());
    assert((raw_rflags & 0x003F_7FD7u64) & 0x202u64 == 0x202u64 <==> raw_rflags & 0x202u64
        == 0x202u64) by (bit_vector);
    r
}

} // verus!
