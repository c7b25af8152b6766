//! Interrupt state of the current hardware thread.
use crate::arch::x86_64::registers::rflags::{interrupts_enabled, RFLAGS_INTERRUPT_FLAG};
use vstd::prelude::*;

verus! {

/// Whether interrupts are enabled, given the raw RFLAGS value that the
/// platform read: the interrupt flag (bit 9) and the always-set bit 1 are
/// both set.
pub fn is_enabled(raw_rflags: u64) -> (r: bool)
    ensures
        r == (raw_rflags & RFLAGS_INTERRUPT_FLAG == RFLAGS_INTERRUPT_FLAG),
{
    interrupts_enabled(raw_rflags)
}

} // verus!
