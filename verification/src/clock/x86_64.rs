//! The x86-64 system clock sources.
use vstd::prelude::*;

verus! {

/// A platform source of wall-clock time.
#[derive(Debug, Clone, Copy, PartialEq, Eq, Structural)]
pub enum ClockSource {
    Hpet,
    Rtc,
}

/// The system clock of the architecture: its source and frequency.
#[derive(Debug, Clone, Copy, PartialEq, Eq, Structural)]
pub struct ArchClock {
    frequency: u64,
    source: ClockSource,
}

} // verus!
