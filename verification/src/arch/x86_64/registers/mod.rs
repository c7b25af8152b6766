//! Processor registers.
pub mod control;
pub mod model_specific;
pub mod rflags;

pub use rflags::RFlags;

use vstd::prelude::*;

verus! {

/// The stack pointer register.
pub struct RSP;

} // verus!
