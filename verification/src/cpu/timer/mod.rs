//! The per-thread timer: which counter drives it and at what frequency.
pub mod x86_64;
