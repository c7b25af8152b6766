//! The system clock and the platform sources it can run on.
pub mod x86_64;
