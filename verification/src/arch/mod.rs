//! Architecture support.
pub mod x64;
pub mod x86_64;
