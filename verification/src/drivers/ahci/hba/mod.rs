//! The host bus adapter's per-port structures.
pub mod command;
pub mod port;
