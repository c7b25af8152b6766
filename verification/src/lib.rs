//! Verified core of the Pyre kernel's x86-64 support: descriptor tables,
//! interrupt controller register programming, CPU state records, the
//! decisions the kernel takes while bringing hardware threads up, the boot
//! command line, and the register layouts and protocols of its storage and
//! display drivers.
//!
//! Everything here computes on plain values. Reading and writing the
//! processor's registers, model-specific registers and device memory is done
//! by the platform layer, which hands the values it read to this library and
//! performs the register writes that the library's models record.
#![allow(non_camel_case_types)]

use vstd::prelude::*;

pub mod arch;
pub mod bitfield;
pub mod boot;
pub mod clock;
pub mod cpu;
pub mod drivers;
