//! x86-64: descriptor tables, processor structures, registers and the
//! per-hardware-thread configuration.
pub mod devices;
pub mod registers;
pub mod structures;

use crate::arch::x86_64::devices::local_apic::{LocalApic, Register};
use crate::arch::x86_64::registers::control::{
    CR0_AM, CR0_NE, CR0_PE, CR0_PG, CR0_WP, CR4_DE, CR4_FSGSBASE, CR4_MCE, CR4_OSFXSR,
    CR4_OSXMMEXCPT, CR4_PAE, CR4_PCIDE, CR4_PGE, CR4_SMAP, CR4_SMEP, CR4_UMIP,
};
use crate::arch::x86_64::registers::rflags::RFLAGS_ALIGNMENT_CHECK;
use vstd::prelude::*;

verus! {

/// The processor features, as CPUID reports them, that decide how a
/// hardware thread is configured. A feature whose CPUID leaf is not
/// available counts as absent.
#[derive(Debug, Clone, Copy, PartialEq, Eq, Structural)]
pub struct ProcessorFeatures {
    pub pge: bool,
    pub de: bool,
    pub fxsave_fxstor: bool,
    pub mce: bool,
    pub pcid: bool,
    pub umip: bool,
    pub fsgsbase: bool,
    pub smep: bool,
    pub smap: bool,
}

/// The register changes that configure a hardware thread: bits to set in
/// CR0, bits to set in CR4, bits to set in RFLAGS.
#[derive(Debug, Clone, Copy, PartialEq, Eq, Structural)]
pub struct HwthreadConfiguration {
    pub cr0_enable: u64,
    pub cr4_enable: u64,
    pub rflags_enable: u64,
}

/// The CR4 bits that a hardware thread with `features` enables.
pub open spec fn spec_cr4_enable(features: ProcessorFeatures) -> u64 {
    (if features.pge { CR4_PGE } else { 0 }) | (if features.de { CR4_DE } else { 0 }) | (
    if features.fxsave_fxstor {
        CR4_OSFXSR | CR4_OSXMMEXCPT
    } else {
        0
    }) | (if features.mce { CR4_MCE } else { 0 }) | (if features.pcid { CR4_PCIDE } else { 0 }) | (
    if features.umip {
        CR4_UMIP
    } else {
        0
    }) | (if features.fsgsbase { CR4_FSGSBASE } else { 0 }) | (if features.smep {
        CR4_SMEP
    } else {
        0
    }) | (if features.smap { CR4_SMAP } else { 0 })
}

/// Whether the control registers are as the bootloader must leave them:
/// paging, protected mode and write protection on in CR0, physical address
/// extension on in CR4, long mode active and no-execute enabled in
/// `IA32_EFER` (bits 10 and 11).
pub open spec fn spec_bootloader_state_valid(cr0: u64, cr4: u64, efer: u64) -> bool {
    &&& cr0 & (CR0_PG | CR0_PE | CR0_WP) == (CR0_PG | CR0_PE | CR0_WP)
    &&& cr4 & CR4_PAE == CR4_PAE
    &&& efer & 0xC00 == 0xC00
}

/// Checks the flags that the bootloader sets (see
/// [`spec_bootloader_state_valid`]).
pub fn bootloader_state_valid(cr0: u64, cr4: u64, efer: u64) -> (r: bool)
    ensures
        r == spec_bootloader_state_valid(cr0, cr4, efer),
{
    cr0 & (CR0_PG | CR0_PE | CR0_WP) == (CR0_PG | CR0_PE | CR0_WP) && cr4 & CR4_PAE == CR4_PAE
        && efer & 0xC00 == 0xC00
}

/// The configuration of a hardware thread with `features`: numeric error
/// reporting and alignment masking in CR0; in CR4 each supported feature of
/// global pages, debugging extensions, `fxsave` with SIMD exceptions,
/// machine checks, process-context identifiers, user-mode instruction
/// prevention, FS/GS base instructions, and supervisor-mode execution and
/// access prevention; alignment checking in RFLAGS.
pub fn configure_hwthread(features: ProcessorFeatures) -> (r: HwthreadConfiguration)
    ensures
        r.cr0_enable == CR0_NE | CR0_AM,
        r.cr4_enable == spec_cr4_enable(features),
        r.rflags_enable == RFLAGS_ALIGNMENT_CHECK,
{
    let pge = if features.pge { CR4_PGE } else { 0u64 };
    let de = if features.de { CR4_DE } else { 0u64 };
    let fxsave = if features.fxsave_fxstor { CR4_OSFXSR | CR4_OSXMMEXCPT } else { 0u64 };
    let mce = if features.mce { CR4_MCE } else { 0u64 };
    let pcid = if features.pcid { CR4_PCIDE } else { 0u64 };
    let umip = if features.umip { CR4_UMIP } else { 0u64 };
    let fsgsbase = if features.fsgsbase { CR4_FSGSBASE } else { 0u64 };
    let smep = if features.smep { CR4_SMEP } else { 0u64 };
    let smap = if features.smap { CR4_SMAP } else { 0u64 };
    let flags = pge | de | fxsave | mce | pcid | umip | fsgsbase | smep | smap;
    HwthreadConfiguration {
        cr0_enable: CR0_NE | CR0_AM,
        cr4_enable: flags,
        rflags_enable: RFLAGS_ALIGNMENT_CHECK,
    }
}

/// The ID of the current core: the ID of its local APIC.
pub fn get_hwthread_id(lapic: &LocalApic) -> (r: u32)
    ensures
        r == lapic.reg(Register::ID),
{
    lapic.get_id()
}

} // verus!
