//! Configuration of a hardware thread by the earlier x86-64 layer, and the
//! decoding of its system calls.
use crate::arch::x64::registers::msr::{
    star_value, IA32_EFER, IA32_LSTAR, IA32_SFMASK, IA32_STAR,
};
use crate::arch::x64::structures::gdt::{kernel_code_selector, kernel_data_selector};
use crate::arch::x86_64::registers::model_specific::MsrWrite;
use crate::arch::x86_64::registers::control::{
    CR0_ET, CR0_MP, CR0_NE, CR0_PE, CR0_PG, CR0_WP, CR4_DE, CR4_FSGSBASE, CR4_MCE, CR4_OSFXSR,
    CR4_OSXMMEXCPT, CR4_PAE, CR4_PCIDE, CR4_PGE, CR4_SMAP, CR4_SMEP, CR4_UMIP,
};
use crate::arch::x86_64::registers::rflags::RFLAGS_ALL;
use crate::arch::x86_64::registers::RFlags;
use crate::arch::x86_64::structures::gdt::SegmentSelector;
use crate::bitfield::u64_with_bit;
use crate::cpu::syscall::LogLevel;
use vstd::prelude::*;

verus! {

/// The processor features, as CPUID reports them, that decide the
/// configuration.
#[derive(Debug, Clone, Copy, PartialEq, Eq, Structural)]
pub struct SetupFeatures {
    pub de: bool,
    pub fxsave_fxstor: bool,
    pub mce: bool,
    pub pcid: bool,
    pub umip: bool,
    pub fsgsbase: bool,
    pub smep: bool,
    pub smap: bool,
    pub execute_disable: bool,
}

/// The register values that configure the hardware thread: CR0, CR4, and
/// the model-specific register writes, in order. The processor tables are
/// loaded between the no-execute write (when there is one) and the system
/// call writes.
#[derive(Debug)]
pub struct SetupPlan {
    pub cr0: u64,
    pub cr4: u64,
    pub no_execute: Option<MsrWrite>,
    pub syscall_writes: Vec<MsrWrite>,
}

/// The CR0 value: protected mode, coprocessor monitoring, extension type,
/// numeric errors, write protection and paging.
pub open spec fn setup_cr0() -> u64 {
    CR0_PE | CR0_MP | CR0_ET | CR0_NE | CR0_WP | CR0_PG
}

/// The CR4 value for `features`: physical address extension, global pages
/// and SIMD exceptions, with each supported feature of debugging extensions,
/// `fxsave`, machine checks, process-context identifiers, user-mode
/// instruction prevention, FS/GS base instructions, and supervisor-mode
/// execution and access prevention.
pub open spec fn setup_cr4(features: SetupFeatures) -> u64 {
    CR4_PAE | CR4_PGE | CR4_OSXMMEXCPT | (if features.de { CR4_DE } else { 0 }) | (
    if features.fxsave_fxstor {
        CR4_OSFXSR
    } else {
        0
    }) | (if features.mce { CR4_MCE } else { 0 }) | (if features.pcid { CR4_PCIDE } else { 0 }) | (
    if features.umip {
        CR4_UMIP
    } else {
        0
    }) | (if features.fsgsbase { CR4_FSGSBASE } else { 0 }) | (if features.smep {
        CR4_SMEP
    } else {
        0
    }) | (if features.smap { CR4_SMAP } else { 0 })
}

/// Each feature bit of a CR4 value made of the always-set bits (physical
/// address extension, global pages, SIMD exceptions) and one term per
/// feature, each its bit or nothing, is set exactly when its term is; no
/// other bit is set.
proof fn lemma_cr4_bits(de: u64, fx: u64, mce: u64, pcid: u64, umip: u64, fsgs: u64, smep: u64, smap: u64)
    requires
        de == 0 || de == 0x8,
        fx == 0 || fx == 0x200,
        mce == 0 || mce == 0x40,
        pcid == 0 || pcid == 0x2_0000,
        umip == 0 || umip == 0x800,
        fsgs == 0 || fsgs == 0x1_0000,
        smep == 0 || smep == 0x10_0000,
        smap == 0 || smap == 0x20_0000,
    ensures
        ({
            let cr4 = 0x20u64 | 0x80u64 | 0x400u64 | de | fx | mce | pcid | umip | fsgs | smep | smap;
            &&& cr4 & 0x20 != 0
            &&& cr4 & 0x80 != 0
            &&& cr4 & 0x400 != 0
            &&& (cr4 & 0x8 != 0) == (de != 0)
            &&& (cr4 & 0x200 != 0) == (fx != 0)
            &&& (cr4 & 0x40 != 0) == (mce != 0)
            &&& (cr4 & 0x2_0000 != 0) == (pcid != 0)
            &&& (cr4 & 0x800 != 0) == (umip != 0)
            &&& (cr4 & 0x1_0000 != 0) == (fsgs != 0)
            &&& (cr4 & 0x10_0000 != 0) == (smep != 0)
            &&& (cr4 & 0x20_0000 != 0) == (smap != 0)
            &&& cr4 & !0x33_0EE8u64 == 0
        }),
{
    assert({
        let cr4 = 0x20u64 | 0x80u64 | 0x400u64 | de | fx | mce | pcid | umip | fsgs | smep | smap;
        &&& cr4 & 0x20 != 0
        &&& cr4 & 0x80 != 0
        &&& cr4 & 0x400 != 0
        &&& (cr4 & 0x8 != 0) == (de != 0)
        &&& (cr4 & 0x200 != 0) == (fx != 0)
        &&& (cr4 & 0x40 != 0) == (mce != 0)
        &&& (cr4 & 0x2_0000 != 0) == (pcid != 0)
        &&& (cr4 & 0x800 != 0) == (umip != 0)
        &&& (cr4 & 0x1_0000 != 0) == (fsgs != 0)
        &&& (cr4 & 0x10_0000 != 0) == (smep != 0)
        &&& (cr4 & 0x20_0000 != 0) == (smap != 0)
        &&& cr4 & !0x33_0EE8u64 == 0
    }) by (bit_vector)
        requires
            de == 0 || de == 0x8,
            fx == 0 || fx == 0x200,
            mce == 0 || mce == 0x40,
            pcid == 0 || pcid == 0x2_0000,
            umip == 0 || umip == 0x800,
            fsgs == 0 || fsgs == 0x1_0000,
            smep == 0 || smep == 0x10_0000,
            smap == 0 || smap == 0x20_0000,
    ;
}

/// The planned CR4 sets physical address extension (bit 5), global pages
/// (bit 7) and SIMD exceptions (bit 10) always, and each of debugging
/// extensions (bit 3), `fxsave` (bit 9), machine checks (bit 6),
/// process-context identifiers (bit 17), user-mode instruction prevention
/// (bit 11), FS/GS base instructions (bit 16), supervisor-mode execution
/// prevention (bit 20) and access prevention (bit 21) exactly when the
/// processor supports that feature, whatever the others are; it sets no
/// other bit.
pub proof fn lemma_setup_cr4_follows_features(features: SetupFeatures)
    ensures
        setup_cr4(features) & 0x20 != 0,
        setup_cr4(features) & 0x80 != 0,
        setup_cr4(features) & 0x400 != 0,
        (setup_cr4(features) & 0x8 != 0) == features.de,
        (setup_cr4(features) & 0x200 != 0) == features.fxsave_fxstor,
        (setup_cr4(features) & 0x40 != 0) == features.mce,
        (setup_cr4(features) & 0x2_0000 != 0) == features.pcid,
        (setup_cr4(features) & 0x800 != 0) == features.umip,
        (setup_cr4(features) & 0x1_0000 != 0) == features.fsgsbase,
        (setup_cr4(features) & 0x10_0000 != 0) == features.smep,
        (setup_cr4(features) & 0x20_0000 != 0) == features.smap,
        setup_cr4(features) & !0x33_0EE8u64 == 0,
{
    lemma_cr4_bits(
        if features.de { CR4_DE } else { 0 },
        if features.fxsave_fxstor { CR4_OSFXSR } else { 0 },
        if features.mce { CR4_MCE } else { 0 },
        if features.pcid { CR4_PCIDE } else { 0 },
        if features.umip { CR4_UMIP } else { 0 },
        if features.fsgsbase { CR4_FSGSBASE } else { 0 },
        if features.smep { CR4_SMEP } else { 0 },
        if features.smap { CR4_SMAP } else { 0 },
    );
}

/// The hardware thread configuration for `features`, when `IA32_EFER`
/// holds `efer` and the system call entry lies at `syscall_entry`: the
/// control register values; the no-execute enable write when the processor
/// supports it; then the `syscall` selectors (kernel code and data), entry
/// point and flag mask (every flag), and the `syscall` enable bit, set in
/// `IA32_EFER` as it is after the no-execute write.
pub fn setup(features: SetupFeatures, efer: u64, syscall_entry: u64) -> (r: SetupPlan)
    ensures
        r.cr0 == setup_cr0(),
        r.cr4 == setup_cr4(features),
        (r.cr4 & 0x2_0000 != 0) == features.pcid,
        (r.cr4 & 0x800 != 0) == features.umip,
        (r.cr4 & 0x8 != 0) == features.de,
        (r.cr4 & 0x200 != 0) == features.fxsave_fxstor,
        (r.cr4 & 0x40 != 0) == features.mce,
        (r.cr4 & 0x1_0000 != 0) == features.fsgsbase,
        (r.cr4 & 0x10_0000 != 0) == features.smep,
        (r.cr4 & 0x20_0000 != 0) == features.smap,
        r.cr4 & 0x20 != 0,
        r.cr4 & 0x80 != 0,
        r.cr4 & 0x400 != 0,
        r.cr4 & !0x33_0EE8u64 == 0,
        features.execute_disable ==> r.no_execute == Some(
            MsrWrite { address: 0xC000_0080, value: u64_with_bit(efer, 11, true) },
        ),
        !features.execute_disable ==> r.no_execute is None,
        r.syscall_writes@ == seq![
            MsrWrite {
                address: 0xC000_0081,
                value: star_value(
                    SegmentSelector::spec_raw(0x8),
                    SegmentSelector::spec_raw(0x10),
                ),
            },
            MsrWrite { address: 0xC000_0082, value: syscall_entry },
            MsrWrite { address: 0xC000_0084, value: RFLAGS_ALL },
            MsrWrite {
                address: 0xC000_0080,
                value: u64_with_bit(
                    if features.execute_disable { u64_with_bit(efer, 11, true) } else { efer },
                    0,
                    true,
                ),
            },
        ],
{
    let cr0 = CR0_PE | CR0_MP | CR0_ET | CR0_NE | CR0_WP | CR0_PG;
    let de = if features.de { CR4_DE } else { 0u64 };
    let fxsave = if features.fxsave_fxstor { CR4_OSFXSR } else { 0u64 };
    let mce = if features.mce { CR4_MCE } else { 0u64 };
    let pcid = if features.pcid { CR4_PCIDE } else { 0u64 };
    let umip = if features.umip { CR4_UMIP } else { 0u64 };
    let fsgsbase = if features.fsgsbase { CR4_FSGSBASE } else { 0u64 };
    let smep = if features.smep { CR4_SMEP } else { 0u64 };
    let smap = if features.smap { CR4_SMAP } else { 0u64 };
    let cr4 = CR4_PAE | CR4_PGE | CR4_OSXMMEXCPT | de | fxsave | mce | pcid | umip | fsgsbase | smep
        | smap;
    proof {
        lemma_cr4_bits(de, fxsave, mce, pcid, umip, fsgsbase, smep, smap);
    }
    let (no_execute, efer) = if features.execute_disable {
        let write = IA32_EFER::set_nxe(efer, true);
        (Some(write), write.value)
    } else {
        (None, efer)
    };
    let kcode = kernel_code_selector();
    let kdata = kernel_data_selector();
    proof {
        lemma_kernel_selectors_raw(kcode, kdata);
    }
    let mut syscall_writes = Vec::new();
    syscall_writes.push(IA32_STAR::set_selectors(kcode, kdata));
    syscall_writes.push(IA32_LSTAR::set_syscall(syscall_entry));
    syscall_writes.push(IA32_SFMASK::set_rflags_mask(RFlags::all()));
    syscall_writes.push(IA32_EFER::set_sce(efer, true));
    SetupPlan { cr0, cr4, no_execute, syscall_writes }
}

/// The kernel selectors are the raw selectors 0x8 and 0x10.
proof fn lemma_kernel_selectors_raw(kcode: SegmentSelector, kdata: SegmentSelector)
    requires
        kcode.view_bits() == crate::arch::x86_64::structures::gdt::selector_bits(
            1,
            crate::arch::x86_64::structures::gdt::PrivilegeLevel::Ring0,
        ),
        kdata.view_bits() == crate::arch::x86_64::structures::gdt::selector_bits(
            2,
            crate::arch::x86_64::structures::gdt::PrivilegeLevel::Ring0,
        ),
    ensures
        kcode == SegmentSelector::spec_raw(0x8),
        kdata == SegmentSelector::spec_raw(0x10),
{
    assert((1u16 << 3u16) | 0u16 == 0x8u16 && (2u16 << 3u16) | 0u16 == 0x10u16) by (bit_vector);
    SegmentSelector::lemma_raw(kcode);
    SegmentSelector::lemma_raw(kdata);
}

/// A system call that the kernel carries out.
#[derive(Debug, Clone, Copy, PartialEq, Eq, Structural)]
pub enum Syscall {
    /// Log the C string at `cstr_ptr` at `level`.
    Log { level: LogLevel, cstr_ptr: u64 },
}

/// Where the calling task continues after a system call.
#[derive(Debug, Clone, Copy, PartialEq, Eq, Structural)]
pub struct ControlContext {
    pub ip: u64,
    pub sp: u64,
}

/// The log level numbered `value` (1 error, 2 warning, 3 information, 4
/// debug).
pub open spec fn spec_log_level(value: u64) -> Option<LogLevel> {
    if value == 1 {
        Some(LogLevel::Error)
    } else if value == 2 {
        Some(LogLevel::Warn)
    } else if value == 3 {
        Some(LogLevel::Info)
    } else if value == 4 {
        Some(LogLevel::Debug)
    } else {
        None
    }
}

/// Decodes a system call: vector 0x100 logs the C string at `arg1` at the
/// level numbered `arg0`; an unknown level or vector gives no system call.
/// The task continues at `ret_ip` on the stack `ret_sp`.
pub fn syscall_handler(vector: u64, arg0: u64, arg1: u64, ret_ip: u64, ret_sp: u64) -> (r: (
    Option<Syscall>,
    ControlContext,
))
    ensures
        r.1 == (ControlContext { ip: ret_ip, sp: ret_sp }),
        vector == 0x100 && spec_log_level(arg0) is Some ==> r.0 == Some(
            Syscall::Log { level: spec_log_level(arg0)->0, cstr_ptr: arg1 },
        ),
        vector != 0x100 || spec_log_level(arg0) is None ==> r.0 is None,
{
    let syscall = if vector == 0x100 {
        let log_level = if arg0 == 1 {
            Some(LogLevel::Error)
        } else if arg0 == 2 {
            Some(LogLevel::Warn)
        } else if arg0 == 3 {
            Some(LogLevel::Info)
        } else if arg0 == 4 {
            Some(LogLevel::Debug)
        } else {
            None
        };
        match log_level {
            Some(level) => Some(Syscall::Log { level, cstr_ptr: arg1 }),
            None => None,
        }
    } else {
        None
    };
    (syscall, ControlContext { ip: ret_ip, sp: ret_sp })
}

} // verus!
