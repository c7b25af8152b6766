use pyre_kernel::arch::x64::instructions::{RdRand, RdRandError, RDRAND_RETRY_LIMIT};
use pyre_kernel::arch::x64::structures::idt::{
    page_fault_exception, ExceptionKind, PageFaultReason,
};
use pyre_kernel::arch::x86_64::registers::rflags::{interrupts_enabled, RFlags, RFLAGS_ALL};
use pyre_kernel::arch::x86_64::structures::idt::error_codes::{
    DescriptorTableKind, PageFaultErrorCode, SelectorErrorCode,
};
use pyre_kernel::arch::x86_64::structures::idt::isf::InterruptStackFrame;
use pyre_kernel::cpu::interrupts::is_enabled;
use pyre_kernel::cpu::setup::{setup, SetupFeatures};

#[test]
fn rflags_truncation_keeps_defined_flags() {
    assert_eq!(RFlags::from_bits_truncate(u64::MAX).bits(), RFLAGS_ALL);
    assert_eq!(RFlags::interrupt_flag().bits(), 0x202);
    assert!(RFlags::all().contains(RFlags::interrupt_flag()));
    assert!(!RFlags::empty().contains(RFlags::interrupt_flag()));
    assert!(interrupts_enabled(0x246));
    assert!(!interrupts_enabled(0x046));
    assert!(is_enabled(0x202));
    assert!(!is_enabled(0x2));
}

#[test]
fn rdrand_retries_then_fails_hard() {
    assert_eq!(RdRand::begin(false).unwrap_err(), RdRandError::NotSupported);
    let mut state = RdRand::begin(true).unwrap();
    for _ in 0..RDRAND_RETRY_LIMIT - 1 {
        assert!(state.next(0, 0x3).is_none());
    }
    assert!(matches!(state.next(0, 0x3), Some(Err(RdRandError::HardFailure))));
    let mut state = RdRand::begin(true).unwrap();
    // The carry flag alone, without the always-set bit 1, is not accepted.
    assert!(state.next(5, 0x1).is_none());
    assert!(matches!(state.next(5, 0x3), Some(Ok(5))));
}

#[test]
fn setup_plan_for_a_full_featured_processor() {
    let features = SetupFeatures {
        de: true,
        fxsave_fxstor: true,
        mce: true,
        pcid: false,
        umip: false,
        fsgsbase: true,
        smep: true,
        smap: true,
        execute_disable: true,
    };
    let plan = setup(features, 0x500, 0xFFFF_FFFF_8000_1000);
    assert_eq!(plan.cr0, 0x8001_0033);
    assert_eq!(plan.cr4, 0x20 | 0x80 | 0x400 | 0x8 | 0x200 | 0x40 | 0x1_0000 | 0x10_0000 | 0x20_0000);
    let no_execute = plan.no_execute.unwrap();
    assert_eq!(no_execute.address, 0xC000_0080);
    assert_eq!(no_execute.value, 0x500 | (1 << 11));
    let addresses: Vec<u32> = plan.syscall_writes.iter().map(|write| write.address).collect();
    assert_eq!(addresses, vec![0xC000_0081, 0xC000_0082, 0xC000_0084, 0xC000_0080]);
    assert_eq!(plan.syscall_writes[1].value, 0xFFFF_FFFF_8000_1000);
    assert_eq!(plan.syscall_writes[2].value, RFLAGS_ALL);
    assert_eq!(plan.syscall_writes[3].value, 0x500 | (1 << 11) | 1);
}

#[test]
fn setup_plan_without_execute_disable() {
    let features = SetupFeatures {
        de: false,
        fxsave_fxstor: false,
        mce: false,
        pcid: false,
        umip: false,
        fsgsbase: false,
        smep: false,
        smap: false,
        execute_disable: false,
    };
    let plan = setup(features, 0x500, 0x1000);
    assert!(plan.no_execute.is_none());
    assert_eq!(plan.cr4, 0x20 | 0x80 | 0x400);
    assert_eq!(plan.syscall_writes[3].value, 0x501);
}

#[test]
fn selector_error_code_fields() {
    assert!(SelectorErrorCode::new(0x1_0000).is_none());
    let code = SelectorErrorCode::new(1 | (1 << 1) | (5 << 3)).unwrap();
    assert!(code.is_external());
    assert_eq!(code.table_kind(), DescriptorTableKind::IDT);
    assert_eq!(code.table_index(), 5);
    assert!(!code.is_null());
    let ldt = SelectorErrorCode::new(0b100).unwrap();
    assert_eq!(ldt.table_kind(), DescriptorTableKind::LDT);
    assert!(SelectorErrorCode::new(0).unwrap().is_null());
}

#[test]
fn interrupt_stack_frames_for_kernel_and_user() {
    let kernel = InterruptStackFrame::new_kernel(0x1000, 0x2000);
    assert_eq!(kernel.get_code_segment().as_u16(), 0x08);
    assert_eq!(kernel.get_stack_segment().as_u16(), 0x10);
    assert_eq!(kernel.get_cpu_flags().bits(), 0x202);
    let user = InterruptStackFrame::new_user(0x4000, 0x5000);
    assert_eq!(user.get_code_segment().as_u16(), 0x23);
    assert_eq!(user.get_stack_segment().as_u16(), 0x1B);
    assert_eq!(user.get_instruction_pointer(), 0x4000);
    assert_eq!(user.get_stack_pointer(), 0x5000);
}

#[test]
fn page_faults_become_exceptions() {
    let frame = InterruptStackFrame::new_kernel(0x1000, 0x2000);
    let protection = page_fault_exception(
        &frame,
        PageFaultErrorCode::from_bits_truncate(PageFaultErrorCode::PROTECTION_VIOLATION | 0x2),
        0xDEAD_0000,
    );
    assert_eq!(
        protection.kind,
        ExceptionKind::PageFault { ptr: 0xDEAD_0000, reason: PageFaultReason::BadPermissions }
    );
    assert_eq!(protection.instruction_pointer, 0x1000);
    assert_eq!(protection.stack_pointer, 0x2000);
    let missing = page_fault_exception(&frame, PageFaultErrorCode::from_bits_truncate(0x2), 0x10);
    assert_eq!(missing.kind, ExceptionKind::PageFault { ptr: 0x10, reason: PageFaultReason::NotMapped });
}
