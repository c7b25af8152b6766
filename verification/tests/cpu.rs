use pyre_kernel::arch::x86_64::registers::rflags::RFlags;
use pyre_kernel::cpu::contexts::State;
use pyre_kernel::cpu::syscall::{sanitize, LogLevel, SyscallScheme, SyscallVector};
use core::ops::Range;
use pyre_kernel::cpu::timer::x86_64::{
    ArchClock, ClockFeatures, ClockSource, HypervisorInfo, ProcessorFrequencyInfo,
};
use pyre_kernel::cpu::{
    begin_multiprocessing, check_range_contains_stack, keep_checked_ranges, reclaim_candidates,
    reclaim_frames, stack_range, HwthreadEntry, HwthreadInfo, MemoryMapEntry,
    MultiprocessingResponse, BOOTLOADER_RECLAIMABLE,
};

fn response() -> MultiprocessingResponse {
    MultiprocessingResponse {
        bsp_lapic_id: 2,
        cpus: vec![
            HwthreadInfo { id: 0, lapic_id: 0 },
            HwthreadInfo { id: 1, lapic_id: 2 },
            HwthreadInfo { id: 2, lapic_id: 4 },
            HwthreadInfo { id: 3, lapic_id: 6 },
        ],
    }
}

#[test]
fn multiprocessing_starts_every_thread_but_the_bsp() {
    let response = response();
    let start = begin_multiprocessing(Some(&response), true).unwrap();
    assert_eq!(start.hwthread_count, 3);
    let indices: Vec<usize> = start.starts.iter().map(|start| start.index).collect();
    assert_eq!(indices, vec![0, 2, 3]);
    assert!(start.starts.iter().all(|start| start.entry == HwthreadEntry::Multiprocessing));
}

#[test]
fn multiprocessing_disabled_parks_the_threads() {
    let response = response();
    let start = begin_multiprocessing(Some(&response), false).unwrap();
    assert_eq!(start.starts.len(), 3);
    assert!(start.starts.iter().all(|start| start.entry == HwthreadEntry::IdleForever));
}

#[test]
fn multiprocessing_without_response_starts_nothing() {
    assert!(begin_multiprocessing(None, true).is_none());
}

#[test]
fn stack_check_is_about_touching_ranges() {
    let stack = stack_range(0x9000, 0x4000);
    assert_eq!(stack, 0x5000..0x9000);
    assert!(check_range_contains_stack(&(0x4000..0x5000), &stack));
    assert!(check_range_contains_stack(&(0x6000..0x7000), &stack));
    assert!(!check_range_contains_stack(&(0x9001..0xA000), &stack));
    assert!(!check_range_contains_stack(&(0x1000..0x4FFF), &stack));
    // The check does not depend on the order of its arguments.
    assert_eq!(
        check_range_contains_stack(&(0x8000..0x10000), &stack),
        check_range_contains_stack(&stack, &(0x8000..0x10000))
    );
}

#[test]
fn reclaim_candidates_keep_reclaimable_entries_away_from_the_stack() {
    let entries = vec![
        MemoryMapEntry { base: 0x1000, length: 0x2000, entry_type: BOOTLOADER_RECLAIMABLE },
        MemoryMapEntry { base: 0x10000, length: 0x1000, entry_type: 0 },
        MemoryMapEntry { base: 0x20000, length: 0x4000, entry_type: BOOTLOADER_RECLAIMABLE },
        MemoryMapEntry { base: 0x30000, length: 0x1000, entry_type: BOOTLOADER_RECLAIMABLE },
    ];
    let stack = stack_range(0x22000, 0x1000);
    let candidates = reclaim_candidates(&entries, &stack);
    assert_eq!(candidates, vec![0x1000..0x3000, 0x30000..0x31000]);
}

#[test]
fn checked_ranges_keep_those_no_thread_uses() {
    let candidates: Vec<Range<u64>> = vec![0x1000..0x2000, 0x3000..0x4000, 0x5000..0x6000];
    assert_eq!(keep_checked_ranges(&candidates, None), candidates);
    let checks = vec![true, false, true];
    assert_eq!(keep_checked_ranges(&candidates, Some(&checks)), vec![0x3000..0x4000]);
}

#[test]
fn reclaim_frames_steps_through_the_joined_ranges() {
    let ranges: Vec<Range<u64>> = vec![0x1000..0x3000, 0x10000..0x10800, 0x20000..0x22000];
    // 0x2000 + 0x800 + 0x2000 addresses, every 0x1000th taken.
    let frames = reclaim_frames(&ranges, 0x1000);
    assert_eq!(frames, vec![0x1000, 0x2000, 0x10000, 0x20800, 0x21800]);
    assert_eq!(reclaim_frames(&Vec::new(), 0x1000), Vec::<u64>::new());
    assert_eq!(reclaim_frames(&vec![0x10..0x13], 1), vec![0x10, 0x11, 0x12]);
    assert_eq!(reclaim_frames(&vec![0x20..0x10], 4), Vec::<u64>::new());
}

fn features() -> ClockFeatures {
    ClockFeatures {
        has_tsc: true,
        has_tsc_deadline: true,
        has_invariant_tsc: true,
        has_hypervisor: true,
        processor_frequency_info: Some(ProcessorFrequencyInfo {
            bus_frequency: 60000,
            processor_base_frequency: 10,
            processor_max_frequency: 20,
        }),
        hypervisor_info: Some(HypervisorInfo { tsc_frequency: Some(3_000_000), apic_frequency: Some(1_000_000) }),
    }
}

#[test]
fn clock_prefers_the_invariant_timestamp_counter() {
    let clock = ArchClock::configure(features());
    assert_eq!(clock.source(), ClockSource::TimestampCounter);
    assert_eq!(clock.frequency(), 60000 / (10 * 20));
}

#[test]
fn clock_falls_back_to_the_hypervisor_frequency() {
    let mut features = features();
    features.processor_frequency_info = None;
    let clock = ArchClock::configure(features);
    assert_eq!(clock.source(), ClockSource::TimestampCounter);
    assert_eq!(clock.frequency(), 3_000_000);
}

#[test]
fn clock_uses_the_apic_timer_without_a_usable_counter() {
    let mut features = features();
    features.has_invariant_tsc = false;
    let clock = ArchClock::configure(features);
    assert_eq!(clock.source(), ClockSource::LocalApic);
    assert_eq!(clock.frequency(), 1_000_000);
}

#[test]
fn user_state_uses_the_user_code_and_data_selectors() {
    let state = State::user(RFlags::interrupt_flag());
    assert_eq!(state.cs, 0x23);
    assert_eq!(state.ss, 0x1B);
    let kernel = State::kernel(RFlags::interrupt_flag());
    assert_eq!(kernel.cs, 0x08);
    assert_eq!(kernel.ss, 0x10);
}

#[test]
fn sanitize_decodes_log_requests_and_reports_unknown_vectors() {
    assert_eq!(
        sanitize(0x100, Some(SyscallVector::KlogInfo), 0x4000, 12),
        SyscallScheme::Klog { level: LogLevel::Info, str_ptr: 0x4000, str_len: 12 }
    );
    assert_eq!(
        sanitize(0x101, Some(SyscallVector::KlogError), 0x5000, 3),
        SyscallScheme::Klog { level: LogLevel::Error, str_ptr: 0x5000, str_len: 3 }
    );
    assert_eq!(
        sanitize(0x102, Some(SyscallVector::KlogDebug), 1, 2),
        SyscallScheme::Klog { level: LogLevel::Debug, str_ptr: 1, str_len: 2 }
    );
    assert_eq!(
        sanitize(0x103, Some(SyscallVector::KlogTrace), 1, 2),
        SyscallScheme::Klog { level: LogLevel::Trace, str_ptr: 1, str_len: 2 }
    );
    assert_eq!(sanitize(0x999, None, 1, 2), SyscallScheme::UnhandledVector(0x999));
}
