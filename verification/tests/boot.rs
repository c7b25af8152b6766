use pyre_kernel::boot::params::{parameters_from, parse_cmdline, parse_parameters, Parameters};
use pyre_kernel::boot::{
    get_kernel_file, get_kernel_modules, get_memory_map, get_rsdp_address, reclaim_boot_memory, BootMemory,
};
use pyre_kernel::cpu::{MemoryMapEntry, BOOTLOADER_RECLAIMABLE};

#[test]
fn default_parameters() {
    let parameters = Parameters::default();
    assert!(parameters.smp);
    assert!(!parameters.symbolinfo);
    assert!(!parameters.low_memory);
    assert_eq!(parse_cmdline(b""), parameters);
}

#[test]
fn cmdline_pieces_set_their_parameters() {
    let parameters = parse_cmdline(b"smp:off symbolinfo lomem");
    assert!(!parameters.smp);
    assert!(parameters.symbolinfo);
    assert!(parameters.low_memory);
}

#[test]
fn later_pieces_override_earlier_ones() {
    assert!(parse_cmdline(b"smp:off smp:on").smp);
    assert!(!parse_cmdline(b"smp:on smp:off").smp);
}

#[test]
fn unknown_and_empty_pieces_are_ignored() {
    let parameters = parse_cmdline(b"  smp:maybe symbolinfo:yes lomemx smp:off:x quiet ");
    assert_eq!(parameters, Parameters::default());
    let parameters = parse_cmdline(b"smp:off  lomem");
    assert!(!parameters.smp);
    assert!(parameters.low_memory);
}

#[test]
fn rsdp_address_in_either_half() {
    let hhdm = 0xFFFF_8000_0000_0000u64;
    let state = BootMemory::new();
    assert_eq!(get_rsdp_address(&state, Some(0xE_0000), hhdm), Some(0xE_0000));
    assert_eq!(get_rsdp_address(&state, Some(hhdm + 0xE_0000), hhdm), Some(0xE_0000));
    assert_eq!(get_rsdp_address(&state, None, hhdm), None);
}

#[test]
fn boot_memory_is_reclaimed_frame_by_frame_per_entry() {
    let entries = vec![
        MemoryMapEntry { base: 0x1000, length: 0x1800, entry_type: BOOTLOADER_RECLAIMABLE },
        MemoryMapEntry { base: 0x8000, length: 0x1000, entry_type: 0 },
        MemoryMapEntry { base: 0x10000, length: 0x2000, entry_type: BOOTLOADER_RECLAIMABLE },
    ];
    let mut state = BootMemory::new();
    assert!(!state.is_reclaimed());
    assert_eq!(get_memory_map(&state, Some(entries.clone())), Some(entries.clone()));
    assert_eq!(reclaim_boot_memory(&mut state, &entries), vec![0x1000, 0x2000, 0x10000, 0x11000]);
    assert!(state.is_reclaimed());
}

#[test]
fn bootloader_answers_are_gone_after_reclaiming() {
    let entries = vec![MemoryMapEntry { base: 0x1000, length: 0x1000, entry_type: BOOTLOADER_RECLAIMABLE }];
    let mut state = BootMemory::new();
    reclaim_boot_memory(&mut state, &entries);
    assert_eq!(get_memory_map(&state, Some(entries.clone())), None);
    assert_eq!(get_rsdp_address(&state, Some(0xE_0000), 0xFFFF_8000_0000_0000), None);
}

#[test]
fn cmdline_that_is_not_utf8_gives_the_defaults() {
    assert_eq!(parse_cmdline(b"smp:off lomem \xFF\xFE"), Parameters::default());
    assert!(!parse_parameters(b"smp:off lomem \xFF\xFE").smp);
    assert_eq!(parameters_from(b"smp:off", false), Parameters::default());
    assert!(!parameters_from(b"smp:off", true).smp);
    assert!(!parse_cmdline("smp:off \u{e9}".as_bytes()).smp);
}

#[test]
fn kernel_file_and_modules_only_until_reclaimed() {
    let entries = vec![MemoryMapEntry { base: 0x1000, length: 0x1000, entry_type: BOOTLOADER_RECLAIMABLE }];
    let mut state = BootMemory::new();
    assert_eq!(get_kernel_file(&state, Some("kernel")), Some("kernel"));
    assert_eq!(get_kernel_modules(&state, Some(vec![1u8, 2])), Some(vec![1u8, 2]));
    reclaim_boot_memory(&mut state, &entries);
    assert_eq!(get_kernel_file(&state, Some("kernel")), None);
    assert_eq!(get_kernel_modules(&state, Some(vec![1u8, 2])), None);
}
