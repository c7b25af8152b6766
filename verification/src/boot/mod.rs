//! What the bootloader hands the kernel: the command line's parameters, the
//! memory it may take back, and the ACPI root pointer.
pub mod params;

use crate::cpu::{
    entry_range, range_addresses, reclaim_frames, reclaimable_entries_fit, step_by,
    MemoryMapEntry, BOOTLOADER_RECLAIMABLE,
};
use core::ops::Range;
use vstd::prelude::*;

verus! {

/// The size of the frames that reclaimed boot memory is handed back in.
pub const BOOT_FRAME_SIZE: u64 = 0x1000;

/// `pointer` less `hhdm_address`, wrapping around below zero.
pub open spec fn wrapped_offset(pointer: u64, hhdm_address: u64) -> u64 {
    if pointer >= hhdm_address {
        (pointer - hhdm_address) as u64
    } else {
        (pointer - hhdm_address + 0x1_0000_0000_0000_0000) as u64
    }
}

/// Whether the bootloader's memory has been handed back. Until it has, the
/// bootloader's answers can be read; from then on they may have been
/// overwritten, and every query for them answers `None`.
pub struct BootMemory {
    reclaimed: bool,
}

impl BootMemory {
    /// Whether the bootloader's memory has been handed back.
    pub closed spec fn spec_reclaimed(&self) -> bool {
        self.reclaimed
    }

    /// The state at boot: nothing handed back yet.
    pub fn new() -> (r: Self)
        ensures
            !r.spec_reclaimed(),
    {
        BootMemory { reclaimed: false }
    }

    /// Whether the bootloader's memory has been handed back.
    pub fn is_reclaimed(&self) -> (r: bool)
        ensures
            r == self.spec_reclaimed(),
    {
        self.reclaimed
    }
}

/// What a query for a bootloader answer gives: the answer, or `None` once
/// the bootloader's memory has been handed back.
pub open spec fn boot_only<T>(state: &BootMemory, answer: Option<T>) -> Option<T> {
    if state.spec_reclaimed() {
        None
    } else {
        answer
    }
}

/// The bootloader's memory map, given its answer to the memory map request
/// (`None` where it gave none), while the bootloader's memory is still
/// there.
pub fn get_memory_map(state: &BootMemory, response: Option<Vec<MemoryMapEntry>>) -> (r: Option<
    Vec<MemoryMapEntry>,
>)
    ensures
        r == boot_only(state, response),
{
    if state.is_reclaimed() {
        None
    } else {
        response
    }
}

/// The kernel's file as the bootloader describes it, given its answer to
/// the kernel file request (`None` where it gave none), while the
/// bootloader's memory is still there.
pub fn get_kernel_file<F>(state: &BootMemory, response: Option<F>) -> (r: Option<F>)
    ensures
        r == boot_only(state, response),
{
    if state.is_reclaimed() {
        None
    } else {
        response
    }
}

/// The modules the bootloader loaded, given its answer to the module
/// request (`None` where it gave none), while the bootloader's memory is
/// still there.
pub fn get_kernel_modules<M>(state: &BootMemory, response: Option<M>) -> (r: Option<M>)
    ensures
        r == boot_only(state, response),
{
    if state.is_reclaimed() {
        None
    } else {
        response
    }
}

/// The physical address of the ACPI root pointer that the bootloader gave
/// as `pointer`, which it may have mapped in the lower half or in the
/// higher-half direct map at `hhdm_address`: the smaller of the pointer and
/// the pointer less the map's base (wrapping).
pub open spec fn rsdp_physical_address(pointer: u64, hhdm_address: u64) -> u64 {
    if pointer <= wrapped_offset(pointer, hhdm_address) {
        pointer
    } else {
        wrapped_offset(pointer, hhdm_address)
    }
}

/// The physical address of the ACPI root pointer, given the pointer of the
/// bootloader's answer to the root pointer request (`None` where it gave
/// none) and the base of the higher-half direct map, while the
/// bootloader's memory is still there.
pub fn get_rsdp_address(state: &BootMemory, pointer: Option<u64>, hhdm_address: u64) -> (r:
    Option<u64>)
    ensures
        r == boot_only(
            state,
            match pointer {
                Some(pointer) => Some(rsdp_physical_address(pointer, hhdm_address)),
                None => None,
            },
        ),
{
    if state.is_reclaimed() {
        return None;
    }
    match pointer {
        Some(pointer) => {
            let offset = pointer.wrapping_sub(hhdm_address);
            if pointer <= offset {
                Some(pointer)
            } else {
                Some(offset)
            }
        },
        None => None,
    }
}

/// The frames of bootloader-reclaimable memory, entry by entry in map
/// order: each entry's addresses from its base, in steps of a frame.
pub open spec fn boot_reclaim_frames(entries: Seq<MemoryMapEntry>) -> Seq<u64>
    decreases entries.len(),
{
    if entries.len() == 0 {
        Seq::empty()
    } else {
        let earlier = boot_reclaim_frames(entries.drop_last());
        let entry = entries.last();
        if entry.entry_type == BOOTLOADER_RECLAIMABLE {
            earlier + step_by(range_addresses(entry_range(entry)), BOOT_FRAME_SIZE as nat)
        } else {
            earlier
        }
    }
}

/// Hands the bootloader's memory back, once: the frames to hand back are,
/// for each bootloader-reclaimable entry of the memory map, in map order,
/// its addresses from its base in steps of a frame; from then on the
/// bootloader's answers are gone.
pub fn reclaim_boot_memory(state: &mut BootMemory, entries: &Vec<MemoryMapEntry>) -> (r: Vec<u64>)
    requires
        !old(state).spec_reclaimed(),
        reclaimable_entries_fit(entries@),
    ensures
        final(state).spec_reclaimed(),
        r@ == boot_reclaim_frames(entries@),
{
    state.reclaimed = true;
    let mut frames: Vec<u64> = Vec::new();
    let mut i: usize = 0;
    while i < entries.len()
        invariant
            i <= entries.len(),
            reclaimable_entries_fit(entries@),
            frames@ == boot_reclaim_frames(entries@.take(i as int)),
        decreases entries.len() - i,
    {
        proof {
            assert(entries@.take(i + 1).drop_last() =~= entries@.take(i as int));
        }
        let entry = entries[i];
        if entry.entry_type == BOOTLOADER_RECLAIMABLE {
            assert(entries@[i as int].entry_type == BOOTLOADER_RECLAIMABLE);
            let range = Range { start: entry.base, end: entry.base + entry.length };
            let mut single: Vec<Range<u64>> = Vec::new();
            single.push(range);
            let mut entry_frames = reclaim_frames(&single, BOOT_FRAME_SIZE);
            assert(crate::cpu::flatten_ranges(single@) =~= range_addresses(range)) by {
                assert(single@.drop_last() =~= Seq::<Range<u64>>::empty());
                assert(crate::cpu::flatten_ranges(Seq::<Range<u64>>::empty()) == Seq::<u64>::empty());
                assert(single@.last() == range);
            }
            frames.append(&mut entry_frames);
        }
        i = i + 1;
    }
    assert(entries@.take(i as int) =~= entries@);
    frames
}

/// Once the bootloader's memory has been handed back, no query for a
/// bootloader answer (the memory map, the kernel file, the modules, the
/// ACPI root pointer) answers any more, whatever the bootloader had given:
/// after [`reclaim_boot_memory`], each of them gives `None`.
pub proof fn lemma_no_answers_after_reclaim<T>(
    before: &BootMemory,
    after: &BootMemory,
    answer: Option<T>,
)
    requires
        !before.spec_reclaimed(),
        after.spec_reclaimed(),
    ensures
        boot_only(before, answer) == answer,
        boot_only(after, answer) is None,
{
}

} // verus!
