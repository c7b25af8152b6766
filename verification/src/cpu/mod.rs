//! Hardware thread management: contexts, interrupts, system calls and the
//! start-up of the other hardware threads.
pub mod contexts;
pub mod interrupts;
pub mod setup;
pub mod syscall;
pub mod timer;

use core::ops::Range;
use vstd::prelude::*;

verus! {

/// A hardware thread that the bootloader reports in its multiprocessing
/// response.
#[derive(Debug, Clone, Copy, PartialEq, Eq, Structural)]
pub struct HwthreadInfo {
    pub id: u32,
    pub lapic_id: u32,
}

/// The bootloader's answer to the multiprocessing request.
#[derive(Debug, Clone)]
pub struct MultiprocessingResponse {
    pub bsp_lapic_id: u32,
    pub cpus: Vec<HwthreadInfo>,
}

/// Where a started hardware thread begins executing.
#[derive(Debug, Clone, Copy, PartialEq, Eq, Structural)]
pub enum HwthreadEntry {
    /// Configure the thread and join the start-up synchronization.
    Multiprocessing,
    /// Park the thread forever.
    IdleForever,
}

/// The entry point written for one hardware thread of the response.
#[derive(Debug, Clone, Copy, PartialEq, Eq, Structural)]
pub struct HwthreadStart {
    /// The thread's position in the response's list.
    pub index: usize,
    pub entry: HwthreadEntry,
}

/// What starting the other hardware threads does: the entry point written
/// for each of them, and how many of them there are (the bootstrap
/// processor not counted).
#[derive(Debug, Clone)]
pub struct MultiprocessingStart {
    pub hwthread_count: usize,
    pub starts: Vec<HwthreadStart>,
}

/// The positions, in order, of the listed threads that are not the
/// bootstrap processor.
pub open spec fn application_hwthreads(cpus: Seq<HwthreadInfo>, bsp_lapic_id: u32) -> Seq<usize>
    decreases cpus.len(),
{
    if cpus.len() == 0 {
        Seq::empty()
    } else {
        let earlier = application_hwthreads(cpus.drop_last(), bsp_lapic_id);
        if cpus.last().lapic_id != bsp_lapic_id {
            earlier.push((cpus.len() - 1) as usize)
        } else {
            earlier
        }
    }
}

/// The entry point given to every started thread.
pub open spec fn hwthread_entry(use_multiprocessing: bool) -> HwthreadEntry {
    if use_multiprocessing {
        HwthreadEntry::Multiprocessing
    } else {
        HwthreadEntry::IdleForever
    }
}

/// Decides how the hardware threads of the bootloader's multiprocessing
/// response are started: every thread but the bootstrap processor, in the
/// order listed, gets the multiprocessing entry point, or the idle loop
/// when multiprocessing is disabled. Without a response nothing is started
/// and `None` is returned; with one, the count of the threads other than
/// the bootstrap processor.
pub fn begin_multiprocessing(
    response: Option<&MultiprocessingResponse>,
    use_multiprocessing: bool,
) -> (r: Option<MultiprocessingStart>)
    ensures
        r is None <==> response is None,
        r is Some ==> {
            let response = response->0;
            let start = r->0;
            &&& start.hwthread_count == application_hwthreads(
                response.cpus@,
                response.bsp_lapic_id,
            ).len()
            &&& start.starts@.len() == application_hwthreads(
                response.cpus@,
                response.bsp_lapic_id,
            ).len()
            &&& forall|k: int|
                #![trigger start.starts@[k]]
                0 <= k < start.starts@.len() ==> {
                    &&& start.starts@[k].index == application_hwthreads(
                        response.cpus@,
                        response.bsp_lapic_id,
                    )[k]
                    &&& start.starts@[k].entry == hwthread_entry(use_multiprocessing)
                }
        },
{
    let response = match response {
        Some(response) => response,
        None => return None,
    };
    let entry = if use_multiprocessing {
        HwthreadEntry::Multiprocessing
    } else {
        HwthreadEntry::IdleForever
    };
    let mut starts: Vec<HwthreadStart> = Vec::new();
    let mut i: usize = 0;
    while i < response.cpus.len()
        invariant
            i <= response.cpus.len(),
            entry == hwthread_entry(use_multiprocessing),
            starts@.len() == application_hwthreads(
                response.cpus@.take(i as int),
                response.bsp_lapic_id,
            ).len(),
            forall|k: int|
                #![trigger starts@[k]]
                0 <= k < starts@.len() ==> {
                    &&& starts@[k].index == application_hwthreads(
                        response.cpus@.take(i as int),
                        response.bsp_lapic_id,
                    )[k]
                    &&& starts@[k].entry == entry
                },
        decreases response.cpus.len() - i,
    {
        let ghost earlier = application_hwthreads(
            response.cpus@.take(i as int),
            response.bsp_lapic_id,
        );
        let ghost now = application_hwthreads(
            response.cpus@.take(i + 1),
            response.bsp_lapic_id,
        );
        proof {
            assert(response.cpus@.take(i + 1).drop_last() =~= response.cpus@.take(i as int));
        }
        if response.cpus[i].lapic_id != response.bsp_lapic_id {
            let ghost old_starts = starts@;
            starts.push(HwthreadStart { index: i, entry });
            assert(now =~= earlier.push(i));
            assert forall|k: int| 0 <= k < starts@.len() implies {
                &&& starts@[k].index == now[k]
                &&& starts@[k].entry == entry
            } by {
                if k < old_starts.len() {
                    assert(old_starts[k].index == earlier[k]);
                }
            }
        } else {
            assert(now =~= earlier);
        }
        i = i + 1;
    }
    assert(response.cpus@.take(i as int) =~= response.cpus@);
    Some(MultiprocessingStart { hwthread_count: starts.len(), starts })
}

/// Whether two address ranges touch: the larger start is not past the
/// smaller end.
pub open spec fn ranges_touch(range: Range<u64>, stack: Range<u64>) -> bool {
    let start = if range.start >= stack.start { range.start } else { stack.start };
    let end = if range.end <= stack.end { range.end } else { stack.end };
    start <= end
}

/// Checks whether `range` touches the stack range `stack`: the larger of
/// the two starts is at most the smaller of the two ends.
pub fn check_range_contains_stack(range: &Range<u64>, stack: &Range<u64>) -> (r: bool)
    ensures
        r == ranges_touch(*range, *stack),
{
    let start = if range.start >= stack.start { range.start } else { stack.start };
    let end = if range.end <= stack.end { range.end } else { stack.end };
    start <= end
}

/// The stack of a hardware thread whose stack pointer stood at
/// `stack_address` when it entered the kernel: the `kernel_stack_size`
/// bytes below it.
pub fn stack_range(stack_address: u64, kernel_stack_size: u64) -> (r: Range<u64>)
    requires
        kernel_stack_size <= stack_address,
    ensures
        r.start == stack_address - kernel_stack_size,
        r.end == stack_address,
{
    Range { start: stack_address - kernel_stack_size, end: stack_address }
}

/// The memory map entry type of memory that the bootloader used and that
/// the kernel may take back.
pub const BOOTLOADER_RECLAIMABLE: u64 = 5;

/// An entry of the bootloader's memory map.
#[derive(Debug, Clone, Copy, PartialEq, Eq, Structural)]
pub struct MemoryMapEntry {
    pub base: u64,
    pub length: u64,
    pub entry_type: u64,
}

/// The address range an entry covers.
pub open spec fn entry_range(entry: MemoryMapEntry) -> Range<u64> {
    Range { start: entry.base, end: (entry.base + entry.length) as u64 }
}

/// Every reclaimable entry ends within the address space.
pub open spec fn reclaimable_entries_fit(entries: Seq<MemoryMapEntry>) -> bool {
    forall|i: int|
        0 <= i < entries.len() && #[trigger] entries[i].entry_type == BOOTLOADER_RECLAIMABLE
            ==> entries[i].base + entries[i].length <= u64::MAX
}

/// The ranges of the reclaimable entries, in map order, without those that
/// touch the stack range.
pub open spec fn reclaim_candidates_of(entries: Seq<MemoryMapEntry>, stack: Range<u64>) -> Seq<
    Range<u64>,
>
    decreases entries.len(),
{
    if entries.len() == 0 {
        Seq::empty()
    } else {
        let earlier = reclaim_candidates_of(entries.drop_last(), stack);
        let entry = entries.last();
        if entry.entry_type == BOOTLOADER_RECLAIMABLE && !ranges_touch(entry_range(entry), stack) {
            earlier.push(entry_range(entry))
        } else {
            earlier
        }
    }
}

/// The ranges of bootloader memory that may be handed back: the
/// bootloader-reclaimable entries of the memory map, as address ranges, in
/// map order, leaving out any that touches the current thread's stack.
pub fn reclaim_candidates(entries: &Vec<MemoryMapEntry>, stack: &Range<u64>) -> (r: Vec<
    Range<u64>,
>)
    requires
        reclaimable_entries_fit(entries@),
    ensures
        r@ == reclaim_candidates_of(entries@, *stack),
{
    let mut candidates: Vec<Range<u64>> = Vec::new();
    let mut i: usize = 0;
    while i < entries.len()
        invariant
            i <= entries.len(),
            reclaimable_entries_fit(entries@),
            candidates@ == reclaim_candidates_of(entries@.take(i as int), *stack),
        decreases entries.len() - i,
    {
        proof {
            assert(entries@.take(i + 1).drop_last() =~= entries@.take(i as int));
        }
        let entry = entries[i];
        if entry.entry_type == BOOTLOADER_RECLAIMABLE {
            assert(entries@[i as int].entry_type == BOOTLOADER_RECLAIMABLE);
            let range = Range { start: entry.base, end: entry.base + entry.length };
            if !check_range_contains_stack(&range, stack) {
                candidates.push(range);
            }
        }
        i = i + 1;
    }
    assert(entries@.take(i as int) =~= entries@);
    candidates
}

/// The candidates that stay after the other threads have checked them:
/// where no check ran (`None`), all of them; otherwise those whose check
/// came back clear, that is, in which no other thread found its stack.
pub open spec fn checked_ranges_of(candidates: Seq<Range<u64>>, checks: Seq<bool>) -> Seq<
    Range<u64>,
>
    decreases candidates.len(),
{
    if candidates.len() == 0 {
        Seq::empty()
    } else {
        let earlier = checked_ranges_of(candidates.drop_last(), checks);
        if !checks[candidates.len() - 1] {
            earlier.push(candidates.last())
        } else {
            earlier
        }
    }
}

/// Keeps the candidate ranges whose check by the other hardware threads
/// came back clear (no other thread's stack lies in them), or all of them
/// where no check ran.
pub fn keep_checked_ranges(candidates: &Vec<Range<u64>>, checks: Option<&Vec<bool>>) -> (r: Vec<
    Range<u64>,
>)
    requires
        checks is Some ==> checks->0.len() == candidates.len(),
    ensures
        checks is None ==> r@ == candidates@,
        checks is Some ==> r@ == checked_ranges_of(candidates@, checks->0@),
{
    let mut kept: Vec<Range<u64>> = Vec::new();
    let mut i: usize = 0;
    while i < candidates.len()
        invariant
            i <= candidates.len(),
            checks is Some ==> checks->0.len() == candidates.len(),
            checks is None ==> kept@ == candidates@.take(i as int),
            checks is Some ==> kept@ == checked_ranges_of(
                candidates@.take(i as int),
                checks->0@,
            ),
        decreases candidates.len() - i,
    {
        proof {
            assert(candidates@.take(i + 1).drop_last() =~= candidates@.take(i as int));
        }
        let keep = match checks {
            Some(checks) => !checks[i],
            None => true,
        };
        if keep {
            let range = Range { start: candidates[i].start, end: candidates[i].end };
            assert(range == candidates@[i as int]);
            kept.push(range);
        }
        assert(checks is None ==> kept@ =~= candidates@.take(i + 1));
        i = i + 1;
    }
    assert(candidates@.take(i as int) =~= candidates@);
    kept
}

/// The number of addresses a range yields.
pub open spec fn range_len(range: Range<u64>) -> nat {
    if range.start < range.end {
        (range.end - range.start) as nat
    } else {
        0
    }
}

/// The addresses a range yields, in order.
pub open spec fn range_addresses(range: Range<u64>) -> Seq<u64> {
    Seq::new(range_len(range), |j: int| (range.start + j) as u64)
}

/// The addresses of all the ranges, one range after the other.
pub open spec fn flatten_ranges(ranges: Seq<Range<u64>>) -> Seq<u64>
    decreases ranges.len(),
{
    if ranges.len() == 0 {
        Seq::empty()
    } else {
        flatten_ranges(ranges.drop_last()) + range_addresses(ranges.last())
    }
}

/// Every `step`-th element of `s`, starting with the first.
pub open spec fn step_by(s: Seq<u64>, step: nat) -> Seq<u64>
    recommends
        step > 0,
{
    Seq::new(((s.len() + step - 1) / step as int) as nat, |k: int| s[k * step])
}

/// Where the `k`-th frame stands in the address sequence.
spec fn frame_position(k: int, page_size: nat) -> int {
    k * page_size
}

/// Each frame is the address `page_size` times its position into `flat`.
spec fn frames_follow(frames: Seq<u64>, flat: Seq<u64>, page_size: nat) -> bool {
    forall|k: int|
        #![trigger frames[k]]
        #![trigger frame_position(k, page_size)]
        0 <= k < frames.len() ==> frame_position(k, page_size) < flat.len() && frames[k]
            == flat[frame_position(k, page_size)]
}

proof fn lemma_frames_follow_extend(frames: Seq<u64>, flat: Seq<u64>, more: Seq<u64>, page_size: nat)
    requires
        frames_follow(frames, flat, page_size),
    ensures
        frames_follow(frames, flat + more, page_size),
{
}

proof fn lemma_frames_follow_push(frames: Seq<u64>, flat: Seq<u64>, page_size: nat, frame: u64)
    requires
        frames_follow(frames, flat, page_size),
        frame_position(frames.len() as int, page_size) < flat.len(),
        flat[frame_position(frames.len() as int, page_size)] == frame,
    ensures
        frames_follow(frames.push(frame), flat, page_size),
{
    assert forall|k: int|
        #![trigger frames.push(frame)[k]]
        #![trigger frame_position(k, page_size)]
        0 <= k < frames.len() + 1 implies frame_position(k, page_size) < flat.len()
            && frames.push(frame)[k] == flat[frame_position(k, page_size)] by {
        if k < frames.len() {
            assert(frames[k] == flat[frame_position(k, page_size)]);
        }
    }
}

/// The frame addresses to free from the given ranges: the ranges' addresses
/// taken one range after the other, and of that sequence every
/// `page_size`-th address, starting with the first.
pub fn reclaim_frames(ranges: &Vec<Range<u64>>, page_size: u64) -> (r: Vec<u64>)
    requires
        page_size > 0,
    ensures
        r@ == step_by(flatten_ranges(ranges@), page_size as nat),
{
    let mut frames: Vec<u64> = Vec::new();
    assert(0 * page_size == 0) by (nonlinear_arith);
    // How many addresses to pass over before the next frame.
    let mut skip: u64 = 0;
    let ghost mut flat: Seq<u64> = Seq::empty();
    let mut i: usize = 0;
    while i < ranges.len()
        invariant
            i <= ranges.len(),
            page_size > 0,
            flat == flatten_ranges(ranges@.take(i as int)),
            skip < page_size,
            frames@.len() * page_size == flat.len() + skip,
            frames_follow(frames@, flat, page_size as nat),
        decreases ranges.len() - i,
    {
        let start = ranges[i].start;
        let end = ranges[i].end;
        let len: u64 = if start < end {
            end - start
        } else {
            0
        };
        let ghost addresses = range_addresses(ranges@[i as int]);
        let ghost next_flat = flat + addresses;
        proof {
            assert(ranges@.take(i + 1).drop_last() =~= ranges@.take(i as int));
            assert(next_flat == flatten_ranges(ranges@.take(i + 1)));
            lemma_frames_follow_extend(frames@, flat, addresses, page_size as nat);
        }
        if skip >= len {
            skip = skip - len;
        } else {
            let mut offset: u64 = skip;
            loop
                invariant_except_break
                    offset < len,
                    frames@.len() * page_size == flat.len() + offset,
                invariant
                    page_size > 0,
                    len == addresses.len(),
                    start == ranges@[i as int].start,
                    next_flat == flat + addresses,
                    addresses == range_addresses(ranges@[i as int]),
                    frames_follow(frames@, next_flat, page_size as nat),
                ensures
                    skip < page_size,
                    frames@.len() * page_size == next_flat.len() + skip,
                decreases len - offset,
            {
                let ghost n = frames@.len() as int;
                proof {
                    lemma_frames_follow_push(
                        frames@,
                        next_flat,
                        page_size as nat,
                        (start + offset) as u64,
                    );
                }
                frames.push(start + offset);
                assert((n + 1) * page_size == n * page_size + page_size) by (nonlinear_arith);
                let remaining = len - offset;
                if remaining <= page_size {
                    skip = page_size - remaining;
                    break;
                }
                offset = offset + page_size;
            }
        }
        proof {
            flat = next_flat;
        }
        i = i + 1;
    }
    proof {
        assert(ranges@.take(i as int) =~= ranges@);
        let p = page_size as int;
        let n = frames@.len() as int;
        vstd::arithmetic::div_mod::lemma_fundamental_div_mod_converse(
            flat.len() + p - 1,
            p,
            n,
            p - 1 - skip,
        );
        assert forall|k: int| 0 <= k < n implies #[trigger] frames@[k] == flat[k * p] by {
            assert(frames@[k] == flat[frame_position(k, page_size as nat)]);
        }
    }
    assert(frames@ =~= step_by(flatten_ranges(ranges@), page_size as nat));
    frames
}


/// The bootstrap processor is never started again: every started thread is
/// listed, is not the bootstrap processor, and the threads come in the
/// order listed, each at most once.
pub proof fn lemma_bsp_never_started(cpus: Seq<HwthreadInfo>, bsp_lapic_id: u32)
    requires
        cpus.len() <= usize::MAX,
    ensures
        forall|k: int|
            0 <= k < application_hwthreads(cpus, bsp_lapic_id).len() ==> {
                &&& (#[trigger] application_hwthreads(cpus, bsp_lapic_id)[k]) < cpus.len()
                &&& cpus[application_hwthreads(cpus, bsp_lapic_id)[k] as int].lapic_id
                    != bsp_lapic_id
            },
        forall|j: int, k: int|
            0 <= j < k < application_hwthreads(cpus, bsp_lapic_id).len() ==> (#[trigger] application_hwthreads(
                cpus,
                bsp_lapic_id,
            )[j]) < #[trigger] application_hwthreads(cpus, bsp_lapic_id)[k],
    decreases cpus.len(),
{
    if cpus.len() > 0 {
        lemma_bsp_never_started(cpus.drop_last(), bsp_lapic_id);
        let earlier = application_hwthreads(cpus.drop_last(), bsp_lapic_id);
        let all = application_hwthreads(cpus, bsp_lapic_id);
        let last = cpus.len() - 1;
        assert forall|k: int| #![trigger earlier[k]] 0 <= k < earlier.len() implies earlier[k] < last
            && cpus[earlier[k] as int].lapic_id != bsp_lapic_id by {
            assert(earlier[k] < cpus.drop_last().len());
            assert(cpus.drop_last()[earlier[k] as int].lapic_id != bsp_lapic_id);
            assert(cpus.drop_last()[earlier[k] as int] == cpus[earlier[k] as int]);
        }
        if cpus.last().lapic_id != bsp_lapic_id {
            assert(all == earlier.push(last as usize));
        } else {
            assert(all == earlier);
        }
        assert forall|k: int| 0 <= k < all.len() implies (#[trigger] all[k]) < cpus.len()
            && cpus[all[k] as int].lapic_id != bsp_lapic_id by {
            if k < earlier.len() {
                assert(all[k] == earlier[k]);
                assert(earlier[k] < last);
            } else {
                assert(all[k] == last as usize);
            }
        }
        assert forall|j: int, k: int| 0 <= j < k < all.len() implies (#[trigger] all[j])
            < #[trigger] all[k] by {
            assert(all[j] == earlier[j]);
            if k < earlier.len() {
                assert(all[k] == earlier[k]);
            }
        }
    }
}

/// No range that another hardware thread reported as holding its stack is
/// kept: every kept range is a candidate whose check came back clear.
pub proof fn lemma_kept_ranges_were_clear(candidates: Seq<Range<u64>>, checks: Seq<bool>)
    requires
        checks.len() == candidates.len(),
    ensures
        forall|k: int|
            0 <= k < checked_ranges_of(candidates, checks).len() ==> exists|i: int|
                0 <= i < candidates.len() && !checks[i] && candidates[i]
                    == #[trigger] checked_ranges_of(candidates, checks)[k],
{
    lemma_kept_ranges_unchecked_prefix(candidates, checks);
}

/// [`lemma_kept_ranges_were_clear`] for a prefix of the candidates, whose
/// checks may run longer.
proof fn lemma_kept_ranges_unchecked_prefix(candidates: Seq<Range<u64>>, checks: Seq<bool>)
    requires
        candidates.len() <= checks.len(),
    ensures
        forall|k: int|
            0 <= k < checked_ranges_of(candidates, checks).len() ==> exists|i: int|
                0 <= i < candidates.len() && !checks[i] && candidates[i]
                    == #[trigger] checked_ranges_of(candidates, checks)[k],
    decreases candidates.len(),
{
    if candidates.len() > 0 {
        let shorter = candidates.drop_last();
        let last = candidates.len() - 1;
        lemma_kept_ranges_unchecked_prefix(shorter, checks);
        let earlier = checked_ranges_of(shorter, checks);
        let kept = checked_ranges_of(candidates, checks);
        assert forall|k: int| 0 <= k < kept.len() implies exists|i: int|
            0 <= i < candidates.len() && !checks[i] && candidates[i] == #[trigger] kept[k] by {
            if k < earlier.len() {
                assert(kept[k] == earlier[k]);
                let i = choose|i: int|
                    0 <= i < shorter.len() && !checks[i] && shorter[i] == #[trigger] earlier[k];
                assert(candidates[i] == shorter[i]);
            } else {
                assert(kept[k] == candidates[last]);
            }
        }
    }
}

/// Whether two ranges touch does not depend on their order.
pub proof fn lemma_ranges_touch_symmetric(a: Range<u64>, b: Range<u64>)
    ensures
        ranges_touch(a, b) == ranges_touch(b, a),
{
}

} // verus!
