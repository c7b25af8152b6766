//! NVMe submission and completion queues: their doorbells and cursors.
use super::command::{Command, CommandResult};
use core::marker::PhantomData;
use vstd::prelude::*;

verus! {

/// The byte offset of a queue's doorbell register: after the first 4 KiB,
/// each queue has a submission and a completion doorbell, each
/// `4 << dstrd` bytes apart.
pub open spec fn spec_doorbell_offset(queue_id: u16, ty_mult: u64, dstrd: u64) -> u64 {
    (0x1000 + (queue_id as int * 2 + ty_mult) * ((4u64 << dstrd) as int)) as u64
}

/// The doorbell offset of queue `queue_id`; `ty_mult` is 0 for its
/// submission queue and 1 for its completion queue, and `dstrd` is the
/// four-bit doorbell stride of the capabilities register.
pub fn calc_doorbell_offset(queue_id: u16, ty_mult: u64, dstrd: u64) -> (r: u64)
    requires
        ty_mult <= 1,
        dstrd < 16,
    ensures
        r == spec_doorbell_offset(queue_id, ty_mult, dstrd),
        r == 0x1000 + (queue_id as int * 2 + ty_mult) * ((4u64 << dstrd) as int),
{
    let stride = 4u64 << dstrd;
    assert(stride <= 0x20000) by (bit_vector)
        requires
            stride == 4u64 << dstrd,
            dstrd < 16,
    ;
    let index = (queue_id as u64) * 2 + ty_mult;
    assert(index * stride <= 0x20000 * 0x20000) by (nonlinear_arith)
        requires
            index <= 0x20000,
            stride <= 0x20000,
    ;
    0x1000 + index * stride
}

/// The queue was full.
#[derive(Debug, Clone, Copy, PartialEq, Eq, Structural)]
pub struct QueueOverflow;

/// A kind of queue: which of a queue pair's doorbells it rings.
pub trait QueueType {
    /// The doorbell multiplier of the kind.
    spec fn spec_doorbell_offset() -> u64;

    /// The doorbell multiplier of the kind.
    fn doorbell_offset() -> (r: u64)
        ensures
            r == Self::spec_doorbell_offset(),
            r <= 1,
    ;
}

/// Submission queues, which the driver fills.
#[derive(Debug, Clone, Copy, PartialEq, Eq, Structural)]
pub struct Submission;

impl QueueType for Submission {
    open spec fn spec_doorbell_offset() -> u64 {
        0
    }

    fn doorbell_offset() -> (r: u64) {
        0
    }
}

/// Completion queues, which the controller fills.
#[derive(Debug, Clone, Copy, PartialEq, Eq, Structural)]
pub struct Completion;

impl QueueType for Completion {
    open spec fn spec_doorbell_offset() -> u64 {
        1
    }

    fn doorbell_offset() -> (r: u64) {
        1
    }
}

/// A queue of `entry_count` slots with a cursor that wraps around, the
/// offset of its doorbell and, for completion queues, the phase tag that
/// entries not yet new carry.
pub struct Queue<T: QueueType> {
    entries: Vec<Option<Command>>,
    doorbell_offset: u64,
    entry_count: u16,
    cur_index: u16,
    phase_tag: bool,
    kind: PhantomData<T>,
}

/// The slot after `index` in a ring of `count` slots.
pub open spec fn ring_next(index: u16, count: u16) -> u16 {
    if index + 1 == count {
        0
    } else {
        (index + 1) as u16
    }
}

impl<T: QueueType> Queue<T> {
    pub closed spec fn spec_entries(self) -> Seq<Option<Command>> {
        self.entries@
    }

    pub closed spec fn spec_doorbell_offset(self) -> u64 {
        self.doorbell_offset
    }

    pub closed spec fn spec_entry_count(self) -> u16 {
        self.entry_count
    }

    pub closed spec fn spec_index(self) -> u16 {
        self.cur_index
    }

    pub closed spec fn spec_phase_tag(self) -> bool {
        self.phase_tag
    }

    /// The cursor is within the ring, which holds one entry per slot.
    pub open spec fn wf(self) -> bool {
        &&& self.spec_entry_count() > 0
        &&& self.spec_index() < self.spec_entry_count()
        &&& self.spec_entries().len() == self.spec_entry_count()
    }

    /// The queue after its cursor moved on by one slot.
    pub open spec fn spec_advanced(self, next: Self) -> bool {
        &&& next.spec_entries() == self.spec_entries()
        &&& next.spec_doorbell_offset() == self.spec_doorbell_offset()
        &&& next.spec_entry_count() == self.spec_entry_count()
        &&& next.spec_index() == ring_next(self.spec_index(), self.spec_entry_count())
        &&& next.spec_phase_tag() == self.spec_phase_tag()
    }

    /// Creates queue `queue_id` of this kind with `entry_count` empty
    /// slots, the cursor on the first, the phase tag set, and its doorbell
    /// at the offset the doorbell stride `dstrd` gives. A queue of no slots
    /// is built too, but is not well formed, so nothing can be submitted to
    /// or taken from it.
    pub fn new(queue_id: u16, entry_count: u16, dstrd: u64) -> (r: Self)
        requires
            dstrd < 16,
        ensures
            entry_count > 0 ==> r.wf(),
            r.spec_entries().len() == entry_count,
            r.spec_entry_count() == entry_count,
            r.spec_index() == 0,
            r.spec_phase_tag(),
            r.spec_doorbell_offset() == spec_doorbell_offset(
                queue_id,
                T::spec_doorbell_offset(),
                dstrd,
            ),
            forall|i: int| 0 <= i < entry_count ==> #[trigger] r.spec_entries()[i] is None,
    {
        let doorbell_offset = calc_doorbell_offset(queue_id, T::doorbell_offset(), dstrd);
        let mut entries: Vec<Option<Command>> = Vec::new();
        let mut i: u16 = 0;
        while i < entry_count
            invariant
                i <= entry_count,
                entries@.len() == i,
                forall|j: int| 0 <= j < i ==> #[trigger] entries@[j] is None,
            decreases entry_count - i,
        {
            entries.push(None);
            i = i + 1;
        }
        Queue {
            entries,
            doorbell_offset,
            entry_count,
            cur_index: 0,
            phase_tag: true,
            kind: PhantomData,
        }
    }

    /// The cursor's slot.
    pub fn index(&self) -> (r: u16)
        ensures
            r == self.spec_index(),
    {
        self.cur_index
    }

    /// The doorbell's offset.
    pub fn doorbell(&self) -> (r: u64)
        ensures
            r == self.spec_doorbell_offset(),
    {
        self.doorbell_offset
    }

    fn increment(&mut self)
        requires
            old(self).wf(),
        ensures
            final(self).wf(),
            old(self).spec_advanced(*final(self)),
    {
        if self.cur_index + 1 == self.entry_count {
            self.cur_index = 0;
        } else {
            self.cur_index = self.cur_index + 1;
        }
    }
}

impl Queue<Completion> {
    /// Given the entry at the cursor's slot: when its phase tag differs from
    /// the queue's, it is a new completion; the cursor moves on and the
    /// entry comes back with the doorbell value to write, the slot it was
    /// read from. Otherwise nothing is new.
    pub fn next_cmd_result(&mut self, entry: CommandResult) -> (r: Option<(CommandResult, u32)>)
        requires
            old(self).wf(),
        ensures
            final(self).wf(),
            entry.spec_phase_tag() == old(self).spec_phase_tag() ==> r is None && *final(self)
                == *old(self),
            entry.spec_phase_tag() != old(self).spec_phase_tag() ==> {
                &&& r == Some((entry, old(self).spec_index() as u32))
                &&& old(self).spec_advanced(*final(self))
            },
    {
        if entry.get_phase_tag() != self.phase_tag {
            let doorbell = self.cur_index as u32;
            self.increment();
            Some((entry, doorbell))
        } else {
            None
        }
    }

    /// Inverts the phase tag that entries not yet new carry.
    pub fn invert_phase(&mut self)
        ensures
            final(self).spec_phase_tag() == !old(self).spec_phase_tag(),
            final(self).spec_index() == old(self).spec_index(),
            final(self).spec_entry_count() == old(self).spec_entry_count(),
            final(self).spec_entries() == old(self).spec_entries(),
            final(self).spec_doorbell_offset() == old(self).spec_doorbell_offset(),
            old(self).wf() ==> final(self).wf(),
    {
        self.phase_tag = !self.phase_tag;
    }

    /// Moves the cursor on by one slot, inverting the phase tag when it
    /// wraps around to the first slot.
    fn increment_with_phase_inversion(&mut self)
        requires
            old(self).wf(),
        ensures
            final(self).wf(),
            final(self).spec_index() == ring_next(old(self).spec_index(), old(self).spec_entry_count()),
            final(self).spec_phase_tag() == (if final(self).spec_index() == 0 {
                !old(self).spec_phase_tag()
            } else {
                old(self).spec_phase_tag()
            }),
            final(self).spec_entries() == old(self).spec_entries(),
            final(self).spec_entry_count() == old(self).spec_entry_count(),
            final(self).spec_doorbell_offset() == old(self).spec_doorbell_offset(),
    {
        self.increment();
        if self.cur_index == 0 {
            self.phase_tag = !self.phase_tag;
        }
    }
}

impl Queue<Submission> {
    /// The queue after `command` was written to the cursor's slot and the
    /// cursor moved on.
    pub open spec fn spec_submitted(self, next: Self, command: Command) -> bool {
        &&& next.spec_entries() == self.spec_entries().update(
            self.spec_index() as int,
            Some(command),
        )
        &&& next.spec_doorbell_offset() == self.spec_doorbell_offset()
        &&& next.spec_entry_count() == self.spec_entry_count()
        &&& next.spec_index() == ring_next(self.spec_index(), self.spec_entry_count())
        &&& next.spec_phase_tag() == self.spec_phase_tag()
    }

    /// Writes `command` to the cursor's slot and moves the cursor on.
    pub fn submit_command(&mut self, command: Command)
        requires
            old(self).wf(),
        ensures
            final(self).wf(),
            old(self).spec_submitted(*final(self), command),
    {
        let index = self.cur_index as usize;
        self.entries.set(index, Some(command));
        self.increment();
    }

    /// The entry at slot `index`.
    pub fn entry(&self, index: u16) -> (r: Option<Command>)
        requires
            self.wf(),
            index < self.spec_entry_count(),
        ensures
            r == self.spec_entries()[index as int],
    {
        self.entries[index as usize]
    }
}


/// A command written to a submission queue stands in the slot the cursor
/// was on, and every other slot keeps its entry.
pub proof fn lemma_submitted_entry_reads_back(
    before: Queue<Submission>,
    after: Queue<Submission>,
    command: Command,
)
    requires
        before.wf(),
        before.spec_submitted(after, command),
    ensures
        after.spec_entries()[before.spec_index() as int] == Some(command),
        forall|i: int|
            0 <= i < before.spec_entry_count() && i != before.spec_index() ==> #[trigger] after.spec_entries()[i]
                == before.spec_entries()[i],
{
}

/// Moving the cursor on `count` times from the first slot of a ring of
/// `count` slots comes back to the first slot.
pub open spec fn ring_advanced(index: u16, count: u16, steps: nat) -> u16
    decreases steps,
{
    if steps == 0 {
        index
    } else {
        ring_next(ring_advanced(index, count, (steps - 1) as nat), count)
    }
}

/// After as many steps as it has slots, a ring's cursor is back where it
/// started.
pub proof fn lemma_ring_wraps(count: u16)
    requires
        count > 0,
    ensures
        ring_advanced(0, count, count as nat) == 0,
{
    assert forall|steps: nat| steps < count implies #[trigger] ring_advanced(0, count, steps)
        == steps by {
        lemma_ring_prefix(count, steps);
    }
    lemma_ring_prefix(count, (count - 1) as nat);
}

proof fn lemma_ring_prefix(count: u16, steps: nat)
    requires
        steps < count,
    ensures
        ring_advanced(0, count, steps) == steps,
    decreases steps,
{
    if steps > 0 {
        lemma_ring_prefix(count, (steps - 1) as nat);
    }
}

} // verus!
