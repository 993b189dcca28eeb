//! The user side of the two rings shared with the kernel.
//!
//! The kernel and this side each own one counter of a ring: for the
//! submission ring this side writes `tail` and the kernel `head`, for the
//! completion ring the other way round. Both are free-running 32-bit counters;
//! a slot is a counter masked with `ring_mask`. The values the kernel writes
//! are read from shared memory by the caller and handed in (`refresh_head`,
//! `refresh_tail`); the values this side writes are handed out for the caller
//! to publish (`publish`, `head`).
use vstd::prelude::*;
use crate::sys::{SubmissionEntry, zero_entry};

verus! {

/// The number of steps from counter `from` forward to counter `to`, modulo 2^32.
pub open spec fn ring_distance(from: u32, to: u32) -> int {
    if to >= from {
        to - from
    } else {
        to + 0x1_0000_0000 - from
    }
}

/// The slot that counter `counter` addresses.
pub open spec fn slot_of(counter: int, mask: u32) -> int {
    ((counter % 0x1_0000_0000) as u32 & mask) as int
}

/// `entries` is a power of two and `mask` selects the bits below it.
pub open spec fn valid_ring_shape(entries: u32, mask: u32) -> bool {
    &&& entries > 0
    &&& entries & mask == 0
    &&& mask + 1 == entries
}

/// The ring between `head` and `tail` is empty.
pub open spec fn ring_empty(head: u32, tail: u32) -> bool {
    head == tail
}

/// The ring between `head` and `tail` is full: the counters differ but
/// address the same slot.
pub open spec fn ring_full(head: u32, tail: u32, mask: u32) -> bool {
    head != tail && (head ^ tail) & mask == 0
}

/// Within a ring of `mask + 1` entries that holds at most that many, the ring
/// is full exactly when it holds `mask + 1` entries, and empty exactly when it
/// holds none.
pub proof fn lemma_full_iff_all_entries_used(head: u32, tail: u32, mask: u32)
    requires
        valid_ring_shape((mask + 1) as u32, mask),
        ring_distance(head, tail) <= mask + 1,
    ensures
        ring_full(head, tail, mask) <==> ring_distance(head, tail) == mask + 1,
        ring_empty(head, tail) <==> ring_distance(head, tail) == 0,
{
    let e: u32 = (mask + 1) as u32;
    if tail >= head {
        assert((head != tail && (head ^ tail) & mask == 0) <==> tail - head == e) by (bit_vector)
            requires
                e > 0,
                e & mask == 0,
                mask + 1 == e,
                tail >= head,
                tail - head <= e,
        ;
    } else {
        assert((head != tail && (head ^ tail) & mask == 0) <==> tail + 0x1_0000_0000 - head == e)
            by (bit_vector)
            requires
                e > 0,
                e & mask == 0,
                mask + 1 == e,
                tail < head,
                tail + 0x1_0000_0000 - head <= e,
        ;
    }
}

/// Why the ring parameters the kernel reported cannot be used.
#[derive(Clone, Copy, PartialEq, Eq, Debug)]
pub enum RingSetupError {
    /// The entry count of the setup parameters differs from the ring's.
    EntriesMismatch,
    /// The ring's entry count is not a power of two.
    NotPowerOfTwo,
    /// The ring mask is not the entry count minus one.
    MaskMismatch,
    /// More entries lie between the counters than the ring holds.
    CountersOutOfRange,
}

/// The check of ring parameters at setup.
pub open spec fn ring_setup_result(
    expected_entries: u32,
    ring_entries: u32,
    ring_mask: u32,
    head: u32,
    tail: u32,
) -> Result<(), RingSetupError> {
    if expected_entries != ring_entries {
        Err(RingSetupError::EntriesMismatch)
    } else if ring_entries == 0 || ring_entries & (ring_entries - 1) as u32 != 0 {
        Err(RingSetupError::NotPowerOfTwo)
    } else if ring_mask != ring_entries - 1 {
        Err(RingSetupError::MaskMismatch)
    } else if ring_distance(head, tail) > ring_entries {
        Err(RingSetupError::CountersOutOfRange)
    } else {
        Ok(())
    }
}

fn check_ring(expected_entries: u32, ring_entries: u32, ring_mask: u32, head: u32, tail: u32) -> (r:
    Result<(), RingSetupError>)
    ensures
        r == ring_setup_result(expected_entries, ring_entries, ring_mask, head, tail),
        r is Ok ==> valid_ring_shape(ring_entries, ring_mask),
{
    if expected_entries != ring_entries {
        return Err(RingSetupError::EntriesMismatch);
    }
    if ring_entries == 0 || ring_entries & (ring_entries - 1) != 0 {
        return Err(RingSetupError::NotPowerOfTwo);
    }
    if ring_mask != ring_entries - 1 {
        return Err(RingSetupError::MaskMismatch);
    }
    if tail.wrapping_sub(head) > ring_entries {
        return Err(RingSetupError::CountersOutOfRange);
    }
    Ok(())
}

/// Why a submission was not queued.
#[derive(PartialEq, Eq, Debug)]
pub enum SubmissionError<E> {
    /// Every slot of the ring is in use.
    QueueFull,
    /// The entry could not be built.
    FillError(E),
}

/// What a submission queue holds, as plain values.
pub ghost struct SubmissionQueueView {
    /// the kernel's `head`, as last observed
    pub head: u32,
    /// the next counter this side fills
    pub tail: u32,
    /// the `tail` last handed out for publishing
    pub published: u32,
    pub mask: u32,
    /// the entry of each slot
    pub entries: Seq<SubmissionEntry>,
}

/// The queue after `entry` was queued at the tail.
pub open spec fn after_submit(v: SubmissionQueueView, entry: SubmissionEntry) -> SubmissionQueueView {
    SubmissionQueueView {
        tail: ((v.tail + 1) % 0x1_0000_0000) as u32,
        entries: v.entries.update(slot_of(v.tail as int, v.mask), entry),
        ..v
    }
}

/// The user side of the submission ring: the observed kernel `head`, the
/// local `tail`, and the entries staged for each slot.
pub struct SubmissionQueue {
    cached_head: u32,
    local_tail: u32,
    published_tail: u32,
    ring_mask: u32,
    entries: Vec<SubmissionEntry>,
}

impl View for SubmissionQueue {
    type V = SubmissionQueueView;

    closed spec fn view(&self) -> SubmissionQueueView {
        SubmissionQueueView {
            head: self.cached_head,
            tail: self.local_tail,
            published: self.published_tail,
            mask: self.ring_mask,
            entries: self.entries@,
        }
    }
}

impl SubmissionQueue {
    /// Entries between head and tail never exceed the ring; the published
    /// tail lies between them.
    pub closed spec fn wf(&self) -> bool {
        &&& valid_ring_shape(self.entries.len() as u32, self.ring_mask)
        &&& self.entries.len() == self.ring_mask + 1
        &&& ring_distance(self.cached_head, self.local_tail) <= self.entries.len()
        &&& ring_distance(self.cached_head, self.published_tail) <= ring_distance(
            self.cached_head,
            self.local_tail,
        )
    }

    /// The number of entries in the ring.
    pub open spec fn capacity(&self) -> int {
        self@.mask + 1
    }

    /// Entries queued and not yet consumed by the kernel, as far as observed.
    pub open spec fn pending(&self) -> int {
        ring_distance(self@.head, self@.tail)
    }

    /// A well-formed queue holds between none and all of its entries, and
    /// has a slot entry for each.
    pub proof fn lemma_wf_bounds(&self)
        requires
            self.wf(),
        ensures
            0 <= self.pending() <= self.capacity(),
            self@.entries.len() == self.capacity(),
            valid_ring_shape(self.capacity() as u32, self@.mask),
    {
    }

    /// Sets up the ring from what the kernel reported: `sq_entries` from the
    /// setup parameters, `ring_entries`, `ring_mask` and the counters from the
    /// mapped ring. Fails unless the counts agree, the count is a power of
    /// two, the mask is the count minus one and the counters are in range.
    pub fn new(sq_entries: u32, ring_entries: u32, ring_mask: u32, head: u32, tail: u32) -> (r:
        Result<Self, RingSetupError>)
        ensures
            match ring_setup_result(sq_entries, ring_entries, ring_mask, head, tail) {
                Ok(()) => r matches Ok(q) && q.wf() && q@.head == head && q@.tail == tail
                    && q@.published == tail && q@.mask == ring_mask && q@.entries.len()
                    == ring_entries && forall|i: int|
                    0 <= i < ring_entries ==> q@.entries[i] == zero_entry(),
                Err(e) => r == Err::<Self, RingSetupError>(e),
            },
    {
        match check_ring(sq_entries, ring_entries, ring_mask, head, tail) {
            Err(e) => Err(e),
            Ok(()) => {
                let mut entries: Vec<SubmissionEntry> = Vec::new();
                let mut i: u32 = 0;
                while i < ring_entries
                    invariant
                        i <= ring_entries,
                        entries@.len() == i,
                        forall|j: int| 0 <= j < i ==> entries@[j] == zero_entry(),
                    decreases ring_entries - i,
                {
                    entries.push(SubmissionEntry::zeroed());
                    i = i + 1;
                }
                Ok(SubmissionQueue {
                    cached_head: head,
                    local_tail: tail,
                    published_tail: tail,
                    ring_mask,
                    entries,
                })
            },
        }
    }

    /// The ring looks full with the head last observed; only then must the
    /// kernel's head be read again.
    pub fn needs_head_refresh(&self) -> (r: bool)
        ensures
            r == ring_full(self@.head, self@.tail, self@.mask),
    {
        self.cached_head != self.local_tail && (self.cached_head ^ self.local_tail) & self.ring_mask
            == 0
    }

    /// Takes in the kernel's `head` as read from the ring. The kernel consumes
    /// only published entries, so a value from the observed head up to the
    /// published tail is taken; any other is refused and nothing changes.
    pub fn refresh_head(&mut self, kernel_head: u32) -> (r: bool)
        requires
            old(self).wf(),
        ensures
            final(self).wf(),
            r == (ring_distance(old(self)@.head, kernel_head) <= ring_distance(
                old(self)@.head,
                old(self)@.published,
            )),
            r ==> final(self)@ == (SubmissionQueueView { head: kernel_head, ..old(self)@ }),
            !r ==> final(self)@ == old(self)@,
    {
        let consumed = kernel_head.wrapping_sub(self.cached_head);
        let published = self.published_tail.wrapping_sub(self.cached_head);
        if consumed <= published {
            proof {
                lemma_distance_split(self.cached_head, kernel_head, self.published_tail);
                lemma_distance_split(self.cached_head, kernel_head, self.local_tail);
            }
            self.cached_head = kernel_head;
            true
        } else {
            false
        }
    }

    /// Whether every slot is in use, by the head last observed.
    pub fn is_full(&self) -> (r: bool)
        requires
            self.wf(),
        ensures
            r == ring_full(self@.head, self@.tail, self@.mask),
            r == (self.pending() == self.capacity()),
    {
        proof {
            lemma_full_iff_all_entries_used(self.cached_head, self.local_tail, self.ring_mask);
        }
        self.cached_head != self.local_tail && (self.cached_head ^ self.local_tail) & self.ring_mask
            == 0
    }

    /// Whether entries are queued that the kernel has not consumed, by the
    /// head last observed.
    pub fn has_pending_submissions(&self) -> (r: bool)
        requires
            self.wf(),
        ensures
            r == !ring_empty(self@.head, self@.tail),
            r == (self.pending() != 0),
    {
        self.cached_head != self.local_tail
    }

    /// The number of entries queued that the kernel has not consumed, by the
    /// head last observed.
    pub fn pending_submissions(&self) -> (r: u32)
        requires
            self.wf(),
        ensures
            r == self.pending(),
    {
        self.local_tail.wrapping_sub(self.cached_head)
    }

    /// The number of entries queued since the last `publish`.
    pub fn unpublished(&self) -> (r: u32)
        requires
            self.wf(),
        ensures
            r == ring_distance(self@.published, self@.tail),
    {
        self.local_tail.wrapping_sub(self.published_tail)
    }

    /// Queues `entry` in the slot of the tail and advances the tail; fails
    /// with `QueueFull`, changing nothing, when every slot is in use.
    pub fn submit(&mut self, entry: SubmissionEntry) -> (r: Result<(), SubmissionError<()>>)
        requires
            old(self).wf(),
        ensures
            final(self).wf(),
            r is Err <==> old(self).pending() == old(self).capacity(),
            r is Err ==> r == Err::<(), SubmissionError<()>>(SubmissionError::QueueFull)
                && final(self)@ == old(self)@,
            r is Ok ==> final(self)@ == after_submit(old(self)@, entry),
            r is Ok ==> final(self).pending() == old(self).pending() + 1,
    {
        if self.is_full() {
            return Err(SubmissionError::QueueFull);
        }
        let ndx = self.local_tail;
        let mask = self.ring_mask;
        let slot = (ndx & mask) as usize;
        assert(ndx & mask <= mask) by (bit_vector);
        self.entries.set(slot, entry);
        self.local_tail = ndx.wrapping_add(1);
        Ok(())
    }

    /// Marks every queued entry as published and returns the tail to store in
    /// the ring, with the slots whose entries the kernel sees from then on,
    /// in queue order.
    pub fn publish(&mut self) -> (r: (u32, Vec<usize>))
        requires
            old(self).wf(),
        ensures
            final(self).wf(),
            final(self)@ == (SubmissionQueueView { published: old(self)@.tail, ..old(self)@ }),
            r.0 == old(self)@.tail,
            r.1@.len() == ring_distance(old(self)@.published, old(self)@.tail),
            forall|i: int|
                0 <= i < r.1@.len() ==> r.1@[i] == slot_of(
                    old(self)@.published + i,
                    old(self)@.mask,
                ),
    {
        let count = self.local_tail.wrapping_sub(self.published_tail);
        let mask = self.ring_mask;
        let mut slots: Vec<usize> = Vec::new();
        let mut counter: u32 = self.published_tail;
        let mut i: u32 = 0;
        while i < count
            invariant
                i <= count,
                count == ring_distance(self.published_tail, self.local_tail),
                mask == self.ring_mask,
                slots@.len() == i,
                counter as int == (self.published_tail + i) % 0x1_0000_0000,
                forall|j: int| 0 <= j < i ==> slots@[j] == slot_of(self.published_tail + j, mask),
            decreases count - i,
        {
            slots.push((counter & mask) as usize);
            counter = counter.wrapping_add(1);
            i = i + 1;
        }
        self.published_tail = self.local_tail;
        (self.local_tail, slots)
    }

    /// The entry staged in `slot`.
    pub fn entry(&self, slot: usize) -> (r: SubmissionEntry)
        requires
            slot < self@.entries.len(),
        ensures
            r == self@.entries[slot as int],
    {
        self.entries[slot]
    }

    /// Like `submit`, for an entry whose building may have failed. Fullness
    /// is checked first: a full ring gives `QueueFull` whatever the entry;
    /// with a free slot, a failed build is handed back as `FillError` and
    /// nothing is queued.
    pub fn submit_filled<E>(&mut self, filled: Result<SubmissionEntry, E>) -> (r: Result<(), SubmissionError<E>>)
        requires
            old(self).wf(),
        ensures
            final(self).wf(),
            old(self).pending() == old(self).capacity() ==> r == Err::<(), SubmissionError<E>>(
                SubmissionError::QueueFull,
            ) && final(self)@ == old(self)@,
            old(self).pending() < old(self).capacity() && filled is Err ==> r == Err::<
                (),
                SubmissionError<E>,
            >(SubmissionError::FillError(filled->Err_0)) && final(self)@ == old(self)@,
            old(self).pending() < old(self).capacity() && filled is Ok ==> r is Ok && final(self)@
                == after_submit(old(self)@, filled->Ok_0),
    {
        proof {
            self.lemma_wf_bounds();
        }
        if self.is_full() {
            return Err(SubmissionError::QueueFull);
        }
        match filled {
            Err(e) => Err(SubmissionError::FillError(e)),
            Ok(entry) => match self.submit(entry) {
                Ok(()) => Ok(()),
                Err(_) => Err(SubmissionError::QueueFull),
            },
        }
    }
}

/// What a completion queue holds, as plain values.
pub ghost struct CompletionQueueView {
    /// the next counter this side consumes
    pub head: u32,
    /// the kernel's `tail`, as last observed
    pub tail: u32,
    pub mask: u32,
    pub entries: u32,
}

/// The user side of the completion ring: the local `head` and the observed
/// kernel `tail`.
pub struct CompletionQueue {
    local_head: u32,
    cached_tail: u32,
    ring_mask: u32,
    ring_entries: u32,
}

impl View for CompletionQueue {
    type V = CompletionQueueView;

    closed spec fn view(&self) -> CompletionQueueView {
        CompletionQueueView {
            head: self.local_head,
            tail: self.cached_tail,
            mask: self.ring_mask,
            entries: self.ring_entries,
        }
    }
}

impl CompletionQueue {
    /// The ring has a valid shape and holds at most its size.
    pub open spec fn wf(&self) -> bool {
        &&& valid_ring_shape(self@.entries, self@.mask)
        &&& ring_distance(self@.head, self@.tail) <= self@.entries
    }

    /// Completions observed and not yet consumed.
    pub open spec fn ready(&self) -> int {
        ring_distance(self@.head, self@.tail)
    }

    /// Sets up the ring from what the kernel reported, with the same checks
    /// as the submission ring.
    pub fn new(cq_entries: u32, ring_entries: u32, ring_mask: u32, head: u32, tail: u32) -> (r:
        Result<Self, RingSetupError>)
        ensures
            match ring_setup_result(cq_entries, ring_entries, ring_mask, head, tail) {
                Ok(()) => r matches Ok(q) && q.wf() && q@ == (CompletionQueueView {
                    head,
                    tail,
                    mask: ring_mask,
                    entries: ring_entries,
                }),
                Err(e) => r == Err::<Self, RingSetupError>(e),
            },
    {
        match check_ring(cq_entries, ring_entries, ring_mask, head, tail) {
            Err(e) => Err(e),
            Ok(()) => Ok(
                CompletionQueue {
                    local_head: head,
                    cached_tail: tail,
                    ring_mask,
                    ring_entries,
                },
            ),
        }
    }

    /// Whether no completion is left by the tail last observed; only then must
    /// the kernel's tail be read again.
    pub fn is_empty(&self) -> (r: bool)
        ensures
            r == ring_empty(self@.head, self@.tail),
            self.wf() ==> (r <==> self.ready() == 0),
    {
        self.cached_tail == self.local_head
    }

    /// Takes in the kernel's `tail` as read from the ring. A value at most a
    /// ring's size ahead of the head and not behind the tail last observed is
    /// taken; any other is refused and nothing changes.
    pub fn refresh_tail(&mut self, kernel_tail: u32) -> (r: bool)
        requires
            old(self).wf(),
        ensures
            final(self).wf(),
            r == (ring_distance(old(self)@.head, old(self)@.tail) <= ring_distance(
                old(self)@.head,
                kernel_tail,
            ) <= old(self)@.entries),
            r ==> final(self)@ == (CompletionQueueView { tail: kernel_tail, ..old(self)@ }),
            !r ==> final(self)@ == old(self)@,
    {
        let ahead = kernel_tail.wrapping_sub(self.local_head);
        let seen = self.cached_tail.wrapping_sub(self.local_head);
        if seen <= ahead && ahead <= self.ring_entries {
            self.cached_tail = kernel_tail;
            true
        } else {
            false
        }
    }

    /// Consumes the completion at the head, if one is observed: returns its
    /// slot and advances the head.
    pub fn next_slot(&mut self) -> (r: Option<usize>)
        requires
            old(self).wf(),
        ensures
            final(self).wf(),
            r is None <==> old(self).ready() == 0,
            r is None ==> final(self)@ == old(self)@,
            r matches Some(s) ==> s == slot_of(old(self)@.head as int, old(self)@.mask)
                && final(self)@ == (CompletionQueueView {
                head: ((old(self)@.head + 1) % 0x1_0000_0000) as u32,
                ..old(self)@
            }) && final(self).ready() == old(self).ready() - 1,
    {
        if self.cached_tail == self.local_head {
            return None;
        }
        let ndx = self.local_head;
        let mask = self.ring_mask;
        self.local_head = ndx.wrapping_add(1);
        Some((ndx & mask) as usize)
    }

    /// The head to store in the ring, so that the kernel may reuse the slots
    /// consumed.
    pub fn head(&self) -> (r: u32)
        ensures
            r == self@.head,
    {
        self.local_head
    }
}

/// Splitting a walk from `a` to `c` at a point `b` on the way.
pub proof fn lemma_distance_split(a: u32, b: u32, c: u32)
    requires
        ring_distance(a, b) <= ring_distance(a, c),
    ensures
        ring_distance(b, c) == ring_distance(a, c) - ring_distance(a, b),
{
}

} // verus!
