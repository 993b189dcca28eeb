//! The registration table: one record per request handed to the kernel.
//!
//! A record holds the caller's context (buffers, file) for the whole time
//! the kernel may use it, the waker of the task that awaits it, and the
//! result once the completion arrived. Its key is the `user_data` of the
//! request: nonzero and even, so that odd values stay free for the reactor's
//! own requests. A record has up to two holders: the owner (the future that
//! awaits it) and the kernel (from submission to completion); it is freed
//! when both let go.
use vstd::prelude::*;

verus! {

/// The result of a completion: a negative errno on failure, else the
/// operation's result, and the completion flags.
#[derive(Clone, Copy, PartialEq, Eq, Debug)]
pub struct UringResult {
    pub result: i32,
    pub flags: u32,
}

/// One live record.
pub struct Slot<C, W> {
    pub result: UringResult,
    pub finished: bool,
    pub waker: Option<W>,
    pub context: Option<C>,
    /// a request carrying this record's key is with the kernel
    pub held_by_kernel: bool,
    /// the future that awaits the record still exists
    pub held_by_owner: bool,
}

/// The most records that may be live at once.
pub const MAX_REGISTRATIONS: usize = 0x4000_0000;

/// The key of the record at index `i`.
pub open spec fn key_of(i: int) -> u64 {
    (2 * i + 2) as u64
}

/// The index of the record with key `key`.
pub open spec fn index_of(key: u64) -> int {
    key / 2 - 1
}

/// A fresh record holding `context`, held by its owner only.
pub open spec fn fresh_slot<C, W>(context: Option<C>) -> Slot<C, W> {
    Slot {
        result: UringResult { result: 0, flags: 0 },
        finished: false,
        waker: None,
        context,
        held_by_kernel: false,
        held_by_owner: true,
    }
}

/// A live record has a holder; once finished the kernel no longer holds it.
pub open spec fn slot_wf<C, W>(s: Slot<C, W>) -> bool {
    &&& s.held_by_owner || s.held_by_kernel
    &&& s.finished ==> !s.held_by_kernel
}

/// The number of live records in `s`.
pub open spec fn live_records<C, W>(s: Seq<Option<Slot<C, W>>>) -> nat
    decreases s.len(),
{
    if s.len() == 0 {
        0
    } else {
        live_records(s.drop_last()) + if s.last() is Some { 1nat } else { 0nat }
    }
}

/// Whether `o` is a live record held by the kernel.
pub open spec fn held(o: Option<Slot<impl Sized, impl Sized>>) -> nat {
    if o is Some && o->Some_0.held_by_kernel {
        1
    } else {
        0
    }
}

/// The number of live records in `s` that the kernel holds.
pub open spec fn held_count<C, W>(s: Seq<Option<Slot<C, W>>>) -> nat
    decreases s.len(),
{
    if s.len() == 0 {
        0
    } else {
        held_count(s.drop_last()) + held(s.last())
    }
}

/// Replacing one record changes the count by what the two records add.
pub proof fn lemma_held_count_update<C, W>(s: Seq<Option<Slot<C, W>>>, i: int, v: Option<Slot<C, W>>)
    requires
        0 <= i < s.len(),
    ensures
        held_count(s.update(i, v)) == held_count(s) - held(s[i]) + held(v),
    decreases s.len(),
{
    if i == s.len() - 1 {
        assert(s.update(i, v).drop_last() =~= s.drop_last());
    } else {
        assert(s.update(i, v).drop_last() =~= s.drop_last().update(i, v));
        lemma_held_count_update(s.drop_last(), i, v);
    }
}

/// Appending a record adds what it adds.
pub proof fn lemma_held_count_push<C, W>(s: Seq<Option<Slot<C, W>>>, v: Option<Slot<C, W>>)
    ensures
        held_count(s.push(v)) == held_count(s) + held(v),
{
    assert(s.push(v).drop_last() =~= s);
}

/// No more records are held than there are.
pub proof fn lemma_held_count_bound<C, W>(s: Seq<Option<Slot<C, W>>>)
    ensures
        held_count(s) <= s.len(),
    decreases s.len(),
{
    if s.len() > 0 {
        lemma_held_count_bound(s.drop_last());
    }
}

/// A completion is delivered to a record once: after delivery the kernel
/// no longer holds it, so a second completion with the same key is refused
/// until a new request for it is submitted.
pub proof fn lemma_single_delivery<C, W>(
    before: Registrations<C, W>,
    after: Registrations<C, W>,
    key: u64,
    result: UringResult,
)
    requires
        before.is_live(key),
        before.slot(key).held_by_kernel,
        after.notified(&before, key, result),
    ensures
        !(after.is_live(key) && after.slot(key).held_by_kernel),
        held_count(after@) == held_count(before@) - 1,
{
    lemma_held_count_update(before@, index_of(key), after@[index_of(key)]);
    assert(after@ =~= before@.update(index_of(key), after@[index_of(key)]));
}

/// The context of a record is handed back once: the poll that hands it
/// back frees the record, so any later poll of the key is invalid until the
/// key is registered again.
pub proof fn lemma_context_handed_back_once<C, W>(
    before: Registrations<C, W>,
    after: Registrations<C, W>,
    key: u64,
)
    requires
        after.same_except(&before, key),
        !after.is_live(key),
    ensures
        !(after.is_live(key) && after.slot(key).held_by_owner),
        forall|k: u64| k != key && before.is_key(k) && after.is_key(k) && index_of(k) != index_of(key)
            ==> #[trigger] after@[index_of(k)] == before@[index_of(k)],
{
}

/// What polling a record gave.
pub enum RegistrationPoll<C> {
    /// The completion arrived: its result and the context handed back.
    Ready(UringResult, Option<C>),
    /// No completion yet; the waker was stored.
    Pending,
    /// The key names no record that its owner may poll.
    Invalid,
}

/// The table of live records.
pub struct Registrations<C, W> {
    slots: Vec<Option<Slot<C, W>>>,
}

impl<C, W> View for Registrations<C, W> {
    type V = Seq<Option<Slot<C, W>>>;

    closed spec fn view(&self) -> Seq<Option<Slot<C, W>>> {
        self.slots@
    }
}

impl<C, W> Registrations<C, W> {
    /// Every live record has a holder, and one that finished is no longer
    /// held by the kernel.
    pub open spec fn wf(&self) -> bool {
        &&& self@.len() <= MAX_REGISTRATIONS
        &&& forall|i: int|
            0 <= i < self@.len() && #[trigger] self@[i] is Some ==> slot_wf(self@[i]->Some_0)
    }

    /// The table equals `other` but at the index `key` names.
    pub open spec fn same_except(&self, other: &Self, key: u64) -> bool {
        &&& self@.len() == other@.len()
        &&& forall|i: int| 0 <= i < self@.len() && i != index_of(key) ==> #[trigger] self@[i] == other@[i]
    }

    /// `key` names a record of the table.
    pub open spec fn is_key(&self, key: u64) -> bool {
        key != 0 && key % 2 == 0 && index_of(key) < self@.len()
    }

    /// `key` names a live record.
    pub open spec fn is_live(&self, key: u64) -> bool {
        self.is_key(key) && self@[index_of(key)] is Some
    }

    /// The live record named by `key`.
    pub open spec fn slot(&self, key: u64) -> Slot<C, W> {
        self@[index_of(key)]->Some_0
    }

    /// The table is `old` after the completion of `key` with `result` was
    /// delivered.
    pub open spec fn notified(&self, old: &Self, key: u64, result: UringResult) -> bool {
        &&& self.same_except(old, key)
        &&& if old.slot(key).held_by_owner {
            self.is_live(key) && self.slot(key) == (Slot {
                result,
                finished: true,
                waker: None,
                held_by_kernel: false,
                ..old.slot(key)
            })
        } else {
            !self.is_live(key)
        }
    }

    /// `key` names a live record that its owner holds, the kernel does not,
    /// and that has not finished: one whose request may be submitted.
    pub open spec fn is_submittable(&self, key: u64) -> bool {
        &&& self.is_live(key)
        &&& self.slot(key).held_by_owner
        &&& !self.slot(key).held_by_kernel
        &&& !self.slot(key).finished
    }

    /// Whether a request carrying `key` may be submitted.
    pub fn can_submit(&self, key: u64) -> (r: bool)
        requires
            self.wf(),
        ensures
            r == self.is_submittable(key),
    {
        match self.index_for(key) {
            None => false,
            Some(i) => match &self.slots[i] {
                None => false,
                Some(slot) => slot.held_by_owner && !slot.held_by_kernel && !slot.finished,
            },
        }
    }

    pub fn new() -> (r: Self)
        ensures
            r.wf(),
            r@.len() == 0,
    {
        Registrations { slots: Vec::new() }
    }

    fn key_for(i: usize) -> (key: u64)
        requires
            i < MAX_REGISTRATIONS,
        ensures
            key == key_of(i as int),
            key != 0,
            key % 2 == 0,
            index_of(key) == i,
    {
        2 * (i as u64) + 2
    }

    /// Finds the index that `key` names, if it names a record of the table.
    fn index_for(&self, key: u64) -> (r: Option<usize>)
        requires
            self.wf(),
        ensures
            r is Some <==> self.is_key(key),
            r matches Some(i) ==> i == index_of(key),
    {
        if key == 0 || key % 2 != 0 {
            return None;
        }
        let i = key / 2 - 1;
        if i < self.slots.len() as u64 {
            Some(i as usize)
        } else {
            None
        }
    }

    /// Creates a record that holds `context`, held by its owner only, and
    /// returns its key: nonzero and even. A free index is reused, the lowest
    /// first; else the table grows by one. Fails only when the table is at
    /// its size limit and every record is live.
    pub fn register(&mut self, context: Option<C>) -> (r: Result<u64, Option<C>>)
        requires
            old(self).wf(),
        ensures
            final(self).wf(),
            r is Err <==> (old(self)@.len() == MAX_REGISTRATIONS && forall|i: int|
                0 <= i < old(self)@.len() ==> old(self)@[i] is Some),
            r is Err ==> r == Err::<u64, Option<C>>(context) && final(self)@ == old(self)@,
            held_count(final(self)@) == held_count(old(self)@),
            r matches Ok(key) ==> key != 0 && key % 2 == 0 && final(self).is_live(key) && !old(
                self,
            ).is_live(key) && final(self).slot(key) == fresh_slot::<C, W>(context)
                && forall|k: u64| k != key ==> #[trigger] final(self).is_live(k) == old(self).is_live(k)
                    && (old(self).is_live(k) ==> final(self).slot(k) == old(self).slot(k)),
    {
        let n = self.slots.len();
        let mut i: usize = 0;
        while i < n
            invariant
                self@ == old(self)@,
                old(self).wf(),
                n == self.slots@.len(),
                n <= MAX_REGISTRATIONS,
                i <= n,
                forall|j: int| 0 <= j < i ==> self.slots@[j] is Some,
            decreases n - i,
        {
            if self.slots[i].is_none() {
                let key = Self::key_for(i);
                proof {
                    lemma_held_count_update(self@, i as int, Some(fresh_slot::<C, W>(context)));
                }
                self.slots.set(i, Some(fresh_slot_exec(context)));
                proof {
                    assert forall|j: int| 0 <= j < self@.len() && #[trigger] self@[j] is Some implies slot_wf(
                        self@[j]->Some_0,
                    ) by {
                        if j != i {
                            assert(self@[j] == old(self)@[j]);
                            assert(old(self)@[j] is Some);
                        } else {
                            assert(self@[j]->Some_0.held_by_owner);
                        }
                    }
                    assert forall|k: u64| k != key implies #[trigger] self.is_live(k) == old(self).is_live(k)
                        && (old(self).is_live(k) ==> self.slot(k) == old(self).slot(k)) by {
                        if k != 0 && k % 2 == 0 && index_of(k) < n {
                            assert(index_of(k) != i);
                            assert(self@[index_of(k)] == old(self)@[index_of(k)]);
                        }
                    }
                }
                return Ok(key);
            }
            i = i + 1;
        }
        if n >= MAX_REGISTRATIONS {
            return Err(context);
        }
        let key = Self::key_for(n);
        proof {
            lemma_held_count_push(self@, Some(fresh_slot::<C, W>(context)));
        }
        self.slots.push(Some(fresh_slot_exec(context)));
        proof {
            assert forall|k: u64| k != key implies #[trigger] self.is_live(k) == old(self).is_live(k)
                && (old(self).is_live(k) ==> self.slot(k) == old(self).slot(k)) by {
                if k != 0 && k % 2 == 0 && index_of(k) < old(self)@.len() {
                    assert(self@[index_of(k)] == old(self)@[index_of(k)]);
                }
            }
        }
        Ok(key)
    }
}

impl<C, W> Registrations<C, W> {
    /// Records that the request carrying `key` was handed to the kernel.
    pub fn hand_to_kernel(&mut self, key: u64)
        requires
            old(self).wf(),
            old(self).is_submittable(key),
        ensures
            final(self).wf(),
            final(self).same_except(old(self), key),
            final(self).is_live(key),
            final(self).slot(key) == (Slot { held_by_kernel: true, ..old(self).slot(key) }),
            held_count(final(self)@) == held_count(old(self)@) + 1,
    {
        let i = (key / 2 - 1) as usize;
        let mut taken: Option<Slot<C, W>> = None;
        proof {
            lemma_held_count_update(self@, i as int, None);
        }
        self.slots.set_and_swap(i, &mut taken);
        match taken {
            Some(mut slot) => {
                slot.held_by_kernel = true;
                proof {
                    lemma_held_count_update(self@, i as int, Some(slot));
                }
                self.slots.set(i, Some(slot));
            },
            None => {},
        }
    }

    /// Delivers the completion of the request carrying `key`: the record
    /// takes the result, is marked finished and is no longer held by the
    /// kernel; the stored waker is handed back for waking. A record whose
    /// owner is gone is freed. Fails, changing nothing, unless `key` names a
    /// live record held by the kernel.
    pub fn notify(&mut self, key: u64, result: UringResult) -> (r: Result<Option<W>, ()>)
        requires
            old(self).wf(),
        ensures
            final(self).wf(),
            r is Ok <==> old(self).is_live(key) && old(self).slot(key).held_by_kernel,
            r is Err ==> final(self)@ == old(self)@,
            r is Ok ==> final(self).notified(old(self), key, result) && r == Ok::<Option<W>, ()>(
                old(self).slot(key).waker,
            ),
            r is Err ==> held_count(final(self)@) == held_count(old(self)@),
            r is Ok ==> held_count(final(self)@) == held_count(old(self)@) - 1,
    {
        let i = match self.index_for(key) {
            Some(i) => i,
            None => return Err(()),
        };
        match &self.slots[i] {
            Some(slot) => {
                if !slot.held_by_kernel {
                    return Err(());
                }
            },
            None => return Err(()),
        }
        let mut taken: Option<Slot<C, W>> = None;
        proof {
            lemma_held_count_update(self@, i as int, None);
        }
        self.slots.set_and_swap(i, &mut taken);
        match taken {
            Some(mut slot) => {
                let waker = slot.waker.take();
                if slot.held_by_owner {
                    slot.result = result;
                    slot.finished = true;
                    slot.held_by_kernel = false;
                    proof {
                        lemma_held_count_update(self@, i as int, Some(slot));
                    }
                    self.slots.set(i, Some(slot));
                }
                Ok(waker)
            },
            None => Err(()),
        }
    }

    /// Polls the record `key` for its owner. When finished, the record is
    /// freed and its result and context are handed back; else `waker`
    /// replaces the stored one. Invalid, changing nothing, unless `key` names
    /// a live record held by its owner.
    pub fn poll(&mut self, key: u64, waker: W) -> (r: RegistrationPoll<C>)
        requires
            old(self).wf(),
        ensures
            final(self).wf(),
            r is Invalid <==> !(old(self).is_live(key) && old(self).slot(key).held_by_owner),
            r is Invalid ==> final(self)@ == old(self)@,
            r is Ready ==> old(self).slot(key).finished && final(self).same_except(old(self), key)
                && !final(self).is_live(key) && r == RegistrationPoll::Ready(
                old(self).slot(key).result,
                old(self).slot(key).context,
            ),
            r is Pending ==> !old(self).slot(key).finished && final(self).same_except(old(self), key)
                && final(self).is_live(key) && final(self).slot(key) == (Slot {
                waker: Some(waker),
                ..old(self).slot(key)
            }),
            held_count(final(self)@) == held_count(old(self)@),
    {
        let i = match self.index_for(key) {
            Some(i) => i,
            None => return RegistrationPoll::Invalid,
        };
        match &self.slots[i] {
            Some(slot) => {
                if !slot.held_by_owner {
                    return RegistrationPoll::Invalid;
                }
            },
            None => return RegistrationPoll::Invalid,
        }
        let mut taken: Option<Slot<C, W>> = None;
        proof {
            lemma_held_count_update(self@, i as int, None);
        }
        self.slots.set_and_swap(i, &mut taken);
        match taken {
            Some(mut slot) => {
                if slot.finished {
                    RegistrationPoll::Ready(slot.result, slot.context)
                } else {
                    slot.waker = Some(waker);
                    proof {
                        lemma_held_count_update(self@, i as int, Some(slot));
                    }
                    self.slots.set(i, Some(slot));
                    RegistrationPoll::Pending
                }
            },
            None => RegistrationPoll::Invalid,
        }
    }

    /// Polls a reusable record (one whose request is submitted again after
    /// each completion). When finished, the record is reset to unfinished,
    /// kept, and its result handed back; else `waker` replaces the stored
    /// one. Invalid, changing nothing, unless `key` names a live record held
    /// by its owner.
    pub fn poll_and_reset(&mut self, key: u64, waker: W) -> (r: RegistrationPoll<C>)
        requires
            old(self).wf(),
        ensures
            final(self).wf(),
            r is Invalid <==> !(old(self).is_live(key) && old(self).slot(key).held_by_owner),
            r is Invalid ==> final(self)@ == old(self)@,
            r is Ready ==> old(self).slot(key).finished && final(self).same_except(old(self), key)
                && final(self).is_live(key) && final(self).slot(key) == (Slot {
                finished: false,
                ..old(self).slot(key)
            }) && r == RegistrationPoll::<C>::Ready(old(self).slot(key).result, None),
            r is Pending ==> !old(self).slot(key).finished && final(self).same_except(old(self), key)
                && final(self).is_live(key) && final(self).slot(key) == (Slot {
                waker: Some(waker),
                ..old(self).slot(key)
            }),
            held_count(final(self)@) == held_count(old(self)@),
    {
        let i = match self.index_for(key) {
            Some(i) => i,
            None => return RegistrationPoll::Invalid,
        };
        match &self.slots[i] {
            Some(slot) => {
                if !slot.held_by_owner {
                    return RegistrationPoll::Invalid;
                }
            },
            None => return RegistrationPoll::Invalid,
        }
        let mut taken: Option<Slot<C, W>> = None;
        proof {
            lemma_held_count_update(self@, i as int, None);
        }
        self.slots.set_and_swap(i, &mut taken);
        match taken {
            Some(mut slot) => {
                let r = if slot.finished {
                    slot.finished = false;
                    RegistrationPoll::Ready(slot.result, None)
                } else {
                    slot.waker = Some(waker);
                    RegistrationPoll::Pending
                };
                proof {
                    lemma_held_count_update(self@, i as int, Some(slot));
                }
                self.slots.set(i, Some(slot));
                r
            },
            None => RegistrationPoll::Invalid,
        }
    }

    /// Frees the record `key` before its request reached the kernel and
    /// hands its context back. Fails, changing nothing, unless `key` names a
    /// live record held by its owner and not by the kernel.
    pub fn abort(&mut self, key: u64) -> (r: Result<Option<C>, ()>)
        requires
            old(self).wf(),
        ensures
            final(self).wf(),
            r is Ok <==> old(self).is_live(key) && old(self).slot(key).held_by_owner
                && !old(self).slot(key).held_by_kernel,
            r is Err ==> final(self)@ == old(self)@,
            r is Ok ==> final(self).same_except(old(self), key) && !final(self).is_live(key) && r
                == Ok::<Option<C>, ()>(old(self).slot(key).context),
            held_count(final(self)@) == held_count(old(self)@),
    {
        let i = match self.index_for(key) {
            Some(i) => i,
            None => return Err(()),
        };
        match &self.slots[i] {
            Some(slot) => {
                if !slot.held_by_owner || slot.held_by_kernel {
                    return Err(());
                }
            },
            None => return Err(()),
        }
        let mut taken: Option<Slot<C, W>> = None;
        proof {
            lemma_held_count_update(self@, i as int, None);
        }
        self.slots.set_and_swap(i, &mut taken);
        match taken {
            Some(slot) => Ok(slot.context),
            None => Err(()),
        }
    }

    /// The owner of record `key` lets go of it. A record the kernel still
    /// holds stays, and is freed when its completion arrives; any other is
    /// freed now. Fails, changing nothing, unless `key` names a live record
    /// held by its owner.
    pub fn release(&mut self, key: u64) -> (r: bool)
        requires
            old(self).wf(),
        ensures
            final(self).wf(),
            r <==> old(self).is_live(key) && old(self).slot(key).held_by_owner,
            !r ==> final(self)@ == old(self)@,
            r ==> final(self).same_except(old(self), key) && (if old(self).slot(
                key,
            ).held_by_kernel {
                final(self).is_live(key) && final(self).slot(key) == (Slot {
                    held_by_owner: false,
                    ..old(self).slot(key)
                })
            } else {
                !final(self).is_live(key)
            }),
            held_count(final(self)@) == held_count(old(self)@),
    {
        let i = match self.index_for(key) {
            Some(i) => i,
            None => return false,
        };
        match &self.slots[i] {
            Some(slot) => {
                if !slot.held_by_owner {
                    return false;
                }
            },
            None => return false,
        }
        let mut taken: Option<Slot<C, W>> = None;
        proof {
            lemma_held_count_update(self@, i as int, None);
        }
        self.slots.set_and_swap(i, &mut taken);
        match taken {
            Some(mut slot) => {
                if slot.held_by_kernel {
                    slot.held_by_owner = false;
                    proof {
                        lemma_held_count_update(self@, i as int, Some(slot));
                    }
                    self.slots.set(i, Some(slot));
                }
                true
            },
            None => false,
        }
    }

    /// The number of live records.
    pub fn live_count(&self) -> (r: usize)
        requires
            self.wf(),
        ensures
            r == live_records(self@),
    {
        let mut count: usize = 0;
        let mut i: usize = 0;
        while i < self.slots.len()
            invariant
                i <= self@.len(),
                self@.len() <= MAX_REGISTRATIONS,
                count == live_records(self@.take(i as int)),
                count <= i,
            decreases self@.len() - i,
        {
            assert(self@.take(i as int + 1).drop_last() =~= self@.take(i as int));
            if self.slots[i].is_some() {
                count = count + 1;
            }
            i = i + 1;
        }
        assert(self@.take(i as int) =~= self@);
        count
    }
}

fn fresh_slot_exec<C, W>(context: Option<C>) -> (r: Slot<C, W>)
    ensures
        r == fresh_slot::<C, W>(context),
{
    Slot {
        result: UringResult { result: 0, flags: 0 },
        finished: false,
        waker: None,
        context,
        held_by_kernel: false,
        held_by_owner: true,
    }
}

} // verus!
