//! The reactor's decisions: what each completion means, which internal
//! requests to queue, when to wait for the kernel and how to call
//! `io_uring_enter`.
//!
//! The reactor waits on one `io_uring_enter` call. Two internal requests let
//! other events end that wait: a poll on a timer descriptor (for timeouts)
//! and a poll on the read end of a pipe that `unpark` writes to. Their
//! completions carry the odd `user_data` values `TIMER` and `PARK`; requests
//! of tasks carry the even keys of the registration table.
use vstd::prelude::*;
use crate::sys::{
    CompletionEntry,
    FileDescriptor,
    IoPriority,
    PollFlags,
    SubmissionEntry,
    ENTER_GETEVENTS,
    POLL_IN,
    request_entry,
    zero_entry,
};
use crate::ring::{
    CompletionQueue,
    CompletionQueueView,
    SubmissionError,
    SubmissionQueue,
    SubmissionQueueView,
    after_submit,
    ring_distance,
    ring_full,
    slot_of,
};
use crate::registration::{
    RegistrationPoll,
    Registrations,
    Slot,
    UringResult,
    fresh_slot,
    held_count,
    index_of,
    lemma_held_count_bound,
    MAX_REGISTRATIONS,
};

verus! {

/// `user_data` of the poll on the timer descriptor.
pub const TIMER: u64 = 1;

/// `user_data` of the poll on the park pipe.
pub const PARK: u64 = 3;

/// What the reactor tracks between completions.
#[derive(Clone, Copy, PartialEq, Eq, Debug)]
pub struct CompletionState {
    /// no timer poll is with the kernel; one must be queued before waiting
    pub requeue_timer: bool,
    /// the timer fired and was not re-armed or disarmed since
    pub timer_pending: bool,
    /// no park-pipe poll is with the kernel; one must be queued before waiting
    pub requeue_park: bool,
    /// requests with the kernel whose completion has not been seen
    pub active_wait: usize,
}

/// The state before any request: both internal polls must be queued.
pub open spec fn initial_state() -> CompletionState {
    CompletionState { requeue_timer: true, timer_pending: false, requeue_park: true, active_wait: 0 }
}

impl CompletionState {
    /// The state before any request: both internal polls must be queued.
    pub fn new() -> (r: Self)
        ensures
            r == initial_state(),
    {
        CompletionState { requeue_timer: true, timer_pending: false, requeue_park: true, active_wait: 0 }
    }
}

/// Errors of the reactor's operations.
#[derive(Clone, Copy, PartialEq, Eq, Debug)]
pub enum ReactorError {
    /// The submission queue is full ("submission queue full").
    QueueFull,
    /// The kernel failed the operation with this errno.
    Os(u32),
    /// The reactor is gone ("uring reactor dead").
    Dead,
    /// The registration table is at its size limit.
    TooManyRegistrations,
    /// The key names no registration in a state that allows the operation.
    InvalidRegistration,
}

/// A failed submission, as the error its operation reports.
pub fn sq_full_map_err(_error: SubmissionError<()>) -> (r: ReactorError)
    ensures
        r == ReactorError::QueueFull,
{
    ReactorError::QueueFull
}

/// What one completion asks of the caller.
pub enum CompletionAction<W> {
    /// `user_data` 0: a request whose completion nobody awaits.
    Ignored,
    /// A task's request completed; the waker (if one was stored) is to be woken.
    Woken(Option<W>),
    /// The timer fired.
    TimerFired,
    /// The park pipe is readable; it is to be drained.
    ParkWoken,
    /// The completion matches no request with the kernel.
    Unexpected,
}

/// A duration, as seconds and nanoseconds.
#[derive(Clone, Copy, PartialEq, Eq, Debug)]
pub struct WaitTime {
    pub secs: u64,
    pub nanos: u32,
}

/// What to do with the timer descriptor before waiting.
#[derive(Clone, Copy, PartialEq, Eq, Debug)]
pub enum TimerAction {
    /// Arm it to fire once after the duration.
    Arm(WaitTime),
    /// Disarm it.
    Disarm,
    /// Leave it as it is.
    Keep,
}

/// The arguments of an `io_uring_enter` call.
#[derive(Clone, Copy, PartialEq, Eq, Debug)]
pub struct EnterArgs {
    pub to_submit: u32,
    pub min_complete: u32,
    pub flags: u32,
}

/// The first half of a park: what to do with the timer, and whether to wait.
#[derive(Clone, Copy, PartialEq, Eq, Debug)]
pub struct ParkPlan {
    pub timer: TimerAction,
    pub wait: bool,
}

/// Whether a park waits for the kernel: only if the caller asked to, no
/// completion was just received, no unpark is pending, and the internal
/// polls that must be queued (`needed` of them) fit in the `free` slots.
pub open spec fn planned_wait(
    wait: bool,
    received: bool,
    unpark_pending: bool,
    needed: int,
    free: int,
) -> bool {
    wait && !received && !unpark_pending && needed <= free
}

/// How `io_uring_enter` is called, if at all: waiting for one completion
/// only when the park waits and the park entry allowed it; not at all when
/// there is nothing to submit and no wait.
pub open spec fn enter_decision(wait: bool, allow_wait: bool, pending: u32) -> Option<EnterArgs> {
    let w = wait && allow_wait;
    if pending == 0 && !w {
        None
    } else {
        Some(
            EnterArgs {
                to_submit: pending,
                min_complete: if w {
                    1
                } else {
                    0
                },
                flags: if w {
                    ENTER_GETEVENTS
                } else {
                    0
                },
            },
        )
    }
}

/// The state after a `TIMER` completion, if a timer poll was with the kernel.
pub open spec fn timer_delivered(s: CompletionState) -> Option<CompletionState> {
    if s.requeue_timer || s.active_wait == 0 {
        None
    } else {
        Some(
            CompletionState {
                requeue_timer: true,
                timer_pending: true,
                active_wait: (s.active_wait - 1) as usize,
                ..s
            },
        )
    }
}

/// What a park with the given timeout asks for: a zero duration asks not to
/// wait at all; any other waits with that bound.
pub open spec fn timeout_request(timeout: WaitTime) -> (bool, Option<WaitTime>) {
    if timeout.secs == 0 && timeout.nanos == 0 {
        (false, None)
    } else {
        (true, Some(timeout))
    }
}

/// The arguments of a park with a timeout: whether to wait, and the bound.
pub fn park_timeout_request(timeout: WaitTime) -> (r: (bool, Option<WaitTime>))
    ensures
        r == timeout_request(timeout),
{
    if timeout.secs == 0 && timeout.nanos == 0 {
        (false, None)
    } else {
        (true, Some(timeout))
    }
}

/// Whether `unpark` must write the wakeup byte: only the first unpark since
/// the flag was cleared, and only while the reactor is inside a park.
pub fn unpark_needs_wakeup(was_pending: bool, entered: bool) -> (r: bool)
    ensures
        r == (!was_pending && entered),
{
    !was_pending && entered
}

/// The poll entry for `fd` with `user_data`.
pub open spec fn poll_entry(fd: i32, flags: PollFlags, user_data: u64) -> SubmissionEntry {
    SubmissionEntry {
        user_data,
        ..request_entry(zero_entry(), 6, FileDescriptor::FD(fd), 0, 0, 0, 0, flags as u32, 0)
    }
}

/// The queue after the internal polls were queued: the timer poll first,
/// then the park-pipe poll, each if its flag is set.
pub open spec fn after_internal_polls(
    v: SubmissionQueueView,
    timer: bool,
    park: bool,
    timer_fd: i32,
    park_fd: i32,
) -> SubmissionQueueView {
    let v1 = if timer {
        after_submit(v, poll_entry(timer_fd, POLL_IN, TIMER))
    } else {
        v
    };
    if park {
        after_submit(v1, poll_entry(park_fd, POLL_IN, PARK))
    } else {
        v1
    }
}

/// The vectored read (`code` 1) or write (`code` 2) entry of one iovec.
pub open spec fn io_entry(code: u8, fd: i32, offset: u64, iov_addr: u64, user_data: u64) -> SubmissionEntry {
    SubmissionEntry {
        user_data,
        ..request_entry(zero_entry(), code, FileDescriptor::FD(fd), 0, offset, iov_addr, 1, 0, 0)
    }
}

/// The number `b` counts for.
pub open spec fn count(b: bool) -> int {
    if b {
        1
    } else {
        0
    }
}

/// The result of a read or write completion: the byte count, or the errno.
pub open spec fn operation_result(r: UringResult) -> Result<usize, ReactorError> {
    if r.result >= 0 {
        Ok(r.result as usize)
    } else {
        Err(ReactorError::Os((-r.result) as u32))
    }
}

/// The result of a poll completion: the ready events, or the errno.
pub open spec fn poll_result(r: UringResult) -> Result<PollFlags, ReactorError> {
    if r.result >= 0 {
        Ok((r.result % 0x1_0000) as u16)
    } else {
        Err(ReactorError::Os((-r.result) as u32))
    }
}

/// A read or write completion as the byte count or the errno.
pub fn operation_outcome(r: UringResult) -> (o: Result<usize, ReactorError>)
    ensures
        o == operation_result(r),
{
    if r.result >= 0 {
        Ok(r.result as usize)
    } else {
        Err(ReactorError::Os((-(r.result as i64)) as u32))
    }
}

/// A poll completion as the ready events or the errno.
pub fn poll_outcome(r: UringResult) -> (o: Result<PollFlags, ReactorError>)
    ensures
        o == poll_result(r),
{
    if r.result >= 0 {
        Ok((r.result % 0x1_0000) as u16)
    } else {
        Err(ReactorError::Os((-(r.result as i64)) as u32))
    }
}

/// The keys of task requests (nonzero and even) never equal an internal
/// sentinel; the sentinels, and so the `user_data` of the internal polls,
/// are odd and distinct.
pub proof fn lemma_sentinels_apart(key: u64, timer_fd: i32, park_fd: i32)
    requires
        key != 0,
        key % 2 == 0,
    ensures
        key != TIMER,
        key != PARK,
        TIMER % 2 == 1,
        PARK % 2 == 1,
        TIMER != PARK,
        poll_entry(timer_fd, POLL_IN, TIMER).user_data % 2 == 1,
        poll_entry(park_fd, POLL_IN, PARK).user_data % 2 == 1,
{
}

/// A park that has just received a completion does not ask the kernel to
/// wait: `io_uring_enter` is called, if at all, with `min_complete` 0 and
/// without `GETEVENTS`.
pub proof fn lemma_received_completion_returns_at_once(
    wait: bool,
    unpark_pending: bool,
    needed: int,
    free: int,
    allow_wait: bool,
    pending: u32,
)
    ensures
        !planned_wait(wait, true, unpark_pending, needed, free),
        enter_decision(planned_wait(wait, true, unpark_pending, needed, free), allow_wait, pending)
            matches Some(a) ==> a.min_complete == 0 && a.flags & ENTER_GETEVENTS == 0,
{
    assert(0u32 & ENTER_GETEVENTS == 0) by (bit_vector);
}

/// An unpark before a park, seen either when the park starts
/// (`unpark_pending`) or when it enters (`allow_wait` false), keeps the park
/// from waiting.
pub proof fn lemma_unpark_before_park_returns_at_once(
    wait: bool,
    received: bool,
    unpark_pending: bool,
    needed: int,
    free: int,
    allow_wait: bool,
    pending: u32,
)
    requires
        unpark_pending || !allow_wait,
    ensures
        enter_decision(
            planned_wait(wait, received, unpark_pending, needed, free),
            allow_wait,
            pending,
        ) matches Some(a) ==> a.min_complete == 0 && a.flags & ENTER_GETEVENTS == 0,
{
    assert(0u32 & ENTER_GETEVENTS == 0) by (bit_vector);
}

/// A park with a zero timeout never calls `io_uring_enter` with `GETEVENTS`.
pub proof fn lemma_zero_timeout_never_waits(
    timeout: WaitTime,
    received: bool,
    unpark_pending: bool,
    needed: int,
    free: int,
    allow_wait: bool,
    pending: u32,
)
    requires
        timeout.secs == 0,
        timeout.nanos == 0,
    ensures
        timeout_request(timeout).1 is None,
        enter_decision(
            planned_wait(timeout_request(timeout).0, received, unpark_pending, needed, free),
            allow_wait,
            pending,
        ) matches Some(a) ==> a.flags & ENTER_GETEVENTS == 0 && a.min_complete == 0,
{
    assert(0u32 & ENTER_GETEVENTS == 0) by (bit_vector);
}

/// One timer poll yields one `TIMER` delivery: once delivered, a second
/// `TIMER` completion is refused until the poll is queued again.
pub proof fn lemma_one_timer_delivery_per_poll(s: CompletionState)
    requires
        timer_delivered(s) is Some,
    ensures
        timer_delivered(timer_delivered(s)->Some_0) is None,
{
}

/// A read that failed: the error, with the caller's buffer and file
/// handed back.
pub struct AsyncReadError<T, F> {
    pub error: ReactorError,
    pub buffer: T,
    pub file: F,
}

/// A write that failed: the error, with the caller's buffer and file
/// handed back.
pub struct AsyncWriteError<T, F> {
    pub error: ReactorError,
    pub buffer: T,
    pub file: F,
}

/// The end of a read: the byte count with the buffer and file, or the
/// errno with them. Either way the buffer and file come back.
pub fn finish_read<T, F>(r: UringResult, buffer: T, file: F) -> (o: Result<
    (usize, T, F),
    AsyncReadError<T, F>,
>)
    ensures
        match operation_result(r) {
            Ok(n) => o == Ok::<(usize, T, F), AsyncReadError<T, F>>((n, buffer, file)),
            Err(e) => o == Err::<(usize, T, F), AsyncReadError<T, F>>(
                AsyncReadError { error: e, buffer, file },
            ),
        },
{
    match operation_outcome(r) {
        Ok(n) => Ok((n, buffer, file)),
        Err(error) => Err(AsyncReadError { error, buffer, file }),
    }
}

/// The end of a write: the byte count with the buffer and file, or the
/// errno with them. Either way the buffer and file come back.
pub fn finish_write<T, F>(r: UringResult, buffer: T, file: F) -> (o: Result<
    (usize, T, F),
    AsyncWriteError<T, F>,
>)
    ensures
        match operation_result(r) {
            Ok(n) => o == Ok::<(usize, T, F), AsyncWriteError<T, F>>((n, buffer, file)),
            Err(e) => o == Err::<(usize, T, F), AsyncWriteError<T, F>>(
                AsyncWriteError { error: e, buffer, file },
            ),
        },
{
    match operation_outcome(r) {
        Ok(n) => Ok((n, buffer, file)),
        Err(error) => Err(AsyncWriteError { error, buffer, file }),
    }
}

/// The reactor's state apart from the shared memory and descriptors: the
/// user side of both rings, the completion state and the registrations.
pub struct ReactorCore<C, W> {
    sq: SubmissionQueue,
    cq: CompletionQueue,
    state: CompletionState,
    registrations: Registrations<C, W>,
    timer_fd: i32,
    park_fd: i32,
}

impl<C, W> ReactorCore<C, W> {
    pub closed spec fn sq_model(&self) -> SubmissionQueue {
        self.sq
    }

    pub closed spec fn cq_model(&self) -> CompletionQueue {
        self.cq
    }

    pub closed spec fn state_model(&self) -> CompletionState {
        self.state
    }

    pub closed spec fn registrations_model(&self) -> Registrations<C, W> {
        self.registrations
    }

    pub closed spec fn timer_fd_model(&self) -> i32 {
        self.timer_fd
    }

    pub closed spec fn park_fd_model(&self) -> i32 {
        self.park_fd
    }

    /// Every request with the kernel is counted in `active_wait` exactly
    /// once: the registrations the kernel holds and each internal poll that
    /// need not be requeued.
    pub open spec fn wf(&self) -> bool {
        &&& self.sq_model().wf()
        &&& self.cq_model().wf()
        &&& self.registrations_model().wf()
        &&& self.state_model().active_wait == held_count(self.registrations_model()@) + count(
            !self.state_model().requeue_timer,
        ) + count(!self.state_model().requeue_park)
    }

    /// The two reactors hold the same values.
    pub open spec fn same_as(&self, other: &Self) -> bool {
        &&& self.sq_model()@ == other.sq_model()@
        &&& self.cq_model()@ == other.cq_model()@
        &&& self.state_model() == other.state_model()
        &&& self.registrations_model()@ == other.registrations_model()@
        &&& self.timer_fd_model() == other.timer_fd_model()
        &&& self.park_fd_model() == other.park_fd_model()
    }

    /// The rings' completion side and the descriptors are those of `old`.
    pub open spec fn keeps_cq_and_fds(&self, old: &Self) -> bool {
        &&& self.cq_model() == old.cq_model()
        &&& self.timer_fd_model() == old.timer_fd_model()
        &&& self.park_fd_model() == old.park_fd_model()
    }

    /// `self` is `old` after the request `entry` for the registration `key`
    /// was queued: the entry is at the tail, the kernel holds the
    /// registration, and `active_wait` counts the request.
    pub open spec fn queued_request(&self, old: &Self, key: u64, entry: SubmissionEntry) -> bool {
        &&& key != 0 && key % 2 == 0
        &&& entry.user_data == key
        &&& self.sq_model()@ == after_submit(old.sq_model()@, entry)
        &&& self.registrations_model().same_except(&old.registrations_model(), key)
        &&& self.registrations_model().is_live(key)
        &&& self.registrations_model().slot(key) == (Slot {
            held_by_kernel: true,
            ..old.registrations_model().slot(key)
        })
        &&& self.state_model() == (CompletionState {
            active_wait: (old.state_model().active_wait + 1) as usize,
            ..old.state_model()
        })
    }

    /// The result of queueing a request for registration `key`: refused
    /// unless the registration may be submitted, then refused when no slot
    /// is free, else queued as `queued_request` says.
    pub open spec fn queue_outcome(
        &self,
        old: &Self,
        key: u64,
        entry: SubmissionEntry,
        r: Result<(), ReactorError>,
    ) -> bool {
        &&& !old.registrations_model().is_submittable(key) ==> r == Err::<(), ReactorError>(
            ReactorError::InvalidRegistration,
        ) && self.same_as(old)
        &&& old.registrations_model().is_submittable(key) && old.free_slots() == 0 ==> r == Err::<
            (),
            ReactorError,
        >(ReactorError::QueueFull) && self.same_as(old)
        &&& old.registrations_model().is_submittable(key) && old.free_slots() > 0 ==> r is Ok
            && self.queued_request(old, key, entry)
    }

    /// The result of starting a request that holds `context`: on failure
    /// (`QueueFull` exactly when no slot is free, else `TooManyRegistrations`)
    /// nothing changes and the context comes back; on success a fresh
    /// registration with a new even key holds the context, the kernel holds
    /// it, `entry(key)` is queued and no other registration changed.
    pub open spec fn start_outcome(
        &self,
        old: &Self,
        context: C,
        entry: spec_fn(u64) -> SubmissionEntry,
        r: Result<u64, (ReactorError, Option<C>)>,
    ) -> bool {
        &&& r matches Err((_, c)) ==> c == Some(context) && self.same_as(old)
        &&& r matches Err((e, _)) ==> e == ReactorError::QueueFull || e
            == ReactorError::TooManyRegistrations
        &&& r matches Err((e, _)) ==> (e == ReactorError::QueueFull <==> old.free_slots() == 0)
        &&& old.free_slots() == 0 ==> r == Err::<u64, (ReactorError, Option<C>)>(
            (ReactorError::QueueFull, Some(context)),
        )
        &&& old.free_slots() > 0 && old.registrations_model()@.len() < MAX_REGISTRATIONS ==> r is Ok
        &&& r matches Ok(key) ==> {
            &&& key != 0 && key % 2 == 0
            &&& !old.registrations_model().is_live(key)
            &&& self.registrations_model().is_live(key)
            &&& self.registrations_model().slot(key) == (Slot {
                held_by_kernel: true,
                ..fresh_slot::<C, W>(Some(context))
            })
            &&& forall|k: u64|
                k != key ==> #[trigger] self.registrations_model().is_live(k)
                    == old.registrations_model().is_live(k) && (old.registrations_model().is_live(k)
                    ==> self.registrations_model().slot(k) == old.registrations_model().slot(k))
            &&& self.sq_model()@ == after_submit(old.sq_model()@, entry(key))
            &&& self.state_model() == (CompletionState {
                active_wait: (old.state_model().active_wait + 1) as usize,
                ..old.state_model()
            })
        }
    }

    /// Free slots of the submission queue.
    pub open spec fn free_slots(&self) -> int {
        self.sq_model().capacity() - self.sq_model().pending()
    }

    /// A reactor over the two rings, with the timer descriptor and the read
    /// end of the park pipe; nothing is with the kernel yet.
    pub fn new(sq: SubmissionQueue, cq: CompletionQueue, timer_fd: i32, park_fd: i32) -> (r: Self)
        requires
            sq.wf(),
            cq.wf(),
        ensures
            r.wf(),
            r.sq_model() == sq,
            r.cq_model() == cq,
            r.state_model() == initial_state(),
            r.registrations_model()@.len() == 0,
            r.timer_fd_model() == timer_fd,
            r.park_fd_model() == park_fd,
    {
        let registrations = Registrations::new();
        ReactorCore { sq, cq, state: CompletionState::new(), registrations, timer_fd, park_fd }
    }

    /// The completion state.
    pub fn state(&self) -> (r: CompletionState)
        ensures
            r == self.state_model(),
    {
        self.state
    }

    /// The number of live registrations.
    pub fn live_registrations(&self) -> (r: usize)
        requires
            self.wf(),
        ensures
            r == crate::registration::live_records(self.registrations_model()@),
    {
        self.registrations.live_count()
    }

    /// Dispatches one completion. `user_data` 0 is ignored. An even value is
    /// delivered to its registration, if the kernel holds it. `TIMER` and
    /// `PARK` mark their poll as to be requeued (the timer also as fired).
    /// Each delivered completion ends one request of `active_wait`. Anything
    /// else is unexpected and changes nothing.
    ///
    /// A `TIMER` or `PARK` completion is taken only while that poll is with
    /// the kernel (its requeue flag is clear), which is always so for the
    /// completions of this reactor's own requests. One that arrives while
    /// the flag is set matches no request: it is deliberately reported as
    /// unexpected rather than counted, since `active_wait` does not hold it
    /// and lowering it would lose a request that is still in flight.
    pub fn handle_completion(&mut self, cqe: CompletionEntry) -> (r: CompletionAction<W>)
        requires
            old(self).wf(),
        ensures
            final(self).wf(),
            final(self).sq_model() == old(self).sq_model(),
            final(self).cq_model() == old(self).cq_model(),
            final(self).timer_fd_model() == old(self).timer_fd_model(),
            final(self).park_fd_model() == old(self).park_fd_model(),
            r is Ignored <==> cqe.user_data == 0,
            r is Unexpected || r is Ignored ==> final(self).same_as(old(self)),
            cqe.user_data != 0 && cqe.user_data % 2 == 0 ==> if old(self).registrations_model().is_live(
                cqe.user_data,
            ) && old(self).registrations_model().slot(cqe.user_data).held_by_kernel {
                &&& r == CompletionAction::<W>::Woken(
                    old(self).registrations_model().slot(cqe.user_data).waker,
                )
                &&& final(self).registrations_model().notified(
                    &old(self).registrations_model(),
                    cqe.user_data,
                    UringResult { result: cqe.res, flags: cqe.flags },
                )
                &&& final(self).state_model() == (CompletionState {
                    active_wait: (old(self).state_model().active_wait - 1) as usize,
                    ..old(self).state_model()
                })
            } else {
                r is Unexpected
            },
            cqe.user_data == TIMER ==> match timer_delivered(old(self).state_model()) {
                Some(next) => {
                    &&& r is TimerFired
                    &&& final(self).registrations_model() == old(self).registrations_model()
                    &&& final(self).state_model() == next
                },
                None => r is Unexpected,
            },
            cqe.user_data == PARK ==> if !old(self).state_model().requeue_park {
                &&& r is ParkWoken
                &&& final(self).registrations_model() == old(self).registrations_model()
                &&& final(self).state_model() == (CompletionState {
                    requeue_park: true,
                    active_wait: (old(self).state_model().active_wait - 1) as usize,
                    ..old(self).state_model()
                })
            } else {
                r is Unexpected
            },
            cqe.user_data % 2 == 1 && cqe.user_data != TIMER && cqe.user_data != PARK
                ==> r is Unexpected,
    {
        let user_data = cqe.user_data;
        if user_data == 0 {
            return CompletionAction::Ignored;
        }
        if user_data % 2 == 0 {
            let result = UringResult { result: cqe.res, flags: cqe.flags };
            match self.registrations.notify(user_data, result) {
                Ok(waker) => {
                    self.state.active_wait = self.state.active_wait - 1;
                    CompletionAction::Woken(waker)
                },
                Err(()) => CompletionAction::Unexpected,
            }
        } else if user_data == TIMER {
            if self.state.requeue_timer {
                return CompletionAction::Unexpected;
            }
            self.state.requeue_timer = true;
            self.state.timer_pending = true;
            self.state.active_wait = self.state.active_wait - 1;
            CompletionAction::TimerFired
        } else if user_data == PARK {
            if self.state.requeue_park {
                return CompletionAction::Unexpected;
            }
            self.state.requeue_park = true;
            self.state.active_wait = self.state.active_wait - 1;
            CompletionAction::ParkWoken
        } else {
            CompletionAction::Unexpected
        }
    }

    /// Queues the poll on the timer descriptor, if a slot is free.
    fn queue_timer_poll(&mut self) -> (r: Result<(), SubmissionError<()>>)
        requires
            old(self).wf(),
            old(self).state_model().requeue_timer,
        ensures
            final(self).wf(),
            r is Ok <==> old(self).free_slots() > 0,
            r is Err ==> final(self).same_as(old(self)) && r == Err::<(), SubmissionError<()>>(
                SubmissionError::QueueFull,
            ),
            r is Ok ==> final(self).sq_model()@ == after_submit(
                old(self).sq_model()@,
                poll_entry(old(self).timer_fd_model(), POLL_IN, TIMER),
            ) && final(self).state_model() == (CompletionState {
                requeue_timer: false,
                active_wait: (old(self).state_model().active_wait + 1) as usize,
                ..old(self).state_model()
            }),
            final(self).registrations_model() == old(self).registrations_model(),
            final(self).cq_model() == old(self).cq_model(),
            final(self).timer_fd_model() == old(self).timer_fd_model(),
            final(self).park_fd_model() == old(self).park_fd_model(),
    {
        proof {
            self.lemma_active_wait_bound();
            self.sq.lemma_wf_bounds();
        }
        let mut entry = SubmissionEntry::zeroed();
        entry.poll_add(FileDescriptor::FD(self.timer_fd), POLL_IN);
        entry.user_data = TIMER;
        self.sq.submit(entry)?;
        self.state.requeue_timer = false;
        self.state.active_wait = self.state.active_wait + 1;
        Ok(())
    }

    /// Queues the poll on the park pipe, if a slot is free.
    fn queue_park_read(&mut self) -> (r: Result<(), SubmissionError<()>>)
        requires
            old(self).wf(),
            old(self).state_model().requeue_park,
        ensures
            final(self).wf(),
            r is Ok <==> old(self).free_slots() > 0,
            r is Err ==> final(self).same_as(old(self)) && r == Err::<(), SubmissionError<()>>(
                SubmissionError::QueueFull,
            ),
            r is Ok ==> final(self).sq_model()@ == after_submit(
                old(self).sq_model()@,
                poll_entry(old(self).park_fd_model(), POLL_IN, PARK),
            ) && final(self).state_model() == (CompletionState {
                requeue_park: false,
                active_wait: (old(self).state_model().active_wait + 1) as usize,
                ..old(self).state_model()
            }),
            final(self).registrations_model() == old(self).registrations_model(),
            final(self).cq_model() == old(self).cq_model(),
            final(self).timer_fd_model() == old(self).timer_fd_model(),
            final(self).park_fd_model() == old(self).park_fd_model(),
    {
        proof {
            self.lemma_active_wait_bound();
            self.sq.lemma_wf_bounds();
        }
        let mut entry = SubmissionEntry::zeroed();
        entry.poll_add(FileDescriptor::FD(self.park_fd), POLL_IN);
        entry.user_data = PARK;
        self.sq.submit(entry)?;
        self.state.requeue_park = false;
        self.state.active_wait = self.state.active_wait + 1;
        Ok(())
    }

    /// The first half of a park, after the caller drained the completions
    /// (`received`: at least one arrived) and read the unpark flag
    /// (`unpark_pending`). When the park may wait: a `timeout` arms the
    /// timer, else a fired timer is disarmed; then the internal polls that
    /// must be requeued are queued. The plan waits only if that all fit;
    /// see `planned_wait`.
    pub fn park_begin(
        &mut self,
        wait: bool,
        timeout: Option<WaitTime>,
        received: bool,
        unpark_pending: bool,
    ) -> (r: ParkPlan)
        requires
            old(self).wf(),
        ensures
            final(self).wf(),
            final(self).cq_model() == old(self).cq_model(),
            final(self).registrations_model() == old(self).registrations_model(),
            final(self).timer_fd_model() == old(self).timer_fd_model(),
            final(self).park_fd_model() == old(self).park_fd_model(),
            r.wait == planned_wait(
                wait,
                received,
                unpark_pending,
                count(old(self).state_model().requeue_timer) + count(
                    old(self).state_model().requeue_park,
                ),
                old(self).free_slots(),
            ),
            !(wait && !received && !unpark_pending) ==> r.timer == TimerAction::Keep
                && final(self).same_as(old(self)),
            wait && !received && !unpark_pending ==> {
                &&& r.timer == match timeout {
                    Some(t) => TimerAction::Arm(t),
                    None => if old(self).state_model().timer_pending {
                        TimerAction::Disarm
                    } else {
                        TimerAction::Keep
                    },
                }
                &&& !final(self).state_model().timer_pending
            },
            final(self).sq_model()@ == after_internal_polls(
                old(self).sq_model()@,
                old(self).state_model().requeue_timer && !final(self).state_model().requeue_timer,
                old(self).state_model().requeue_park && !final(self).state_model().requeue_park,
                old(self).timer_fd_model(),
                old(self).park_fd_model(),
            ),
            final(self).sq_model().pending() == old(self).sq_model().pending() + count(
                old(self).state_model().requeue_timer && !final(self).state_model().requeue_timer,
            ) + count(
                old(self).state_model().requeue_park && !final(self).state_model().requeue_park,
            ),
            final(self).state_model().requeue_timer == (old(self).state_model().requeue_timer && !(
            wait && !received && !unpark_pending && old(self).free_slots() > 0)),
            final(self).state_model().requeue_park == (old(self).state_model().requeue_park && !(
            wait && !received && !unpark_pending && old(self).free_slots() > count(
                old(self).state_model().requeue_timer,
            ))),
    {
        proof {
            self.sq.lemma_wf_bounds();
        }
        let mut wait = wait && !received && !unpark_pending;
        if !wait {
            return ParkPlan { timer: TimerAction::Keep, wait: false };
        }
        let timer = match timeout {
            Some(t) => {
                self.state.timer_pending = false;
                TimerAction::Arm(t)
            },
            None => {
                if self.state.timer_pending {
                    self.state.timer_pending = false;
                    TimerAction::Disarm
                } else {
                    TimerAction::Keep
                }
            },
        };
        if self.state.requeue_timer {
            if self.queue_timer_poll().is_err() {
                wait = false;
            }
        }
        proof {
            self.sq.lemma_wf_bounds();
        }
        if wait && self.state.requeue_park {
            if self.queue_park_read().is_err() {
                wait = false;
            }
        }
        ParkPlan { timer, wait }
    }

    /// The second half of a park, after the caller published the queued
    /// entries, observed the kernel's head and entered the park
    /// (`allow_wait`: no unpark came in between): how to call
    /// `io_uring_enter`, if at all.
    pub fn park_enter(&self, wait: bool, allow_wait: bool) -> (r: Option<EnterArgs>)
        requires
            self.wf(),
        ensures
            r == enter_decision(wait, allow_wait, self.sq_model().pending() as u32),
    {
        let pending = self.sq.pending_submissions();
        let w = wait && allow_wait;
        if pending == 0 && !w {
            return None;
        }
        if w {
            Some(EnterArgs { to_submit: pending, min_complete: 1, flags: ENTER_GETEVENTS })
        } else {
            Some(EnterArgs { to_submit: pending, min_complete: 0, flags: 0 })
        }
    }

    /// Queues the vectored read (`write` false) or write of the one iovec at
    /// `iov_addr` for the registration `key`, which the kernel then holds.
    fn queue_io(&mut self, write: bool, fd: i32, offset: u64, iov_addr: u64, key: u64) -> (r: Result<
        (),
        ReactorError,
    >)
        requires
            old(self).wf(),
        ensures
            final(self).wf(),
            final(self).keeps_cq_and_fds(old(self)),
            final(self).queue_outcome(
                old(self),
                key,
                io_entry(if write { 2u8 } else { 1u8 }, fd, offset, iov_addr, key),
                r,
            ),
    {
        proof {
            self.lemma_active_wait_bound();
            self.sq.lemma_wf_bounds();
        }
        if !self.registrations.can_submit(key) {
            return Err(ReactorError::InvalidRegistration);
        }
        if self.sq.is_full() {
            return Err(ReactorError::QueueFull);
        }
        let mut entry = SubmissionEntry::zeroed();
        if write {
            entry.writev(IoPriority::Unspecified, FileDescriptor::FD(fd), offset, 0, iov_addr, 1);
        } else {
            entry.readv(IoPriority::Unspecified, FileDescriptor::FD(fd), offset, 0, iov_addr, 1);
        }
        entry.user_data = key;
        match self.sq.submit(entry) {
            Ok(()) => {},
            Err(e) => return Err(sq_full_map_err(e)),
        }
        self.registrations.hand_to_kernel(key);
        self.state.active_wait = self.state.active_wait + 1;
        Ok(())
    }

    /// Queues a vectored read of the one iovec at `iov_addr` from `fd` at
    /// `offset`, for the registration `key`. Fails, changing nothing, with
    /// `InvalidRegistration` unless `key` names a registration whose owner
    /// holds it, the kernel does not and that has not finished; else with
    /// `QueueFull` when no slot is free.
    pub fn queue_async_read(&mut self, fd: i32, offset: u64, iov_addr: u64, key: u64) -> (r: Result<
        (),
        ReactorError,
    >)
        requires
            old(self).wf(),
        ensures
            final(self).wf(),
            final(self).keeps_cq_and_fds(old(self)),
            final(self).queue_outcome(old(self), key, io_entry(1, fd, offset, iov_addr, key), r),
    {
        self.queue_io(false, fd, offset, iov_addr, key)
    }

    /// Queues a vectored write of the one iovec at `iov_addr` to `fd` at
    /// `offset`, for the registration `key`; fails as `queue_async_read` does.
    pub fn queue_async_write(&mut self, fd: i32, offset: u64, iov_addr: u64, key: u64) -> (r: Result<
        (),
        ReactorError,
    >)
        requires
            old(self).wf(),
        ensures
            final(self).wf(),
            final(self).keeps_cq_and_fds(old(self)),
            final(self).queue_outcome(old(self), key, io_entry(2, fd, offset, iov_addr, key), r),
    {
        self.queue_io(true, fd, offset, iov_addr, key)
    }

    /// Registers `context` and queues a vectored read (`write` false) or
    /// write for it, of the one iovec at `iov_addr`, which lies inside the
    /// context. On failure nothing changes and the context comes back.
    fn submit_io(&mut self, write: bool, fd: i32, offset: u64, iov_addr: u64, context: C) -> (r:
        Result<u64, (ReactorError, Option<C>)>)
        requires
            old(self).wf(),
        ensures
            final(self).wf(),
            final(self).keeps_cq_and_fds(old(self)),
            final(self).start_outcome(
                old(self),
                context,
                (|k: u64| io_entry(if write { 2u8 } else { 1u8 }, fd, offset, iov_addr, k)),
                r,
            ),
    {
        proof {
            self.sq.lemma_wf_bounds();
        }
        if self.sq.is_full() {
            return Err((ReactorError::QueueFull, Some(context)));
        }
        let key = match self.registrations.register(Some(context)) {
            Ok(key) => key,
            Err(c) => return Err((ReactorError::TooManyRegistrations, c)),
        };
        let ghost mid = self.registrations;
        let ghost before = *self;
        proof {
            self.lemma_active_wait_bound();
        }
        let r = self.queue_io(write, fd, offset, iov_addr, key);
        assert(r is Ok);
        proof {
            let entry = io_entry(if write { 2u8 } else { 1u8 }, fd, offset, iov_addr, key);
            assert(self.queued_request(&before, key, entry));
            assert(self.sq_model()@ == after_submit(old(self).sq_model()@, entry));
            assert(self.state_model().active_wait == old(self).state_model().active_wait + 1);
            assert forall|k: u64| k != key implies #[trigger] self.registrations.is_live(k)
                == mid.is_live(k) && (mid.is_live(k) ==> self.registrations.slot(k) == mid.slot(
                k,
            )) by {
                if mid.is_key(k) {
                    assert(index_of(k) != index_of(key));
                }
            }
        }
        Ok(key)
    }

    /// Starts a read: registers `context` (which holds the buffer and the
    /// iovec at `iov_addr` that describes it) and queues a vectored read
    /// from `fd` at `offset` under the registration's key. Fails with
    /// `QueueFull` when no slot is free, else with `TooManyRegistrations` when
    /// the table is full; on failure nothing changes and the context comes
    /// back.
    pub fn submit_read(&mut self, fd: i32, offset: u64, iov_addr: u64, context: C) -> (r: Result<
        u64,
        (ReactorError, Option<C>),
    >)
        requires
            old(self).wf(),
        ensures
            final(self).wf(),
            final(self).keeps_cq_and_fds(old(self)),
            final(self).start_outcome(
                old(self),
                context,
                (|k: u64| io_entry(1, fd, offset, iov_addr, k)),
                r,
            ),
    {
        self.submit_io(false, fd, offset, iov_addr, context)
    }

    /// Starts a write: as `submit_read`, with a vectored write to `fd`.
    pub fn submit_write(&mut self, fd: i32, offset: u64, iov_addr: u64, context: C) -> (r: Result<
        u64,
        (ReactorError, Option<C>),
    >)
        requires
            old(self).wf(),
        ensures
            final(self).wf(),
            final(self).keeps_cq_and_fds(old(self)),
            final(self).start_outcome(
                old(self),
                context,
                (|k: u64| io_entry(2, fd, offset, iov_addr, k)),
                r,
            ),
    {
        self.submit_io(true, fd, offset, iov_addr, context)
    }

    /// Registers a reusable record without context, for a stream of polls.
    pub fn register_poll(&mut self) -> (r: Result<u64, ReactorError>)
        requires
            old(self).wf(),
        ensures
            final(self).wf(),
            final(self).sq_model() == old(self).sq_model(),
            final(self).cq_model() == old(self).cq_model(),
            final(self).state_model() == old(self).state_model(),
            final(self).timer_fd_model() == old(self).timer_fd_model(),
            final(self).park_fd_model() == old(self).park_fd_model(),
            r is Err ==> r == Err::<u64, ReactorError>(ReactorError::TooManyRegistrations)
                && final(self).registrations_model()@ == old(self).registrations_model()@,
            old(self).registrations_model()@.len() < MAX_REGISTRATIONS ==> r is Ok,
            r matches Ok(key) ==> key != 0 && key % 2 == 0 && !old(
                self,
            ).registrations_model().is_live(key) && final(self).registrations_model().slot(key)
                == fresh_slot::<C, W>(None) && final(self).registrations_model().is_submittable(key),
    {
        match self.registrations.register(None) {
            Ok(key) => Ok(key),
            Err(_) => Err(ReactorError::TooManyRegistrations),
        }
    }

    /// Queues a poll of `fd` for the events in `flags`, for the registration
    /// `key`; fails as `queue_async_read` does.
    pub fn queue_async_poll(&mut self, fd: i32, flags: PollFlags, key: u64) -> (r: Result<
        (),
        ReactorError,
    >)
        requires
            old(self).wf(),
        ensures
            final(self).wf(),
            final(self).keeps_cq_and_fds(old(self)),
            final(self).queue_outcome(old(self), key, poll_entry(fd, flags, key), r),
    {
        proof {
            self.lemma_active_wait_bound();
            self.sq.lemma_wf_bounds();
        }
        if !self.registrations.can_submit(key) {
            return Err(ReactorError::InvalidRegistration);
        }
        if self.sq.is_full() {
            return Err(ReactorError::QueueFull);
        }
        let mut entry = SubmissionEntry::zeroed();
        entry.poll_add(FileDescriptor::FD(fd), flags);
        entry.user_data = key;
        match self.sq.submit(entry) {
            Ok(()) => {},
            Err(e) => return Err(sq_full_map_err(e)),
        }
        self.registrations.hand_to_kernel(key);
        self.state.active_wait = self.state.active_wait + 1;
        Ok(())
    }

    /// Polls the registration `key` of a read or write for its owner; see
    /// `Registrations::poll`.
    pub fn poll_operation(&mut self, key: u64, waker: W) -> (r: RegistrationPoll<C>)
        requires
            old(self).wf(),
        ensures
            final(self).wf(),
            final(self).sq_model() == old(self).sq_model(),
            final(self).cq_model() == old(self).cq_model(),
            final(self).state_model() == old(self).state_model(),
            final(self).timer_fd_model() == old(self).timer_fd_model(),
            final(self).park_fd_model() == old(self).park_fd_model(),
            r is Invalid <==> !(old(self).registrations_model().is_live(key) && old(
                self,
            ).registrations_model().slot(key).held_by_owner),
            r is Invalid ==> final(self).registrations_model()@ == old(self).registrations_model()@,
            r is Ready ==> old(self).registrations_model().slot(key).finished && final(self).registrations_model().same_except(&old(self).registrations_model(), key) && !final(self).registrations_model().is_live(key) && r == RegistrationPoll::Ready(
                old(self).registrations_model().slot(key).result,
                old(self).registrations_model().slot(key).context,
            ),
            r is Pending ==> !old(self).registrations_model().slot(key).finished && final(self).registrations_model().same_except(&old(self).registrations_model(), key) && final(self).registrations_model().is_live(key) && final(self).registrations_model().slot(key)
                == (Slot { waker: Some(waker), ..old(self).registrations_model().slot(key) }),
    {
        self.registrations.poll(key, waker)
    }

    /// Polls the reusable registration `key` of a stream of polls; see
    /// `Registrations::poll_and_reset`.
    pub fn poll_stream(&mut self, key: u64, waker: W) -> (r: RegistrationPoll<C>)
        requires
            old(self).wf(),
        ensures
            final(self).wf(),
            final(self).sq_model() == old(self).sq_model(),
            final(self).cq_model() == old(self).cq_model(),
            final(self).state_model() == old(self).state_model(),
            final(self).timer_fd_model() == old(self).timer_fd_model(),
            final(self).park_fd_model() == old(self).park_fd_model(),
            r is Invalid <==> !(old(self).registrations_model().is_live(key) && old(
                self,
            ).registrations_model().slot(key).held_by_owner),
            r is Invalid ==> final(self).registrations_model()@ == old(self).registrations_model()@,
            r is Ready ==> old(self).registrations_model().slot(key).finished && final(self).registrations_model().same_except(&old(self).registrations_model(), key) && final(self).registrations_model().is_live(key) && final(self).registrations_model().slot(key)
                == (Slot { finished: false, ..old(self).registrations_model().slot(key) }) && r
                == RegistrationPoll::<C>::Ready(
                old(self).registrations_model().slot(key).result,
                None,
            ),
            r is Pending ==> !old(self).registrations_model().slot(key).finished && final(self).registrations_model().same_except(&old(self).registrations_model(), key) && final(self).registrations_model().is_live(key) && final(self).registrations_model().slot(key)
                == (Slot { waker: Some(waker), ..old(self).registrations_model().slot(key) }),
    {
        self.registrations.poll_and_reset(key, waker)
    }

    /// The owner of registration `key` lets go of it; see
    /// `Registrations::release`. A request still with the kernel keeps its
    /// record (and the buffers in it) until its completion arrives.
    pub fn release(&mut self, key: u64) -> (r: bool)
        requires
            old(self).wf(),
        ensures
            final(self).wf(),
            final(self).sq_model() == old(self).sq_model(),
            final(self).cq_model() == old(self).cq_model(),
            final(self).state_model() == old(self).state_model(),
            final(self).timer_fd_model() == old(self).timer_fd_model(),
            final(self).park_fd_model() == old(self).park_fd_model(),
            r <==> old(self).registrations_model().is_live(key) && old(
                self,
            ).registrations_model().slot(key).held_by_owner,
            !r ==> final(self).registrations_model()@ == old(self).registrations_model()@,
            r ==> final(self).registrations_model().same_except(&old(self).registrations_model(), key)
                && (if old(self).registrations_model().slot(key).held_by_kernel {
                final(self).registrations_model().is_live(key) && final(self).registrations_model().slot(key) == (Slot {
                    held_by_owner: false,
                    ..old(self).registrations_model().slot(key)
                })
            } else {
                !final(self).registrations_model().is_live(key)
            }),
    {
        self.registrations.release(key)
    }

    /// Takes in the kernel's submission `head`; see `SubmissionQueue::refresh_head`.
    pub fn refresh_sq_head(&mut self, kernel_head: u32) -> (r: bool)
        requires
            old(self).wf(),
        ensures
            final(self).wf(),
            final(self).cq_model() == old(self).cq_model(),
            final(self).state_model() == old(self).state_model(),
            final(self).registrations_model() == old(self).registrations_model(),
            final(self).timer_fd_model() == old(self).timer_fd_model(),
            final(self).park_fd_model() == old(self).park_fd_model(),
            r == (ring_distance(old(self).sq_model()@.head, kernel_head) <= ring_distance(
                old(self).sq_model()@.head,
                old(self).sq_model()@.published,
            )),
            r ==> final(self).sq_model()@ == (SubmissionQueueView {
                head: kernel_head,
                ..old(self).sq_model()@
            }),
            !r ==> final(self).sq_model()@ == old(self).sq_model()@,
    {
        self.sq.refresh_head(kernel_head)
    }

    /// Whether the submission ring looks full by the head last observed.
    pub fn sq_needs_head_refresh(&self) -> (r: bool)
        ensures
            r == ring_full(self.sq_model()@.head, self.sq_model()@.tail, self.sq_model()@.mask),
    {
        self.sq.needs_head_refresh()
    }

    /// Publishes the queued entries; see `SubmissionQueue::publish`.
    pub fn publish(&mut self) -> (r: (u32, Vec<usize>))
        requires
            old(self).wf(),
        ensures
            final(self).wf(),
            final(self).cq_model() == old(self).cq_model(),
            final(self).state_model() == old(self).state_model(),
            final(self).registrations_model() == old(self).registrations_model(),
            final(self).timer_fd_model() == old(self).timer_fd_model(),
            final(self).park_fd_model() == old(self).park_fd_model(),
            final(self).sq_model()@ == (SubmissionQueueView {
                published: old(self).sq_model()@.tail,
                ..old(self).sq_model()@
            }),
            r.0 == old(self).sq_model()@.tail,
            r.1@.len() == ring_distance(old(self).sq_model()@.published, old(self).sq_model()@.tail),
            forall|i: int|
                0 <= i < r.1@.len() ==> r.1@[i] == slot_of(
                    old(self).sq_model()@.published + i,
                    old(self).sq_model()@.mask,
                ),
    {
        self.sq.publish()
    }

    /// The entry staged in submission slot `slot`.
    pub fn sq_entry(&self, slot: usize) -> (r: SubmissionEntry)
        requires
            slot < self.sq_model()@.entries.len(),
        ensures
            r == self.sq_model()@.entries[slot as int],
    {
        self.sq.entry(slot)
    }

    /// Whether no completion is left by the tail last observed.
    pub fn cq_is_empty(&self) -> (r: bool)
        requires
            self.wf(),
        ensures
            r == (self.cq_model().ready() == 0),
    {
        self.cq.is_empty()
    }

    /// Takes in the kernel's completion `tail`; see `CompletionQueue::refresh_tail`.
    pub fn refresh_cq_tail(&mut self, kernel_tail: u32) -> (r: bool)
        requires
            old(self).wf(),
        ensures
            final(self).wf(),
            final(self).sq_model() == old(self).sq_model(),
            final(self).state_model() == old(self).state_model(),
            final(self).registrations_model() == old(self).registrations_model(),
            final(self).timer_fd_model() == old(self).timer_fd_model(),
            final(self).park_fd_model() == old(self).park_fd_model(),
            r == (ring_distance(old(self).cq_model()@.head, old(self).cq_model()@.tail)
                <= ring_distance(old(self).cq_model()@.head, kernel_tail)
                <= old(self).cq_model()@.entries),
            r ==> final(self).cq_model()@ == (CompletionQueueView {
                tail: kernel_tail,
                ..old(self).cq_model()@
            }),
            !r ==> final(self).cq_model()@ == old(self).cq_model()@,
    {
        self.cq.refresh_tail(kernel_tail)
    }

    /// Consumes the completion at the head; see `CompletionQueue::next_slot`.
    pub fn next_completion_slot(&mut self) -> (r: Option<usize>)
        requires
            old(self).wf(),
        ensures
            final(self).wf(),
            final(self).sq_model() == old(self).sq_model(),
            final(self).state_model() == old(self).state_model(),
            final(self).registrations_model() == old(self).registrations_model(),
            final(self).timer_fd_model() == old(self).timer_fd_model(),
            final(self).park_fd_model() == old(self).park_fd_model(),
            r is None <==> old(self).cq_model().ready() == 0,
            r is None ==> final(self).cq_model()@ == old(self).cq_model()@,
            r matches Some(s) ==> s == slot_of(
                old(self).cq_model()@.head as int,
                old(self).cq_model()@.mask,
            ) && final(self).cq_model()@ == (CompletionQueueView {
                head: ((old(self).cq_model()@.head + 1) % 0x1_0000_0000) as u32,
                ..old(self).cq_model()@
            }),
    {
        self.cq.next_slot()
    }

    /// The completion head to store in the ring.
    pub fn cq_head(&self) -> (r: u32)
        ensures
            r == self.cq_model()@.head,
    {
        self.cq.head()
    }

    /// At quiescence, with no request of a task and no internal poll with
    /// the kernel, `active_wait` is zero; and it is zero only then.
    pub proof fn lemma_quiescent_active_wait(&self)
        requires
            self.wf(),
        ensures
            self.state_model().active_wait == 0 <==> (held_count(self.registrations_model()@) == 0
                && self.state_model().requeue_timer && self.state_model().requeue_park),
    {
    }

    proof fn lemma_active_wait_bound(&self)
        requires
            self.wf(),
        ensures
            self.state_model().active_wait <= MAX_REGISTRATIONS + 2,
    {
        lemma_held_count_bound(self.registrations_model()@);
    }
}

} // verus!
