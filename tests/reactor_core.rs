use uring_reactor::reactor::{
    operation_outcome, park_timeout_request, poll_outcome, sq_full_map_err, unpark_needs_wakeup,
    CompletionAction, CompletionState, EnterArgs, ReactorCore, ReactorError, TimerAction,
    WaitTime, PARK, TIMER,
};
use uring_reactor::io::{split, AcceptOutcome, IncomingState, IncomingStep};
use uring_reactor::registration::{RegistrationPoll, Registrations, UringResult};
use uring_reactor::ring::{CompletionQueue, SubmissionError, SubmissionQueue};
use uring_reactor::sys::{CompletionEntry, RawOperation, ENTER_GETEVENTS, POLL_IN};

type Core = ReactorCore<Vec<u8>, u32>;

fn new_core(entries: u32) -> Core {
    let sq = SubmissionQueue::new(entries, entries, entries - 1, 0, 0).unwrap();
    let cq = CompletionQueue::new(2 * entries, 2 * entries, 2 * entries - 1, 0, 0).unwrap();
    ReactorCore::new(sq, cq, 10, 11)
}

fn cqe(user_data: u64, res: i32) -> CompletionEntry {
    CompletionEntry { user_data, res, flags: 0 }
}

fn no_wait() -> Option<WaitTime> {
    None
}

#[test]
fn initial_state_requeues_both_polls() {
    let s = CompletionState::new();
    assert!(s.requeue_timer);
    assert!(s.requeue_park);
    assert!(!s.timer_pending);
    assert_eq!(s.active_wait, 0);
}

#[test]
fn first_park_queues_timer_and_park_polls() {
    let mut c = new_core(8);
    let plan = c.park_begin(true, no_wait(), false, false);
    assert!(plan.wait);
    assert_eq!(plan.timer, TimerAction::Keep);
    assert_eq!(c.state().active_wait, 2);
    assert!(!c.state().requeue_timer);
    assert!(!c.state().requeue_park);
    let (tail, slots) = c.publish();
    assert_eq!(tail, 2);
    assert_eq!(slots, vec![0, 1]);
    let timer = c.sq_entry(0);
    assert_eq!(timer.user_data, TIMER);
    assert_eq!(timer.fd, 10);
    assert_eq!(timer.opcode, RawOperation(6));
    assert_eq!(timer.op_flags, POLL_IN as u32);
    let park = c.sq_entry(1);
    assert_eq!(park.user_data, PARK);
    assert_eq!(park.fd, 11);
    assert_eq!(
        c.park_enter(plan.wait, true),
        Some(EnterArgs { to_submit: 2, min_complete: 1, flags: ENTER_GETEVENTS })
    );
}

#[test]
fn park_after_completion_does_not_wait() {
    let mut c = new_core(8);
    let plan = c.park_begin(true, no_wait(), true, false);
    assert!(!plan.wait);
    assert_eq!(c.state().active_wait, 0);
    // nothing to submit and no wait: no enter call at all
    assert_eq!(c.park_enter(plan.wait, true), None);
}

#[test]
fn park_after_completion_submits_without_waiting() {
    let mut c = new_core(8);
    let key = c.submit_read(3, 0, 0x1000, vec![0u8; 4]).ok().unwrap();
    assert_eq!(key % 2, 0);
    let plan = c.park_begin(true, no_wait(), true, false);
    assert!(!plan.wait);
    let args = c.park_enter(plan.wait, true).unwrap();
    assert_eq!(args.min_complete, 0);
    assert_eq!(args.flags & ENTER_GETEVENTS, 0);
    assert_eq!(args.to_submit, 1);
}

#[test]
fn unpark_before_park_does_not_wait() {
    let mut c = new_core(8);
    let plan = c.park_begin(true, no_wait(), false, true);
    assert!(!plan.wait);
    assert_eq!(c.park_enter(plan.wait, false), None);
    // an unpark between the plan and the entry also prevents the wait
    let mut c = new_core(8);
    let plan = c.park_begin(true, no_wait(), false, false);
    assert!(plan.wait);
    let args = c.park_enter(plan.wait, false).unwrap();
    assert_eq!(args.min_complete, 0);
    assert_eq!(args.flags, 0);
}

#[test]
fn zero_timeout_never_waits() {
    let (wait, timeout) = park_timeout_request(WaitTime { secs: 0, nanos: 0 });
    assert!(!wait);
    assert_eq!(timeout, None);
    let mut c = new_core(8);
    let plan = c.park_begin(wait, timeout, false, false);
    assert!(!plan.wait);
    assert_eq!(plan.timer, TimerAction::Keep);
    assert_eq!(c.park_enter(plan.wait, true), None);
    let (wait, timeout) = park_timeout_request(WaitTime { secs: 0, nanos: 5 });
    assert!(wait);
    assert_eq!(timeout, Some(WaitTime { secs: 0, nanos: 5 }));
}

#[test]
fn timeout_arms_timer_and_fired_timer_is_disarmed() {
    let mut c = new_core(8);
    let t = WaitTime { secs: 3, nanos: 0 };
    let plan = c.park_begin(true, Some(t), false, false);
    assert_eq!(plan.timer, TimerAction::Arm(t));
    assert!(plan.wait);
    c.publish();
    assert!(matches!(c.handle_completion(cqe(TIMER, 1)), CompletionAction::TimerFired));
    assert!(c.state().timer_pending);
    assert!(c.state().requeue_timer);
    assert_eq!(c.state().active_wait, 1);
    let plan = c.park_begin(true, no_wait(), false, false);
    assert_eq!(plan.timer, TimerAction::Disarm);
    assert!(!c.state().timer_pending);
    assert_eq!(c.state().active_wait, 2);
}

#[test]
fn one_timer_delivery_per_arm() {
    let mut c = new_core(8);
    c.park_begin(true, Some(WaitTime { secs: 1, nanos: 0 }), false, false);
    assert!(matches!(c.handle_completion(cqe(TIMER, 1)), CompletionAction::TimerFired));
    assert!(matches!(c.handle_completion(cqe(TIMER, 1)), CompletionAction::Unexpected));
    assert_eq!(c.state().active_wait, 1);
}

#[test]
fn park_completion_requeues_park_poll() {
    let mut c = new_core(8);
    c.park_begin(true, no_wait(), false, false);
    assert!(matches!(c.handle_completion(cqe(PARK, 1)), CompletionAction::ParkWoken));
    assert!(c.state().requeue_park);
    assert!(matches!(c.handle_completion(cqe(PARK, 1)), CompletionAction::Unexpected));
}

#[test]
fn full_queue_abandons_wait() {
    let mut c = new_core(2);
    c.submit_read(3, 0, 0x1000, vec![0u8; 1]).ok().unwrap();
    let plan = c.park_begin(true, no_wait(), false, false);
    // the timer poll took the last slot; the park poll did not fit
    assert!(!plan.wait);
    assert!(!c.state().requeue_timer);
    assert!(c.state().requeue_park);
    let args = c.park_enter(plan.wait, true).unwrap();
    assert_eq!(args.min_complete, 0);
    assert_eq!(args.to_submit, 2);
}

#[test]
fn unknown_and_zero_user_data() {
    let mut c = new_core(4);
    assert!(matches!(c.handle_completion(cqe(0, 0)), CompletionAction::Ignored));
    assert!(matches!(c.handle_completion(cqe(5, 0)), CompletionAction::Unexpected));
    assert!(matches!(c.handle_completion(cqe(2, 0)), CompletionAction::Unexpected));
    assert_eq!(c.state().active_wait, 0);
}

#[test]
fn read_completion_returns_buffer() {
    let mut c = new_core(4);
    let key = c.submit_read(3, 7, 0x1000, vec![1, 2, 3]).ok().unwrap();
    assert_ne!(key, 0);
    assert_eq!(key % 2, 0);
    assert_eq!(c.state().active_wait, 1);
    let (_, slots) = c.publish();
    let e = c.sq_entry(slots[0]);
    assert_eq!(e.opcode, RawOperation(1));
    assert_eq!(e.user_data, key);
    assert_eq!(e.fd, 3);
    assert_eq!(e.off, 7);
    assert_eq!(e.addr, 0x1000);
    assert_eq!(e.len, 1);
    assert!(matches!(c.poll_operation(key, 1), RegistrationPoll::Pending));
    match c.handle_completion(cqe(key, 3)) {
        CompletionAction::Woken(w) => assert_eq!(w, Some(1)),
        _ => panic!("expected a wakeup"),
    }
    assert_eq!(c.state().active_wait, 0);
    match c.poll_operation(key, 2) {
        RegistrationPoll::Ready(r, ctx) => {
            assert_eq!(r.result, 3);
            assert_eq!(ctx, Some(vec![1, 2, 3]));
            assert_eq!(operation_outcome(r), Ok(3));
        }
        _ => panic!("expected ready"),
    }
    assert!(matches!(c.poll_operation(key, 3), RegistrationPoll::Invalid));
    assert_eq!(c.live_registrations(), 0);
}

#[test]
fn second_completion_for_same_request_is_refused() {
    let mut c = new_core(4);
    let key = c.submit_write(3, 0, 0x1000, vec![9]).ok().unwrap();
    assert_eq!(c.sq_entry(0).opcode, RawOperation(2));
    assert!(matches!(c.handle_completion(cqe(key, 1)), CompletionAction::Woken(None)));
    assert!(matches!(c.handle_completion(cqe(key, 1)), CompletionAction::Unexpected));
    assert_eq!(c.state().active_wait, 0);
}

#[test]
fn submit_on_full_queue_returns_context() {
    let mut c = new_core(2);
    c.submit_read(3, 0, 0x1000, vec![1]).ok().unwrap();
    c.submit_read(3, 0, 0x2000, vec![2]).ok().unwrap();
    match c.submit_read(3, 0, 0x3000, vec![3]) {
        Err((e, ctx)) => {
            assert_eq!(e, ReactorError::QueueFull);
            assert_eq!(ctx, Some(vec![3]));
        }
        Ok(_) => panic!("queue should be full"),
    }
    assert_eq!(c.state().active_wait, 2);
    assert_eq!(c.live_registrations(), 2);
}

#[test]
fn failed_reads_each_return_their_buffer() {
    let n = 16u64;
    let mut c = new_core(32);
    let mut keys = Vec::new();
    for i in 0..n {
        keys.push(c.submit_read(3, 0, 0x1000 + i, vec![i as u8; 8]).ok().unwrap());
    }
    c.publish();
    for k in &keys {
        assert!(matches!(c.handle_completion(cqe(*k, -9)), CompletionAction::Woken(None)));
    }
    for (i, k) in keys.iter().enumerate() {
        match c.poll_operation(*k, 0) {
            RegistrationPoll::Ready(r, ctx) => {
                assert_eq!(operation_outcome(r), Err(ReactorError::Os(9)));
                assert_eq!(ctx, Some(vec![i as u8; 8]));
            }
            _ => panic!("expected ready"),
        }
    }
    assert_eq!(c.state().active_wait, 0);
    assert_eq!(c.live_registrations(), 0);
}

#[test]
fn many_operations_return_to_quiescence() {
    let mut c = new_core(64);
    c.park_begin(true, no_wait(), false, false);
    c.publish();
    let mut keys = Vec::new();
    for round in 0..10u8 {
        keys.clear();
        for i in 0..20u8 {
            keys.push(c.submit_write(4, 0, 0x1000, vec![round, i]).ok().unwrap());
        }
        assert_eq!(c.state().active_wait, 22);
        let (_, slots) = c.publish();
        assert_eq!(slots.len(), 20);
        assert!(c.refresh_sq_head(2 + 20 * (round as u32 + 1)));
        for k in &keys {
            assert!(matches!(c.handle_completion(cqe(*k, 2)), CompletionAction::Woken(None)));
        }
        for (i, k) in keys.iter().enumerate() {
            match c.poll_operation(*k, 0) {
                RegistrationPoll::Ready(r, ctx) => {
                    assert_eq!(r.result, 2);
                    assert_eq!(ctx, Some(vec![round, i as u8]));
                }
                _ => panic!("expected ready"),
            }
        }
        assert_eq!(c.state().active_wait, 2);
    }
    assert_eq!(c.live_registrations(), 0);
}

#[test]
fn dropped_operation_keeps_record_until_completion() {
    let mut c = new_core(4);
    let key = c.submit_read(3, 0, 0x1000, vec![5; 4]).ok().unwrap();
    assert!(c.release(key));
    assert_eq!(c.live_registrations(), 1);
    assert!(matches!(c.poll_operation(key, 0), RegistrationPoll::Invalid));
    assert!(matches!(c.handle_completion(cqe(key, 4)), CompletionAction::Woken(None)));
    assert_eq!(c.live_registrations(), 0);
    assert_eq!(c.state().active_wait, 0);
}

#[test]
fn poll_stream_resubmits_same_record() {
    let mut c = new_core(4);
    let key = c.register_poll().unwrap();
    assert_eq!(c.queue_async_poll(7, POLL_IN, key), Ok(()));
    assert_eq!(c.queue_async_poll(7, POLL_IN, key), Err(ReactorError::InvalidRegistration));
    assert!(matches!(c.poll_stream(key, 1), RegistrationPoll::Pending));
    assert!(matches!(c.handle_completion(cqe(key, 1)), CompletionAction::Woken(Some(1))));
    match c.poll_stream(key, 2) {
        RegistrationPoll::Ready(r, ctx) => {
            assert_eq!(poll_outcome(r), Ok(POLL_IN));
            assert_eq!(ctx, None);
        }
        _ => panic!("expected ready"),
    }
    assert_eq!(c.queue_async_poll(7, POLL_IN, key), Ok(()));
    assert_eq!(c.state().active_wait, 1);
    assert_eq!(c.live_registrations(), 1);
}

#[test]
fn outcomes_of_results() {
    assert_eq!(operation_outcome(UringResult { result: 0, flags: 0 }), Ok(0));
    assert_eq!(operation_outcome(UringResult { result: 512, flags: 0 }), Ok(512));
    assert_eq!(operation_outcome(UringResult { result: -11, flags: 0 }), Err(ReactorError::Os(11)));
    assert_eq!(
        operation_outcome(UringResult { result: i32::MIN, flags: 0 }),
        Err(ReactorError::Os(2147483648))
    );
    assert_eq!(poll_outcome(UringResult { result: 0x2005, flags: 0 }), Ok(0x2005));
    assert_eq!(poll_outcome(UringResult { result: -104, flags: 0 }), Err(ReactorError::Os(104)));
    assert_eq!(sq_full_map_err(SubmissionError::QueueFull), ReactorError::QueueFull);
}

#[test]
fn unpark_wakeup_decision() {
    assert!(unpark_needs_wakeup(false, true));
    assert!(!unpark_needs_wakeup(true, true));
    assert!(!unpark_needs_wakeup(false, false));
    assert!(!unpark_needs_wakeup(true, false));
}

#[test]
fn registration_keys_are_even_and_reused() {
    let mut t: Registrations<u8, u8> = Registrations::new();
    let a = t.register(Some(1)).ok().unwrap();
    let b = t.register(Some(2)).ok().unwrap();
    assert_eq!(a, 2);
    assert_eq!(b, 4);
    assert_eq!(t.abort(a), Ok(Some(1)));
    assert_eq!(t.abort(a), Err(()));
    let c = t.register(None).ok().unwrap();
    assert_eq!(c, 2);
    assert_eq!(t.live_count(), 2);
    assert!(t.can_submit(b));
    t.hand_to_kernel(b);
    assert!(!t.can_submit(b));
    assert_eq!(t.abort(b), Err(()));
    assert_eq!(t.notify(b, UringResult { result: 0, flags: 0 }), Ok(None));
    assert_eq!(t.notify(b, UringResult { result: 0, flags: 0 }), Err(()));
}

#[test]
fn accept_loop_steps() {
    let mut s = IncomingState::new();
    assert_eq!(s.next(), IncomingStep::AwaitReadiness);
    assert_eq!(s.on_ready(), IncomingStep::Accept);
    assert_eq!(s.on_accept(AcceptOutcome::Interrupted), IncomingStep::Accept);
    assert_eq!(s.on_accept(AcceptOutcome::Accepted), IncomingStep::Yield);
    assert_eq!(s.next(), IncomingStep::Accept);
    assert_eq!(s.on_accept(AcceptOutcome::WouldBlock), IncomingStep::AwaitReadiness);
    assert!(s.blocked);
    s.on_ready();
    assert_eq!(s.on_accept(AcceptOutcome::Failed), IncomingStep::Fail);
    let (r, w) = split(7u32);
    assert_eq!(*r.get_ref(), 7);
    assert_eq!(*w.get_ref(), 7);
}
