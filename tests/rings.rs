use uring_reactor::ring::{CompletionQueue, RingSetupError, SubmissionError, SubmissionQueue};
use uring_reactor::sys::SubmissionEntry;

fn entry(user_data: u64) -> SubmissionEntry {
    let mut e = SubmissionEntry::zeroed();
    e.user_data = user_data;
    e
}

#[test]
fn submission_ring_setup_checks() {
    assert_eq!(SubmissionQueue::new(8, 4, 3, 0, 0).err(), Some(RingSetupError::EntriesMismatch));
    assert_eq!(SubmissionQueue::new(6, 6, 5, 0, 0).err(), Some(RingSetupError::NotPowerOfTwo));
    assert_eq!(SubmissionQueue::new(0, 0, 0, 0, 0).err(), Some(RingSetupError::NotPowerOfTwo));
    assert_eq!(SubmissionQueue::new(8, 8, 8, 0, 0).err(), Some(RingSetupError::MaskMismatch));
    assert_eq!(SubmissionQueue::new(4, 4, 3, 0, 5).err(), Some(RingSetupError::CountersOutOfRange));
    assert!(SubmissionQueue::new(4, 4, 3, 0, 0).is_ok());
}

#[test]
fn completion_ring_setup_checks() {
    assert_eq!(CompletionQueue::new(8, 16, 15, 0, 0).err(), Some(RingSetupError::EntriesMismatch));
    assert_eq!(CompletionQueue::new(12, 12, 11, 0, 0).err(), Some(RingSetupError::NotPowerOfTwo));
    assert_eq!(CompletionQueue::new(16, 16, 7, 0, 0).err(), Some(RingSetupError::MaskMismatch));
    assert!(CompletionQueue::new(16, 16, 15, 0, 0).is_ok());
}

#[test]
fn empty_ring_is_not_full() {
    let sq = SubmissionQueue::new(4, 4, 3, 7, 7).unwrap();
    assert!(!sq.is_full());
    assert!(!sq.has_pending_submissions());
    assert_eq!(sq.pending_submissions(), 0);
}

#[test]
fn submit_until_full_then_queue_full() {
    let mut sq = SubmissionQueue::new(4, 4, 3, 0, 0).unwrap();
    for i in 0..4u64 {
        assert_eq!(sq.submit(entry(2 * i + 2)), Ok(()));
    }
    assert_eq!(sq.pending_submissions(), 4);
    assert!(sq.is_full());
    assert!(sq.needs_head_refresh());
    assert_eq!(sq.submit(entry(100)), Err(SubmissionError::QueueFull));
    assert_eq!(sq.pending_submissions(), 4);
}

#[test]
fn full_ring_across_counter_wrap() {
    // head and tail straddle 2^32: full while they differ but mask to the same slot
    let mut sq = SubmissionQueue::new(4, 4, 3, u32::MAX - 1, u32::MAX - 1).unwrap();
    for i in 0..4u64 {
        assert_eq!(sq.submit(entry(i + 1)), Ok(()));
    }
    assert!(sq.is_full());
    assert_eq!(sq.pending_submissions(), 4);
    assert_eq!(sq.submit(entry(9)), Err(SubmissionError::QueueFull));
    let (tail, slots) = sq.publish();
    assert_eq!(tail, 2);
    assert_eq!(slots, vec![2, 3, 0, 1]);
    assert_eq!(sq.entry(2).user_data, 1);
    assert_eq!(sq.entry(1).user_data, 4);
    // the kernel consumed two entries
    assert!(sq.refresh_head(0));
    assert!(!sq.is_full());
    assert_eq!(sq.pending_submissions(), 2);
}

#[test]
fn refresh_head_refuses_unpublished_consumption() {
    let mut sq = SubmissionQueue::new(4, 4, 3, 0, 0).unwrap();
    sq.submit(entry(2)).unwrap();
    sq.submit(entry(4)).unwrap();
    // nothing published yet: the kernel cannot have consumed anything
    assert!(!sq.refresh_head(1));
    assert_eq!(sq.unpublished(), 2);
    let (tail, slots) = sq.publish();
    assert_eq!(tail, 2);
    assert_eq!(slots, vec![0, 1]);
    assert_eq!(sq.unpublished(), 0);
    assert!(sq.refresh_head(2));
    assert_eq!(sq.pending_submissions(), 0);
    assert!(!sq.refresh_head(3));
}

#[test]
fn fill_error_queues_nothing() {
    let mut sq = SubmissionQueue::new(2, 2, 1, 0, 0).unwrap();
    let failed: Result<SubmissionEntry, &str> = Err("bad");
    assert_eq!(sq.submit_filled(failed), Err(SubmissionError::FillError("bad")));
    assert_eq!(sq.pending_submissions(), 0);
    assert_eq!(sq.submit_filled::<&str>(Ok(entry(2))), Ok(()));
    assert_eq!(sq.pending_submissions(), 1);
}

#[test]
fn completion_ring_consumes_in_order() {
    let mut cq = CompletionQueue::new(4, 4, 3, 6, 6).unwrap();
    assert!(cq.is_empty());
    assert_eq!(cq.next_slot(), None);
    assert!(cq.refresh_tail(9));
    assert!(!cq.is_empty());
    assert_eq!(cq.next_slot(), Some(2));
    assert_eq!(cq.next_slot(), Some(3));
    assert_eq!(cq.next_slot(), Some(0));
    assert_eq!(cq.next_slot(), None);
    assert_eq!(cq.head(), 9);
}

#[test]
fn completion_ring_refuses_bad_tail() {
    let mut cq = CompletionQueue::new(4, 4, 3, 0, 2).unwrap();
    // more than a ring ahead
    assert!(!cq.refresh_tail(5));
    // behind the tail already seen
    assert!(!cq.refresh_tail(1));
    assert!(cq.refresh_tail(4));
}

#[test]
fn full_ring_reports_queue_full_before_fill_error() {
    let mut sq = SubmissionQueue::new(2, 2, 1, 0, 0).unwrap();
    sq.submit(entry(2)).unwrap();
    sq.submit(entry(4)).unwrap();
    let failed: Result<SubmissionEntry, &str> = Err("bad");
    assert_eq!(sq.submit_filled(failed), Err(SubmissionError::QueueFull));
    assert_eq!(sq.submit_filled::<&str>(Ok(entry(6))), Err(SubmissionError::QueueFull));
    assert_eq!(sq.pending_submissions(), 2);
}
