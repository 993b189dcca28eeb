use uring_reactor::layout::{COMPLETION_ENTRY_SIZE, SETUP_PARAMETERS_SIZE, SUBMISSION_ENTRY_SIZE};
use uring_reactor::sys::{
    CompletionEntry, SETUP_IOPOLL,
    EncodedIoPriority, FileDescriptor, IoPriority, IoPriorityLevel, Operation, RawOperation,
    RegisterOpCode, SetupParameters, SubmissionEntry, FSYNC_DATASYNC, POLL_IN, POLL_OUT,
    RW_HIPRI, SETUP_SQPOLL, SQE_FIXED_FILE,
};

#[test]
fn raw_operation_decodes_known_codes() {
    assert_eq!(RawOperation(0).decode(), Some(Operation::Nop));
    assert_eq!(RawOperation(1).decode(), Some(Operation::Readv));
    assert_eq!(RawOperation(2).decode(), Some(Operation::Writev));
    assert_eq!(RawOperation(6).decode(), Some(Operation::PollAdd));
    assert_eq!(RawOperation(7).decode(), Some(Operation::PollRemove));
    assert_eq!(RawOperation(8).decode(), None);
    assert_eq!(RawOperation(255).decode(), None);
    assert_eq!(RawOperation::from_operation(Operation::WriteFixed), RawOperation(5));
}

#[test]
fn priority_level_range() {
    assert_eq!(IoPriorityLevel::try_from(0), Some(IoPriorityLevel::Level0));
    assert_eq!(IoPriorityLevel::try_from(7), Some(IoPriorityLevel::Level7));
    assert_eq!(IoPriorityLevel::try_from(8), None);
    assert_eq!(IoPriorityLevel::Level5.value(), 5);
}

#[test]
fn priority_encoding() {
    assert_eq!(IoPriority::Unspecified.encode(), EncodedIoPriority(0));
    assert_eq!(IoPriority::Realtime(IoPriorityLevel::Level3).encode(), EncodedIoPriority((1 << 13) | 3));
    assert_eq!(IoPriority::BestEffort(IoPriorityLevel::Level7).encode(), EncodedIoPriority((2 << 13) | 7));
    assert_eq!(IoPriority::Idle.encode(), EncodedIoPriority(3 << 13));
}

#[test]
fn priority_decoding() {
    assert_eq!(IoPriority::try_from(EncodedIoPriority(0)), Some(IoPriority::Unspecified));
    assert_eq!(
        IoPriority::try_from(EncodedIoPriority((1 << 13) | 3)),
        Some(IoPriority::Realtime(IoPriorityLevel::Level3))
    );
    assert_eq!(
        IoPriority::try_from(EncodedIoPriority((2 << 13) | 0)),
        Some(IoPriority::BestEffort(IoPriorityLevel::Level0))
    );
    assert_eq!(IoPriority::try_from(EncodedIoPriority(3 << 13)), Some(IoPriority::Idle));
    assert_eq!(IoPriority::try_from(EncodedIoPriority((1 << 13) | 8)), None);
    assert_eq!(IoPriority::try_from(EncodedIoPriority(4 << 13)), None);
    assert_eq!(IoPriority::try_from(EncodedIoPriority(7 << 13)), None);
}

#[test]
fn priority_round_trip() {
    let all = [
        IoPriority::Unspecified,
        IoPriority::Idle,
        IoPriority::Realtime(IoPriorityLevel::Level0),
        IoPriority::Realtime(IoPriorityLevel::Level6),
        IoPriority::BestEffort(IoPriorityLevel::Level2),
    ];
    for p in all {
        assert_eq!(IoPriority::try_from(p.encode()), Some(p));
    }
}

#[test]
fn setup_parameters_new_keeps_only_flags() {
    let p = SetupParameters::new(SETUP_SQPOLL);
    assert_eq!(p.flags, 2);
    assert_eq!(p.sq_entries, 0);
    assert_eq!(p.cq_entries, 0);
    assert_eq!(p.sq_thread_idle, 0);
    assert_eq!(p.sq_off.array, 0);
    assert_eq!(p.cq_off.cqes, 0);
}

#[test]
fn register_opcodes() {
    assert_eq!(RegisterOpCode::RegisterBuffers.code(), 0);
    assert_eq!(RegisterOpCode::UnregisterBuffers.code(), 1);
    assert_eq!(RegisterOpCode::RegisterFiles.code(), 2);
    assert_eq!(RegisterOpCode::UnregisterFiles.code(), 3);
}

#[test]
fn readv_fills_entry() {
    let mut e = SubmissionEntry::zeroed();
    e.user_data = 42;
    e.readv(
        IoPriority::BestEffort(IoPriorityLevel::Level1),
        FileDescriptor::FD(5),
        100,
        RW_HIPRI,
        0x1000,
        1,
    );
    assert_eq!(e.opcode, RawOperation(1));
    assert_eq!(e.flags, 0);
    assert_eq!(e.ioprio, EncodedIoPriority((2 << 13) | 1));
    assert_eq!(e.fd, 5);
    assert_eq!(e.off, 100);
    assert_eq!(e.addr, 0x1000);
    assert_eq!(e.len, 1);
    assert_eq!(e.op_flags, 1);
    assert_eq!(e.user_data, 42);
    assert_eq!(e.extra.buf_index, 0);
}

#[test]
fn writev_with_fixed_file() {
    let mut e = SubmissionEntry::zeroed();
    e.writev(IoPriority::Unspecified, FileDescriptor::Fixed(3), 0, 0, 0x2000, 2);
    assert_eq!(e.opcode, RawOperation(2));
    assert_eq!(e.flags, SQE_FIXED_FILE);
    assert_eq!(e.fd, 3);
    assert_eq!(e.len, 2);
}

#[test]
fn fixed_buffer_ops() {
    let mut e = SubmissionEntry::zeroed();
    e.read_fixed(IoPriority::Idle, FileDescriptor::FD(9), 8, 0, 4, 0x3000, 512);
    assert_eq!(e.opcode, RawOperation(4));
    assert_eq!(e.extra.buf_index, 4);
    assert_eq!(e.addr, 0x3000);
    assert_eq!(e.len, 512);
    assert_eq!(e.ioprio, EncodedIoPriority(3 << 13));
    e.write_fixed(IoPriority::Unspecified, FileDescriptor::FD(9), 0, 0, 1, 0x4000, 16);
    assert_eq!(e.opcode, RawOperation(5));
    assert_eq!(e.extra.buf_index, 1);
}

#[test]
fn fsync_and_poll_entries() {
    let mut e = SubmissionEntry::zeroed();
    e.fsync_full(FileDescriptor::FD(4), FSYNC_DATASYNC);
    assert_eq!(e.opcode, RawOperation(3));
    assert_eq!(e.off, 0);
    assert_eq!(e.len, 0);
    assert_eq!(e.op_flags, 1);
    e.fsync(FileDescriptor::FD(4), 0, 10, 20);
    assert_eq!(e.off, 10);
    assert_eq!(e.len, 20);
    e.poll_add(FileDescriptor::FD(6), POLL_IN | POLL_OUT);
    assert_eq!(e.opcode, RawOperation(6));
    assert_eq!(e.op_flags, 5);
    assert_eq!(e.addr, 0);
    e.poll_remove(0x88);
    assert_eq!(e.opcode, RawOperation(7));
    assert_eq!(e.addr, 0x88);
    assert_eq!(e.fd, 0);
    e.clear();
    assert_eq!(e, SubmissionEntry::zeroed());
}

#[test]
fn conversions_and_defaults() {
    assert_eq!(RawOperation::from(Operation::Fsync), RawOperation(3));
    assert_eq!(EncodedIoPriority::from(IoPriority::Idle), EncodedIoPriority(3 << 13));
    let e: EncodedIoPriority = IoPriority::Realtime(IoPriorityLevel::Level2).into();
    assert_eq!(e, EncodedIoPriority((1 << 13) | 2));
    assert_eq!(Operation::default(), Operation::Nop);
    assert_eq!(IoPriority::default(), IoPriority::Unspecified);
}

#[test]
fn submission_entry_bytes() {
    let mut e = SubmissionEntry::zeroed();
    e.writev(
        IoPriority::Realtime(IoPriorityLevel::Level1),
        FileDescriptor::FD(-1),
        0x0102030405060708,
        RW_HIPRI,
        0x1122334455667788,
        0xa1b2c3d4,
    );
    e.user_data = 0xdeadbeef_00000002;
    e.extra.buf_index = 0x0203;
    let b = e.to_bytes();
    assert_eq!(b.len(), SUBMISSION_ENTRY_SIZE);
    assert_eq!(b[0], 2);
    assert_eq!(b[1], 0);
    assert_eq!(&b[2..4], &[0x01, 0x20]);
    assert_eq!(&b[4..8], &[0xff, 0xff, 0xff, 0xff]);
    assert_eq!(&b[8..16], &[0x08, 0x07, 0x06, 0x05, 0x04, 0x03, 0x02, 0x01]);
    assert_eq!(&b[16..24], &[0x88, 0x77, 0x66, 0x55, 0x44, 0x33, 0x22, 0x11]);
    assert_eq!(&b[24..28], &[0xd4, 0xc3, 0xb2, 0xa1]);
    assert_eq!(&b[28..32], &[1, 0, 0, 0]);
    assert_eq!(&b[32..40], &[0x02, 0, 0, 0, 0xef, 0xbe, 0xad, 0xde]);
    assert_eq!(&b[40..42], &[0x03, 0x02]);
    assert!(b[42..].iter().all(|x| *x == 0));
}

#[test]
fn completion_entry_from_bytes() {
    let mut b = vec![0xaau8; 4];
    b.extend_from_slice(&[0x02, 0x01, 0, 0, 0, 0, 0, 0x80]);
    b.extend_from_slice(&[0xf5, 0xff, 0xff, 0xff]);
    b.extend_from_slice(&[0x07, 0, 0, 0]);
    assert_eq!(b.len(), 4 + COMPLETION_ENTRY_SIZE);
    let c = CompletionEntry::from_bytes(&b, 4);
    assert_eq!(c.user_data, 0x8000_0000_0000_0102);
    assert_eq!(c.res, -11);
    assert_eq!(c.flags, 7);
    let mut ok = vec![0u8; 16];
    ok[8] = 5;
    assert_eq!(CompletionEntry::from_bytes(&ok, 0), CompletionEntry { user_data: 0, res: 5, flags: 0 });
}

#[test]
fn setup_parameters_bytes_round_trip() {
    let mut p = SetupParameters::new(SETUP_IOPOLL);
    let b = p.to_bytes();
    assert_eq!(b.len(), SETUP_PARAMETERS_SIZE);
    assert_eq!(&b[8..12], &[1, 0, 0, 0]);
    assert!(b.iter().enumerate().all(|(i, x)| i == 8 || *x == 0));
    p.sq_entries = 4096;
    p.cq_entries = 8192;
    p.sq_off.array = 0x240;
    p.sq_off.dropped = 0x100;
    p.cq_off.cqes = 0x140;
    p.cq_off.overflow = 0x11c;
    let b = p.to_bytes();
    assert_eq!(&b[0..4], &[0, 0x10, 0, 0]);
    assert_eq!(&b[64..68], &[0x40, 0x02, 0, 0]);
    assert_eq!(&b[100..104], &[0x40, 0x01, 0, 0]);
    assert_eq!(SetupParameters::from_bytes(&b), p);
}
