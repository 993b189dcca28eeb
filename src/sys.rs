//! Kernel ABI values of the `io_uring` interface: setup parameters, flag
//! words, submission and completion entries, and the builders that fill a
//! submission entry for one operation.
use vstd::prelude::*;

verus! {

/// `IORING_OFF_SQ_RING`: mmap offset of the submission queue ring.
pub const SUBMISSION_QUEUE_RING_OFFSET: i64 = 0;

/// `IORING_OFF_CQ_RING`: mmap offset of the completion queue ring.
pub const COMPLETION_QUEUE_RING_OFFSET: i64 = 0x8000000;

/// `IORING_OFF_SQES`: mmap offset of the submission entry array.
pub const SUBMISSION_QUEUE_ENTRIES_OFFSET: i64 = 0x10000000;

/// Flags of `io_uring_enter`.
pub type EnterFlags = u32;

/// `IORING_ENTER_GETEVENTS`: wait for completions
pub const ENTER_GETEVENTS: EnterFlags = 1;
/// `IORING_ENTER_SQ_WAKEUP`: wake the kernel poll thread
pub const ENTER_SQ_WAKEUP: EnterFlags = 2;

/// Flags of `io_uring_setup`.
pub type SetupFlags = u32;

/// `IORING_SETUP_IOPOLL`: io_context is polled
pub const SETUP_IOPOLL: SetupFlags = 1;
/// `IORING_SETUP_SQPOLL`: SQ poll thread
pub const SETUP_SQPOLL: SetupFlags = 2;
/// `IORING_SETUP_SQ_AFF`: sq_thread_cpu is valid
pub const SETUP_SQ_AFF: SetupFlags = 4;

/// Flags the kernel keeps in the submission ring.
pub type SubmissionQueueFlags = u32;

/// `IORING_SQ_NEED_WAKEUP`: the kernel poll thread sleeps
pub const SQ_NEED_WAKEUP: SubmissionQueueFlags = 1;

/// Per-entry flags of a submission entry.
pub type SubmissionEntryFlags = u8;

/// `IOSQE_FIXED_FILE`: `fd` indexes the registered file set
pub const SQE_FIXED_FILE: SubmissionEntryFlags = 1;

/// Flags of a vectored read or write.
pub type ReadWriteFlags = u32;

/// High priority read/write.
pub const RW_HIPRI: ReadWriteFlags = 0x1;
/// Per-write `O_DSYNC`.
pub const RW_DSYNC: ReadWriteFlags = 0x2;
/// Per-write `O_SYNC`.
pub const RW_SYNC: ReadWriteFlags = 0x4;
/// Do not wait for data which is not immediately available.
pub const RW_NOWAIT: ReadWriteFlags = 0x8;
/// Per-write `O_APPEND`.
pub const RW_APPEND: ReadWriteFlags = 0x10;
/// All read/write flags above.
pub const RW_SUPPORTED: ReadWriteFlags = 0x1f;

/// Flags of an fsync operation.
pub type FsyncFlags = u32;

/// Sync data only, like `fdatasync`.
pub const FSYNC_DATASYNC: FsyncFlags = 1;

/// POSIX poll event bits.
pub type PollFlags = u16;

pub const POLL_IN: PollFlags = 0x1;
pub const POLL_PRI: PollFlags = 0x2;
pub const POLL_OUT: PollFlags = 0x4;
pub const POLL_ERR: PollFlags = 0x8;
pub const POLL_HUP: PollFlags = 0x10;
pub const POLL_NVAL: PollFlags = 0x20;
pub const POLL_RDNORM: PollFlags = 0x40;
pub const POLL_RDBAND: PollFlags = 0x80;
pub const POLL_WRNORM: PollFlags = 0x100;
pub const POLL_WRBAND: PollFlags = 0x200;
pub const POLL_MSG: PollFlags = 0x400;
pub const POLL_RDHUP: PollFlags = 0x2000;

/// Opcodes of `io_uring_register`.
#[derive(Clone, Copy, PartialEq, Eq, Debug)]
pub enum RegisterOpCode {
    /// `IORING_REGISTER_BUFFERS`
    RegisterBuffers,
    /// `IORING_UNREGISTER_BUFFERS`
    UnregisterBuffers,
    /// `IORING_REGISTER_FILES`
    RegisterFiles,
    /// `IORING_UNREGISTER_FILES`
    UnregisterFiles,
}

impl RegisterOpCode {
    /// The opcode the kernel expects.
    pub fn code(self) -> (r: u32)
        ensures
            r == match self {
                RegisterOpCode::RegisterBuffers => 0u32,
                RegisterOpCode::UnregisterBuffers => 1u32,
                RegisterOpCode::RegisterFiles => 2u32,
                RegisterOpCode::UnregisterFiles => 3u32,
            },
    {
        match self {
            RegisterOpCode::RegisterBuffers => 0,
            RegisterOpCode::UnregisterBuffers => 1,
            RegisterOpCode::RegisterFiles => 2,
            RegisterOpCode::UnregisterFiles => 3,
        }
    }
}

/// Field offsets in the submission ring mapping (`struct io_sqring_offsets`).
#[derive(Clone, Copy, PartialEq, Eq, Debug)]
pub struct SubmissionQueueRingOffsets {
    pub head: u32,
    pub tail: u32,
    pub ring_mask: u32,
    pub ring_entries: u32,
    pub flags: u32,
    pub dropped: u32,
    pub array: u32,
}

/// Field offsets in the completion ring mapping (`struct io_cqring_offsets`).
#[derive(Clone, Copy, PartialEq, Eq, Debug)]
pub struct CompletionQueueRingOffsets {
    pub head: u32,
    pub tail: u32,
    pub ring_mask: u32,
    pub ring_entries: u32,
    pub overflow: u32,
    pub cqes: u32,
}

/// Input and output of `io_uring_setup` (`struct io_uring_params`).
#[derive(Clone, Copy, PartialEq, Eq, Debug)]
pub struct SetupParameters {
    /// (output) entries of the submission queue
    pub sq_entries: u32,
    /// (output) entries of the completion queue
    pub cq_entries: u32,
    /// (input)
    pub flags: SetupFlags,
    /// (input) CPU of the kernel poll thread, with SQ_AFF
    pub sq_thread_cpu: u32,
    /// (input) idle milliseconds of the kernel poll thread, with SQPOLL
    pub sq_thread_idle: u32,
    /// (output) submission ring field offsets
    pub sq_off: SubmissionQueueRingOffsets,
    /// (output) completion ring field offsets
    pub cq_off: CompletionQueueRingOffsets,
}

pub open spec fn zero_sq_offsets() -> SubmissionQueueRingOffsets {
    SubmissionQueueRingOffsets {
        head: 0,
        tail: 0,
        ring_mask: 0,
        ring_entries: 0,
        flags: 0,
        dropped: 0,
        array: 0,
    }
}

pub open spec fn zero_cq_offsets() -> CompletionQueueRingOffsets {
    CompletionQueueRingOffsets { head: 0, tail: 0, ring_mask: 0, ring_entries: 0, overflow: 0, cqes: 0 }
}

impl SetupParameters {
    /// Parameters with the given flags and every other field zero.
    pub fn new(flags: SetupFlags) -> (r: Self)
        ensures
            r == (SetupParameters {
                sq_entries: 0,
                cq_entries: 0,
                flags,
                sq_thread_cpu: 0,
                sq_thread_idle: 0,
                sq_off: zero_sq_offsets(),
                cq_off: zero_cq_offsets(),
            }),
    {
        SetupParameters {
            sq_entries: 0,
            cq_entries: 0,
            flags,
            sq_thread_cpu: 0,
            sq_thread_idle: 0,
            sq_off: SubmissionQueueRingOffsets {
                head: 0,
                tail: 0,
                ring_mask: 0,
                ring_entries: 0,
                flags: 0,
                dropped: 0,
                array: 0,
            },
            cq_off: CompletionQueueRingOffsets {
                head: 0,
                tail: 0,
                ring_mask: 0,
                ring_entries: 0,
                overflow: 0,
                cqes: 0,
            },
        }
    }
}

/// Operation codes of submission entries understood by the kernel.
#[derive(Clone, Copy, PartialEq, Eq, Debug)]
pub enum Operation {
    Nop,
    Readv,
    Writev,
    Fsync,
    ReadFixed,
    WriteFixed,
    PollAdd,
    PollRemove,
}

/// The numeric opcode the kernel uses for an operation.
pub open spec fn operation_code(op: Operation) -> u8 {
    match op {
        Operation::Nop => 0,
        Operation::Readv => 1,
        Operation::Writev => 2,
        Operation::Fsync => 3,
        Operation::ReadFixed => 4,
        Operation::WriteFixed => 5,
        Operation::PollAdd => 6,
        Operation::PollRemove => 7,
    }
}

impl Default for Operation {
    fn default() -> (r: Self)
        ensures
            r == Operation::Nop,
    {
        Operation::Nop
    }
}

/// An opcode as stored in a submission entry; it may hold unknown values.
#[derive(Clone, Copy, PartialEq, Eq, Debug)]
pub struct RawOperation(pub u8);

impl RawOperation {
    /// The operation with this code, if the code is known.
    pub fn decode(self) -> (r: Option<Operation>)
        ensures
            self.0 < 8 <==> r.is_some(),
            r matches Some(op) ==> operation_code(op) == self.0,
    {
        match self.0 {
            0 => Some(Operation::Nop),
            1 => Some(Operation::Readv),
            2 => Some(Operation::Writev),
            3 => Some(Operation::Fsync),
            4 => Some(Operation::ReadFixed),
            5 => Some(Operation::WriteFixed),
            6 => Some(Operation::PollAdd),
            7 => Some(Operation::PollRemove),
            _ => None,
        }
    }

    /// The code of a known operation.
    pub fn from_operation(op: Operation) -> (r: Self)
        ensures
            r.0 == operation_code(op),
    {
        match op {
            Operation::Nop => RawOperation(0),
            Operation::Readv => RawOperation(1),
            Operation::Writev => RawOperation(2),
            Operation::Fsync => RawOperation(3),
            Operation::ReadFixed => RawOperation(4),
            Operation::WriteFixed => RawOperation(5),
            Operation::PollAdd => RawOperation(6),
            Operation::PollRemove => RawOperation(7),
        }
    }
}

impl From<Operation> for RawOperation {
    fn from(op: Operation) -> (r: Self) {
        RawOperation::from_operation(op)
    }
}

impl vstd::std_specs::convert::FromSpecImpl<Operation> for RawOperation {
    open spec fn obeys_from_spec() -> bool {
        true
    }

    open spec fn from_spec(op: Operation) -> RawOperation {
        RawOperation(operation_code(op))
    }
}

/// The I/O priority field of a submission entry, as the kernel encodes it:
/// class in bits 13..16, level in the low bits.
#[derive(Clone, Copy, PartialEq, Eq, Debug)]
pub struct EncodedIoPriority(pub u16);

/// A priority level within a class, 0 (highest) to 7.
#[derive(Clone, Copy, PartialEq, Eq, Debug)]
pub enum IoPriorityLevel {
    Level0,
    Level1,
    Level2,
    Level3,
    Level4,
    Level5,
    Level6,
    Level7,
}

pub open spec fn level_value(l: IoPriorityLevel) -> u8 {
    match l {
        IoPriorityLevel::Level0 => 0,
        IoPriorityLevel::Level1 => 1,
        IoPriorityLevel::Level2 => 2,
        IoPriorityLevel::Level3 => 3,
        IoPriorityLevel::Level4 => 4,
        IoPriorityLevel::Level5 => 5,
        IoPriorityLevel::Level6 => 6,
        IoPriorityLevel::Level7 => 7,
    }
}

impl IoPriorityLevel {
    /// The level with value `v`, if `v` is at most 7.
    pub fn try_from(v: u8) -> (r: Option<Self>)
        ensures
            v < 8 <==> r.is_some(),
            r matches Some(l) ==> level_value(l) == v,
    {
        match v {
            0 => Some(IoPriorityLevel::Level0),
            1 => Some(IoPriorityLevel::Level1),
            2 => Some(IoPriorityLevel::Level2),
            3 => Some(IoPriorityLevel::Level3),
            4 => Some(IoPriorityLevel::Level4),
            5 => Some(IoPriorityLevel::Level5),
            6 => Some(IoPriorityLevel::Level6),
            7 => Some(IoPriorityLevel::Level7),
            _ => None,
        }
    }

    pub fn value(self) -> (r: u8)
        ensures
            r == level_value(self),
    {
        match self {
            IoPriorityLevel::Level0 => 0,
            IoPriorityLevel::Level1 => 1,
            IoPriorityLevel::Level2 => 2,
            IoPriorityLevel::Level3 => 3,
            IoPriorityLevel::Level4 => 4,
            IoPriorityLevel::Level5 => 5,
            IoPriorityLevel::Level6 => 6,
            IoPriorityLevel::Level7 => 7,
        }
    }
}

/// The I/O priority of a request.
#[derive(Clone, Copy, PartialEq, Eq, Debug)]
pub enum IoPriority {
    Unspecified,
    Realtime(IoPriorityLevel),
    BestEffort(IoPriorityLevel),
    Idle,
}

/// The kernel encoding of a priority: the class times 2^13 plus the level.
pub open spec fn priority_code(p: IoPriority) -> u16 {
    match p {
        IoPriority::Unspecified => 0,
        IoPriority::Realtime(l) => (8192 + level_value(l)) as u16,
        IoPriority::BestEffort(l) => (16384 + level_value(l)) as u16,
        IoPriority::Idle => 24576,
    }
}

/// Which priority an encoded value denotes: the class is `v / 2^13`; for
/// realtime and best effort the level is the low byte, which must be at most 7.
pub open spec fn decoded_priority(v: u16) -> Option<IoPriority> {
    let class = v / 8192;
    let low = v % 256;
    if class == 0 {
        Some(IoPriority::Unspecified)
    } else if class == 3 {
        Some(IoPriority::Idle)
    } else if (class == 1 || class == 2) && low < 8 {
        let l = level_of(low as u8);
        if class == 1 {
            Some(IoPriority::Realtime(l))
        } else {
            Some(IoPriority::BestEffort(l))
        }
    } else {
        None
    }
}

/// The level with value `v` (for `v < 8`).
pub open spec fn level_of(v: u8) -> IoPriorityLevel {
    if v == 0 {
        IoPriorityLevel::Level0
    } else if v == 1 {
        IoPriorityLevel::Level1
    } else if v == 2 {
        IoPriorityLevel::Level2
    } else if v == 3 {
        IoPriorityLevel::Level3
    } else if v == 4 {
        IoPriorityLevel::Level4
    } else if v == 5 {
        IoPriorityLevel::Level5
    } else if v == 6 {
        IoPriorityLevel::Level6
    } else {
        IoPriorityLevel::Level7
    }
}

impl IoPriority {
    /// Decodes the priority field of a submission entry.
    pub fn try_from(e: EncodedIoPriority) -> (r: Option<Self>)
        ensures
            r == decoded_priority(e.0),
    {
        let v: u16 = e.0;
        let class: u16 = v >> 13;
        assert(class == v / 8192) by (bit_vector)
            requires
                class == v >> 13,
        ;
        let low = (v % 256) as u8;
        if class == 0 {
            Some(IoPriority::Unspecified)
        } else if class == 1 {
            match IoPriorityLevel::try_from(low) {
                Some(l) => Some(IoPriority::Realtime(l)),
                None => None,
            }
        } else if class == 2 {
            match IoPriorityLevel::try_from(low) {
                Some(l) => Some(IoPriority::BestEffort(l)),
                None => None,
            }
        } else if class == 3 {
            Some(IoPriority::Idle)
        } else {
            None
        }
    }

    /// The kernel encoding of this priority.
    pub fn encode(self) -> (r: EncodedIoPriority)
        ensures
            r.0 == priority_code(self),
    {
        match self {
            IoPriority::Unspecified => EncodedIoPriority(0),
            IoPriority::Realtime(l) => EncodedIoPriority(8192 + l.value() as u16),
            IoPriority::BestEffort(l) => EncodedIoPriority(16384 + l.value() as u16),
            IoPriority::Idle => EncodedIoPriority(24576),
        }
    }
}

impl Default for IoPriority {
    fn default() -> (r: Self)
        ensures
            r == IoPriority::Unspecified,
    {
        IoPriority::Unspecified
    }
}

impl From<IoPriority> for EncodedIoPriority {
    fn from(p: IoPriority) -> (r: Self) {
        p.encode()
    }
}

impl vstd::std_specs::convert::FromSpecImpl<IoPriority> for EncodedIoPriority {
    open spec fn obeys_from_spec() -> bool {
        true
    }

    open spec fn from_spec(p: IoPriority) -> EncodedIoPriority {
        EncodedIoPriority(priority_code(p))
    }
}

/// Decoding the encoding of a priority gives the priority back.
pub proof fn lemma_priority_round_trip(p: IoPriority)
    ensures
        decoded_priority(priority_code(p)) == Some(p),
{
    match p {
        IoPriority::Realtime(l) => {
            assert(level_of(level_value(l)) == l);
        },
        IoPriority::BestEffort(l) => {
            assert(level_of(level_value(l)) == l);
        },
        _ => {},
    }
}

/// The file a request operates on.
#[derive(Clone, Copy, PartialEq, Eq, Debug)]
pub enum FileDescriptor {
    /// standard file descriptor
    FD(i32),
    /// index into previously registered list of fds
    Fixed(u32),
}

/// The entry flags a file descriptor asks for.
pub open spec fn fd_entry_flags(fd: FileDescriptor) -> u8 {
    match fd {
        FileDescriptor::FD(_) => 0,
        FileDescriptor::Fixed(_) => 1,
    }
}

/// The value of the `fd` field for a file descriptor.
pub open spec fn fd_field(fd: FileDescriptor) -> i32 {
    match fd {
        FileDescriptor::FD(f) => f,
        FileDescriptor::Fixed(ndx) => ndx as i32,
    }
}

/// Extra data of fixed-buffer operations.
#[derive(Clone, Copy, PartialEq, Eq, Debug)]
pub struct SubmissionEntryFixedOp {
    /// index into fixed buffers
    pub buf_index: u16,
}

/// A submission queue entry (`struct io_uring_sqe`). `op_flags` holds the
/// per-operation flag word (read/write, fsync or poll flags).
#[derive(Clone, Copy, PartialEq, Eq, Debug)]
pub struct SubmissionEntry {
    pub opcode: RawOperation,
    pub flags: SubmissionEntryFlags,
    pub ioprio: EncodedIoPriority,
    pub fd: i32,
    pub off: u64,
    pub addr: u64,
    pub len: u32,
    pub op_flags: u32,
    pub user_data: u64,
    pub extra: SubmissionEntryFixedOp,
}

/// The entry with every field zero.
pub open spec fn zero_entry() -> SubmissionEntry {
    SubmissionEntry {
        opcode: RawOperation(0),
        flags: 0,
        ioprio: EncodedIoPriority(0),
        fd: 0,
        off: 0,
        addr: 0,
        len: 0,
        op_flags: 0,
        user_data: 0,
        extra: SubmissionEntryFixedOp { buf_index: 0 },
    }
}

/// The entry for a request: every field but `user_data`, which is kept.
pub open spec fn request_entry(
    old: SubmissionEntry,
    code: u8,
    fd: FileDescriptor,
    ioprio: u16,
    off: u64,
    addr: u64,
    len: u32,
    op_flags: u32,
    buf_index: u16,
) -> SubmissionEntry {
    SubmissionEntry {
        opcode: RawOperation(code),
        flags: fd_entry_flags(fd),
        ioprio: EncodedIoPriority(ioprio),
        fd: fd_field(fd),
        off,
        addr,
        len,
        op_flags,
        user_data: old.user_data,
        extra: SubmissionEntryFixedOp { buf_index },
    }
}

impl SubmissionEntry {
    /// An entry with every field zero.
    pub fn zeroed() -> (r: Self)
        ensures
            r == zero_entry(),
    {
        SubmissionEntry {
            opcode: RawOperation(0),
            flags: 0,
            ioprio: EncodedIoPriority(0),
            fd: 0,
            off: 0,
            addr: 0,
            len: 0,
            op_flags: 0,
            user_data: 0,
            extra: SubmissionEntryFixedOp { buf_index: 0 },
        }
    }

    /// Sets every field to zero.
    pub fn clear(&mut self)
        ensures
            *final(self) == zero_entry(),
    {
        *self = SubmissionEntry::zeroed();
    }

    fn set_fd(&mut self, fd: FileDescriptor)
        ensures
            *final(self) == (SubmissionEntry {
                flags: fd_entry_flags(fd),
                fd: fd_field(fd),
                ..*old(self)
            }),
    {
        match fd {
            FileDescriptor::FD(f) => {
                self.flags = 0;
                self.fd = f;
            },
            FileDescriptor::Fixed(ndx) => {
                self.flags = SQE_FIXED_FILE;
                self.fd = ndx as i32;
            },
        }
    }

    fn iov(
        &mut self,
        op: Operation,
        prio: IoPriority,
        fd: FileDescriptor,
        offset: u64,
        flags: ReadWriteFlags,
        iov_addr: u64,
        iov_len: u32,
    )
        ensures
            *final(self) == request_entry(
                *old(self),
                operation_code(op),
                fd,
                priority_code(prio),
                offset,
                iov_addr,
                iov_len,
                flags,
                0,
            ),
    {
        self.opcode = RawOperation::from_operation(op);
        self.ioprio = prio.encode();
        self.set_fd(fd);
        self.off = offset;
        self.addr = iov_addr;
        self.len = iov_len;
        self.op_flags = flags;
        self.extra = SubmissionEntryFixedOp { buf_index: 0 };
    }

    /// A vectored read into the `iov_len` iovecs at address `iov_addr`, which
    /// must stay valid until the request completes.
    pub fn readv(
        &mut self,
        prio: IoPriority,
        fd: FileDescriptor,
        offset: u64,
        flags: ReadWriteFlags,
        iov_addr: u64,
        iov_len: u32,
    )
        ensures
            *final(self) == request_entry(
                *old(self),
                1,
                fd,
                priority_code(prio),
                offset,
                iov_addr,
                iov_len,
                flags,
                0,
            ),
    {
        self.iov(Operation::Readv, prio, fd, offset, flags, iov_addr, iov_len);
    }

    /// A vectored write from the `iov_len` iovecs at address `iov_addr`, which
    /// must stay valid until the request completes.
    pub fn writev(
        &mut self,
        prio: IoPriority,
        fd: FileDescriptor,
        offset: u64,
        flags: ReadWriteFlags,
        iov_addr: u64,
        iov_len: u32,
    )
        ensures
            *final(self) == request_entry(
                *old(self),
                2,
                fd,
                priority_code(prio),
                offset,
                iov_addr,
                iov_len,
                flags,
                0,
            ),
    {
        self.iov(Operation::Writev, prio, fd, offset, flags, iov_addr, iov_len);
    }

    fn io_fixed(
        &mut self,
        op: Operation,
        prio: IoPriority,
        fd: FileDescriptor,
        offset: u64,
        flags: ReadWriteFlags,
        buf_index: u16,
        buf_addr: u64,
        buf_len: u32,
    )
        ensures
            *final(self) == request_entry(
                *old(self),
                operation_code(op),
                fd,
                priority_code(prio),
                offset,
                buf_addr,
                buf_len,
                flags,
                buf_index,
            ),
    {
        self.opcode = RawOperation::from_operation(op);
        self.ioprio = prio.encode();
        self.set_fd(fd);
        self.off = offset;
        self.addr = buf_addr;
        self.len = buf_len;
        self.op_flags = flags;
        self.extra = SubmissionEntryFixedOp { buf_index };
    }

    /// A read into `buf_len` bytes at `buf_addr`, which lie inside the
    /// registered buffer `buf_index`.
    pub fn read_fixed(
        &mut self,
        prio: IoPriority,
        fd: FileDescriptor,
        offset: u64,
        flags: ReadWriteFlags,
        buf_index: u16,
        buf_addr: u64,
        buf_len: u32,
    )
        ensures
            *final(self) == request_entry(
                *old(self),
                4,
                fd,
                priority_code(prio),
                offset,
                buf_addr,
                buf_len,
                flags,
                buf_index,
            ),
    {
        self.io_fixed(Operation::ReadFixed, prio, fd, offset, flags, buf_index, buf_addr, buf_len);
    }

    /// A write from `buf_len` bytes at `buf_addr`, which lie inside the
    /// registered buffer `buf_index`.
    pub fn write_fixed(
        &mut self,
        prio: IoPriority,
        fd: FileDescriptor,
        offset: u64,
        flags: ReadWriteFlags,
        buf_index: u16,
        buf_addr: u64,
        buf_len: u32,
    )
        ensures
            *final(self) == request_entry(
                *old(self),
                5,
                fd,
                priority_code(prio),
                offset,
                buf_addr,
                buf_len,
                flags,
                buf_index,
            ),
    {
        self.io_fixed(Operation::WriteFixed, prio, fd, offset, flags, buf_index, buf_addr, buf_len);
    }

    /// An fsync of the whole file.
    pub fn fsync_full(&mut self, fd: FileDescriptor, flags: FsyncFlags)
        ensures
            *final(self) == request_entry(*old(self), 3, fd, 0, 0, 0, 0, flags, 0),
    {
        self.fsync(fd, flags, 0, 0);
    }

    /// An fsync of `len` bytes from `offset`; `offset + len == 0` syncs up
    /// to the end of the file.
    pub fn fsync(&mut self, fd: FileDescriptor, flags: FsyncFlags, offset: u64, len: u32)
        ensures
            *final(self) == request_entry(*old(self), 3, fd, 0, offset, 0, len, flags, 0),
    {
        self.opcode = RawOperation::from_operation(Operation::Fsync);
        self.ioprio = EncodedIoPriority(0);
        self.set_fd(fd);
        self.off = offset;
        self.addr = 0;
        self.len = len;
        self.op_flags = flags;
        self.extra = SubmissionEntryFixedOp { buf_index: 0 };
    }

    /// A poll for the events in `flags`; the completion's result holds the
    /// mask of ready events.
    pub fn poll_add(&mut self, fd: FileDescriptor, flags: PollFlags)
        ensures
            *final(self) == request_entry(*old(self), 6, fd, 0, 0, 0, 0, flags as u32, 0),
    {
        self.opcode = RawOperation::from_operation(Operation::PollAdd);
        self.ioprio = EncodedIoPriority(0);
        self.set_fd(fd);
        self.off = 0;
        self.addr = 0;
        self.len = 0;
        self.op_flags = flags as u32;
        self.extra = SubmissionEntryFixedOp { buf_index: 0 };
    }

    /// Removes the poll whose entry carried `match_user_data`; the removal
    /// itself completes too.
    pub fn poll_remove(&mut self, match_user_data: u64)
        ensures
            *final(self) == request_entry(
                *old(self),
                7,
                FileDescriptor::FD(0),
                0,
                0,
                match_user_data,
                0,
                0,
                0,
            ),
    {
        self.opcode = RawOperation::from_operation(Operation::PollRemove);
        self.flags = 0;
        self.ioprio = EncodedIoPriority(0);
        self.fd = 0;
        self.off = 0;
        self.addr = match_user_data;
        self.len = 0;
        self.op_flags = 0;
        self.extra = SubmissionEntryFixedOp { buf_index: 0 };
    }
}

/// A completion queue entry (`struct io_uring_cqe`).
#[derive(Clone, Copy, PartialEq, Eq, Debug)]
pub struct CompletionEntry {
    /// the `user_data` of the submission entry, verbatim
    pub user_data: u64,
    /// a negative errno on failure, else the operation's result
    pub res: i32,
    pub flags: u32,
}

} // verus!
