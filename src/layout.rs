//! The byte layout the kernel shares: little-endian fields at fixed
//! offsets. Submission entries are 64 bytes, completion entries 16, setup
//! parameters 120.
use vstd::prelude::*;
use crate::sys::{
    CompletionEntry,
    CompletionQueueRingOffsets,
    SetupParameters,
    SubmissionEntry,
    SubmissionQueueRingOffsets,
};

verus! {

/// Size of a submission entry.
pub const SUBMISSION_ENTRY_SIZE: usize = 64;

/// Size of a completion entry.
pub const COMPLETION_ENTRY_SIZE: usize = 16;

/// Size of the setup parameters.
pub const SETUP_PARAMETERS_SIZE: usize = 120;

pub open spec fn le16(v: u16) -> Seq<u8> {
    seq![(v % 256) as u8, (v / 256) as u8]
}

pub open spec fn le32(v: u32) -> Seq<u8> {
    seq![
        (v % 256) as u8,
        (v / 0x100 % 256) as u8,
        (v / 0x1_0000 % 256) as u8,
        (v / 0x100_0000) as u8,
    ]
}

pub open spec fn le64(v: u64) -> Seq<u8> {
    le32((v % 0x1_0000_0000) as u32) + le32((v / 0x1_0000_0000) as u32)
}

/// `n` zero bytes.
pub open spec fn zeros(n: nat) -> Seq<u8> {
    Seq::new(n, |i: int| 0u8)
}

/// The little-endian value of the four bytes of `b` at `at`.
pub open spec fn read32(b: Seq<u8>, at: int) -> u32 {
    (b[at] + 0x100 * b[at + 1] + 0x1_0000 * b[at + 2] + 0x100_0000 * b[at + 3]) as u32
}

/// The little-endian value of the eight bytes of `b` at `at`.
pub open spec fn read64(b: Seq<u8>, at: int) -> u64 {
    (read32(b, at) + 0x1_0000_0000 * read32(b, at + 4)) as u64
}

/// A 32-bit pattern read as a two's complement integer.
pub open spec fn signed32(u: u32) -> i32 {
    if u < 0x8000_0000 {
        u as i32
    } else {
        (u - 0x1_0000_0000) as i32
    }
}

/// The 64 bytes of a submission entry (`struct io_uring_sqe`).
pub open spec fn submission_entry_bytes(e: SubmissionEntry) -> Seq<u8> {
    seq![e.opcode.0, e.flags] + le16(e.ioprio.0) + le32(e.fd as u32) + le64(e.off) + le64(e.addr)
        + le32(e.len) + le32(e.op_flags) + le64(e.user_data) + le16(e.extra.buf_index) + zeros(22)
}

/// The completion entry held by the 16 bytes of `b` at `at`.
pub open spec fn completion_entry_at(b: Seq<u8>, at: int) -> CompletionEntry {
    CompletionEntry {
        user_data: read64(b, at),
        res: signed32(read32(b, at + 8)),
        flags: read32(b, at + 12),
    }
}

/// The 40 bytes of the submission ring offsets.
pub open spec fn sq_offsets_bytes(o: SubmissionQueueRingOffsets) -> Seq<u8> {
    le32(o.head) + le32(o.tail) + le32(o.ring_mask) + le32(o.ring_entries) + le32(o.flags) + le32(
        o.dropped,
    ) + le32(o.array) + zeros(12)
}

/// The 40 bytes of the completion ring offsets.
pub open spec fn cq_offsets_bytes(o: CompletionQueueRingOffsets) -> Seq<u8> {
    le32(o.head) + le32(o.tail) + le32(o.ring_mask) + le32(o.ring_entries) + le32(o.overflow)
        + le32(o.cqes) + zeros(16)
}

/// The first 40 bytes of the setup parameters: the scalar fields and the
/// reserved words, zero.
pub open spec fn setup_header_bytes(p: SetupParameters) -> Seq<u8> {
    le32(p.sq_entries) + le32(p.cq_entries) + le32(p.flags) + le32(p.sq_thread_cpu) + le32(
        p.sq_thread_idle,
    ) + zeros(20)
}

/// The 120 bytes of the setup parameters (`struct io_uring_params`).
pub open spec fn setup_parameters_bytes(p: SetupParameters) -> Seq<u8> {
    setup_header_bytes(p) + sq_offsets_bytes(p.sq_off) + cq_offsets_bytes(p.cq_off)
}

/// The setup parameters held by 120 bytes.
pub open spec fn setup_parameters_of(b: Seq<u8>) -> SetupParameters {
    SetupParameters {
        sq_entries: read32(b, 0),
        cq_entries: read32(b, 4),
        flags: read32(b, 8),
        sq_thread_cpu: read32(b, 12),
        sq_thread_idle: read32(b, 16),
        sq_off: SubmissionQueueRingOffsets {
            head: read32(b, 40),
            tail: read32(b, 44),
            ring_mask: read32(b, 48),
            ring_entries: read32(b, 52),
            flags: read32(b, 56),
            dropped: read32(b, 60),
            array: read32(b, 64),
        },
        cq_off: CompletionQueueRingOffsets {
            head: read32(b, 80),
            tail: read32(b, 84),
            ring_mask: read32(b, 88),
            ring_entries: read32(b, 92),
            overflow: read32(b, 96),
            cqes: read32(b, 100),
        },
    }
}

/// Four bytes written as `le32(v)` read back as `v`.
pub proof fn lemma_read32_of_le32(s: Seq<u8>, at: int, v: u32)
    requires
        0 <= at,
        at + 4 <= s.len(),
        s.subrange(at, at + 4) == le32(v),
    ensures
        read32(s, at) == v,
{
    assert(s[at] == s.subrange(at, at + 4)[0]);
    assert(s[at + 1] == s.subrange(at, at + 4)[1]);
    assert(s[at + 2] == s.subrange(at, at + 4)[2]);
    assert(s[at + 3] == s.subrange(at, at + 4)[3]);
    assert((v % 256) + 0x100 * (v / 0x100 % 256) + 0x1_0000 * (v / 0x1_0000 % 256) + 0x100_0000 * (v
        / 0x100_0000) == v) by (bit_vector);
}

proof fn lemma_read32_in_middle(x: Seq<u8>, y: Seq<u8>, z: Seq<u8>, k: int)
    requires
        0 <= k,
        k + 4 <= y.len(),
    ensures
        read32(x + y + z, x.len() + k) == read32(y, k),
{
    let s = x + y + z;
    assert(s[x.len() + k] == y[k]);
    assert(s[x.len() + k + 1] == y[k + 1]);
    assert(s[x.len() + k + 2] == y[k + 2]);
    assert(s[x.len() + k + 3] == y[k + 3]);
}

proof fn lemma_read32_in_front(x: Seq<u8>, y: Seq<u8>, k: int)
    requires
        0 <= k,
        k + 4 <= x.len(),
    ensures
        read32(x + y, k) == read32(x, k),
{
    let s = x + y;
    assert(s[k] == x[k]);
    assert(s[k + 1] == x[k + 1]);
    assert(s[k + 2] == x[k + 2]);
    assert(s[k + 3] == x[k + 3]);
}

proof fn lemma_header_fields(p: SetupParameters)
    ensures
        setup_header_bytes(p).len() == 40,
        read32(setup_header_bytes(p), 0) == p.sq_entries,
        read32(setup_header_bytes(p), 4) == p.cq_entries,
        read32(setup_header_bytes(p), 8) == p.flags,
        read32(setup_header_bytes(p), 12) == p.sq_thread_cpu,
        read32(setup_header_bytes(p), 16) == p.sq_thread_idle,
{
    let b = setup_header_bytes(p);
    assert(b.subrange(0, 4) =~= le32(p.sq_entries));
    assert(b.subrange(4, 8) =~= le32(p.cq_entries));
    assert(b.subrange(8, 12) =~= le32(p.flags));
    assert(b.subrange(12, 16) =~= le32(p.sq_thread_cpu));
    assert(b.subrange(16, 20) =~= le32(p.sq_thread_idle));
    lemma_read32_of_le32(b, 0, p.sq_entries);
    lemma_read32_of_le32(b, 4, p.cq_entries);
    lemma_read32_of_le32(b, 8, p.flags);
    lemma_read32_of_le32(b, 12, p.sq_thread_cpu);
    lemma_read32_of_le32(b, 16, p.sq_thread_idle);
}

proof fn lemma_sq_offsets_fields(o: SubmissionQueueRingOffsets)
    ensures
        sq_offsets_bytes(o).len() == 40,
        read32(sq_offsets_bytes(o), 0) == o.head,
        read32(sq_offsets_bytes(o), 4) == o.tail,
        read32(sq_offsets_bytes(o), 8) == o.ring_mask,
        read32(sq_offsets_bytes(o), 12) == o.ring_entries,
        read32(sq_offsets_bytes(o), 16) == o.flags,
        read32(sq_offsets_bytes(o), 20) == o.dropped,
        read32(sq_offsets_bytes(o), 24) == o.array,
{
    let b = sq_offsets_bytes(o);
    assert(b.subrange(0, 4) =~= le32(o.head));
    assert(b.subrange(4, 8) =~= le32(o.tail));
    assert(b.subrange(8, 12) =~= le32(o.ring_mask));
    assert(b.subrange(12, 16) =~= le32(o.ring_entries));
    assert(b.subrange(16, 20) =~= le32(o.flags));
    assert(b.subrange(20, 24) =~= le32(o.dropped));
    assert(b.subrange(24, 28) =~= le32(o.array));
    lemma_read32_of_le32(b, 0, o.head);
    lemma_read32_of_le32(b, 4, o.tail);
    lemma_read32_of_le32(b, 8, o.ring_mask);
    lemma_read32_of_le32(b, 12, o.ring_entries);
    lemma_read32_of_le32(b, 16, o.flags);
    lemma_read32_of_le32(b, 20, o.dropped);
    lemma_read32_of_le32(b, 24, o.array);
}

proof fn lemma_cq_offsets_fields(o: CompletionQueueRingOffsets)
    ensures
        cq_offsets_bytes(o).len() == 40,
        read32(cq_offsets_bytes(o), 0) == o.head,
        read32(cq_offsets_bytes(o), 4) == o.tail,
        read32(cq_offsets_bytes(o), 8) == o.ring_mask,
        read32(cq_offsets_bytes(o), 12) == o.ring_entries,
        read32(cq_offsets_bytes(o), 16) == o.overflow,
        read32(cq_offsets_bytes(o), 20) == o.cqes,
{
    let b = cq_offsets_bytes(o);
    assert(b.subrange(0, 4) =~= le32(o.head));
    assert(b.subrange(4, 8) =~= le32(o.tail));
    assert(b.subrange(8, 12) =~= le32(o.ring_mask));
    assert(b.subrange(12, 16) =~= le32(o.ring_entries));
    assert(b.subrange(16, 20) =~= le32(o.overflow));
    assert(b.subrange(20, 24) =~= le32(o.cqes));
    lemma_read32_of_le32(b, 0, o.head);
    lemma_read32_of_le32(b, 4, o.tail);
    lemma_read32_of_le32(b, 8, o.ring_mask);
    lemma_read32_of_le32(b, 12, o.ring_entries);
    lemma_read32_of_le32(b, 16, o.overflow);
    lemma_read32_of_le32(b, 20, o.cqes);
}

/// Setup parameters read back from their bytes are the same parameters.
pub proof fn lemma_setup_parameters_round_trip(p: SetupParameters)
    ensures
        setup_parameters_bytes(p).len() == SETUP_PARAMETERS_SIZE,
        setup_parameters_of(setup_parameters_bytes(p)) == p,
{
    let h = setup_header_bytes(p);
    let so = sq_offsets_bytes(p.sq_off);
    let co = cq_offsets_bytes(p.cq_off);
    lemma_header_fields(p);
    lemma_sq_offsets_fields(p.sq_off);
    lemma_cq_offsets_fields(p.cq_off);
    let b = setup_parameters_bytes(p);
    assert(b == h + so + co);
    assert forall|k: int| 0 <= k && k + 4 <= 40 implies #[trigger] read32(b, k) == read32(h, k) by {
        lemma_read32_in_front(h + so, co, k);
        lemma_read32_in_front(h, so, k);
    }
    assert forall|k: int| 0 <= k && k + 4 <= 40 implies #[trigger] read32(b, 40 + k) == read32(so, k) by {
        lemma_read32_in_middle(h, so, co, k);
    }
    assert forall|k: int| 0 <= k && k + 4 <= 40 implies #[trigger] read32(b, 80 + k) == read32(co, k) by {
        lemma_read32_in_middle(h + so, co, Seq::<u8>::empty(), k);
        assert(h + so + co + Seq::<u8>::empty() =~= b);
    }
    assert(read32(b, 40int + 0) == read32(so, 0));
    assert(read32(b, 40int + 4) == read32(so, 4));
    assert(read32(b, 40int + 8) == read32(so, 8));
    assert(read32(b, 40int + 12) == read32(so, 12));
    assert(read32(b, 40int + 16) == read32(so, 16));
    assert(read32(b, 40int + 20) == read32(so, 20));
    assert(read32(b, 40int + 24) == read32(so, 24));
    assert(read32(b, 80int + 0) == read32(co, 0));
    assert(read32(b, 80int + 4) == read32(co, 4));
    assert(read32(b, 80int + 8) == read32(co, 8));
    assert(read32(b, 80int + 12) == read32(co, 12));
    assert(read32(b, 80int + 16) == read32(co, 16));
    assert(read32(b, 80int + 20) == read32(co, 20));
    assert(read32(b, 0) == read32(h, 0));
    assert(read32(b, 4) == read32(h, 4));
    assert(read32(b, 8) == read32(h, 8));
    assert(read32(b, 12) == read32(h, 12));
    assert(read32(b, 16) == read32(h, 16));
}

fn push16(out: &mut Vec<u8>, v: u16)
    ensures
        final(out)@ == old(out)@ + le16(v),
{
    out.push((v % 256) as u8);
    out.push((v / 256) as u8);
    assert(final(out)@ =~= old(out)@ + le16(v));
}

fn push32(out: &mut Vec<u8>, v: u32)
    ensures
        final(out)@ == old(out)@ + le32(v),
{
    out.push((v % 256) as u8);
    out.push((v / 0x100 % 256) as u8);
    out.push((v / 0x1_0000 % 256) as u8);
    out.push((v / 0x100_0000) as u8);
    assert(final(out)@ =~= old(out)@ + le32(v));
}

fn push64(out: &mut Vec<u8>, v: u64)
    ensures
        final(out)@ == old(out)@ + le64(v),
{
    push32(out, (v % 0x1_0000_0000) as u32);
    push32(out, (v / 0x1_0000_0000) as u32);
    assert(final(out)@ =~= old(out)@ + le64(v));
}

fn push_zeros(out: &mut Vec<u8>, n: usize)
    ensures
        final(out)@ == old(out)@ + zeros(n as nat),
{
    let mut i: usize = 0;
    while i < n
        invariant
            i <= n,
            out@ == old(out)@ + zeros(i as nat),
        decreases n - i,
    {
        out.push(0);
        i = i + 1;
        assert(out@ =~= old(out)@ + zeros(i as nat));
    }
}

fn get32(b: &[u8], at: usize) -> (r: u32)
    requires
        at + 4 <= b.len(),
    ensures
        r == read32(b@, at as int),
{
    b[at] as u32 + 0x100 * (b[at + 1] as u32) + 0x1_0000 * (b[at + 2] as u32) + 0x100_0000 * (b[at
        + 3] as u32)
}

fn get64(b: &[u8], at: usize) -> (r: u64)
    requires
        at + 8 <= b.len(),
    ensures
        r == read64(b@, at as int),
{
    get32(b, at) as u64 + 0x1_0000_0000 * (get32(b, at + 4) as u64)
}

fn to_signed32(u: u32) -> (r: i32)
    ensures
        r == signed32(u),
{
    if u < 0x8000_0000 {
        u as i32
    } else {
        (u as i64 - 0x1_0000_0000) as i32
    }
}

fn push_sq_offsets(out: &mut Vec<u8>, o: &SubmissionQueueRingOffsets)
    ensures
        final(out)@ == old(out)@ + sq_offsets_bytes(*o),
{
    let ghost start = out@;
    push32(out, o.head);
    push32(out, o.tail);
    push32(out, o.ring_mask);
    push32(out, o.ring_entries);
    push32(out, o.flags);
    push32(out, o.dropped);
    push32(out, o.array);
    push_zeros(out, 12);
    assert(out@ =~= start + sq_offsets_bytes(*o));
}

fn push_cq_offsets(out: &mut Vec<u8>, o: &CompletionQueueRingOffsets)
    ensures
        final(out)@ == old(out)@ + cq_offsets_bytes(*o),
{
    let ghost start = out@;
    push32(out, o.head);
    push32(out, o.tail);
    push32(out, o.ring_mask);
    push32(out, o.ring_entries);
    push32(out, o.overflow);
    push32(out, o.cqes);
    push_zeros(out, 16);
    assert(out@ =~= start + cq_offsets_bytes(*o));
}

impl SubmissionEntry {
    /// The 64 bytes the kernel reads for this entry.
    pub fn to_bytes(&self) -> (r: Vec<u8>)
        ensures
            r@ == submission_entry_bytes(*self),
            r@.len() == SUBMISSION_ENTRY_SIZE,
    {
        let mut out: Vec<u8> = Vec::new();
        out.push(self.opcode.0);
        out.push(self.flags);
        assert(out@ =~= seq![self.opcode.0, self.flags]);
        push16(&mut out, self.ioprio.0);
        push32(&mut out, self.fd as u32);
        push64(&mut out, self.off);
        push64(&mut out, self.addr);
        push32(&mut out, self.len);
        push32(&mut out, self.op_flags);
        push64(&mut out, self.user_data);
        push16(&mut out, self.extra.buf_index);
        push_zeros(&mut out, 22);
        out
    }
}

impl CompletionEntry {
    /// The completion entry in the 16 bytes of `b` at `at`.
    pub fn from_bytes(b: &[u8], at: usize) -> (r: CompletionEntry)
        requires
            at + COMPLETION_ENTRY_SIZE <= b.len(),
        ensures
            r == completion_entry_at(b@, at as int),
    {
        CompletionEntry {
            user_data: get64(b, at),
            res: to_signed32(get32(b, at + 8)),
            flags: get32(b, at + 12),
        }
    }
}

impl SetupParameters {
    /// The 120 bytes handed to `io_uring_setup`.
    pub fn to_bytes(&self) -> (r: Vec<u8>)
        ensures
            r@ == setup_parameters_bytes(*self),
            r@.len() == SETUP_PARAMETERS_SIZE,
    {
        let mut out: Vec<u8> = Vec::new();
        push32(&mut out, self.sq_entries);
        assert(out@ =~= le32(self.sq_entries));
        push32(&mut out, self.cq_entries);
        push32(&mut out, self.flags);
        push32(&mut out, self.sq_thread_cpu);
        push32(&mut out, self.sq_thread_idle);
        push_zeros(&mut out, 20);
        push_sq_offsets(&mut out, &self.sq_off);
        push_cq_offsets(&mut out, &self.cq_off);
        out
    }

    /// The parameters the kernel wrote back into the 120 bytes `b`.
    pub fn from_bytes(b: &[u8]) -> (r: SetupParameters)
        requires
            b@.len() == SETUP_PARAMETERS_SIZE,
        ensures
            r == setup_parameters_of(b@),
    {
        SetupParameters {
            sq_entries: get32(b, 0),
            cq_entries: get32(b, 4),
            flags: get32(b, 8),
            sq_thread_cpu: get32(b, 12),
            sq_thread_idle: get32(b, 16),
            sq_off: SubmissionQueueRingOffsets {
                head: get32(b, 40),
                tail: get32(b, 44),
                ring_mask: get32(b, 48),
                ring_entries: get32(b, 52),
                flags: get32(b, 56),
                dropped: get32(b, 60),
                array: get32(b, 64),
            },
            cq_off: CompletionQueueRingOffsets {
                head: get32(b, 80),
                tail: get32(b, 84),
                ring_mask: get32(b, 88),
                ring_entries: get32(b, 92),
                overflow: get32(b, 96),
                cqes: get32(b, 100),
            },
        }
    }
}

} // verus!
