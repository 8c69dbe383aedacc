//! Reassembly of fixed-length records from the variable-sized chunks that the
//! link cable delivers, and the claim state of its interface.
use vstd::prelude::*;

verus! {

/// The abstract state of a [`ReassemblyBuffer`].
pub struct BufferModel {
    /// Bytes received and not yet handed out, oldest first.
    pub queue: Seq<u8>,
    /// Whether a chunk has arrived since the last record was handed out.
    pub fetched: bool,
    /// Bytes received over the buffer's lifetime.
    pub bytes_read: nat,
    /// Records for which the last chunk brought more bytes than were needed.
    pub overreads: nat,
    /// Overreads whose excess was not a whole number of records.
    pub malformed_reads: nat,
}

/// The state after `chunk` arrives.
pub open spec fn absorbed(m: BufferModel, chunk: Seq<u8>) -> BufferModel {
    BufferModel {
        queue: m.queue + chunk,
        fetched: true,
        bytes_read: m.bytes_read + chunk.len(),
        overreads: m.overreads,
        malformed_reads: m.malformed_reads,
    }
}

/// Whether serving a record of `n` bytes now finds more bytes than it needs
/// after a chunk arrived for it.
pub open spec fn is_overread(m: BufferModel, n: nat) -> bool {
    m.fetched && m.queue.len() > n
}

/// Whether serving a record of `n` bytes now drops the excess as a desynced frame:
/// repair is on, and the excess is not a whole number of records.
pub open spec fn is_malformed(m: BufferModel, n: nat, repair: bool) -> bool {
    repair && is_overread(m, n) && (m.queue.len() - n) % (n as int) != 0
}

/// Where in the queue the record of `n` bytes starts: after the excess when it is
/// dropped, else at the front.
pub open spec fn record_start(m: BufferModel, n: nat, repair: bool) -> int {
    if is_malformed(m, n, repair) {
        m.queue.len() - n
    } else {
        0
    }
}

/// The record of `n` bytes that the buffer serves from state `m`.
pub open spec fn served_record(m: BufferModel, n: nat, repair: bool) -> Seq<u8> {
    let s = record_start(m, n, repair);
    m.queue.subrange(s, s + n)
}

/// The state after a record of `n` bytes is served from `m`.
pub open spec fn after_record(m: BufferModel, n: nat, repair: bool) -> BufferModel {
    BufferModel {
        queue: m.queue.skip(record_start(m, n, repair) + n),
        fetched: false,
        bytes_read: m.bytes_read,
        overreads: if is_overread(m, n) {
            m.overreads + 1
        } else {
            m.overreads
        },
        malformed_reads: if is_malformed(m, n, repair) {
            m.malformed_reads + 1
        } else {
            m.malformed_reads
        },
    }
}

/// One read of a record of `n` bytes from state `m`, as the read loop runs it:
/// while fewer than `n` bytes are queued, the next of `chunks` arrives; then the
/// record is served. Returns the final state, the record, and how many chunks
/// arrived.
pub open spec fn read_record(m: BufferModel, chunks: Seq<Seq<u8>>, n: nat, repair: bool) -> (
    BufferModel,
    Seq<u8>,
    nat,
)
    decreases chunks.len(),
{
    if m.queue.len() >= n {
        (after_record(m, n, repair), served_record(m, n, repair), 0)
    } else if chunks.len() == 0 {
        (m, seq![], 0)
    } else {
        let (f, rec, k) = read_record(absorbed(m, chunks[0]), chunks.drop_first(), n, repair);
        (f, rec, k + 1)
    }
}

/// Without repair, a read returns exactly the first `n` bytes of what was queued
/// followed by what arrived, and keeps the rest, in order, for the next read:
/// no byte is lost or served twice.
pub proof fn lemma_read_record_in_order(m: BufferModel, chunks: Seq<Seq<u8>>, n: nat)
    requires
        n > 0,
        m.queue.len() + chunks.flatten().len() >= n,
    ensures
        ({
            let (f, rec, k) = read_record(m, chunks, n, false);
            &&& k <= chunks.len()
            &&& rec == (m.queue + chunks.flatten()).take(n as int)
            &&& f.queue + chunks.skip(k as int).flatten() == (m.queue + chunks.flatten()).skip(n as int)
        }),
    decreases chunks.len(),
{
    let all = m.queue + chunks.flatten();
    if m.queue.len() >= n {
        assert(chunks.skip(0) == chunks);
        assert(all.take(n as int) =~= m.queue.subrange(0, n as int));
        assert(m.queue.skip(n as int) + chunks.flatten() =~= all.skip(n as int));
    } else {
        if chunks.len() == 0 {
            assert(chunks.flatten().len() == 0);
        }
        let m2 = absorbed(m, chunks[0]);
        let rest = chunks.drop_first();
        assert(chunks.flatten() == chunks[0] + rest.flatten());
        assert(m2.queue + rest.flatten() =~= all);
        lemma_read_record_in_order(m2, rest, n);
        let (f, rec, k) = read_record(m2, rest, n, false);
        assert(rest.skip(k as int) =~= chunks.skip((k + 1) as int));
    }
}

/// An overread of `k` bytes into an empty queue, `k` not a whole number of records,
/// is taken for a desynced frame when repair is on: the first `k` bytes of the
/// chunk are dropped, the record is the `n` bytes after them, and the malformed
/// and overread counts each go up by one.
pub proof fn lemma_overread_repaired(m: BufferModel, chunk: Seq<u8>, n: nat, k: nat)
    requires
        n > 0,
        m.queue.len() == 0,
        chunk.len() == n + k,
        k % n != 0,
    ensures
        ({
            let (f, rec, used) = read_record(m, seq![chunk], n, true);
            &&& used == 1
            &&& rec == chunk.subrange(k as int, (k + n) as int)
            &&& f.queue.len() == 0
            &&& f.malformed_reads == m.malformed_reads + 1
            &&& f.overreads == m.overreads + 1
            &&& f.bytes_read == m.bytes_read + n + k
        }),
{
    let m2 = absorbed(m, chunk);
    assert(m2.queue =~= chunk);
    assert(k > 0) by (nonlinear_arith)
        requires
            n > 0,
            k % n != 0,
    ;
    assert(is_malformed(m2, n, true));
    let r2 = read_record(m2, seq![chunk].drop_first(), n, true);
    assert(r2 == (after_record(m2, n, true), served_record(m2, n, true), 0nat));
    assert(read_record(m, seq![chunk], n, true) == (r2.0, r2.1, r2.2 + 1));
}

/// An overread of a whole, nonzero number of records into an empty queue drops
/// nothing even with repair on: the record is the first `n` bytes, the rest stays
/// queued, and only the overread count goes up.
pub proof fn lemma_overread_whole_records_kept(m: BufferModel, chunk: Seq<u8>, n: nat, k: nat)
    requires
        n > 0,
        m.queue.len() == 0,
        chunk.len() == n + k,
        k > 0,
        k % n == 0,
    ensures
        ({
            let (f, rec, used) = read_record(m, seq![chunk], n, true);
            &&& used == 1
            &&& rec == chunk.take(n as int)
            &&& f.queue == chunk.skip(n as int)
            &&& f.malformed_reads == m.malformed_reads
            &&& f.overreads == m.overreads + 1
        }),
{
    let m2 = absorbed(m, chunk);
    assert(m2.queue =~= chunk);
    assert(!is_malformed(m2, n, true));
    let r2 = read_record(m2, seq![chunk].drop_first(), n, true);
    assert(r2 == (after_record(m2, n, true), served_record(m2, n, true), 0nat));
    assert(read_record(m, seq![chunk], n, true) == (r2.0, r2.1, r2.2 + 1));
}

/// Queues the chunks that the cable delivers and serves them back as records
/// of an exact length, keeping read statistics.
pub struct ReassemblyBuffer {
    byte_buffer: Vec<u8>,
    fetched: bool,
    stat_bytes_read_overall: usize,
    stat_overreads: u64,
    stat_malformed_reads: u64,
}

impl View for ReassemblyBuffer {
    type V = BufferModel;

    closed spec fn view(&self) -> BufferModel {
        BufferModel {
            queue: self.byte_buffer@,
            fetched: self.fetched,
            bytes_read: self.stat_bytes_read_overall as nat,
            overreads: self.stat_overreads as nat,
            malformed_reads: self.stat_malformed_reads as nat,
        }
    }
}

impl ReassemblyBuffer {
    /// An empty buffer with all counters at zero.
    pub fn new() -> (r: ReassemblyBuffer)
        ensures
            r@ == (BufferModel {
                queue: seq![],
                fetched: false,
                bytes_read: 0,
                overreads: 0,
                malformed_reads: 0,
            }),
    {
        let r = ReassemblyBuffer {
            byte_buffer: Vec::new(),
            fetched: false,
            stat_bytes_read_overall: 0,
            stat_overreads: 0,
            stat_malformed_reads: 0,
        };
        assert(r@.queue =~= seq![]);
        r
    }

    /// Number of bytes queued.
    pub fn queued(&self) -> (r: usize)
        ensures
            r == self@.queue.len(),
    {
        self.byte_buffer.len()
    }

    /// Bytes received over the buffer's lifetime.
    pub fn stat_bytes_read_overall(&self) -> (r: usize)
        ensures
            r == self@.bytes_read,
    {
        self.stat_bytes_read_overall
    }

    /// Records served after an overread.
    pub fn stat_overreads(&self) -> (r: u64)
        ensures
            r == self@.overreads,
    {
        self.stat_overreads
    }

    /// Overreads whose excess was dropped as a desynced frame.
    pub fn stat_malformed_reads(&self) -> (r: u64)
        ensures
            r == self@.malformed_reads,
    {
        self.stat_malformed_reads
    }

    /// Appends a chunk that the cable delivered.
    pub fn absorb(&mut self, chunk: &[u8])
        requires
            old(self)@.bytes_read + chunk@.len() <= usize::MAX,
        ensures
            final(self)@ == absorbed(old(self)@, chunk@),
    {
        let ghost q0 = self.byte_buffer@;
        let mut i: usize = 0;
        while i < chunk.len()
            invariant
                i <= chunk@.len(),
                self.byte_buffer@ == q0 + chunk@.take(i as int),
                self.fetched == old(self).fetched,
                self.stat_bytes_read_overall == old(self).stat_bytes_read_overall,
                self.stat_overreads == old(self).stat_overreads,
                self.stat_malformed_reads == old(self).stat_malformed_reads,
            decreases chunk@.len() - i,
        {
            self.byte_buffer.push(chunk[i]);
            proof {
                assert(chunk@.take(i + 1) == chunk@.take(i as int).push(chunk@[i as int]));
            }
            i = i + 1;
        }
        assert(chunk@.take(i as int) == chunk@);
        self.stat_bytes_read_overall = self.stat_bytes_read_overall + chunk.len();
        self.fetched = true;
    }

    /// Serves the next record of `n` bytes if enough are queued, else returns `None`
    /// and changes nothing. With `repair` on, an overread whose excess is not a whole
    /// number of records is taken for a desynced frame: the excess is dropped and the
    /// record is the last `n` bytes queued.
    pub fn next_record(&mut self, n: usize, repair: bool) -> (r: Option<Vec<u8>>)
        requires
            n > 0,
            old(self)@.overreads < u64::MAX,
            old(self)@.malformed_reads < u64::MAX,
        ensures
            old(self)@.queue.len() < n ==> r is None && final(self)@ == old(self)@,
            old(self)@.queue.len() >= n ==> r is Some && r->0@ == served_record(old(self)@, n as nat, repair)
                && final(self)@ == after_record(old(self)@, n as nat, repair),
    {
        let len = self.byte_buffer.len();
        if len < n {
            return None;
        }
        let overread = self.fetched && len > n;
        let malformed = repair && overread && (len - n) % n != 0;
        let start: usize = if malformed { len - n } else { 0 };
        let ghost q = self.byte_buffer@;
        let mut record = self.byte_buffer.split_off(start);
        let rest = record.split_off(n);
        assert(record@ =~= q.subrange(start as int, start + n));
        assert(rest@ =~= q.skip(start + n));
        self.byte_buffer = rest;
        self.fetched = false;
        if overread {
            self.stat_overreads = self.stat_overreads + 1;
        }
        if malformed {
            self.stat_malformed_reads = self.stat_malformed_reads + 1;
        }
        Some(record)
    }
}

/// Whether the cable's interface is held by this process.
#[derive(Clone, Copy, Debug, PartialEq, Eq, Hash, Structural)]
pub enum InterfaceState {
    Unclaimed,
    Claimed,
    Released,
}

/// The state after a release is asked for in state `s`: a claimed interface
/// becomes released, any other state stays as it is.
pub open spec fn released(s: InterfaceState) -> InterfaceState {
    if s == InterfaceState::Claimed {
        InterfaceState::Released
    } else {
        s
    }
}

impl InterfaceState {
    /// Whether reads and writes are allowed in this state.
    pub fn may_transfer(self) -> (r: bool)
        ensures
            r == (self == InterfaceState::Claimed),
    {
        self == InterfaceState::Claimed
    }

    /// Asks for the interface to be released. Returns whether the hardware release
    /// must be carried out now: only when the interface was claimed. Releasing an
    /// interface that is already released or was never claimed does nothing.
    pub fn release(&mut self) -> (must_release: bool)
        ensures
            must_release == (*old(self) == InterfaceState::Claimed),
            *final(self) == released(*old(self)),
    {
        if *self == InterfaceState::Claimed {
            *self = InterfaceState::Released;
            true
        } else {
            false
        }
    }
}

/// A second release, after a release or without any claim, is a no-op: it asks
/// for no hardware release and leaves the state as it is.
pub proof fn lemma_release_idempotent(s: InterfaceState)
    ensures
        released(released(s)) == released(s),
        released(s) != InterfaceState::Claimed,
        released(InterfaceState::Unclaimed) == InterfaceState::Unclaimed,
{
}

} // verus!
