//! The hash session: construction, the read/hash/report loop, cooperative
//! cancellation, and exactly-once teardown.
//!
//! A session owns an incremental digest accumulator and byte counters; the
//! byte source itself is pumped by the caller, who hands the session one
//! `ReadEvent` per read and performs the `Action` the session asks for at
//! each chunk boundary. `process_slice` runs the same loop wholly in
//! memory for a source that is already a byte slice.

use vstd::prelude::*;
use vstd::slice::slice_subrange;
use xxhash_rust::xxh64::Xxh64;
use crate::hashing::absorbed_of;
use crate::hashing::seed_of;
use crate::hashing::xxh64_of;
use crate::hashing::hasher_new;
use crate::hashing::hasher_update;
use crate::hashing::hasher_digest;

verus! {

/// The chunk size substituted when a caller asks for `0`.
pub const DEFAULT_CHUNK_SIZE: usize = 65536;

/// What a processing run reports at the boundary.
#[derive(Clone, Copy, Debug, PartialEq, Eq, Structural)]
pub enum ProcessStatus {
    /// The source was drained to its end.
    Completed,
    /// The operation was applied to an invalid or consumed handle.
    Invalid,
    /// The cancellation signal was honored at a chunk boundary.
    Cancelled,
    /// A read from the source failed mid-stream.
    ReadError,
}

/// One observation of the byte source by the caller's pump.
pub enum ReadEvent {
    /// A successful read: the bytes that came back.
    Data(Vec<u8>),
    /// A read that returned no bytes: the source is exhausted.
    EndOfSource,
    /// A failed read.
    Failure,
}

/// What the session asks its caller to do next at a chunk boundary.
#[derive(Clone, Copy, Debug, PartialEq, Eq, Structural)]
pub enum Action {
    /// Read up to this many bytes and hand back the outcome via `consume`.
    Read(usize),
    /// Stop the loop and report this status.
    Stop(ProcessStatus),
}

/// The numeric status code each status is surfaced as at the boundary.
pub open spec fn spec_status_code(st: ProcessStatus) -> i32 {
    match st {
        ProcessStatus::Completed => 0i32,
        ProcessStatus::Invalid => -1i32,
        ProcessStatus::Cancelled => -4i32,
        ProcessStatus::ReadError => -5i32,
    }
}

/// Map a status to its boundary status code.
pub fn status_code(st: ProcessStatus) -> (c: i32)
    ensures
        c == spec_status_code(st),
{
    match st {
        ProcessStatus::Completed => 0,
        ProcessStatus::Invalid => -1,
        ProcessStatus::Cancelled => -4,
        ProcessStatus::ReadError => -5,
    }
}

/// The progress reports a run appends while absorbing `remaining` more
/// bytes in chunks of `chunk`, having already counted `start` bytes of a
/// source whose best-effort total size is `total`: one
/// `(processedBytes, totalSize)` pair per chunk read, every chunk full
/// except possibly the last.
pub open spec fn chunk_reports(start: int, remaining: int, chunk: int, total: u64) -> Seq<(u64, u64)>
    decreases remaining,
{
    if remaining <= 0 || chunk <= 0 {
        Seq::empty()
    } else {
        let n = if remaining < chunk { remaining } else { chunk };
        seq![(((start + n) as u64, total))] + chunk_reports(start + n, remaining - n, chunk, total)
    }
}

/// A streaming digest session.
pub struct HashSession {
    hasher: Xxh64,
    total: u64,
    processed: u64,
    chunk_size: usize,
    cancelled: bool,
}

impl HashSession {
    /// The bytes the accumulator has absorbed, in stream order.
    pub closed spec fn spec_absorbed(self) -> Seq<u8> {
        absorbed_of(self.hasher)
    }

    /// The accumulator's seed.
    pub closed spec fn spec_seed(self) -> u64 {
        seed_of(self.hasher)
    }

    /// The best-effort total size of the source, as given at construction.
    pub closed spec fn spec_total(self) -> u64 {
        self.total
    }

    /// The number of bytes counted so far.
    pub closed spec fn spec_processed(self) -> u64 {
        self.processed
    }

    /// The size of each read.
    pub closed spec fn spec_chunk_size(self) -> usize {
        self.chunk_size
    }

    /// Whether the cancellation signal has been observed set.
    pub closed spec fn spec_cancelled(self) -> bool {
        self.cancelled
    }

    /// Well-formed: the byte counter matches exactly what the accumulator
    /// absorbed, the seed is the fixed zero seed, and the chunk size is
    /// positive.
    pub open spec fn wf(self) -> bool {
        &&& self.spec_processed() == self.spec_absorbed().len()
        &&& self.spec_seed() == 0
        &&& self.spec_chunk_size() > 0
    }

    /// The status a single-threaded run over an in-memory source reports:
    /// `Cancelled` when the flag is set at entry, else `Completed`.
    pub open spec fn run_status(self) -> ProcessStatus {
        if self.spec_cancelled() {
            ProcessStatus::Cancelled
        } else {
            ProcessStatus::Completed
        }
    }

    /// The bytes absorbed once a run over `data` starting at `start` is
    /// done: unchanged when cancelled, else extended by the rest of the
    /// source.
    pub open spec fn absorbed_after_run(self, data: Seq<u8>, start: int) -> Seq<u8> {
        if self.spec_cancelled() {
            self.spec_absorbed()
        } else {
            self.spec_absorbed() + data.subrange(start, data.len() as int)
        }
    }

    /// The byte counter once a run over `data` starting at `start` is done.
    pub open spec fn processed_after_run(self, data: Seq<u8>, start: int) -> int {
        if self.spec_cancelled() {
            self.spec_processed() as int
        } else {
            self.spec_processed() + (data.len() - start)
        }
    }

    /// Construct a session over a source whose best-effort size is `total`
    /// (`0` when unknown or empty), reading `chunk_size` bytes at a time;
    /// a `chunk_size` of `0` selects the default. The counter starts at
    /// `0`, nothing is absorbed, and the cancellation signal is unset.
    pub fn new(total: u64, chunk_size: u32) -> (s: HashSession)
        ensures
            s.wf(),
            s.spec_processed() == 0,
            s.spec_absorbed() == Seq::<u8>::empty(),
            s.spec_total() == total,
            s.spec_chunk_size() as int == (if chunk_size == 0 { DEFAULT_CHUNK_SIZE as int } else { chunk_size as int }),
            !s.spec_cancelled(),
    {
        let cs: usize = if chunk_size == 0 { DEFAULT_CHUNK_SIZE } else { chunk_size as usize };
        HashSession {
            hasher: hasher_new(0),
            total,
            processed: 0,
            chunk_size: cs,
            cancelled: false,
        }
    }

    /// Set the cancellation signal. It touches neither the accumulator nor
    /// the counters; the processing loop honors it at the next chunk
    /// boundary.
    pub fn cancel(&mut self)
        ensures
            final(self).spec_cancelled(),
            final(self).spec_absorbed() == old(self).spec_absorbed(),
            final(self).spec_processed() == old(self).spec_processed(),
            final(self).spec_total() == old(self).spec_total(),
            final(self).spec_chunk_size() == old(self).spec_chunk_size(),
            final(self).spec_seed() == old(self).spec_seed(),
    {
        self.cancelled = true;
    }

    /// Whether the cancellation signal is set.
    pub fn is_cancelled(&self) -> (b: bool)
        ensures
            b == self.spec_cancelled(),
    {
        self.cancelled
    }

    /// The number of bytes counted so far.
    pub fn processed(&self) -> (p: u64)
        ensures
            p == self.spec_processed(),
    {
        self.processed
    }

    /// The best-effort total size of the source.
    pub fn total_size(&self) -> (t: u64)
        ensures
            t == self.spec_total(),
    {
        self.total
    }

    /// The size of each read.
    pub fn chunk_size(&self) -> (c: usize)
        ensures
            c == self.spec_chunk_size(),
    {
        self.chunk_size
    }

    /// The decision at a chunk boundary: stop with `Cancelled` when the
    /// signal is set, otherwise read up to one more chunk.
    pub fn next_action(&self) -> (a: Action)
        ensures
            a == (if self.spec_cancelled() {
                Action::Stop(ProcessStatus::Cancelled)
            } else {
                Action::Read(self.spec_chunk_size())
            }),
    {
        if self.cancelled {
            Action::Stop(ProcessStatus::Cancelled)
        } else {
            Action::Read(self.chunk_size)
        }
    }

    /// Account one observation of the source: absorb the bytes of a
    /// successful read, in order, and keep going; stop with `Completed` at
    /// end of source and with `ReadError` on a failed read, in both cases
    /// leaving every counter and the accumulator exactly as they were.
    /// The cancellation signal is not consulted here: it is checked only
    /// at chunk boundaries, by `next_action`.
    pub fn consume(&mut self, event: ReadEvent) -> (r: Option<ProcessStatus>)
        requires
            old(self).wf(),
            event matches ReadEvent::Data(b) ==> old(self).spec_processed() + b@.len() <= u64::MAX,
        ensures
            final(self).wf(),
            final(self).spec_total() == old(self).spec_total(),
            final(self).spec_chunk_size() == old(self).spec_chunk_size(),
            final(self).spec_cancelled() == old(self).spec_cancelled(),
            final(self).spec_seed() == old(self).spec_seed(),
            (match event {
                ReadEvent::Data(b) => {
                    &&& r is None
                    &&& final(self).spec_absorbed() == old(self).spec_absorbed() + b@
                    &&& final(self).spec_processed() == old(self).spec_processed() + b@.len()
                }
                ReadEvent::EndOfSource => {
                    &&& r == Some(ProcessStatus::Completed)
                    &&& final(self).spec_absorbed() == old(self).spec_absorbed()
                    &&& final(self).spec_processed() == old(self).spec_processed()
                }
                ReadEvent::Failure => {
                    &&& r == Some(ProcessStatus::ReadError)
                    &&& final(self).spec_absorbed() == old(self).spec_absorbed()
                    &&& final(self).spec_processed() == old(self).spec_processed()
                }
            }),
    {
        match event {
            ReadEvent::Data(b) => {
                hasher_update(&mut self.hasher, b.as_slice());
                self.processed = self.processed + b.len() as u64;
                None
            }
            ReadEvent::EndOfSource => Some(ProcessStatus::Completed),
            ReadEvent::Failure => Some(ProcessStatus::ReadError),
        }
    }

    /// The processing loop over a source that is already in memory,
    /// resuming at `*pos`: at each chunk boundary first honor the
    /// cancellation signal, then take up to one chunk; absorb it, count
    /// it, and append one `(processedBytes, totalSize)` progress report;
    /// at end of source stop with `Completed`.
    #[verifier::loop_isolation(false)]
    pub fn process_slice(&mut self, data: &[u8], pos: &mut usize, reports: &mut Vec<(u64, u64)>) -> (st: ProcessStatus)
        requires
            old(self).wf(),
            *old(pos) <= data@.len(),
            old(self).spec_processed() + (data@.len() - *old(pos)) <= u64::MAX,
        ensures
            final(self).wf(),
            final(self).spec_total() == old(self).spec_total(),
            final(self).spec_chunk_size() == old(self).spec_chunk_size(),
            final(self).spec_cancelled() == old(self).spec_cancelled(),
            final(self).spec_seed() == old(self).spec_seed(),
            st == old(self).run_status(),
            final(self).spec_absorbed() == old(self).absorbed_after_run(data@, *old(pos) as int),
            final(self).spec_processed() == old(self).processed_after_run(data@, *old(pos) as int),
            old(self).spec_cancelled() ==> *final(pos) == *old(pos) && final(reports)@ == old(reports)@,
            !old(self).spec_cancelled() ==> *final(pos) == data@.len()
                && final(reports)@ == old(reports)@ + chunk_reports(
                    old(self).spec_processed() as int,
                    data@.len() - *old(pos),
                    old(self).spec_chunk_size() as int,
                    old(self).spec_total(),
                ),
    {
        let ghost s0 = *self;
        let ghost pos0 = *old(pos);
        let ghost reports0 = old(reports)@;
        proof {
            assert(s0.spec_absorbed() + data@.subrange(pos0 as int, pos0 as int) =~= s0.spec_absorbed());
        }
        loop
            invariant
                self.wf(),
                self.spec_total() == s0.spec_total(),
                self.spec_chunk_size() == s0.spec_chunk_size(),
                self.spec_cancelled() == s0.spec_cancelled(),
                self.spec_seed() == s0.spec_seed(),
                pos0 <= *pos <= data@.len(),
                self.spec_processed() == s0.spec_processed() + (*pos - pos0),
                self.spec_absorbed() == s0.spec_absorbed() + data@.subrange(pos0 as int, *pos as int),
                s0.spec_cancelled() ==> *pos == pos0 && reports@ == reports0
                    && self.spec_absorbed() == s0.spec_absorbed(),
                reports0 + chunk_reports(s0.spec_processed() as int, data@.len() - pos0, s0.spec_chunk_size() as int, s0.spec_total())
                    == reports@ + chunk_reports(self.spec_processed() as int, data@.len() - *pos, s0.spec_chunk_size() as int, s0.spec_total()),
            decreases data@.len() - *pos,
        {
            if self.cancelled {
                return ProcessStatus::Cancelled;
            }
            let remaining: usize = data.len() - *pos;
            let n: usize = if remaining < self.chunk_size { remaining } else { self.chunk_size };
            if n == 0 {
                proof {
                    assert(reports@ + chunk_reports(self.spec_processed() as int, 0, s0.spec_chunk_size() as int, s0.spec_total()) =~= reports@);
                }
                return ProcessStatus::Completed;
            }
            let ghost p_before: int = self.spec_processed() as int;
            let ghost pos_before: int = *pos as int;
            let ghost reports_before: Seq<(u64, u64)> = reports@;
            let chunk: &[u8] = slice_subrange(data, *pos, *pos + n);
            hasher_update(&mut self.hasher, chunk);
            self.processed = self.processed + (n as u64);
            *pos = *pos + n;
            reports.push((self.processed, self.total));
            proof {
                assert(s0.spec_absorbed() + data@.subrange(pos0 as int, *pos as int)
                    =~= (s0.spec_absorbed() + data@.subrange(pos0 as int, pos_before)) + data@.subrange(pos_before, *pos as int));
                let c = s0.spec_chunk_size() as int;
                let t = s0.spec_total();
                let rem_before = data@.len() - pos_before;
                assert(chunk_reports(p_before, rem_before, c, t)
                    == seq![(((p_before + n) as u64, t))] + chunk_reports(p_before + n, rem_before - n, c, t));
                assert(reports@ =~= reports_before + seq![(((p_before + n) as u64, t))]);
                assert(reports_before + chunk_reports(p_before, rem_before, c, t)
                    =~= reports@ + chunk_reports(p_before + n, rem_before - n, c, t));
            }
        }
    }

    /// Extract the digest over everything absorbed so far and end the
    /// session. Taking `self` by value makes a second `finalize`, or a
    /// `cleanup` after it, impossible: teardown happens exactly once.
    /// Valid after `Completed`, `Cancelled` and `ReadError` alike — the
    /// digest covers exactly the bytes that were counted.
    pub fn finalize(self) -> (d: u64)
        requires
            self.wf(),
        ensures
            d == xxh64_of(0, self.spec_absorbed()),
    {
        hasher_digest(&self.hasher)
    }

    /// End the session without extracting a digest. Taking `self` by value
    /// makes any later use of the session impossible.
    pub fn cleanup(self) {
    }
}

/// Law: a fresh, uncancelled session absorbs exactly the whole source it
/// is run over, so finalizing after a full run yields the same digest as a
/// single whole-buffer absorption of the identical byte sequence.
pub proof fn lemma_streaming_equals_oneshot(s: HashSession, data: Seq<u8>)
    requires
        !s.spec_cancelled(),
        s.spec_absorbed() == Seq::<u8>::empty(),
    ensures
        s.absorbed_after_run(data, 0) == data,
        xxh64_of(0, s.absorbed_after_run(data, 0)) == xxh64_of(0, data),
{
    assert(s.spec_absorbed() + data.subrange(0, data.len() as int) =~= data);
}

/// Law: a session whose cancellation signal is set before any chunk is
/// read reports `Cancelled` from a run and counts nothing: its byte
/// counter stays `0` and nothing is absorbed.
pub proof fn lemma_cancel_before_first_chunk(s: HashSession, data: Seq<u8>, start: int)
    requires
        s.spec_cancelled(),
        s.spec_processed() == 0,
    ensures
        s.run_status() == ProcessStatus::Cancelled,
        s.processed_after_run(data, start) == 0,
        s.absorbed_after_run(data, start) == s.spec_absorbed(),
{
}

/// Law: when at least one byte remains, a run makes at least one progress
/// report, and the last one carries the full byte count `start +
/// remaining`: for a fresh session over a whole source, the final
/// report's `processedBytes` equals the source's total length.
pub proof fn lemma_last_report_is_full_count(start: int, remaining: int, chunk: int, total: u64)
    requires
        0 <= start,
        0 < remaining,
        0 < chunk,
        start + remaining <= u64::MAX,
    ensures
        chunk_reports(start, remaining, chunk, total).len() > 0,
        chunk_reports(start, remaining, chunk, total).last() == (((start + remaining) as u64, total)),
    decreases remaining,
{
    let n = if remaining < chunk { remaining } else { chunk };
    let rest = chunk_reports(start + n, remaining - n, chunk, total);
    assert(chunk_reports(start, remaining, chunk, total) == seq![(((start + n) as u64, total))] + rest);
    if remaining - n > 0 {
        lemma_last_report_is_full_count(start + n, remaining - n, chunk, total);
        assert((seq![(((start + n) as u64, total))] + rest).last() == rest.last());
    } else {
        assert(rest =~= Seq::<(u64, u64)>::empty());
        assert((seq![(((start + n) as u64, total))] + rest).last() == (((start + n) as u64, total)));
    }
}

/// Law: every progress report except the last carries a count that is a
/// whole number of chunks beyond `start`; for a fresh session over a whole
/// source, every reported `processedBytes` but possibly the final one is a
/// multiple of the chunk size.
pub proof fn lemma_reports_chunk_aligned(start: int, remaining: int, chunk: int, total: u64, i: int)
    requires
        0 <= start,
        0 < remaining,
        0 < chunk,
        start + remaining <= u64::MAX,
        0 <= i < chunk_reports(start, remaining, chunk, total).len() - 1,
    ensures
        chunk_reports(start, remaining, chunk, total)[i].0 == start + (i + 1) * chunk,
    decreases remaining,
{
    let n = if remaining < chunk { remaining } else { chunk };
    let rest = chunk_reports(start + n, remaining - n, chunk, total);
    assert(chunk_reports(start, remaining, chunk, total) == seq![(((start + n) as u64, total))] + rest);
    assert(rest.len() > 0);
    assert(remaining - n > 0);
    assert(n == chunk);
    if i == 0 {
        assert(chunk_reports(start, remaining, chunk, total)[0].0 == start + chunk);
        assert(start + (i + 1) * chunk == start + chunk) by (nonlinear_arith)
            requires i == 0;
    } else {
        lemma_reports_chunk_aligned(start + chunk, remaining - chunk, chunk, total, i - 1);
        assert(chunk_reports(start, remaining, chunk, total)[i] == rest[i - 1]);
        assert((start + chunk) + ((i - 1) + 1) * chunk == start + (i + 1) * chunk) by (nonlinear_arith);
    }
}

} // verus!
