//! The stream pump: the chunked copy loop shared by both transfer roles.
//!
//! A pump reads fixed-size chunks from a source, writes them to a
//! destination, accumulates a running byte total and reports progress to a
//! sink.  The two roles differ only in their reporting policy: the send side
//! reports after every chunk, the receive side only once the bytes since the
//! last report exceed a threshold.
//!
//! [`PumpState`] carries the accounting for one chunk at a time, so a host
//! loop over real sockets and files can drive it; [`pump_bytes`] is the same
//! loop run over in-memory bytes, with the copy and reporting behaviour
//! stated in full.

use vstd::prelude::*;

verus! {

/// Size of one read chunk, in bytes.
pub const CHUNK_SIZE: usize = 65536;

/// Bytes that must accumulate since the last report before the receive-side
/// pump reports progress again.
pub const RECEIVE_PROGRESS_THRESHOLD: u64 = 524288;

/// When the pump reports progress to its sink.
#[derive(Clone, Copy, PartialEq, Eq, Structural, Debug)]
pub enum ProgressPolicy {
    /// Report after every chunk (send direction).
    EveryChunk,
    /// Report only once the bytes since the last report exceed the given
    /// threshold (receive direction).
    AfterDelta(u64),
}

/// How a pump run ended: end-of-stream reached, or aborted on a read or
/// write failure.
#[derive(Clone, Copy, PartialEq, Eq, Structural, Debug)]
pub enum PumpOutcome {
    Complete,
    Aborted,
}

/// The byte accounting of one pump: the running total and the total as of
/// the last progress report.
#[derive(Clone, Copy, PartialEq, Eq, Structural, Debug)]
pub struct PumpState {
    pub total: u64,
    pub last_reported: u64,
}

impl PumpState {
    /// The reported count never runs ahead of the running total.
    pub open spec fn wf(self) -> bool {
        self.last_reported <= self.total
    }

    /// A fresh pump: nothing copied, nothing reported.
    pub fn new() -> (s: Self)
        ensures
            s.total == 0,
            s.last_reported == 0,
            s.wf(),
    {
        PumpState { total: 0, last_reported: 0 }
    }

    /// Whether recording a chunk of `n` bytes must be reported under
    /// `policy`: always for the send direction, and for the receive
    /// direction only once the unreported bytes exceed the threshold.
    pub open spec fn spec_reports(self, n: u64, policy: ProgressPolicy) -> bool {
        match policy {
            ProgressPolicy::EveryChunk => true,
            ProgressPolicy::AfterDelta(t) => self.total + n - self.last_reported > t,
        }
    }

    /// Accounts for one successfully copied chunk of `n` bytes and says
    /// whether (and with which cumulative count) progress is to be
    /// reported.
    pub fn record_chunk(&mut self, n: usize, policy: ProgressPolicy) -> (report: Option<u64>)
        requires
            old(self).wf(),
            1 <= n,
            old(self).total + n <= u64::MAX,
        ensures
            final(self).wf(),
            final(self).total == old(self).total + n,
            old(self).spec_reports(n as u64, policy) ==> (report == Some(final(self).total)
                && final(self).last_reported == final(self).total),
            !old(self).spec_reports(n as u64, policy) ==> (report is None
                && final(self).last_reported == old(self).last_reported),
    {
        self.total = self.total + n as u64;
        let must_report = match policy {
            ProgressPolicy::EveryChunk => true,
            ProgressPolicy::AfterDelta(t) => self.total - self.last_reported > t,
        };
        if must_report {
            self.last_reported = self.total;
            Some(self.total)
        } else {
            None
        }
    }
}

/// The number of chunks a source of `len` bytes yields when read `chunk`
/// bytes at a time: every chunk is full except possibly the last, and a
/// source of zero bytes yields no chunk.
pub open spec fn num_chunks(len: int, chunk: int) -> int
    decreases len,
{
    if chunk <= 0 || len <= 0 {
        0
    } else if len <= chunk {
        1
    } else {
        1 + num_chunks(len - chunk, chunk)
    }
}

/// The cumulative counts a pump reports under the threshold policy, walking
/// chunk by chunk from a running total of `total` bytes of which `last` were
/// reported, over a source of `len` bytes read `c` at a time: a chunk's new
/// total is reported exactly when it exceeds the last reported count by more
/// than `t`.
pub open spec fn threshold_report_seq(total: int, last: int, len: int, c: int, t: int) -> Seq<int>
    decreases len - total,
{
    if c <= 0 || total >= len {
        Seq::empty()
    } else {
        let next = if total + c <= len {
            total + c
        } else {
            len
        };
        if next - last > t {
            seq![next] + threshold_report_seq(next, next, len, c, t)
        } else {
            threshold_report_seq(next, last, len, c, t)
        }
    }
}

/// The pump loop over in-memory bytes: copies `src` in chunks of
/// `chunk_size`, returning the copy together with the cumulative byte counts
/// that were reported under `policy`, in the order they were reported.
///
/// The contract states the pump's behaviour in full:
/// - the destination equals the source byte for byte, so a successful pump
///   of a source of any length copies exactly that many bytes;
/// - reported counts are strictly increasing and never exceed the total;
/// - under [`ProgressPolicy::EveryChunk`] there is exactly one report per
///   chunk, the i-th reporting `min((i+1) * chunk_size, len)` bytes, and the
///   last report equals the full length;
/// - under [`ProgressPolicy::AfterDelta(t)`] the reports are exactly the
///   chunk totals that exceed the previously reported count by more than
///   `t` (see [`threshold_report_seq`]); in particular each report exceeds
///   the previous one by more than `t`, and no more than `t` bytes remain
///   unreported at the end.
pub fn pump_bytes(src: &Vec<u8>, chunk_size: usize, policy: ProgressPolicy) -> (r: (
    Vec<u8>,
    Vec<u64>,
))
    requires
        1 <= chunk_size,
    ensures
        r.0@ == src@,
        forall|i: int, j: int| 0 <= i < j < r.1@.len() ==> r.1@[i] < r.1@[j],
        forall|i: int| 0 <= i < r.1@.len() ==> 0 < #[trigger] r.1@[i] <= src@.len(),
        policy is EveryChunk ==> {
            &&& r.1@.len() == num_chunks(src@.len() as int, chunk_size as int)
            &&& forall|i: int|
                0 <= i < r.1@.len() ==> #[trigger] r.1@[i] == if (i + 1) * chunk_size
                    <= src@.len() {
                    (i + 1) * chunk_size
                } else {
                    src@.len() as int
                }
            &&& src@.len() > 0 ==> r.1@.last() == src@.len()
        },
        policy matches ProgressPolicy::AfterDelta(t) ==> {
            &&& r.1@.map_values(|v: u64| v as int) == threshold_report_seq(
                0,
                0,
                src@.len() as int,
                chunk_size as int,
                t as int,
            )
            &&& forall|i: int| 0 < i < r.1@.len() ==> #[trigger] r.1@[i] > r.1@[i - 1] + t
            &&& r.1@.len() > 0 ==> r.1@[0] > t
            &&& src@.len() - (if r.1@.len() == 0 {
                0
            } else {
                r.1@.last() as int
            }) <= t
        },
{
    let len = src.len();
    let mut dest: Vec<u8> = Vec::new();
    let mut reports: Vec<u64> = Vec::new();
    let mut st = PumpState::new();
    let mut offset: usize = 0;
    let ghost mut chunks_done: int = 0;
    proof {
        if let ProgressPolicy::AfterDelta(t) = policy {
            assert(reports@.map_values(|v: u64| v as int) =~= Seq::<int>::empty());
            assert(Seq::<int>::empty() + threshold_report_seq(
                0,
                0,
                len as int,
                chunk_size as int,
                t as int,
            ) =~= threshold_report_seq(0, 0, len as int, chunk_size as int, t as int));
        }
    }
    while offset < len
        invariant
            len == src@.len(),
            offset <= len,
            st.wf(),
            st.total == offset,
            st.total == dest@.len(),
            dest@ == src@.subrange(0, offset as int),
            1 <= chunk_size,
            0 <= chunks_done,
            offset == if chunks_done * chunk_size <= len {
                chunks_done * chunk_size
            } else {
                len as int
            },
            num_chunks(len as int, chunk_size as int) == chunks_done + num_chunks(
                len - offset,
                chunk_size as int,
            ),
            forall|i: int| 0 <= i < reports@.len() ==> 0 < #[trigger] reports@[i] <= st.total,
            forall|i: int, j: int| 0 <= i < j < reports@.len() ==> reports@[i] < reports@[j],
            policy is EveryChunk ==> {
                &&& reports@.len() == chunks_done
                &&& forall|i: int|
                    0 <= i < reports@.len() ==> #[trigger] reports@[i] == if (i + 1) * chunk_size
                        <= len {
                        (i + 1) * chunk_size
                    } else {
                        len as int
                    }
                &&& st.last_reported == st.total
            },
            policy matches ProgressPolicy::AfterDelta(t) ==> {
                &&& threshold_report_seq(0, 0, len as int, chunk_size as int, t as int)
                    == reports@.map_values(|v: u64| v as int) + threshold_report_seq(
                    st.total as int,
                    st.last_reported as int,
                    len as int,
                    chunk_size as int,
                    t as int,
                )
                &&& forall|i: int|
                    0 < i < reports@.len() ==> #[trigger] reports@[i] > reports@[i - 1] + t
                &&& reports@.len() > 0 ==> reports@[0] > t
                &&& st.last_reported == if reports@.len() == 0 {
                    0
                } else {
                    reports@.last() as int
                }
                &&& st.total - st.last_reported <= t
            },
        decreases len - offset,
    {
        let n = if len - offset < chunk_size {
            len - offset
        } else {
            chunk_size
        };
        let mut k: usize = 0;
        while k < n
            invariant
                offset + n <= len,
                k <= n,
                len == src@.len(),
                dest@.len() == offset + k,
                dest@ == src@.subrange(0, offset + k),
            decreases n - k,
        {
            let b = src[offset + k];
            dest.push(b);
            proof {
                assert(dest@ =~= src@.subrange(0, offset + k + 1));
            }
            k = k + 1;
        }
        proof {
            assert(offset + n <= usize::MAX);
            assert(st.total + n <= u64::MAX);
        }
        let ghost pre_total = st.total as int;
        let ghost pre_last = st.last_reported as int;
        let ghost pre_reports = reports@;
        let rep = st.record_chunk(n, policy);
        if let Some(v) = rep {
            reports.push(v);
        }
        proof {
            if let ProgressPolicy::AfterDelta(t) = policy {
                let c = chunk_size as int;
                let l = len as int;
                let next = if pre_total + c <= l {
                    pre_total + c
                } else {
                    l
                };
                assert(next == pre_total + n);
                if next - pre_last > t as int {
                    assert(reports@.map_values(|v: u64| v as int) =~= pre_reports.map_values(
                        |v: u64| v as int,
                    ).push(next));
                    assert(pre_reports.map_values(|v: u64| v as int) + (seq![next]
                        + threshold_report_seq(next, next, l, c, t as int)) =~= reports@.map_values(
                        |v: u64| v as int,
                    ) + threshold_report_seq(next, next, l, c, t as int));
                }
            }
        }
        proof {
            assert(offset == chunks_done * chunk_size || offset + n == len);
            assert((chunks_done + 1) * chunk_size == chunks_done * chunk_size + chunk_size)
                by (nonlinear_arith);
        }
        offset = offset + n;
        proof {
            chunks_done = chunks_done + 1;
        }
    }
    proof {
        assert(dest@ =~= src@);
        if let ProgressPolicy::AfterDelta(t) = policy {
            assert(reports@.map_values(|v: u64| v as int) + threshold_report_seq(
                st.total as int,
                st.last_reported as int,
                len as int,
                chunk_size as int,
                t as int,
            ) =~= reports@.map_values(|v: u64| v as int));
        }
    }
    (dest, reports)
}

/// A send pump followed by a receive pump moves the file intact: if the
/// data connection carried exactly the bytes the sender read, and the
/// receiver stored exactly the bytes the connection carried, then the stored
/// file equals the original byte for byte.
pub proof fn lemma_round_trip(file: Seq<u8>, wire: Seq<u8>, stored: Seq<u8>)
    requires
        wire == file,
        stored == wire,
    ensures
        stored == file,
{
}

} // verus!
