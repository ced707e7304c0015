//! Rolling latency windows, drop counters and the performance report.

use std::collections::VecDeque;
use vstd::prelude::*;
use vstd::relations::{sorted_by, total_ordering};
use vstd::seq_lib::{lemma_sorted_unique, group_to_multiset_ensures};
use vstd::multiset::Multiset;

use crate::util::{spec_decimal, u64_to_decimal};

verus! {

/// Samples each rolling window retains.
pub const DEFAULT_WINDOW_SIZE: usize = 256;

/// End-to-end P95 latency worth warning about, in milliseconds.
pub const E2E_P95_TARGET_MS: u64 = 500;

/// Statistics of one rolling window.
#[derive(Debug, Clone, Copy, PartialEq, Eq, Structural)]
pub struct MetricSummary {
    pub samples: usize,
    pub average_ms: u64,
    pub p95_ms: u64,
    pub max_ms: u64,
}

impl MetricSummary {
    pub fn empty() -> (r: Self)
        ensures
            r == spec_empty_summary(),
    {
        MetricSummary { samples: 0, average_ms: 0, p95_ms: 0, max_ms: 0 }
    }
}

pub open spec fn spec_empty_summary() -> MetricSummary {
    MetricSummary { samples: 0, average_ms: 0, p95_ms: 0, max_ms: 0 }
}

/// Ascending order on recorded latencies.
pub open spec fn spec_leq() -> spec_fn(u64, u64) -> bool {
    |x: u64, y: u64| x <= y
}

/// The window's values in ascending order.
pub open spec fn spec_sorted_ascending(s: Seq<u64>) -> Seq<u64> {
    s.sort_by(spec_leq())
}

/// The sum of the window's values.
pub open spec fn spec_seq_sum(s: Seq<u64>) -> int
    decreases s.len(),
{
    if s.len() == 0 {
        0
    } else {
        spec_seq_sum(s.drop_last()) + s.last() as int
    }
}

/// Index of the 95th percentile in a sorted window of `n` values:
/// the ceiling of 0.95·n, minus one, capped at the last index.
pub open spec fn spec_p95_index(n: int) -> int {
    let idx = (95 * n + 99) / 100 - 1;
    if idx > n - 1 {
        n - 1
    } else {
        idx
    }
}

/// What `summary` reports of a window's values.
pub open spec fn spec_summary(s: Seq<u64>) -> MetricSummary {
    if s.len() == 0 {
        spec_empty_summary()
    } else {
        MetricSummary {
            samples: s.len() as usize,
            average_ms: (spec_seq_sum(s) / s.len() as int) as u64,
            p95_ms: spec_sorted_ascending(s)[spec_p95_index(s.len() as int)],
            max_ms: spec_sorted_ascending(s).last(),
        }
    }
}

proof fn lemma_p95_index_bounds(n: int)
    requires
        n >= 1,
    ensures
        0 <= spec_p95_index(n) < n,
{
}

proof fn lemma_seq_sum_bound(s: Seq<u64>)
    ensures
        0 <= spec_seq_sum(s) <= s.len() * 0xFFFFFFFFFFFFFFFF,
    decreases s.len(),
{
    if s.len() > 0 {
        lemma_seq_sum_bound(s.drop_last());
        assert((s.len() - 1) * 0xFFFFFFFFFFFFFFFF + 0xFFFFFFFFFFFFFFFF == s.len()
            * 0xFFFFFFFFFFFFFFFF) by (nonlinear_arith);
    }
}

/// Sorts a copy of the window, ascending, by repeated minimum extraction.
fn sorted_copy(values: &Vec<u64>) -> (r: Vec<u64>)
    ensures
        r@ == spec_sorted_ascending(values@),
        r@.len() == values@.len(),
{
    let ghost leq = spec_leq();
    proof {
        broadcast use group_to_multiset_ensures;

        assert(total_ordering(leq));
    }
    let mut work: Vec<u64> = Vec::new();
    let mut i: usize = 0;
    let n: usize = values.len();
    while i < n
        invariant
            n == values@.len(),
            0 <= i <= n,
            work@ == values@.take(i as int),
        decreases n - i,
    {
        work.push(values[i]);
        proof {
            assert(values@.take(i + 1int) =~= values@.take(i as int).push(values@[i as int]));
        }
        i = i + 1;
    }
    proof {
        assert(values@.take(n as int) =~= values@);
    }
    let mut result: Vec<u64> = Vec::new();
    while work.len() > 0
        invariant
            result@.to_multiset().add(work@.to_multiset()) =~= values@.to_multiset(),
            sorted_by(result@, spec_leq()),
            forall|a: int, b: int|
                0 <= a < result@.len() && 0 <= b < work@.len() ==> #[trigger] result@[a]
                    <= #[trigger] work@[b],
            result@.len() + work@.len() == values@.len(),
        decreases work.len(),
    {
        let mut m: usize = 0;
        let mut j: usize = 1;
        let len: usize = work.len();
        while j < len
            invariant
                len == work@.len(),
                0 <= m < len,
                m < j <= len || (j == 1 && m == 0),
                j <= len,
                forall|k: int| 0 <= k < j ==> work@[m as int] <= #[trigger] work@[k],
            decreases len - j,
        {
            if work[j] < work[m] {
                m = j;
            }
            j = j + 1;
        }
        let ghost old_work = work@;
        let ghost old_result = result@;
        let x = work.remove(m);
        result.push(x);
        proof {
            broadcast use group_to_multiset_ensures;
            broadcast use vstd::multiset::group_multiset_axioms;

            assert(work@.to_multiset() =~= old_work.to_multiset().remove(x));
            assert(result@.to_multiset() =~= old_result.to_multiset().insert(x));
            assert(old_work.contains(x));
            assert(old_work.to_multiset().count(x) > 0);
            assert(result@.to_multiset().add(work@.to_multiset()) =~= old_result.to_multiset()
                .add(old_work.to_multiset()));
            assert forall|a: int, b: int|
                0 <= a < result@.len() && 0 <= b < work@.len() implies #[trigger] result@[a]
                <= #[trigger] work@[b] by {
                if b < m {
                    assert(work@[b] == old_work[b]);
                } else {
                    assert(work@[b] == old_work[b + 1]);
                }
                if a < old_result.len() {
                    assert(result@[a] == old_result[a]);
                } else {
                    assert(result@[a] == x);
                }
            }
            assert(sorted_by(result@, spec_leq()));
        }
    }
    proof {
        broadcast use group_to_multiset_ensures;
        broadcast use vstd::multiset::group_multiset_axioms;

        assert(work@.to_multiset() =~= Multiset::<u64>::empty());
        assert(result@.to_multiset() =~= values@.to_multiset());
        values@.lemma_sort_by_ensures(leq);
        lemma_sorted_unique(result@, values@.sort_by(leq), leq);
    }
    result
}

/// One rolling window of the most recent `capacity` latency samples.
#[derive(Debug)]
pub struct RollingMetric {
    values: VecDeque<u64>,
    capacity: usize,
}

impl View for RollingMetric {
    type V = Seq<u64>;

    closed spec fn view(&self) -> Seq<u64> {
        self.values@
    }
}

impl RollingMetric {
    /// The window never outgrows its positive capacity.
    pub closed spec fn wf(&self) -> bool {
        self.values@.len() <= self.capacity && self.capacity > 0
    }

    pub closed spec fn spec_capacity(&self) -> usize {
        self.capacity
    }

    pub fn new(capacity: usize) -> (r: Self)
        requires
            capacity > 0,
        ensures
            r@ == Seq::<u64>::empty(),
            r.wf(),
            r.spec_capacity() == capacity,
    {
        RollingMetric { values: VecDeque::with_capacity(capacity), capacity }
    }

    /// Records one sample; the oldest leaves once the window is full.
    pub fn record(&mut self, value_ms: u64)
        requires
            old(self).wf(),
        ensures
            final(self).wf(),
            final(self).spec_capacity() == old(self).spec_capacity(),
            old(self)@.len() == old(self).spec_capacity() ==> final(self)@ == old(
                self,
            )@.drop_first().push(value_ms),
            old(self)@.len() < old(self).spec_capacity() ==> final(self)@ == old(self)@.push(
                value_ms,
            ),
    {
        if self.values.len() == self.capacity {
            self.values.pop_front();
        }
        self.values.push_back(value_ms);
    }

    /// The window's sample count, mean, 95th percentile and maximum.
    pub fn summary(&self) -> (r: MetricSummary)
        ensures
            r == spec_summary(self@),
    {
        let n: usize = self.values.len();
        if n == 0 {
            return MetricSummary::empty();
        }
        let mut copied: Vec<u64> = Vec::new();
        let mut i: usize = 0;
        while i < n
            invariant
                n == self@.len(),
                0 <= i <= n,
                copied@ == self@.take(i as int),
            decreases n - i,
        {
            copied.push(self.values[i]);
            proof {
                assert(self@.take(i + 1int) =~= self@.take(i as int).push(self@[i as int]));
            }
            i = i + 1;
        }
        proof {
            assert(self@.take(n as int) =~= self@);
        }
        let mut sum: u128 = 0;
        let mut k: usize = 0;
        proof {
            assert(copied@.take(0int) =~= Seq::<u64>::empty());
        }
        while k < n
            invariant
                n == copied@.len(),
                copied@ == self@,
                0 <= k <= n,
                sum as int == spec_seq_sum(copied@.take(k as int)),
                sum <= (k as int) * 0xFFFFFFFFFFFFFFFF,
            decreases n - k,
        {
            proof {
                assert(copied@.take(k + 1int).drop_last() =~= copied@.take(k as int));
                assert(copied@.take(k + 1int).last() == copied@[k as int]);
                assert((k as int) * 0xFFFFFFFFFFFFFFFF + 0xFFFFFFFFFFFFFFFF == (k + 1int)
                    * 0xFFFFFFFFFFFFFFFF) by (nonlinear_arith);
                assert((k + 1int) * 0xFFFFFFFFFFFFFFFF < 0x100000000000000000000000000000000)
                    by (nonlinear_arith)
                    requires
                        0 <= k + 1int <= 0x10000000000000000,
                ;
            }
            sum = sum + copied[k] as u128;
            k = k + 1;
        }
        proof {
            assert(copied@.take(n as int) =~= copied@);
            lemma_seq_sum_bound(copied@);
            assert(spec_seq_sum(copied@) / (n as int) <= 0xFFFFFFFFFFFFFFFF) by (nonlinear_arith)
                requires
                    n as int >= 1,
                    0 <= spec_seq_sum(copied@) <= (n as int) * 0xFFFFFFFFFFFFFFFF,
            ;
        }
        let average: u64 = (sum / (n as u128)) as u64;
        let sorted = sorted_copy(&copied);
        let max_ms: u64 = sorted[n - 1];
        let p95_pos: u128 = (95u128 * (n as u128) + 99) / 100 - 1;
        let p95_index: usize = if p95_pos > (n - 1) as u128 {
            n - 1
        } else {
            p95_pos as usize
        };
        proof {
            lemma_p95_index_bounds(n as int);
            assert(spec_sorted_ascending(self@).last() == spec_sorted_ascending(self@)[n - 1int]);
        }
        let p95_ms: u64 = sorted[p95_index];
        MetricSummary { samples: n, average_ms: average, p95_ms, max_ms }
    }
}

/// The process-wide latency windows and counters.
#[derive(Debug)]
pub struct RuntimeMetrics {
    pub audio_processing_ms: RollingMetric,
    pub network_send_ms: RollingMetric,
    pub injection_ms: RollingMetric,
    pub end_to_end_ms: RollingMetric,
    pub dropped_audio_chunks: u64,
    pub dropped_committed_transcripts: u64,
    pub sent_audio_chunks: u64,
    pub sent_audio_batches: u64,
}

/// The full periodic report handed to the host.
#[derive(Debug)]
pub struct PerformanceReport {
    pub generated_at_ms: u64,
    pub audio_processing: MetricSummary,
    pub network_send: MetricSummary,
    pub injection: MetricSummary,
    pub end_to_end: MetricSummary,
    pub dropped_audio_chunks: u64,
    pub dropped_committed_transcripts: u64,
    pub sent_audio_chunks: u64,
    pub sent_audio_batches: u64,
    pub warnings: Vec<String>,
}

/// The warning lines a report carries, in order: audio drops, committed
/// drops, then an end-to-end P95 over target.
pub open spec fn spec_report_warnings(
    dropped_audio: u64,
    dropped_committed: u64,
    end_to_end: MetricSummary,
) -> Seq<Seq<char>> {
    let audio: Seq<Seq<char>> = if dropped_audio > 0 {
        seq![
            "Dropped "@ + spec_decimal(dropped_audio as int)
                + " audio chunks due to backpressure."@,
        ]
    } else {
        Seq::empty()
    };
    let committed: Seq<Seq<char>> = if dropped_committed > 0 {
        seq![
            "Dropped "@ + spec_decimal(dropped_committed as int)
                + " committed transcripts because queue was full."@,
        ]
    } else {
        Seq::empty()
    };
    let e2e: Seq<Seq<char>> = if end_to_end.samples > 0 && end_to_end.p95_ms > E2E_P95_TARGET_MS {
        seq![
            "End-to-end P95 latency "@ + spec_decimal(end_to_end.p95_ms as int)
                + "ms exceeded target "@ + spec_decimal(E2E_P95_TARGET_MS as int) + "ms."@,
        ]
    } else {
        Seq::empty()
    };
    audio + committed + e2e
}

pub open spec fn spec_all_metrics_wf(m: &RuntimeMetrics) -> bool {
    &&& m.audio_processing_ms.wf()
    &&& m.network_send_ms.wf()
    &&& m.injection_ms.wf()
    &&& m.end_to_end_ms.wf()
}

impl RuntimeMetrics {
    pub fn new() -> (r: Self)
        ensures
            spec_all_metrics_wf(&r),
            r.audio_processing_ms@ == Seq::<u64>::empty(),
            r.network_send_ms@ == Seq::<u64>::empty(),
            r.injection_ms@ == Seq::<u64>::empty(),
            r.end_to_end_ms@ == Seq::<u64>::empty(),
            r.dropped_audio_chunks == 0,
            r.dropped_committed_transcripts == 0,
            r.sent_audio_chunks == 0,
            r.sent_audio_batches == 0,
    {
        RuntimeMetrics {
            audio_processing_ms: RollingMetric::new(DEFAULT_WINDOW_SIZE),
            network_send_ms: RollingMetric::new(DEFAULT_WINDOW_SIZE),
            injection_ms: RollingMetric::new(DEFAULT_WINDOW_SIZE),
            end_to_end_ms: RollingMetric::new(DEFAULT_WINDOW_SIZE),
            dropped_audio_chunks: 0,
            dropped_committed_transcripts: 0,
            sent_audio_chunks: 0,
            sent_audio_batches: 0,
        }
    }

    pub fn record_audio_processing(&mut self, processing_ms: u64)
        requires
            old(self).audio_processing_ms.wf(),
        ensures
            final(self).audio_processing_ms.wf(),
            final(self).audio_processing_ms@.len() > 0,
            final(self).audio_processing_ms@.last() == processing_ms,
            final(self).network_send_ms == old(self).network_send_ms,
            final(self).injection_ms == old(self).injection_ms,
            final(self).end_to_end_ms == old(self).end_to_end_ms,
            final(self).dropped_audio_chunks == old(self).dropped_audio_chunks,
            final(self).dropped_committed_transcripts == old(self).dropped_committed_transcripts,
            final(self).sent_audio_chunks == old(self).sent_audio_chunks,
            final(self).sent_audio_batches == old(self).sent_audio_batches,
    {
        self.audio_processing_ms.record(processing_ms);
    }

    pub fn record_network_send(&mut self, send_ms: u64, chunk_count: usize)
        requires
            old(self).network_send_ms.wf(),
            old(self).sent_audio_batches < u64::MAX,
            old(self).sent_audio_chunks + chunk_count <= u64::MAX,
        ensures
            final(self).network_send_ms.wf(),
            final(self).network_send_ms@.len() > 0,
            final(self).network_send_ms@.last() == send_ms,
            final(self).sent_audio_batches == old(self).sent_audio_batches + 1,
            final(self).sent_audio_chunks == old(self).sent_audio_chunks + chunk_count,
            final(self).audio_processing_ms == old(self).audio_processing_ms,
            final(self).injection_ms == old(self).injection_ms,
            final(self).end_to_end_ms == old(self).end_to_end_ms,
            final(self).dropped_audio_chunks == old(self).dropped_audio_chunks,
            final(self).dropped_committed_transcripts == old(self).dropped_committed_transcripts,
    {
        self.network_send_ms.record(send_ms);
        self.sent_audio_batches = self.sent_audio_batches + 1;
        self.sent_audio_chunks = self.sent_audio_chunks + (chunk_count as u64);
    }

    pub fn record_injection(&mut self, injection_ms: u64)
        requires
            old(self).injection_ms.wf(),
        ensures
            final(self).injection_ms.wf(),
            final(self).injection_ms@.len() > 0,
            final(self).injection_ms@.last() == injection_ms,
            final(self).audio_processing_ms == old(self).audio_processing_ms,
            final(self).network_send_ms == old(self).network_send_ms,
            final(self).end_to_end_ms == old(self).end_to_end_ms,
            final(self).dropped_audio_chunks == old(self).dropped_audio_chunks,
            final(self).dropped_committed_transcripts == old(self).dropped_committed_transcripts,
            final(self).sent_audio_chunks == old(self).sent_audio_chunks,
            final(self).sent_audio_batches == old(self).sent_audio_batches,
    {
        self.injection_ms.record(injection_ms);
    }

    pub fn record_end_to_end(&mut self, latency_ms: u64)
        requires
            old(self).end_to_end_ms.wf(),
        ensures
            final(self).end_to_end_ms.wf(),
            final(self).end_to_end_ms@.len() > 0,
            final(self).end_to_end_ms@.last() == latency_ms,
            final(self).audio_processing_ms == old(self).audio_processing_ms,
            final(self).network_send_ms == old(self).network_send_ms,
            final(self).injection_ms == old(self).injection_ms,
            final(self).dropped_audio_chunks == old(self).dropped_audio_chunks,
            final(self).dropped_committed_transcripts == old(self).dropped_committed_transcripts,
            final(self).sent_audio_chunks == old(self).sent_audio_chunks,
            final(self).sent_audio_batches == old(self).sent_audio_batches,
    {
        self.end_to_end_ms.record(latency_ms);
    }

    pub fn record_audio_drop(&mut self, count: u64)
        requires
            old(self).dropped_audio_chunks + count <= u64::MAX,
        ensures
            final(self).dropped_audio_chunks == old(self).dropped_audio_chunks + count,
            final(self).audio_processing_ms == old(self).audio_processing_ms,
            final(self).network_send_ms == old(self).network_send_ms,
            final(self).injection_ms == old(self).injection_ms,
            final(self).end_to_end_ms == old(self).end_to_end_ms,
            final(self).dropped_committed_transcripts == old(self).dropped_committed_transcripts,
            final(self).sent_audio_chunks == old(self).sent_audio_chunks,
            final(self).sent_audio_batches == old(self).sent_audio_batches,
    {
        self.dropped_audio_chunks = self.dropped_audio_chunks + count;
    }

    pub fn record_committed_drop(&mut self, count: u64)
        requires
            old(self).dropped_committed_transcripts + count <= u64::MAX,
        ensures
            final(self).dropped_committed_transcripts == old(self).dropped_committed_transcripts
                + count,
            final(self).audio_processing_ms == old(self).audio_processing_ms,
            final(self).network_send_ms == old(self).network_send_ms,
            final(self).injection_ms == old(self).injection_ms,
            final(self).end_to_end_ms == old(self).end_to_end_ms,
            final(self).dropped_audio_chunks == old(self).dropped_audio_chunks,
            final(self).sent_audio_chunks == old(self).sent_audio_chunks,
            final(self).sent_audio_batches == old(self).sent_audio_batches,
    {
        self.dropped_committed_transcripts = self.dropped_committed_transcripts + count;
    }

    /// Summarises the four windows, copies the counters, and synthesizes the
    /// warning lines; the generation timestamp is read from the wall clock.
    pub fn report(&self) -> (r: PerformanceReport)
        ensures
            r.audio_processing == spec_summary(self.audio_processing_ms@),
            r.network_send == spec_summary(self.network_send_ms@),
            r.injection == spec_summary(self.injection_ms@),
            r.end_to_end == spec_summary(self.end_to_end_ms@),
            r.dropped_audio_chunks == self.dropped_audio_chunks,
            r.dropped_committed_transcripts == self.dropped_committed_transcripts,
            r.sent_audio_chunks == self.sent_audio_chunks,
            r.sent_audio_batches == self.sent_audio_batches,
            ({
                let w = spec_report_warnings(
                    self.dropped_audio_chunks,
                    self.dropped_committed_transcripts,
                    spec_summary(self.end_to_end_ms@),
                );
                r.warnings@.len() == w.len() && forall|i: int|
                    0 <= i < w.len() ==> #[trigger] r.warnings@[i]@ == w[i]
            }),
    {
        let audio_processing = self.audio_processing_ms.summary();
        let network_send = self.network_send_ms.summary();
        let injection = self.injection_ms.summary();
        let end_to_end = self.end_to_end_ms.summary();
        let mut warnings: Vec<String> = Vec::new();
        if self.dropped_audio_chunks > 0 {
            let mut line = String::from_str("Dropped ");
            line.append(u64_to_decimal(self.dropped_audio_chunks).as_str());
            line.append(" audio chunks due to backpressure.");
            warnings.push(line);
        }
        if self.dropped_committed_transcripts > 0 {
            let mut line = String::from_str("Dropped ");
            line.append(u64_to_decimal(self.dropped_committed_transcripts).as_str());
            line.append(" committed transcripts because queue was full.");
            warnings.push(line);
        }
        if end_to_end.samples > 0 && end_to_end.p95_ms > E2E_P95_TARGET_MS {
            let mut line = String::from_str("End-to-end P95 latency ");
            line.append(u64_to_decimal(end_to_end.p95_ms).as_str());
            line.append("ms exceeded target ");
            line.append(u64_to_decimal(E2E_P95_TARGET_MS).as_str());
            line.append("ms.");
            warnings.push(line);
        }
        PerformanceReport {
            generated_at_ms: crate::util::now_epoch_ms(),
            audio_processing,
            network_send,
            injection,
            end_to_end,
            dropped_audio_chunks: self.dropped_audio_chunks,
            dropped_committed_transcripts: self.dropped_committed_transcripts,
            sent_audio_chunks: self.sent_audio_chunks,
            sent_audio_batches: self.sent_audio_batches,
            warnings,
        }
    }
}

} // verus!
