//! Performance monitoring: sliding windows of frame, render and
//! event-processing times, with their mean and percentiles, and the memory
//! in use. Times are whole nanoseconds; the application converts to and
//! from `Duration` and derives the floating-point figures (frames per
//! second, megabytes).

use vstd::prelude::*;

use std::collections::VecDeque;

verus! {

/// How many samples each window keeps.
pub const WINDOW_SIZE: usize = 300;

/// The frame budget in nanoseconds (16.667 ms, about 60 frames a second).
pub const TARGET_FRAME_TIME_NANOS: u128 = 16_667_000;

/// The longest `Duration`, in nanoseconds.
pub const MAX_DURATION_NANOS: u128 = 18_446_744_073_709_551_615_999_999_999;

/// A window after `x` is recorded: once it holds `WINDOW_SIZE` samples the
/// oldest goes first.
pub open spec fn window_after(s: Seq<u128>, x: u128) -> Seq<u128> {
    if s.len() >= WINDOW_SIZE {
        s.drop_first().push(x)
    } else {
        s.push(x)
    }
}

/// The total of the samples.
pub open spec fn total(s: Seq<u128>) -> int
    decreases s.len(),
{
    if s.len() == 0 {
        0
    } else {
        total(s.drop_last()) + s.last()
    }
}

/// The mean of a window, rounded down to a whole nanosecond (zero for no
/// samples), as dividing the total `Duration` by the count gives it.
pub open spec fn mean(s: Seq<u128>) -> int {
    if s.len() == 0 {
        0
    } else {
        total(s) / s.len() as int
    }
}

/// Stable insertion of `x` into an ascending list: after every sample no
/// greater than it.
pub open spec fn insert_ascending(sorted: Seq<u128>, x: u128) -> Seq<u128>
    decreases sorted.len(),
{
    if sorted.len() == 0 {
        seq![x]
    } else if sorted.last() > x {
        insert_ascending(sorted.drop_last(), x).push(sorted.last())
    } else {
        sorted.push(x)
    }
}

/// The samples in ascending order.
pub open spec fn ascending(s: Seq<u128>) -> Seq<u128>
    decreases s.len(),
{
    if s.len() == 0 {
        Seq::empty()
    } else {
        insert_ascending(ascending(s.drop_last()), s.last())
    }
}

/// The index of the `pct` percentile in `len` ascending samples.
pub open spec fn percentile_index(len: int, pct: int) -> int {
    let i = len * pct / 100;
    if i < len - 1 {
        i
    } else {
        len - 1
    }
}

/// The `pct` percentile of a window (zero for no samples).
pub open spec fn percentile(s: Seq<u128>, pct: int) -> u128 {
    if s.len() == 0 {
        0
    } else {
        ascending(s)[percentile_index(s.len() as int, pct)]
    }
}

/// Whether every sample fits in a `Duration`.
pub open spec fn all_durations(s: Seq<u128>) -> bool {
    forall|i: int| 0 <= i < s.len() ==> s[i] <= MAX_DURATION_NANOS
}

/// Sliding-window timing statistics.
pub struct PerformanceMonitor {
    pub frame_times: VecDeque<u128>,
    pub render_times: VecDeque<u128>,
    pub event_processing_times: VecDeque<u128>,
    pub memory_usage: u64,
    pub max_frame_time: u128,
}

/// Records `x` in a window.
fn push_sample(w: &mut VecDeque<u128>, x: u128)
    ensures
        final(w)@ == window_after(old(w)@, x),
{
    if w.len() >= WINDOW_SIZE {
        let _ = w.pop_front();
    }
    w.push_back(x);
}

/// The total of a window, when it fits in a `Duration`.
fn window_total(w: &VecDeque<u128>) -> (r: u128)
    requires
        all_durations(w@),
        total(w@) <= MAX_DURATION_NANOS,
    ensures
        r == total(w@),
{
    let mut sum: u128 = 0;
    let mut i: usize = 0;
    while i < w.len()
        invariant
            i <= w@.len(),
            all_durations(w@),
            total(w@) <= MAX_DURATION_NANOS,
            sum == total(w@.subrange(0, i as int)),
        decreases w@.len() - i,
    {
        assert(w@.subrange(0, i + 1).drop_last() =~= w@.subrange(0, i as int));
        proof {
            lemma_total_prefix_bounded(w@, i + 1);
        }
        sum = sum + w[i];
        i = i + 1;
    }
    assert(w@.subrange(0, w@.len() as int) =~= w@);
    sum
}

/// A prefix of samples totals no more than all of them.
proof fn lemma_total_prefix_bounded(s: Seq<u128>, k: int)
    requires
        0 <= k <= s.len(),
    ensures
        total(s.subrange(0, k)) <= total(s),
    decreases s.len() - k,
{
    if k < s.len() {
        lemma_total_prefix_bounded(s, k + 1);
        assert(s.subrange(0, k + 1).drop_last() =~= s.subrange(0, k));
    } else {
        assert(s.subrange(0, k) =~= s);
    }
}

/// The mean of a window.
fn window_mean(w: &VecDeque<u128>) -> (r: u128)
    requires
        all_durations(w@),
        total(w@) <= MAX_DURATION_NANOS,
        w@.len() <= u32::MAX,
    ensures
        r == mean(w@),
{
    let n = w.len();
    if n == 0 {
        return 0;
    }
    let t = window_total(w);
    t / (n as u128)
}

/// Inserts `x` into the ascending list `sorted` as `insert_ascending` does.
fn insert_sample(sorted: &mut Vec<u128>, x: u128)
    ensures
        final(sorted)@ == insert_ascending(old(sorted)@, x),
    decreases old(sorted)@.len(),
{
    if sorted.len() == 0 {
        sorted.push(x);
        assert(sorted@ =~= seq![x]);
        return;
    }
    let last_index = sorted.len() - 1;
    if sorted[last_index] > x {
        let last = sorted.pop().unwrap();
        insert_sample(sorted, x);
        sorted.push(last);
    } else {
        sorted.push(x);
    }
}

/// The `pct` percentile of a window.
fn window_percentile(w: &VecDeque<u128>, pct: usize) -> (r: u128)
    requires
        pct <= 100,
    ensures
        r == percentile(w@, pct as int),
{
    let n = w.len();
    if n == 0 {
        return 0;
    }
    let mut sorted: Vec<u128> = Vec::new();
    let mut i: usize = 0;
    while i < n
        invariant
            n == w@.len(),
            i <= n,
            sorted@ == ascending(w@.subrange(0, i as int)),
        decreases n - i,
    {
        assert(w@.subrange(0, i + 1).drop_last() =~= w@.subrange(0, i as int));
        insert_sample(&mut sorted, w[i]);
        i = i + 1;
    }
    assert(w@.subrange(0, n as int) =~= w@);
    proof {
        lemma_ascending_len(w@);
    }
    proof {
        lemma_percentile_index(n as int, pct as int);
    }
    let q = n / 100;
    let rem = n % 100;
    assert(q * pct <= q * 100) by (nonlinear_arith)
        requires
            pct <= 100,
    ;
    assert(rem * pct <= 9900) by (nonlinear_arith)
        requires
            rem < 100,
            pct <= 100,
    ;
    assert(q * pct + rem * pct / 100 <= n) by (nonlinear_arith)
        requires
            q * pct + rem * pct / 100 == n * pct / 100,
            pct <= 100,
            n >= 1,
    ;
    let scaled = q * pct + rem * pct / 100;
    let idx = if scaled < n - 1 {
        scaled
    } else {
        n - 1
    };
    sorted[idx]
}

/// `len * pct / 100`, computed without overflow as the exec code does it.
proof fn lemma_percentile_index(n: int, pct: int)
    requires
        n >= 1,
        0 <= pct <= 100,
    ensures
        n / 100 * pct + (n % 100) * pct / 100 == n * pct / 100,
{
    let q = n / 100;
    let r = n % 100;
    assert(n == q * 100 + r);
    assert(n * pct == q * pct * 100 + r * pct) by (nonlinear_arith)
        requires
            n == q * 100 + r,
    ;
    assert((q * pct * 100 + r * pct) / 100 == q * pct + r * pct / 100) by (nonlinear_arith)
        requires
            r * pct >= 0,
            q * pct >= 0,
    ;
}

/// Sorting keeps the number of samples.
proof fn lemma_ascending_len(s: Seq<u128>)
    ensures
        ascending(s).len() == s.len(),
    decreases s.len(),
{
    if s.len() > 0 {
        lemma_ascending_len(s.drop_last());
        lemma_insert_ascending_len(ascending(s.drop_last()), s.last());
    }
}

/// Inserting adds one sample.
proof fn lemma_insert_ascending_len(sorted: Seq<u128>, x: u128)
    ensures
        insert_ascending(sorted, x).len() == sorted.len() + 1,
    decreases sorted.len(),
{
    if sorted.len() > 0 && sorted.last() > x {
        lemma_insert_ascending_len(sorted.drop_last(), x);
    }
}

impl PerformanceMonitor {
    /// A monitor with no samples and no memory figure.
    pub fn new() -> (r: Self)
        ensures
            r.frame_times@ == Seq::<u128>::empty(),
            r.render_times@ == Seq::<u128>::empty(),
            r.event_processing_times@ == Seq::<u128>::empty(),
            r.memory_usage == 0,
            r.max_frame_time == 0,
    {
        PerformanceMonitor {
            frame_times: VecDeque::with_capacity(WINDOW_SIZE),
            render_times: VecDeque::with_capacity(WINDOW_SIZE),
            event_processing_times: VecDeque::with_capacity(WINDOW_SIZE),
            memory_usage: 0,
            max_frame_time: 0,
        }
    }

    /// Records a frame time, keeping the largest one seen.
    pub fn record_frame_time(&mut self, nanos: u128)
        ensures
            final(self).frame_times@ == window_after(old(self).frame_times@, nanos),
            final(self).max_frame_time == if nanos > old(self).max_frame_time {
                nanos
            } else {
                old(self).max_frame_time
            },
            final(self).render_times@ == old(self).render_times@,
            final(self).event_processing_times@ == old(self).event_processing_times@,
            final(self).memory_usage == old(self).memory_usage,
    {
        push_sample(&mut self.frame_times, nanos);
        if nanos > self.max_frame_time {
            self.max_frame_time = nanos;
        }
    }

    /// Records a render time.
    pub fn record_render_time(&mut self, nanos: u128)
        ensures
            final(self).render_times@ == window_after(old(self).render_times@, nanos),
            final(self).frame_times@ == old(self).frame_times@,
            final(self).event_processing_times@ == old(self).event_processing_times@,
            final(self).memory_usage == old(self).memory_usage,
            final(self).max_frame_time == old(self).max_frame_time,
    {
        push_sample(&mut self.render_times, nanos);
    }

    /// Records an event-processing time.
    pub fn record_event_processing_time(&mut self, nanos: u128)
        ensures
            final(self).event_processing_times@ == window_after(
                old(self).event_processing_times@,
                nanos,
            ),
            final(self).frame_times@ == old(self).frame_times@,
            final(self).render_times@ == old(self).render_times@,
            final(self).memory_usage == old(self).memory_usage,
            final(self).max_frame_time == old(self).max_frame_time,
    {
        push_sample(&mut self.event_processing_times, nanos);
    }

    /// Sets the memory figure, in bytes.
    pub fn update_memory_usage(&mut self, bytes: u64)
        ensures
            final(self).memory_usage == bytes,
            final(self).frame_times@ == old(self).frame_times@,
            final(self).render_times@ == old(self).render_times@,
            final(self).event_processing_times@ == old(self).event_processing_times@,
            final(self).max_frame_time == old(self).max_frame_time,
    {
        self.memory_usage = bytes;
    }

    /// The mean frame time.
    pub fn average_frame_time(&self) -> (r: u128)
        requires
            all_durations(self.frame_times@),
            total(self.frame_times@) <= MAX_DURATION_NANOS,
            self.frame_times@.len() <= u32::MAX,
        ensures
            r == mean(self.frame_times@),
    {
        window_mean(&self.frame_times)
    }

    /// The mean render time.
    pub fn average_render_time(&self) -> (r: u128)
        requires
            all_durations(self.render_times@),
            total(self.render_times@) <= MAX_DURATION_NANOS,
            self.render_times@.len() <= u32::MAX,
        ensures
            r == mean(self.render_times@),
    {
        window_mean(&self.render_times)
    }

    /// The mean event-processing time.
    pub fn average_event_time(&self) -> (r: u128)
        requires
            all_durations(self.event_processing_times@),
            total(self.event_processing_times@) <= MAX_DURATION_NANOS,
            self.event_processing_times@.len() <= u32::MAX,
        ensures
            r == mean(self.event_processing_times@),
    {
        window_mean(&self.event_processing_times)
    }

    /// The 99th-percentile frame time (the worst 1 % of frames).
    pub fn p99_frame_time(&self) -> (r: u128)
        ensures
            r == percentile(self.frame_times@, 99),
    {
        window_percentile(&self.frame_times, 99)
    }

    /// The 95th-percentile frame time.
    pub fn p95_frame_time(&self) -> (r: u128)
        ensures
            r == percentile(self.frame_times@, 95),
    {
        window_percentile(&self.frame_times, 95)
    }

    /// Whether the 99th-percentile frame time stays within twice the
    /// frame budget.
    pub fn is_performance_ok(&self) -> (r: bool)
        ensures
            r == (percentile(self.frame_times@, 99) <= 2 * TARGET_FRAME_TIME_NANOS),
    {
        self.p99_frame_time() <= 2 * TARGET_FRAME_TIME_NANOS
    }

    /// Drops every sample and the largest frame time; the memory figure
    /// stays.
    pub fn reset(&mut self)
        ensures
            final(self).frame_times@ == Seq::<u128>::empty(),
            final(self).render_times@ == Seq::<u128>::empty(),
            final(self).event_processing_times@ == Seq::<u128>::empty(),
            final(self).max_frame_time == 0,
            final(self).memory_usage == old(self).memory_usage,
    {
        self.frame_times.clear();
        self.render_times.clear();
        self.event_processing_times.clear();
        self.max_frame_time = 0;
    }

    /// How many frame samples are stored.
    pub fn sample_count(&self) -> (r: usize)
        ensures
            r == self.frame_times@.len(),
    {
        self.frame_times.len()
    }
}

impl Default for PerformanceMonitor {
    fn default() -> (r: Self)
        ensures
            r.frame_times@ == Seq::<u128>::empty(),
            r.render_times@ == Seq::<u128>::empty(),
            r.event_processing_times@ == Seq::<u128>::empty(),
            r.memory_usage == 0,
            r.max_frame_time == 0,
    {
        PerformanceMonitor::new()
    }
}

/// Whether a list of samples is in ascending order.
pub open spec fn is_ascending(s: Seq<u128>) -> bool {
    forall|i: int, j: int| 0 <= i < j < s.len() ==> s[i] <= s[j]
}

/// Inserting keeps a list ascending and adds exactly `x`.
proof fn lemma_insert_ascending(sorted: Seq<u128>, x: u128)
    requires
        is_ascending(sorted),
    ensures
        is_ascending(insert_ascending(sorted, x)),
        insert_ascending(sorted, x).to_multiset() == sorted.to_multiset().insert(x),
    decreases sorted.len(),
{
    broadcast use vstd::seq_lib::group_to_multiset_ensures, vstd::multiset::group_multiset_axioms;

    if sorted.len() == 0 {
        assert(sorted.push(x) =~= seq![x]);
    } else if sorted.last() > x {
        let init = sorted.drop_last();
        let last = sorted.last();
        lemma_insert_ascending(init, x);
        let r = insert_ascending(init, x);
        assert forall|i: int| 0 <= i < r.len() implies r[i] <= last by {
            assert(r.to_multiset().count(r[i]) > 0);
            if r[i] != x {
                assert(init.to_multiset().count(r[i]) > 0);
                assert(init.contains(r[i]));
                let j = choose|j: int| 0 <= j < init.len() && init[j] == r[i];
                assert(sorted[j] == init[j]);
            }
        }
        assert(sorted =~= init.push(last));
    }
}

/// The percentiles are read from the samples in ascending order, which are
/// the same samples.
pub proof fn lemma_ascending_sorts(s: Seq<u128>)
    ensures
        is_ascending(ascending(s)),
        ascending(s).to_multiset() == s.to_multiset(),
    decreases s.len(),
{
    broadcast use vstd::seq_lib::group_to_multiset_ensures;

    if s.len() > 0 {
        lemma_ascending_sorts(s.drop_last());
        lemma_insert_ascending(ascending(s.drop_last()), s.last());
        assert(s =~= s.drop_last().push(s.last()));
    } else {
        assert(s =~= Seq::<u128>::empty());
    }
}

/// A window never grows past its size once within it, and the newest
/// sample is last.
pub proof fn lemma_window_bounded(s: Seq<u128>, x: u128)
    requires
        s.len() <= WINDOW_SIZE,
    ensures
        window_after(s, x).len() <= WINDOW_SIZE,
        window_after(s, x).last() == x,
{
}

} // verus!
