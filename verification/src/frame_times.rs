//! Bounded frame intervals, queried on demand instead of logged during play.
//! A ring of the most recent intervals; pausing drops the interval that
//! spans a load or a suspend.
use vstd::prelude::*;

verus! {

/// Intervals kept in the window.
pub const SAMPLES: usize = 360;

/// The interval from `previous` to `now`, in microseconds, clamped to `u32`.
pub open spec fn interval(previous: u64, now: u64) -> u32 {
    if now <= previous {
        0
    } else if now - previous > u32::MAX {
        u32::MAX
    } else {
        (now - previous) as u32
    }
}

/// The most recent `SAMPLES` entries of `s`.
pub open spec fn keep_recent(s: Seq<u32>) -> Seq<u32> {
    if s.len() > 360 {
        s.subrange(s.len() - 360, s.len() as int)
    } else {
        s
    }
}

/// Sum of the intervals.
pub open spec fn seq_sum(s: Seq<u32>) -> nat
    decreases s.len(),
{
    if s.len() == 0 {
        0
    } else {
        seq_sum(s.drop_last()) + s.last() as nat
    }
}

/// Frames slower than 20 ms (below 50 Hz).
pub open spec fn stall_count(s: Seq<u32>) -> nat
    decreases s.len(),
{
    if s.len() == 0 {
        0
    } else {
        stall_count(s.drop_last()) + if s.last() > 20_000 {
            1nat
        } else {
            0nat
        }
    }
}

pub open spec fn sorted(s: Seq<u32>) -> bool {
    forall|a: int, b: int| 0 <= a < b < s.len() ==> s[a] <= s[b]
}

/// Integer summary of the window, from which hosts derive the frame rate and
/// millisecond percentiles.
pub struct FrameStats {
    /// Intervals in the window.
    pub count: usize,
    /// Their sum, in microseconds.
    pub total_us: u64,
    /// The 95th-percentile interval (rank `(count - 1) * 95 / 100`).
    pub p95_us: u32,
    /// The 99th-percentile interval (rank `(count - 1) * 99 / 100`).
    pub p99_us: u32,
    /// The longest interval.
    pub max_us: u32,
    /// Intervals above 20 ms.
    pub stalls: usize,
}

/// Sorts `v` ascending, keeping its elements.
fn sort_ascending(v: &mut Vec<u32>)
    ensures
        final(v)@.len() == old(v)@.len(),
        final(v)@.to_multiset() == old(v)@.to_multiset(),
        sorted(final(v)@),
{
    broadcast use vstd::multiset::group_multiset_axioms;

    let n = v.len();
    let ghost start = v@;
    let mut i: usize = 1;
    if n == 0 {
        return;
    }
    while i < n
        invariant
            1 <= i <= n,
            v@.len() == n,
            v@.to_multiset() == start.to_multiset(),
            forall|a: int, b: int| 0 <= a < b < i ==> v@[a] <= v@[b],
        decreases n - i,
    {
        let mut j: usize = i;
        while j > 0 && v[j - 1] > v[j]
            invariant
                0 <= j <= i < n,
                v@.len() == n,
                v@.to_multiset() == start.to_multiset(),
                forall|a: int, b: int|
                    0 <= a < b <= i && a != j && b != j ==> v@[a] <= v@[b],
                forall|b: int| j < b <= i ==> v@[j as int] <= v@[b],
            decreases j,
        {
            let low = v[j];
            let high = v[j - 1];
            let ghost before = v@;
            v.set(j - 1, low);
            v.set(j, high);
            proof {
                let mid = before.update(j - 1, low);
                assert(v@ == mid.update(j as int, high));
                vstd::seq_lib::to_multiset_update(before, j - 1, low);
                vstd::seq_lib::to_multiset_update(mid, j as int, high);
                assert(before.to_multiset().count(high) > 0) by {
                    vstd::seq_lib::to_multiset_contains(before, high);
                    assert(before[j - 1] == high);
                }
                assert(v@.to_multiset() =~= before.to_multiset());
            }
            j = j - 1;
        }
        i = i + 1;
    }
}

pub struct FrameTimes {
    samples: Vec<u32>,
    next: usize,
    count: usize,
    previous: u64,
}

impl FrameTimes {
    /// The ring's bookkeeping: a full-size buffer, the next slot to write,
    /// and a fill level that equals that slot until the ring wraps.
    pub closed spec fn wf(self) -> bool {
        &&& self.samples@.len() == 360
        &&& self.next < 360
        &&& self.count <= 360
        &&& self.count < 360 ==> self.next == self.count
    }

    /// The recorded intervals, oldest first; at most `SAMPLES`.
    pub closed spec fn window(self) -> Seq<u32> {
        if self.count < 360 {
            self.samples@.take(self.count as int)
        } else {
            self.samples@.subrange(self.next as int, 360) + self.samples@.take(self.next as int)
        }
    }

    /// Timestamp of the last recorded frame, or 0 while paused.
    pub closed spec fn previous(self) -> u64 {
        self.previous
    }

    /// The window never holds more than `SAMPLES` intervals.
    pub proof fn lemma_window_bounded(self)
        requires
            self.wf(),
        ensures
            self.window().len() <= SAMPLES,
    {
    }

    pub fn new() -> (r: Self)
        ensures
            r.wf(),
            r.window() == Seq::<u32>::empty(),
            r.previous() == 0,
    {
        let samples = vec![0u32; SAMPLES];
        let r = Self { samples, next: 0, count: 0, previous: 0 };
        assert(r.window() =~= Seq::<u32>::empty());
        r
    }

    /// The next frame does not produce an interval (it follows a load).
    pub fn pause(&mut self)
        requires
            old(self).wf(),
        ensures
            final(self).wf(),
            final(self).window() == old(self).window(),
            final(self).previous() == 0,
    {
        self.previous = 0;
    }

    /// Records the frame presented at `now`: the interval since the previous
    /// frame joins the window, unless the clock was paused.
    pub fn record(&mut self, now: u64)
        requires
            old(self).wf(),
        ensures
            final(self).wf(),
            final(self).window() == if old(self).previous() != 0 {
                keep_recent(old(self).window().push(interval(old(self).previous(), now)))
            } else {
                old(self).window()
            },
            final(self).previous() == now,
    {
        let ghost before = self.window();
        if self.previous != 0 {
            let elapsed = now.saturating_sub(self.previous);
            let value: u32 = if elapsed > u32::MAX as u64 {
                u32::MAX
            } else {
                elapsed as u32
            };
            let ghost old_samples = self.samples@;
            let at = self.next;
            self.samples.set(at, value);
            let next = if at + 1 == SAMPLES {
                0
            } else {
                at + 1
            };
            let count = if self.count + 1 > SAMPLES {
                SAMPLES
            } else {
                self.count + 1
            };
            proof {
                let s = self.samples@;
                let pushed = before.push(value);
                if self.count < 360 {
                    assert(s.take(count as int) =~= pushed);
                    if count == 360 {
                        assert(next == 0);
                        assert(s.subrange(0, 360) + s.take(0) =~= s.take(360));
                    }
                } else {
                    assert(pushed.len() == 361);
                    assert(s.subrange(next as int, 360) + s.take(next as int) =~= pushed.subrange(
                        1,
                        361,
                    ));
                }
            }
            self.next = next;
            self.count = count;
        }
        self.previous = now;
    }
    /// The window's size, total, percentiles, maximum and stall count; the
    /// percentiles are read from the intervals in ascending order.
    pub fn stats(&self) -> (r: FrameStats)
        requires
            self.wf(),
        ensures
            r.count == self.window().len(),
            r.total_us == seq_sum(self.window()),
            r.stalls == stall_count(self.window()),
            self.window().len() == 0 ==> r.p95_us == 0 && r.p99_us == 0 && r.max_us == 0,
            self.window().len() > 0 ==> exists|s: Seq<u32>|
                {
                    &&& #[trigger] sorted(s)
                    &&& s.to_multiset() == self.window().to_multiset()
                    &&& r.p95_us == s[(s.len() - 1) * 95 / 100]
                    &&& r.p99_us == s[(s.len() - 1) * 99 / 100]
                    &&& r.max_us == s[s.len() - 1]
                },
    {
        let n = self.count;
        let ghost w = self.window();
        let mut values: Vec<u32> = Vec::with_capacity(n);
        let mut k: usize = 0;
        let mut total: u64 = 0;
        let mut stalls: usize = 0;
        while k < n
            invariant
                self.wf(),
                n == self.count,
                w == self.window(),
                w.len() == n,
                k <= n,
                values@ == w.take(k as int),
                total == seq_sum(w.take(k as int)),
                total <= k * 0xffff_ffff,
                stalls == stall_count(w.take(k as int)),
                stalls <= k,
            decreases n - k,
        {
            let at = if n < SAMPLES {
                k
            } else if self.next + k < SAMPLES {
                self.next + k
            } else {
                self.next + k - SAMPLES
            };
            let value = self.samples[at];
            proof {
                assert(value == w[k as int]);
                assert(w.take(k + 1).drop_last() =~= w.take(k as int));
            }
            values.push(value);
            total = total + value as u64;
            if value > 20_000 {
                stalls = stalls + 1;
            }
            k = k + 1;
        }
        assert(w.take(n as int) =~= w);
        if n == 0 {
            return FrameStats { count: 0, total_us: 0, p95_us: 0, p99_us: 0, max_us: 0, stalls: 0 };
        }
        sort_ascending(&mut values);
        let r = FrameStats {
            count: n,
            total_us: total,
            p95_us: values[(n - 1) * 95 / 100],
            p99_us: values[(n - 1) * 99 / 100],
            max_us: values[n - 1],
            stalls,
        };
        assert(sorted(values@));
        r
    }
}

} // verus!
