use vstd::prelude::*;

verus! {

/// Most recent samples kept in the window.
pub const MAX_SAMPLES: usize = 100;

/// Bytes charged to the counter for every probe cycle, reached or not.
pub const PROBE_PAYLOAD_BYTES: u64 = 32;

/// A latency above this (and above every latency seen before) asks for a log.
pub const LATENCY_THRESHOLD_MS: u64 = 175;

/// Minimum time between two automatic logs.
pub const LOG_COOLDOWN_MS: u64 = 60000;

/// One probe result: time since the session started, and the round trip
/// (0 when the target could not be reached).
#[derive(Clone, Copy, Debug, PartialEq, Eq, Structural)]
pub struct Sample {
    pub elapsed_ms: u64,
    pub latency_ms: u64,
}

/// Abstract state of a `SampleStore`.
pub ghost struct StoreView {
    /// The retained window, oldest first.
    pub samples: Seq<Sample>,
    pub total_bytes: int,
    pub longest: int,
    /// When the last automatic log was granted.
    pub last_log: Option<int>,
    /// Every latency ever recorded, including evicted and cleared ones.
    pub observed: Seq<u64>,
}

/// Largest latency in `s` (0 for none).
pub open spec fn max_latency(s: Seq<u64>) -> int
    decreases s.len(),
{
    if s.len() == 0 {
        0
    } else {
        vstd::math::max(max_latency(s.drop_last()), s.last() as int)
    }
}

/// Whether the cooldown allows a new automatic log at `now`.
pub open spec fn debounce_open(last_log: Option<int>, now: int) -> bool {
    match last_log {
        None => true,
        Some(t) => now >= t + LOG_COOLDOWN_MS,
    }
}

/// Whether recording `latency` at `now` grants an automatic log.
pub open spec fn cycle_fires(s: StoreView, latency: int, now: int) -> bool {
    &&& latency > s.longest
    &&& latency > LATENCY_THRESHOLD_MS
    &&& debounce_open(s.last_log, now)
}

/// Append `x`, dropping the oldest entry once the window is over capacity.
pub open spec fn bounded_push(samples: Seq<Sample>, x: Sample) -> Seq<Sample> {
    let pushed = samples.push(x);
    if pushed.len() > MAX_SAMPLES {
        pushed.drop_first()
    } else {
        pushed
    }
}

/// The store after one completed probe cycle that produced `sample` at `now`.
pub open spec fn cycle(s: StoreView, sample: Sample, now: int) -> StoreView {
    StoreView {
        samples: bounded_push(s.samples, sample),
        total_bytes: s.total_bytes + PROBE_PAYLOAD_BYTES,
        longest: vstd::math::max(s.longest, sample.latency_ms as int),
        last_log: if cycle_fires(s, sample.latency_ms as int, now) {
            Some(now)
        } else {
            s.last_log
        },
        observed: s.observed.push(sample.latency_ms),
    }
}

/// Sum of the latencies of `s`.
pub open spec fn latency_total(s: Seq<Sample>) -> int
    decreases s.len(),
{
    if s.len() == 0 {
        0
    } else {
        latency_total(s.drop_last()) + s.last().latency_ms
    }
}

/// Mean latency of `s` rounded to the nearest integer, halves up (0 for none).
pub open spec fn rounded_mean(s: Seq<Sample>) -> int {
    if s.len() == 0 {
        0
    } else {
        (2 * latency_total(s) + s.len()) / (2 * s.len() as int)
    }
}

impl StoreView {
    /// The store's invariant: a bounded window, counters that fit their
    /// types, and a longest latency that is the maximum of all ever seen.
    pub open spec fn valid(self) -> bool {
        &&& self.samples.len() <= MAX_SAMPLES
        &&& 0 <= self.total_bytes <= u64::MAX
        &&& self.longest == max_latency(self.observed)
        &&& match self.last_log {
            None => true,
            Some(t) => 0 <= t <= u64::MAX,
        }
    }
}

/// The rolling sample window with its running counters and the debounce
/// state of the automatic log.
pub struct SampleStore {
    samples: Vec<Sample>,
    total_bytes_sent: u64,
    longest_latency_ms: u64,
    last_log_time: Option<u64>,
    observed: Ghost<Seq<u64>>,
}

impl View for SampleStore {
    type V = StoreView;

    closed spec fn view(&self) -> StoreView {
        StoreView {
            samples: self.samples@,
            total_bytes: self.total_bytes_sent as int,
            longest: self.longest_latency_ms as int,
            last_log: match self.last_log_time {
                None => None,
                Some(t) => Some(t as int),
            },
            observed: self.observed@,
        }
    }
}

impl SampleStore {
    pub open spec fn wf(&self) -> bool {
        self@.valid()
    }

    /// An empty store with zeroed counters and no log granted yet.
    pub fn new() -> (r: SampleStore)
        ensures
            r.wf(),
            r@.samples.len() == 0,
            r@.total_bytes == 0,
            r@.longest == 0,
            r@.last_log is None,
            r@.observed.len() == 0,
    {
        SampleStore {
            samples: Vec::new(),
            total_bytes_sent: 0,
            longest_latency_ms: 0,
            last_log_time: None,
            observed: Ghost(Seq::empty()),
        }
    }

    /// Whether another cycle can be charged without overflowing the byte counter.
    pub fn has_room(&self) -> (r: bool)
        requires
            self.wf(),
        ensures
            r == (self@.total_bytes + PROBE_PAYLOAD_BYTES <= u64::MAX),
    {
        self.total_bytes_sent <= u64::MAX - PROBE_PAYLOAD_BYTES
    }

    /// Records one completed probe cycle observed at `now_ms`; returns whether
    /// it grants an automatic log (the grant time is then stored at once).
    pub fn record(&mut self, sample: Sample, now_ms: u64) -> (fired: bool)
        requires
            old(self).wf(),
            old(self)@.total_bytes + PROBE_PAYLOAD_BYTES <= u64::MAX,
        ensures
            final(self).wf(),
            final(self)@ == cycle(old(self)@, sample, now_ms as int),
            fired == cycle_fires(old(self)@, sample.latency_ms as int, now_ms as int),
    {
        let ghost pre = self@;
        let mut fired = false;
        if sample.latency_ms > self.longest_latency_ms {
            self.longest_latency_ms = sample.latency_ms;
            if sample.latency_ms > LATENCY_THRESHOLD_MS {
                let open = match self.last_log_time {
                    None => true,
                    Some(t) => now_ms >= t && now_ms - t >= LOG_COOLDOWN_MS,
                };
                if open {
                    self.last_log_time = Some(now_ms);
                    fired = true;
                }
            }
        }
        self.samples.push(sample);
        self.total_bytes_sent = self.total_bytes_sent + PROBE_PAYLOAD_BYTES;
        if self.samples.len() > MAX_SAMPLES {
            self.samples.remove(0);
        }
        self.observed = Ghost(self.observed@.push(sample.latency_ms));
        proof {
            let post = cycle(pre, sample, now_ms as int);
            assert(self.observed@.drop_last() == pre.observed);
            assert(self@.samples == post.samples);
            assert(self@ == post);
        }
        fired
    }

    /// Empties the window and zeroes the byte counter; the longest latency and
    /// the debounce state are kept.
    pub fn clear(&mut self)
        requires
            old(self).wf(),
        ensures
            final(self).wf(),
            final(self)@ == (StoreView {
                samples: Seq::empty(),
                total_bytes: 0,
                ..old(self)@
            }),
    {
        self.samples.clear();
        self.total_bytes_sent = 0;
        assert(self.samples@ == Seq::<Sample>::empty());
    }

    /// The most recent sample, if any.
    pub fn latest(&self) -> (r: Option<Sample>)
        ensures
            r is None <==> self@.samples.len() == 0,
            r matches Some(x) ==> x == self@.samples.last(),
    {
        if self.samples.len() == 0 {
            None
        } else {
            Some(self.samples[self.samples.len() - 1])
        }
    }

    /// Mean latency of the retained window, rounded to the nearest integer.
    pub fn average_latency_ms(&self) -> (r: u64)
        requires
            self.wf(),
        ensures
            r == rounded_mean(self@.samples),
    {
        let n = self.samples.len();
        let mut sum: u128 = 0;
        let mut i: usize = 0;
        while i < n
            invariant
                n == self.samples@.len(),
                n <= MAX_SAMPLES,
                i <= n,
                sum == latency_total(self.samples@.take(i as int)),
                sum <= i * (u64::MAX as int),
            decreases n - i,
        {
            let x = self.samples[i].latency_ms;
            proof {
                let s = self.samples@;
                assert(s.take(i + 1).drop_last() == s.take(i as int));
                assert(sum + x <= (i + 1) * (u64::MAX as int)) by (nonlinear_arith)
                    requires
                        sum <= i * (u64::MAX as int),
                        x <= u64::MAX,
                ;
            }
            sum = sum + x as u128;
            i = i + 1;
        }
        assert(self.samples@.take(n as int) == self.samples@);
        if n == 0 {
            0
        } else {
            let d: u128 = 2 * (n as u128);
            let q: u128 = (2 * sum + n as u128) / d;
            proof {
                let m = u64::MAX as int;
                let nn = n as int;
                assert(q <= m) by (nonlinear_arith)
                    requires
                        q == (2 * sum + nn) / (2 * nn),
                        sum <= nn * m,
                        nn > 0,
                        m > 0,
                {
                    assert(2 * sum + nn <= 2 * nn * m + nn);
                    assert(2 * sum + nn < 2 * nn * (m + 1));
                }
            }
            q as u64
        }
    }

    pub fn samples(&self) -> (r: &Vec<Sample>)
        ensures
            r@ == self@.samples,
    {
        &self.samples
    }

    pub fn total_bytes_sent(&self) -> (r: u64)
        ensures
            r == self@.total_bytes,
    {
        self.total_bytes_sent
    }

    pub fn longest_latency_ms(&self) -> (r: u64)
        ensures
            r == self@.longest,
    {
        self.longest_latency_ms
    }

    pub fn last_log_time(&self) -> (r: Option<u64>)
        ensures
            r is None <==> self@.last_log is None,
            r matches Some(t) ==> self@.last_log == Some(t as int),
    {
        self.last_log_time
    }
}

} // verus!
