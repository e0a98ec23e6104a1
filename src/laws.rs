//! Properties of the store over whole sequences of probe cycles.
use vstd::prelude::*;
use crate::monitor::{recorded_latency, MonitorView, ProbeOutcome};
use crate::store::{
    cycle, cycle_fires, max_latency, Sample, StoreView, LOG_COOLDOWN_MS, MAX_SAMPLES,
    PROBE_PAYLOAD_BYTES,
};

verus! {

/// One completed probe cycle: the sample it adds and when it completed.
pub ghost struct ProbeEvent {
    pub sample: Sample,
    pub now: int,
}

/// The store after the cycles of `events`, in order.
pub open spec fn run(s: StoreView, events: Seq<ProbeEvent>) -> StoreView
    decreases events.len(),
{
    if events.len() == 0 {
        s
    } else {
        cycle(run(s, events.drop_last()), events.last().sample, events.last().now)
    }
}

/// Whether the `i`-th cycle of `events` grants an automatic log.
pub open spec fn fires_at(s: StoreView, events: Seq<ProbeEvent>, i: int) -> bool {
    cycle_fires(run(s, events.take(i)), events[i].sample.latency_ms as int, events[i].now)
}

/// The latencies of `events`, in order.
pub open spec fn latencies(events: Seq<ProbeEvent>) -> Seq<u64> {
    events.map_values(|e: ProbeEvent| e.sample.latency_ms)
}

pub open spec fn times_ordered(events: Seq<ProbeEvent>) -> bool {
    forall|a: int, b: int| 0 <= a < b < events.len() ==> #[trigger] events[a].now <= #[trigger] events[b].now
}

proof fn lemma_run_step(s: StoreView, events: Seq<ProbeEvent>, k: int)
    requires
        0 <= k < events.len(),
    ensures
        run(s, events.take(k + 1)) == cycle(run(s, events.take(k)), events[k].sample, events[k].now),
{
    assert(events.take(k + 1).drop_last() == events.take(k));
}

/// The window never holds more than its capacity, whatever the cycles.
pub proof fn lemma_window_bounded(s: StoreView, events: Seq<ProbeEvent>)
    requires
        s.samples.len() <= MAX_SAMPLES,
    ensures
        run(s, events).samples.len() <= MAX_SAMPLES,
    decreases events.len(),
{
    if events.len() > 0 {
        lemma_window_bounded(s, events.drop_last());
    }
}

/// Every completed cycle, reached or not, adds exactly the probe payload to
/// the byte counter.
pub proof fn lemma_bytes_per_cycle(s: StoreView, events: Seq<ProbeEvent>)
    ensures
        run(s, events).total_bytes == s.total_bytes + PROBE_PAYLOAD_BYTES * events.len(),
    decreases events.len(),
{
    if events.len() > 0 {
        lemma_bytes_per_cycle(s, events.drop_last());
    }
}

/// Every cycle appends its latency to the record of all latencies seen, and
/// the longest latency stays the maximum of that record.
pub proof fn lemma_longest_is_max_of_all(s: StoreView, events: Seq<ProbeEvent>)
    requires
        s.longest == max_latency(s.observed),
    ensures
        run(s, events).observed == s.observed + latencies(events),
        run(s, events).longest == max_latency(run(s, events).observed),
    decreases events.len(),
{
    if events.len() > 0 {
        lemma_longest_is_max_of_all(s, events.drop_last());
        let r = run(s, events);
        assert(latencies(events).drop_last() =~= latencies(events.drop_last()));
        assert(r.observed =~= s.observed + latencies(events));
        assert(r.observed.drop_last() =~= run(s, events.drop_last()).observed);
    }
}

/// The maximum of a record bounds each of its entries and, unless the record
/// is empty, is one of them.
pub proof fn lemma_max_latency_is_max(s: Seq<u64>)
    ensures
        forall|i: int| 0 <= i < s.len() ==> s[i] <= max_latency(s),
        s.len() == 0 ==> max_latency(s) == 0,
        s.len() > 0 ==> exists|i: int| 0 <= i < s.len() && s[i] == max_latency(s),
    decreases s.len(),
{
    if s.len() > 0 {
        lemma_max_latency_is_max(s.drop_last());
        assert forall|i: int| 0 <= i < s.len() implies s[i] <= max_latency(s) by {
            if i < s.len() - 1 {
                assert(s[i] == s.drop_last()[i]);
            }
        }
        if max_latency(s) == s.last() {
            assert(s[s.len() - 1] == max_latency(s));
        } else {
            let j = choose|j: int| 0 <= j < s.drop_last().len() && s.drop_last()[j] == max_latency(s.drop_last());
            assert(s[j] == max_latency(s));
        }
    }
}

/// The longest latency never decreases from one cycle to a later one.
pub proof fn lemma_longest_monotone(s: StoreView, events: Seq<ProbeEvent>, k1: int, k2: int)
    requires
        0 <= k1 <= k2 <= events.len(),
    ensures
        run(s, events.take(k1)).longest <= run(s, events.take(k2)).longest,
    decreases k2 - k1,
{
    if k1 < k2 {
        lemma_longest_monotone(s, events, k1, k2 - 1);
        lemma_run_step(s, events, k2 - 1);
    }
}

proof fn lemma_last_log_after_fire(s: StoreView, events: Seq<ProbeEvent>, i: int, k: int)
    requires
        0 <= i < k <= events.len(),
        times_ordered(events),
        fires_at(s, events, i),
    ensures
        run(s, events.take(k)).last_log matches Some(t) && t >= events[i].now,
    decreases k - i,
{
    lemma_run_step(s, events, k - 1);
    if k - 1 > i {
        lemma_last_log_after_fire(s, events, i, k - 1);
        assert(events[i].now <= events[k - 1].now);
    }
}

/// Two automatic logs granted over an ordered run of cycles are at least the
/// cooldown apart, however many cycles in between exceed the threshold.
pub proof fn lemma_log_cooldown(s: StoreView, events: Seq<ProbeEvent>, i: int, j: int)
    requires
        0 <= i < j < events.len(),
        times_ordered(events),
        fires_at(s, events, i),
        fires_at(s, events, j),
    ensures
        events[j].now >= events[i].now + LOG_COOLDOWN_MS,
{
    lemma_last_log_after_fire(s, events, i, j);
}

/// A probe that was not reached is recorded with latency 0, leaves the
/// longest latency as it was, and grants no log.
pub proof fn lemma_failed_probe(m: MonitorView, outcome: ProbeOutcome, now: int)
    requires
        m.valid(),
        !(outcome is Reached),
    ensures
        recorded_latency(outcome) == 0,
        cycle(m.store, m.sample_for(outcome, now), now).samples.last().latency_ms == 0,
        cycle(m.store, m.sample_for(outcome, now), now).longest == m.store.longest,
        !cycle_fires(m.store, recorded_latency(outcome) as int, now),
{
    lemma_max_latency_is_max(m.store.observed);
}

/// One completed probe cycle of a monitor: the window takes the new sample and
/// evicts its oldest past capacity, the longest latency becomes the larger of
/// the old one and the new, the sample is 0 exactly when the probe failed, the
/// byte counter grows by the payload, and inside the cooldown no log is granted
/// and the last grant stays.
pub proof fn lemma_probe_cycle(m: MonitorView, outcome: ProbeOutcome, now: int)
    requires
        m.valid(),
        m.store.total_bytes + PROBE_PAYLOAD_BYTES <= u64::MAX,
        0 <= now <= u64::MAX,
    ensures
        ({
            let x = m.sample_for(outcome, now);
            let s = cycle(m.store, x, now);
            &&& s.valid()
            &&& s.samples == if m.store.samples.len() == MAX_SAMPLES {
                m.store.samples.push(x).drop_first()
            } else {
                m.store.samples.push(x)
            }
            &&& s.longest == vstd::math::max(m.store.longest, x.latency_ms as int)
            &&& s.longest >= m.store.longest
            &&& (x.latency_ms == 0 <==> !(outcome is Reached))
            &&& s.total_bytes == m.store.total_bytes + PROBE_PAYLOAD_BYTES
            &&& (m.store.last_log matches Some(t0) && now < t0 + LOG_COOLDOWN_MS ==> {
                &&& !cycle_fires(m.store, x.latency_ms as int, now)
                &&& s.last_log == m.store.last_log
            })
        }),
{
    let x = m.sample_for(outcome, now);
    let s = cycle(m.store, x, now);
    lemma_max_latency_is_max(m.store.observed);
    assert(s.observed.drop_last() == m.store.observed);
}

/// A probe that was reached is never recorded with the failure latency 0.
pub proof fn lemma_reached_probe_nonzero(outcome: ProbeOutcome)
    requires
        outcome is Reached,
    ensures
        recorded_latency(outcome) > 0,
{
}

} // verus!
