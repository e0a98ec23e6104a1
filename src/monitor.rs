use vstd::prelude::*;
use vstd::string::*;
use crate::clock::{compact_stamp_now, readable_stamp_now};
use crate::render::{
    cutoff_for_export, export_cutoff, log_file_name, log_file_name_of, log_text, render_log,
    rows_after, samples_after,
};
use crate::store::{
    cycle, cycle_fires, rounded_mean, Sample, SampleStore, StoreView, PROBE_PAYLOAD_BYTES,
};

verus! {

/// Minimum time between two probe dispatches.
pub const PROBE_INTERVAL_MS: u64 = 1000;

/// How long a transient notice stays up.
pub const NOTICE_MS: u64 = 2000;

/// The host that is probed.
pub open spec fn target_text() -> Seq<char> {
    "google.com"@
}

pub fn target() -> (r: &'static str)
    ensures
        r@ == target_text(),
{
    "google.com"
}

/// What one probe of the target came to.
#[derive(Clone, Copy, Debug, PartialEq, Eq, Structural)]
pub enum ProbeOutcome {
    /// A reply came back after `rtt_ms` milliseconds.
    Reached { rtt_ms: u64 },
    /// No reply, or the transport failed.
    Unreachable,
    /// The target's name could not be resolved.
    Unresolvable,
}

/// The latency recorded for an outcome: 0 marks a failure, so a reply is
/// recorded as at least 1 ms.
pub open spec fn recorded_latency(o: ProbeOutcome) -> u64 {
    match o {
        ProbeOutcome::Reached { rtt_ms } => if rtt_ms == 0 { 1 } else { rtt_ms },
        _ => 0,
    }
}

pub fn latency_of(o: ProbeOutcome) -> (r: u64)
    ensures
        r == recorded_latency(o),
{
    match o {
        ProbeOutcome::Reached { rtt_ms } => if rtt_ms == 0 { 1 } else { rtt_ms },
        _ => 0,
    }
}

/// The status line's state.
#[derive(Clone, Copy, Debug, PartialEq, Eq, Structural)]
pub enum LinkStatus {
    NotChecked,
    Monitoring,
    NotMonitoring,
    Connected,
    Disconnected,
}

pub open spec fn status_text_of(s: LinkStatus) -> Seq<char> {
    match s {
        LinkStatus::NotChecked => "Not checked yet"@,
        LinkStatus::Monitoring => "Monitoring "@ + target_text() + "..."@,
        LinkStatus::NotMonitoring => "Not monitoring"@,
        LinkStatus::Connected => "Connected to "@ + target_text() + "."@,
        LinkStatus::Disconnected => "Disconnected from "@ + target_text() + "."@,
    }
}

/// A transient marker shown beside the controls.
#[derive(Clone, Copy, Debug, PartialEq, Eq, Structural)]
pub enum Notice {
    Cleared,
    Exported,
}

pub open spec fn notice_text_of(n: Notice) -> Seq<char> {
    match n {
        Notice::Cleared => "Data cleared"@,
        Notice::Exported => "\u{2714}"@,
    }
}

/// When a notice raised at `now` goes away (saturating at the clock's end).
pub open spec fn notice_deadline(now: int) -> int {
    if now + NOTICE_MS <= u64::MAX { now + NOTICE_MS } else { u64::MAX as int }
}

/// Time since the session started, 0 when there is no start or the clock
/// reads earlier.
pub open spec fn elapsed_at(start: Option<int>, now: int) -> int {
    match start {
        None => 0,
        Some(s) => if now >= s { now - s } else { 0 },
    }
}

/// Whether a poll at `now` dispatches a probe.
pub open spec fn probe_due(monitoring: bool, last_check: Option<int>, now: int) -> bool {
    monitoring && match last_check {
        None => false,
        Some(t) => now >= t + PROBE_INTERVAL_MS,
    }
}

/// Abstract state of a `Monitor`; times are milliseconds on a monotonic clock.
pub ghost struct MonitorView {
    pub monitoring: bool,
    pub start: Option<int>,
    pub last_check: Option<int>,
    pub status: LinkStatus,
    pub notice: Option<Notice>,
    pub notice_until: int,
    pub store: StoreView,
}

pub open spec fn in_u64(t: Option<int>) -> bool {
    match t {
        None => true,
        Some(x) => 0 <= x <= u64::MAX,
    }
}

impl MonitorView {
    pub open spec fn valid(self) -> bool {
        &&& self.store.valid()
        &&& (self.monitoring ==> self.start is Some)
        &&& (self.start is Some <==> self.last_check is Some)
        &&& in_u64(self.start)
        &&& in_u64(self.last_check)
        &&& 0 <= self.notice_until <= u64::MAX
    }

    /// The state after a poll at `now`: an expired notice is dropped and a due
    /// probe moves the last check to `now`.
    pub open spec fn polled(self, now: int) -> MonitorView {
        let expired = self.notice is Some && now >= self.notice_until;
        MonitorView {
            notice: if expired { None } else { self.notice },
            last_check: if probe_due(self.monitoring, self.last_check, now) {
                Some(now)
            } else {
                self.last_check
            },
            ..self
        }
    }

    /// The sample that a probe with `outcome` completing at `now` adds.
    pub open spec fn sample_for(self, outcome: ProbeOutcome, now: int) -> Sample {
        Sample {
            elapsed_ms: elapsed_at(self.start, now) as u64,
            latency_ms: recorded_latency(outcome),
        }
    }

    /// The samples that an export at `now` lists.
    pub open spec fn export_rows(self, now: int) -> Seq<Sample> {
        let start = match self.start {
            None => now,
            Some(s) => s,
        };
        rows_after(self.store.samples, export_cutoff(now, start))
    }
}

/// What a completed probe cycle produced.
#[derive(Clone, Copy, Debug, PartialEq, Eq, Structural)]
pub struct ProbeReport {
    pub latency_ms: u64,
    /// An automatic log is granted; it is to be written under a fresh name.
    pub log_due: bool,
}

/// Monitoring session state, status line, transient notice and sample store.
pub struct Monitor {
    monitoring: bool,
    start_time: Option<u64>,
    last_check: Option<u64>,
    status: LinkStatus,
    notice: Option<Notice>,
    notice_until: u64,
    store: SampleStore,
}

pub open spec fn opt_int(t: Option<u64>) -> Option<int> {
    match t {
        None => None,
        Some(x) => Some(x as int),
    }
}

impl View for Monitor {
    type V = MonitorView;

    closed spec fn view(&self) -> MonitorView {
        MonitorView {
            monitoring: self.monitoring,
            start: opt_int(self.start_time),
            last_check: opt_int(self.last_check),
            status: self.status,
            notice: self.notice,
            notice_until: self.notice_until as int,
            store: self.store@,
        }
    }
}

fn deadline_after(now: u64) -> (r: u64)
    ensures
        r == notice_deadline(now as int),
{
    if now <= u64::MAX - NOTICE_MS { now + NOTICE_MS } else { u64::MAX }
}

impl Monitor {
    pub open spec fn wf(&self) -> bool {
        self@.valid()
    }

    /// An idle monitor with an empty store.
    pub fn new() -> (r: Monitor)
        ensures
            r.wf(),
            r@ == (MonitorView {
                monitoring: false,
                start: None,
                last_check: None,
                status: LinkStatus::NotChecked,
                notice: None,
                notice_until: 0,
                store: StoreView {
                    samples: Seq::empty(),
                    total_bytes: 0,
                    longest: 0,
                    last_log: None,
                    observed: Seq::empty(),
                },
            }),
    {
        let store = SampleStore::new();
        assert(store@.samples == Seq::<Sample>::empty());
        assert(store@.observed == Seq::<u64>::empty());
        Monitor {
            monitoring: false,
            start_time: None,
            last_check: None,
            status: LinkStatus::NotChecked,
            notice: None,
            notice_until: 0,
            store,
        }
    }

    /// Starts a session at `now_ms`; does nothing while one is running.
    pub fn start(&mut self, now_ms: u64)
        requires
            old(self).wf(),
        ensures
            final(self).wf(),
            old(self)@.monitoring ==> final(self)@ == old(self)@,
            !old(self)@.monitoring ==> final(self)@ == (MonitorView {
                monitoring: true,
                start: Some(now_ms as int),
                last_check: Some(now_ms as int),
                status: LinkStatus::Monitoring,
                ..old(self)@
            }),
    {
        if !self.monitoring {
            self.monitoring = true;
            self.start_time = Some(now_ms);
            self.last_check = Some(now_ms);
            self.status = LinkStatus::Monitoring;
        }
    }

    /// Ends the session; probes in flight may still complete. Does nothing
    /// while idle.
    pub fn stop(&mut self)
        requires
            old(self).wf(),
        ensures
            final(self).wf(),
            !old(self)@.monitoring ==> final(self)@ == old(self)@,
            old(self)@.monitoring ==> final(self)@ == (MonitorView {
                monitoring: false,
                status: LinkStatus::NotMonitoring,
                ..old(self)@
            }),
    {
        if self.monitoring {
            self.monitoring = false;
            self.status = LinkStatus::NotMonitoring;
        }
    }

    /// Stops monitoring, empties the window, zeroes the byte counter, forgets
    /// the session's start and raises the "cleared" notice. The longest
    /// latency and the log cooldown are kept.
    pub fn clear(&mut self, now_ms: u64)
        requires
            old(self).wf(),
        ensures
            final(self).wf(),
            final(self)@ == (MonitorView {
                monitoring: false,
                start: None,
                last_check: None,
                status: LinkStatus::NotMonitoring,
                notice: Some(Notice::Cleared),
                notice_until: notice_deadline(now_ms as int),
                store: StoreView { samples: Seq::empty(), total_bytes: 0, ..old(self)@.store },
            }),
    {
        self.monitoring = false;
        self.start_time = None;
        self.last_check = None;
        self.status = LinkStatus::NotMonitoring;
        self.store.clear();
        self.notice = Some(Notice::Cleared);
        self.notice_until = deadline_after(now_ms);
    }

    /// One tick of the control loop at `now_ms`: drops an expired notice and
    /// returns whether a probe is to be dispatched now.
    pub fn poll(&mut self, now_ms: u64) -> (due: bool)
        requires
            old(self).wf(),
        ensures
            final(self).wf(),
            final(self)@ == old(self)@.polled(now_ms as int),
            due == probe_due(old(self)@.monitoring, old(self)@.last_check, now_ms as int),
    {
        if self.notice.is_some() && now_ms >= self.notice_until {
            self.notice = None;
        }
        let due = self.monitoring && match self.last_check {
            None => false,
            Some(t) => now_ms >= t && now_ms - t >= PROBE_INTERVAL_MS,
        };
        if due {
            self.last_check = Some(now_ms);
        }
        due
    }

    /// Whether one more probe cycle can be charged to the byte counter.
    pub fn has_room(&self) -> (r: bool)
        requires
            self.wf(),
        ensures
            r == (self@.store.total_bytes + PROBE_PAYLOAD_BYTES <= u64::MAX),
    {
        self.store.has_room()
    }

    /// Records a probe cycle that completed at `now_ms` with `outcome`: the
    /// sample, the status line, the counters, and whether a log is due.
    pub fn complete_probe(&mut self, outcome: ProbeOutcome, now_ms: u64) -> (r: ProbeReport)
        requires
            old(self).wf(),
            old(self)@.store.total_bytes + PROBE_PAYLOAD_BYTES <= u64::MAX,
        ensures
            final(self).wf(),
            final(self)@ == (MonitorView {
                status: if recorded_latency(outcome) > 0 {
                    LinkStatus::Connected
                } else {
                    LinkStatus::Disconnected
                },
                store: cycle(old(self)@.store, old(self)@.sample_for(outcome, now_ms as int), now_ms as int),
                ..old(self)@
            }),
            r.latency_ms == recorded_latency(outcome),
            r.log_due == cycle_fires(old(self)@.store, recorded_latency(outcome) as int, now_ms as int),
    {
        let latency = latency_of(outcome);
        let elapsed = match self.start_time {
            None => 0,
            Some(s) => if now_ms >= s { now_ms - s } else { 0 },
        };
        self.status = if latency > 0 { LinkStatus::Connected } else { LinkStatus::Disconnected };
        let sample = Sample { elapsed_ms: elapsed, latency_ms: latency };
        let log_due = self.store.record(sample, now_ms);
        ProbeReport { latency_ms: latency, log_due }
    }

    /// Text of an automatic log created at `created`: every retained sample.
    pub fn auto_log_text(&self, created: &str) -> (r: String)
        requires
            self.wf(),
        ensures
            r@ == log_text(created@, target_text(), rounded_mean(self@.store.samples) as nat,
                self@.store.longest as nat, self@.store.total_bytes as nat, self@.store.samples),
    {
        render_log(
            created,
            target(),
            self.store.average_latency_ms(),
            self.store.longest_latency_ms(),
            self.store.total_bytes_sent(),
            self.store.samples(),
        )
    }

    /// Text of a manual export made at `now_ms` and created at `created`: the
    /// samples past the export cutoff, under the average of the whole window.
    pub fn export_text(&self, now_ms: u64, created: &str) -> (r: String)
        requires
            self.wf(),
        ensures
            r@ == log_text(created@, target_text(), rounded_mean(self@.store.samples) as nat,
                self@.store.longest as nat, self@.store.total_bytes as nat, self@.export_rows(now_ms as int)),
    {
        let start = match self.start_time {
            None => now_ms,
            Some(s) => s,
        };
        let rows = samples_after(self.store.samples(), cutoff_for_export(now_ms, start));
        render_log(
            created,
            target(),
            self.store.average_latency_ms(),
            self.store.longest_latency_ms(),
            self.store.total_bytes_sent(),
            &rows,
        )
    }

    /// Text of an automatic log stamped with the local time now.
    pub fn auto_log_now(&self) -> (r: String)
        requires
            self.wf(),
        ensures
            exists|created: Seq<char>|
                created.len() >= 19 && r@ == #[trigger] log_text(created, target_text(), rounded_mean(self@.store.samples) as nat,
                    self@.store.longest as nat, self@.store.total_bytes as nat, self@.store.samples),
    {
        let created = readable_stamp_now();
        self.auto_log_text(created.as_str())
    }

    /// Text of a manual export at `now_ms`, stamped with the local time now.
    pub fn export_now(&self, now_ms: u64) -> (r: String)
        requires
            self.wf(),
        ensures
            exists|created: Seq<char>|
                created.len() >= 19 && r@ == #[trigger] log_text(created, target_text(), rounded_mean(self@.store.samples) as nat,
                    self@.store.longest as nat, self@.store.total_bytes as nat, self@.export_rows(now_ms as int)),
    {
        let created = readable_stamp_now();
        self.export_text(now_ms, created.as_str())
    }

    /// Raises the "exported" notice after a manual export was written.
    pub fn mark_exported(&mut self, now_ms: u64)
        requires
            old(self).wf(),
        ensures
            final(self).wf(),
            final(self)@ == (MonitorView {
                notice: Some(Notice::Exported),
                notice_until: notice_deadline(now_ms as int),
                ..old(self)@
            }),
    {
        self.notice = Some(Notice::Exported);
        self.notice_until = deadline_after(now_ms);
    }

    pub fn is_monitoring(&self) -> (r: bool)
        ensures
            r == self@.monitoring,
    {
        self.monitoring
    }

    pub fn status(&self) -> (r: LinkStatus)
        ensures
            r == self@.status,
    {
        self.status
    }

    /// The status line.
    pub fn status_text(&self) -> (r: String)
        ensures
            r@ == status_text_of(self@.status),
    {
        match self.status {
            LinkStatus::NotChecked => String::from_str("Not checked yet"),
            LinkStatus::Monitoring => {
                let mut s = String::from_str("Monitoring ");
                s.append(target());
                s.append("...");
                s
            },
            LinkStatus::NotMonitoring => String::from_str("Not monitoring"),
            LinkStatus::Connected => {
                let mut s = String::from_str("Connected to ");
                s.append(target());
                s.append(".");
                s
            },
            LinkStatus::Disconnected => {
                let mut s = String::from_str("Disconnected from ");
                s.append(target());
                s.append(".");
                s
            },
        }
    }

    /// The transient notice's text, if one is up.
    pub fn notice_text(&self) -> (r: Option<String>)
        ensures
            r is None <==> self@.notice is None,
            r matches Some(t) ==> t@ == notice_text_of(self@.notice->0),
    {
        match self.notice {
            None => None,
            Some(Notice::Cleared) => Some(String::from_str("Data cleared")),
            Some(Notice::Exported) => Some(String::from_str("\u{2714}")),
        }
    }

    pub fn store(&self) -> (r: &SampleStore)
        ensures
            r@ == self@.store,
    {
        &self.store
    }
}

/// Name for an automatic log file, from the local time now.
pub fn auto_log_file_name() -> (r: String)
    ensures
        exists|stamp: Seq<char>|
            stamp.len() >= 14 && r@ == #[trigger] log_file_name_of(stamp) && forall|i: int|
                stamp.len() - 10 <= i < stamp.len() ==> '0' <= #[trigger] stamp[i] <= '9',
{
    let stamp = compact_stamp_now();
    log_file_name(stamp.as_str())
}

} // verus!
