use internet_monitor::clock::{compact_stamp_now, readable_stamp_now};
use internet_monitor::monitor::{auto_log_file_name, latency_of, LinkStatus, Monitor, ProbeOutcome};
use internet_monitor::render::{
    cutoff_for_export, decimal_text, log_file_name, render_log, round_to_seconds, samples_after,
};
use internet_monitor::store::{Sample, SampleStore};

fn sample(elapsed_ms: u64, latency_ms: u64) -> Sample {
    Sample { elapsed_ms, latency_ms }
}

#[test]
fn threshold_scenario_fires_once_on_third_sample() {
    let mut m = Monitor::new();
    m.start(0);
    let a = m.complete_probe(ProbeOutcome::Reached { rtt_ms: 50 }, 0);
    let b = m.complete_probe(ProbeOutcome::Reached { rtt_ms: 60 }, 1000);
    let c = m.complete_probe(ProbeOutcome::Reached { rtt_ms: 200 }, 2000);
    assert!(!a.log_due);
    assert!(!b.log_due);
    assert!(c.log_due);
    assert_eq!(m.store().longest_latency_ms(), 200);
    assert_eq!(m.store().average_latency_ms(), 103);
    let text = m.auto_log_text("2024-05-06 07:08:09");
    assert_eq!(
        text,
        "Log Created: 2024-05-06 07:08:09\nPing Target: google.com\nAverage Response Time: 103 ms\n\
         Longest Response Time: 200 ms\nTotal Data Sent: 96 bytes\n\n0 s, 50 ms\n1 s, 60 ms\n2 s, 200 ms\n"
    );
}

#[test]
fn clear_empties_window_and_counter() {
    let mut m = Monitor::new();
    m.start(0);
    m.complete_probe(ProbeOutcome::Reached { rtt_ms: 300 }, 1000);
    m.complete_probe(ProbeOutcome::Unreachable, 2000);
    m.clear(2500);
    assert!(m.store().samples().is_empty());
    assert_eq!(m.store().total_bytes_sent(), 0);
    assert_eq!(m.status_text(), "Not monitoring");
    assert!(!m.is_monitoring());
    assert_eq!(m.notice_text(), Some("Data cleared".to_string()));
    // the longest latency and the cooldown survive a clear
    assert_eq!(m.store().longest_latency_ms(), 300);
    assert_eq!(m.store().last_log_time(), Some(1000));
}

#[test]
fn triggers_seventy_seconds_apart_both_log() {
    let mut m = Monitor::new();
    m.start(0);
    let a = m.complete_probe(ProbeOutcome::Reached { rtt_ms: 200 }, 1000);
    let b = m.complete_probe(ProbeOutcome::Reached { rtt_ms: 300 }, 71000);
    assert!(a.log_due);
    assert!(b.log_due);
    assert_eq!(m.store().last_log_time(), Some(71000));
}

#[test]
fn triggers_ten_seconds_apart_log_once() {
    let mut m = Monitor::new();
    m.start(0);
    let a = m.complete_probe(ProbeOutcome::Reached { rtt_ms: 200 }, 1000);
    let b = m.complete_probe(ProbeOutcome::Reached { rtt_ms: 300 }, 11000);
    assert!(a.log_due);
    assert!(!b.log_due);
    assert_eq!(m.store().longest_latency_ms(), 300);
    assert_eq!(m.store().last_log_time(), Some(1000));
}

#[test]
fn cooldown_boundary_is_inclusive() {
    let mut s = SampleStore::new();
    assert!(s.record(sample(0, 200), 5000));
    assert!(!s.record(sample(1, 250), 64999));
    assert!(s.record(sample(2, 300), 65000));
}

#[test]
fn burst_of_rising_spikes_logs_once_per_minute() {
    let mut s = SampleStore::new();
    let mut fired = 0;
    for i in 0..120u64 {
        if s.record(sample(i * 1000, 200 + i), i * 1000) {
            fired += 1;
        }
    }
    // grants at 0 s and 60 s only
    assert_eq!(fired, 2);
    assert_eq!(s.last_log_time(), Some(60000));
}

#[test]
fn window_keeps_the_latest_hundred() {
    let mut s = SampleStore::new();
    for i in 0..150u64 {
        s.record(sample(i, 10 + i), i);
        assert!(s.samples().len() <= 100);
    }
    assert_eq!(s.samples().len(), 100);
    assert_eq!(s.samples()[0], sample(50, 60));
    assert_eq!(s.latest(), Some(sample(149, 159)));
}

#[test]
fn longest_outlives_eviction() {
    let mut s = SampleStore::new();
    s.record(sample(0, 900), 0);
    let mut prev = s.longest_latency_ms();
    for i in 1..150u64 {
        s.record(sample(i, 20), i);
        assert!(s.longest_latency_ms() >= prev);
        prev = s.longest_latency_ms();
    }
    assert!(s.samples().iter().all(|x| x.latency_ms == 20));
    assert_eq!(s.longest_latency_ms(), 900);
}

#[test]
fn failed_probe_records_zero() {
    let mut m = Monitor::new();
    m.start(0);
    m.complete_probe(ProbeOutcome::Reached { rtt_ms: 40 }, 1000);
    let r = m.complete_probe(ProbeOutcome::Unreachable, 2000);
    assert_eq!(r.latency_ms, 0);
    assert!(!r.log_due);
    assert_eq!(m.store().longest_latency_ms(), 40);
    assert_eq!(m.store().latest(), Some(sample(2000, 0)));
    assert_eq!(m.status(), LinkStatus::Disconnected);
    assert_eq!(m.status_text(), "Disconnected from google.com.");
    let r = m.complete_probe(ProbeOutcome::Unresolvable, 3000);
    assert_eq!(r.latency_ms, 0);
    assert_eq!(m.store().samples().len(), 3);
}

#[test]
fn bytes_grow_by_payload_per_cycle() {
    let mut m = Monitor::new();
    m.start(0);
    let outcomes = [
        ProbeOutcome::Reached { rtt_ms: 12 },
        ProbeOutcome::Unreachable,
        ProbeOutcome::Unresolvable,
        ProbeOutcome::Reached { rtt_ms: 0 },
    ];
    for (i, o) in outcomes.iter().enumerate() {
        let before = m.store().total_bytes_sent();
        m.complete_probe(*o, 1000 * (i as u64 + 1));
        assert_eq!(m.store().total_bytes_sent(), before + 32);
    }
    assert_eq!(m.store().total_bytes_sent(), 128);
}

#[test]
fn zero_millisecond_reply_counts_as_reached() {
    assert_eq!(latency_of(ProbeOutcome::Reached { rtt_ms: 0 }), 1);
    assert_eq!(latency_of(ProbeOutcome::Reached { rtt_ms: 37 }), 37);
    assert_eq!(latency_of(ProbeOutcome::Unreachable), 0);
    let mut m = Monitor::new();
    m.start(0);
    m.complete_probe(ProbeOutcome::Reached { rtt_ms: 0 }, 500);
    assert_eq!(m.status_text(), "Connected to google.com.");
}

#[test]
fn start_stop_and_status_lines() {
    let mut m = Monitor::new();
    assert_eq!(m.status_text(), "Not checked yet");
    m.start(10);
    assert!(m.is_monitoring());
    assert_eq!(m.status_text(), "Monitoring google.com...");
    m.start(5000);
    m.complete_probe(ProbeOutcome::Reached { rtt_ms: 5 }, 6010);
    assert_eq!(m.store().latest(), Some(sample(6000, 5)));
    m.stop();
    assert!(!m.is_monitoring());
    assert_eq!(m.status_text(), "Not monitoring");
    // a probe still in flight completes after stop
    m.complete_probe(ProbeOutcome::Reached { rtt_ms: 7 }, 7010);
    assert_eq!(m.store().samples().len(), 2);
}

#[test]
fn poll_dispatches_once_per_second() {
    let mut m = Monitor::new();
    assert!(!m.poll(5000));
    m.start(1000);
    assert!(!m.poll(1500));
    assert!(!m.poll(1999));
    assert!(m.poll(2000));
    assert!(!m.poll(2999));
    assert!(m.poll(3200));
    assert!(!m.poll(4100));
    assert!(m.poll(4200));
    m.stop();
    assert!(!m.poll(9000));
}

#[test]
fn notice_expires_after_two_seconds() {
    let mut m = Monitor::new();
    m.clear(1000);
    m.poll(2999);
    assert_eq!(m.notice_text(), Some("Data cleared".to_string()));
    m.poll(3000);
    assert_eq!(m.notice_text(), None);
    m.mark_exported(4000);
    assert_eq!(m.notice_text(), Some("\u{2714}".to_string()));
    // a newer notice is not cut short by the older deadline
    m.clear(5500);
    m.poll(6000);
    assert_eq!(m.notice_text(), Some("Data cleared".to_string()));
    m.poll(7500);
    assert_eq!(m.notice_text(), None);
}

#[test]
fn export_lists_samples_past_the_cutoff() {
    let mut m = Monitor::new();
    m.start(0);
    for i in 1..=5u64 {
        m.complete_probe(ProbeOutcome::Reached { rtt_ms: 10 * i }, 50000 * i);
    }
    // cutoff at 250 s is (250 - 100) - 0 = 150 s
    let text = m.export_text(250000, "T");
    assert_eq!(
        text,
        "Log Created: T\nPing Target: google.com\nAverage Response Time: 30 ms\n\
         Longest Response Time: 50 ms\nTotal Data Sent: 160 bytes\n\n200 s, 40 ms\n250 s, 50 ms\n"
    );
    // nothing past the cutoff
    let text = m.export_text(400000, "T");
    assert_eq!(text, "Log Created: T\nNo data to log.");
}

#[test]
fn export_without_session_uses_zero_cutoff() {
    let mut m = Monitor::new();
    m.complete_probe(ProbeOutcome::Reached { rtt_ms: 8 }, 70);
    // no start time: the sample's elapsed time is 0, not past a 0 cutoff
    assert_eq!(m.store().latest(), Some(sample(0, 8)));
    assert_eq!(m.export_text(200000, "T"), "Log Created: T\nNo data to log.");
}

#[test]
fn render_of_empty_rows() {
    let rows: Vec<Sample> = Vec::new();
    assert_eq!(render_log("X", "h", 1, 2, 3, &rows), "Log Created: X\nNo data to log.");
}

#[test]
fn render_rounds_seconds() {
    let rows = vec![sample(1499, 3), sample(1500, 4), sample(0, 0)];
    assert_eq!(
        render_log("X", "h", 2, 4, 96, &rows),
        "Log Created: X\nPing Target: h\nAverage Response Time: 2 ms\nLongest Response Time: 4 ms\n\
         Total Data Sent: 96 bytes\n\n1 s, 3 ms\n2 s, 4 ms\n0 s, 0 ms\n"
    );
}

#[test]
fn decimal_and_rounding() {
    assert_eq!(decimal_text(0), "0");
    assert_eq!(decimal_text(7), "7");
    assert_eq!(decimal_text(1234567890), "1234567890");
    assert_eq!(decimal_text(u64::MAX), "18446744073709551615");
    assert_eq!(round_to_seconds(0), 0);
    assert_eq!(round_to_seconds(499), 0);
    assert_eq!(round_to_seconds(500), 1);
    assert_eq!(round_to_seconds(u64::MAX), 18446744073709552);
}

#[test]
fn average_rounds_to_nearest() {
    let mut s = SampleStore::new();
    assert_eq!(s.average_latency_ms(), 0);
    s.record(sample(0, 1), 0);
    s.record(sample(1, 2), 1);
    assert_eq!(s.average_latency_ms(), 2);
    s.record(sample(2, 2), 2);
    assert_eq!(s.average_latency_ms(), 2);
    let mut big = SampleStore::new();
    big.record(sample(0, u64::MAX), 0);
    big.record(sample(1, u64::MAX), 1);
    assert_eq!(big.average_latency_ms(), u64::MAX);
}

#[test]
fn cutoff_and_filter() {
    assert_eq!(cutoff_for_export(250000, 0), 150000);
    assert_eq!(cutoff_for_export(250000, 200000), 0);
    assert_eq!(cutoff_for_export(50000, 0), 0);
    let rows = vec![sample(5, 1), sample(10, 2), sample(11, 3)];
    assert_eq!(samples_after(&rows, 10), vec![sample(11, 3)]);
    assert_eq!(samples_after(&rows, 4), rows);
}

#[test]
fn log_file_names() {
    assert_eq!(log_file_name("20240506070809"), "log_20240506070809.txt");
    let name = auto_log_file_name();
    assert!(name.starts_with("log_"));
    assert!(name.ends_with(".txt"));
    assert!(!name.contains('%'));
    assert!(name[4..name.len() - 4].chars().all(|c| c.is_ascii_digit()));
}

#[test]
fn stamped_texts_carry_the_local_time() {
    let mut m = Monitor::new();
    m.start(0);
    m.complete_probe(ProbeOutcome::Reached { rtt_ms: 300 }, 1000);
    let text = m.auto_log_now();
    let first = text.lines().next().unwrap();
    assert!(first.starts_with("Log Created: "));
    assert!(!first.contains('%'));
    assert_eq!(first.len(), "Log Created: ".len() + "YYYY-MM-DD HH:MM:SS".len());
    let exported = m.export_now(1000);
    assert!(!exported.contains('%'));
    assert!(exported.ends_with("No data to log.") || exported.contains("1 s, 300 ms"));
}

#[test]
fn stamps_have_the_clock_shape() {
    let compact = compact_stamp_now();
    assert!(compact.len() >= 14);
    assert!(compact.chars().all(|c| c.is_ascii_digit()));
    let readable = readable_stamp_now();
    assert!(readable.len() >= 19);
    let tail: Vec<char> = readable.chars().rev().take(15).collect::<Vec<_>>().into_iter().rev().collect();
    assert_eq!(tail[0], '-');
    assert_eq!(tail[3], '-');
    assert_eq!(tail[6], ' ');
    assert_eq!(tail[9], ':');
    assert_eq!(tail[12], ':');
}
