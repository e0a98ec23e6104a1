use vstd::prelude::*;
use vstd::string::*;
use crate::store::Sample;

verus! {

/// Width of the export window, measured back from the time of the export.
pub const EXPORT_WINDOW_MS: u64 = 100000;

pub open spec fn digit_char(d: nat) -> char {
    if d == 0 { '0' }
    else if d == 1 { '1' }
    else if d == 2 { '2' }
    else if d == 3 { '3' }
    else if d == 4 { '4' }
    else if d == 5 { '5' }
    else if d == 6 { '6' }
    else if d == 7 { '7' }
    else if d == 8 { '8' }
    else { '9' }
}

/// Decimal digits of `n`, without leading zeros.
pub open spec fn decimal(n: nat) -> Seq<char>
    decreases n,
{
    if n < 10 {
        seq![digit_char(n)]
    } else {
        decimal(n / 10) + seq![digit_char(n % 10)]
    }
}

/// Milliseconds shown as whole seconds, halves rounded up.
pub open spec fn rounded_seconds(ms: nat) -> nat {
    (ms + 500) / 1000
}

/// One row of a log: `<seconds> s, <latency> ms` and a line break.
pub open spec fn sample_line(x: Sample) -> Seq<char> {
    decimal(rounded_seconds(x.elapsed_ms as nat)) + " s, "@ + decimal(x.latency_ms as nat) + " ms\n"@
}

pub open spec fn sample_lines(rows: Seq<Sample>) -> Seq<char>
    decreases rows.len(),
{
    if rows.len() == 0 {
        Seq::empty()
    } else {
        sample_lines(rows.drop_last()) + sample_line(rows.last())
    }
}

pub open spec fn log_header(created: Seq<char>, target: Seq<char>, average: nat, longest: nat, total: nat) -> Seq<char> {
    "Log Created: "@ + created + "\nPing Target: "@ + target + "\nAverage Response Time: "@
        + decimal(average) + " ms\nLongest Response Time: "@ + decimal(longest)
        + " ms\nTotal Data Sent: "@ + decimal(total) + " bytes\n\n"@
}

/// The text of a log file: the header and one row per sample, or a short
/// notice when there are no rows.
pub open spec fn log_text(created: Seq<char>, target: Seq<char>, average: nat, longest: nat, total: nat, rows: Seq<Sample>) -> Seq<char> {
    if rows.len() == 0 {
        "Log Created: "@ + created + "\nNo data to log."@
    } else {
        log_header(created, target, average, longest, total) + sample_lines(rows)
    }
}

/// The samples of `rows` whose elapsed time is strictly above `after`, in order.
pub open spec fn rows_after(rows: Seq<Sample>, after: int) -> Seq<Sample>
    decreases rows.len(),
{
    if rows.len() == 0 {
        Seq::empty()
    } else if rows.last().elapsed_ms > after {
        rows_after(rows.drop_last(), after).push(rows.last())
    } else {
        rows_after(rows.drop_last(), after)
    }
}

/// The cutoff of an export at `now`: `(now - window) - start`, each
/// difference stopping at zero.
pub open spec fn export_cutoff(now: int, start: int) -> int {
    let end = if now >= EXPORT_WINDOW_MS { now - EXPORT_WINDOW_MS } else { 0 };
    if end >= start { end - start } else { 0 }
}

/// Name of an automatic log file for a compact timestamp.
pub open spec fn log_file_name_of(stamp: Seq<char>) -> Seq<char> {
    "log_"@ + stamp + ".txt"@
}

fn digit_text(d: u64) -> (r: &'static str)
    requires
        d < 10,
    ensures
        r@ == seq![digit_char(d as nat)],
{
    proof {
        reveal_strlit("0");
        reveal_strlit("1");
        reveal_strlit("2");
        reveal_strlit("3");
        reveal_strlit("4");
        reveal_strlit("5");
        reveal_strlit("6");
        reveal_strlit("7");
        reveal_strlit("8");
        reveal_strlit("9");
    }
    let r = match d {
        0 => "0",
        1 => "1",
        2 => "2",
        3 => "3",
        4 => "4",
        5 => "5",
        6 => "6",
        7 => "7",
        8 => "8",
        _ => "9",
    };
    assert(r@ =~= seq![digit_char(d as nat)]);
    r
}

/// Appends the decimal digits of `n` to `out`.
pub fn push_decimal(out: &mut String, n: u64)
    ensures
        final(out)@ == old(out)@ + decimal(n as nat),
    decreases n,
{
    if n >= 10 {
        push_decimal(out, n / 10);
    }
    out.append(digit_text(n % 10));
    assert(final(out)@ =~= old(out)@ + decimal(n as nat));
}

/// Decimal text of `n`.
pub fn decimal_text(n: u64) -> (r: String)
    ensures
        r@ == decimal(n as nat),
{
    let mut out = String::new();
    push_decimal(&mut out, n);
    assert(out@ =~= decimal(n as nat));
    out
}

/// Whole seconds for a duration in milliseconds, halves rounded up.
pub fn round_to_seconds(ms: u64) -> (r: u64)
    ensures
        r == rounded_seconds(ms as nat),
{
    (((ms as u128) + 500) / 1000) as u64
}

fn push_sample_line(out: &mut String, x: Sample)
    ensures
        final(out)@ == old(out)@ + sample_line(x),
{
    push_decimal(out, round_to_seconds(x.elapsed_ms));
    out.append(" s, ");
    push_decimal(out, x.latency_ms);
    out.append(" ms\n");
    assert(final(out)@ =~= old(out)@ + sample_line(x));
}

/// Renders a log file's text; `rows` are the samples listed under the header.
pub fn render_log(created: &str, target: &str, average: u64, longest: u64, total: u64, rows: &Vec<Sample>) -> (r: String)
    ensures
        r@ == log_text(created@, target@, average as nat, longest as nat, total as nat, rows@),
{
    let mut out = String::from_str("Log Created: ");
    out.append(created);
    if rows.len() == 0 {
        out.append("\nNo data to log.");
        return out;
    }
    out.append("\nPing Target: ");
    out.append(target);
    out.append("\nAverage Response Time: ");
    push_decimal(&mut out, average);
    out.append(" ms\nLongest Response Time: ");
    push_decimal(&mut out, longest);
    out.append(" ms\nTotal Data Sent: ");
    push_decimal(&mut out, total);
    out.append(" bytes\n\n");
    let ghost header = out@;
    assert(header == log_header(created@, target@, average as nat, longest as nat, total as nat));
    let mut i: usize = 0;
    while i < rows.len()
        invariant
            i <= rows@.len(),
            header == log_header(created@, target@, average as nat, longest as nat, total as nat),
            out@ == header + sample_lines(rows@.take(i as int)),
        decreases rows@.len() - i,
    {
        let ghost before = out@;
        push_sample_line(&mut out, rows[i]);
        proof {
            assert(rows@.take(i + 1).drop_last() == rows@.take(i as int));
            assert(out@ =~= header + sample_lines(rows@.take(i + 1)));
        }
        i = i + 1;
    }
    assert(rows@.take(rows@.len() as int) == rows@);
    out
}

/// The samples of `rows` whose elapsed time is strictly above `after`.
pub fn samples_after(rows: &Vec<Sample>, after: u64) -> (r: Vec<Sample>)
    ensures
        r@ == rows_after(rows@, after as int),
{
    let mut out: Vec<Sample> = Vec::new();
    let mut i: usize = 0;
    while i < rows.len()
        invariant
            i <= rows@.len(),
            out@ == rows_after(rows@.take(i as int), after as int),
        decreases rows@.len() - i,
    {
        proof {
            assert(rows@.take(i + 1).drop_last() == rows@.take(i as int));
        }
        if rows[i].elapsed_ms > after {
            out.push(rows[i]);
        }
        i = i + 1;
    }
    assert(rows@.take(rows@.len() as int) == rows@);
    out
}

/// The cutoff of an export made at `now_ms` in a session started at `start_ms`.
pub fn cutoff_for_export(now_ms: u64, start_ms: u64) -> (r: u64)
    ensures
        r == export_cutoff(now_ms as int, start_ms as int),
{
    let end = if now_ms >= EXPORT_WINDOW_MS { now_ms - EXPORT_WINDOW_MS } else { 0 };
    if end >= start_ms { end - start_ms } else { 0 }
}

/// File name of an automatic log: `log_<stamp>.txt`.
pub fn log_file_name(stamp: &str) -> (r: String)
    ensures
        r@ == log_file_name_of(stamp@),
{
    let mut out = String::from_str("log_");
    out.append(stamp);
    out.append(".txt");
    out
}

} // verus!
