use vstd::prelude::*;

verus! {

/// Relies on `chrono::Local::now` and `DelayedFormat`'s `to_string`: the local
/// wall-clock time now, written by the strftime `pattern`. Which time it shows
/// depends on the clock, but its shape does not: chrono writes `%Y` with at
/// least four characters (a sign is added outside 0..=9999) and each of `%m`,
/// `%d`, `%H`, `%M`, `%S` as exactly two zero-padded digits. Formatting fails
/// (and `to_string` panics) only on a pattern chrono cannot parse, so the two
/// patterns used here are the only ones admitted. `Local::now` itself panics
/// only when the system clock reads earlier than the Unix epoch.
#[verifier::external_body]
fn local_time_text(pattern: &str) -> (r: String)
    requires
        pattern@ == "%Y%m%d%H%M%S"@ || pattern@ == "%Y-%m-%d %H:%M:%S"@,
    ensures
        pattern@ == "%Y%m%d%H%M%S"@ ==> r@.len() >= 14 && forall|i: int|
            r@.len() - 10 <= i < r@.len() ==> '0' <= #[trigger] r@[i] <= '9',
        pattern@ == "%Y-%m-%d %H:%M:%S"@ ==> r@.len() >= 19,
{
    chrono::Local::now().format(pattern).to_string()
}

/// The local time now as `YYYYMMDDHHMMSS`, as used in automatic log names.
pub fn compact_stamp_now() -> (r: String)
    ensures
        r@.len() >= 14,
        forall|i: int| r@.len() - 10 <= i < r@.len() ==> '0' <= #[trigger] r@[i] <= '9',
{
    local_time_text("%Y%m%d%H%M%S")
}

/// The local time now as `YYYY-MM-DD HH:MM:SS`, as shown in a log's header.
pub fn readable_stamp_now() -> (r: String)
    ensures
        r@.len() >= 19,
{
    local_time_text("%Y-%m-%d %H:%M:%S")
}

} // verus!
