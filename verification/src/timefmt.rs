use vstd::prelude::*;

use chrono::TimeZone;
use core::fmt::Write;

verus! {

/// An instant of the run: milliseconds since the epoch, and the local
/// offset from UTC that was in force when it was captured.
#[derive(Debug, PartialEq, Eq, Structural, Clone, Copy, Hash)]
pub struct Timestamp {
    pub millis: u64,
    pub offset_seconds: i32,
}

/// What chrono's `strftime`-style formatting yields for a format string
/// at an instant under an offset: a pure function of the three; `None`
/// when the offset or instant is out of range or the format is invalid.
pub uninterp spec fn strftime_of(fmt: Seq<char>, millis: u64, offset_seconds: i32) -> Option<
    Seq<char>,
>;

/// Whether a format string holds no `%` directive at all; chrono passes
/// such text through unchanged.
pub open spec fn spec_plain_format(fmt: Seq<char>) -> bool {
    forall|i: int| 0 <= i < fmt.len() ==> fmt[i] != '%'
}

/// Relies on chrono: `FixedOffset::east_opt`, `timestamp_millis_opt` and
/// `DateTime::format`; the outcome depends on the arguments alone, and a
/// format string without `%` directives comes back unchanged (chrono
/// emits literal items as they stand).
#[verifier::external_body]
pub(crate) fn format_timestamp(fmt: &str, at: Timestamp) -> (r: Option<String>)
    ensures
        r matches Some(s) ==> strftime_of(fmt@, at.millis, at.offset_seconds) == Some(s@),
        r is None ==> strftime_of(fmt@, at.millis, at.offset_seconds) is None,
        spec_plain_format(fmt@) ==> (r matches Some(s) ==> s@ == fmt@),
{
    let off = chrono::FixedOffset::east_opt(at.offset_seconds)?;
    let millis: i64 = at.millis.try_into().ok()?;
    let dt = match off.timestamp_millis_opt(millis) {
        chrono::LocalResult::Single(dt) => dt,
        _ => return None,
    };
    let mut out = String::new();
    write!(out, "{}", dt.format(fmt)).ok()?;
    Some(out)
}

/// Relies on chrono's `Local::now`: nothing is promised of the clock; an
/// instant before the epoch is clamped to it.
#[verifier::external_body]
pub(crate) fn now_timestamp() -> (r: Timestamp) {
    let now = chrono::Local::now();
    let millis = now.timestamp_millis().try_into().unwrap_or(0);
    let offset_seconds = now.offset().local_minus_utc();
    Timestamp { millis, offset_seconds }
}

} // verus!
