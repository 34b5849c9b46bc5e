//! The timestamp formatter: turns a (seconds, nanoseconds) pair into the
//! RFC 3339 rendering of that instant in UTC, e.g.
//! `2024-03-02T10:15:30.123456789+00:00`. The calendar arithmetic and the
//! rendering are done by chrono; this module states exactly when chrono can
//! represent the instant, names the rendered text as a function of the pair,
//! and surfaces the out-of-range case as an error instead of panicking.

use vstd::prelude::*;

use crate::errors::ReportError;

verus! {

/// Whether chrono can represent `secs` seconds since the Unix epoch plus
/// `nsecs` nanoseconds as a calendar instant. The day count must fall
/// within the representable year range (about 262,000 years either side of
/// the common era), and the nanosecond part must be an ordinary sub-second
/// value — or a leap-second value below two billion, allowed only in the
/// last second of a minute. Division here is Euclidean, matching the day
/// split chrono performs.
pub open spec fn ts_representable(secs: int, nsecs: int) -> bool {
    let day = secs / 86400;
    let second_of_day = secs % 86400;
    &&& -96465292 <= day <= 95026236
    &&& (nsecs < 1000000000 || (nsecs < 2000000000 && second_of_day % 60 == 59))
}

/// The RFC 3339 UTC rendering of the instant `secs` seconds plus `nsecs`
/// nanoseconds after the Unix epoch. The text depends on the pair alone.
pub uninterp spec fn rfc3339_utc(secs: i64, nsecs: u32) -> Seq<char>;

/// Relies on chrono's `DateTime::<Utc>::from_timestamp` and
/// `DateTime::to_rfc3339`: `from_timestamp` returns `Some` exactly when the
/// Euclidean day count of `secs` falls in chrono's representable date range
/// and `nsecs` is a valid (possibly leap-second) nanosecond value, and
/// `to_rfc3339` renders the UTC instant deterministically from the value
/// alone.
#[verifier::external_body]
fn chrono_utc_rfc3339(secs: i64, nsecs: u32) -> (r: Option<String>)
    ensures
        r is Some <==> ts_representable(secs as int, nsecs as int),
        r matches Some(s) ==> s@ == rfc3339_utc(secs, nsecs),
{
    match chrono::DateTime::<chrono::Utc>::from_timestamp(secs, nsecs) {
        Some(dt) => Some(dt.to_rfc3339()),
        None => None,
    }
}

/// Formats a timestamp, given as whole seconds since the Unix epoch (UTC)
/// and nanoseconds within the second, as an RFC 3339 string with timezone
/// offset. An instant outside the representable calendar range is reported
/// as an error rather than silently wrapped or truncated.
pub fn format_timestamp(secs: i64, nsecs: u32) -> (r: Result<String, ReportError>)
    ensures
        r is Ok <==> ts_representable(secs as int, nsecs as int),
        r matches Ok(s) ==> s@ == rfc3339_utc(secs, nsecs),
        r matches Err(e) ==> e == ReportError::TimestampOutOfRange,
{
    match chrono_utc_rfc3339(secs, nsecs) {
        Some(s) => Ok(s),
        None => Err(ReportError::TimestampOutOfRange),
    }
}

/// The rendering of an instant is a function of the pair alone: two
/// renderings of the same (seconds, nanoseconds) pair are byte-identical.
pub proof fn lemma_format_deterministic(a: Seq<char>, b: Seq<char>, secs: i64, nsecs: u32)
    requires
        a == rfc3339_utc(secs, nsecs),
        b == rfc3339_utc(secs, nsecs),
    ensures
        a == b,
{
}

} // verus!
