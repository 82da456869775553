//! The calendar of `chrono`, as far as the library relies on it.

use vstd::prelude::*;
use chrono::TimeZone;

verus! {

/// The first millisecond the calendar of `chrono` holds: January 1 of the
/// year -262143, 00:00 UTC.
pub const MIN_UTC_MILLIS: i64 = -8334601228800000;

/// The last millisecond the calendar of `chrono` holds: December 31 of the
/// year 262142, 23:59:59.999 UTC.
pub const MAX_UTC_MILLIS: i64 = 8210266876799999;

/// Whether the milliseconds `ms` since the UNIX epoch name a date that the
/// calendar of `chrono` can hold.
pub open spec fn utc_millis_in_range(ms: i64) -> bool {
    MIN_UTC_MILLIS <= ms <= MAX_UTC_MILLIS
}

/// Calls `chrono::TimeZone::timestamp_millis_opt` on `Utc` and tells whether
/// it gave a single date. Its source maps the milliseconds to the day
/// `ms.div_euclid(86_400_000)` after 1970-01-01 and gives a date when that
/// day lies between January 1 of the year -262143 and December 31 of the
/// year 262142, its `MIN_YEAR` and `MAX_YEAR`.
#[verifier::external_body]
pub(crate) fn millis_in_range(ms: i64) -> (r: bool)
    ensures
        r == utc_millis_in_range(ms),
{
    chrono::Utc.timestamp_millis_opt(ms).single().is_some()
}

/// Whether the seconds `secs` since the UNIX epoch name a date that the
/// calendar of `chrono` can hold: the range of `utc_millis_in_range`, in
/// whole seconds.
pub open spec fn utc_secs_in_range(secs: i64) -> bool {
    -8334601228800 <= secs <= 8210266876799
}

/// Calls `chrono::TimeZone::timestamp_opt` on `Utc` with no nanoseconds and
/// tells whether it gave a single date: the day `secs.div_euclid(86_400)`
/// after 1970-01-01 must lie within the calendar, as for
/// `millis_in_range`.
#[verifier::external_body]
pub(crate) fn secs_in_range(secs: i64) -> (r: bool)
    ensures
        r == utc_secs_in_range(secs),
{
    chrono::Utc.timestamp_opt(secs, 0).single().is_some()
}

/// The current time in seconds since the UNIX epoch, from `chrono::Utc::now`
/// and `DateTime::timestamp`. It depends on the clock; the contract says
/// only that it is a date of the calendar, as every `DateTime` is.
#[verifier::external_body]
pub(crate) fn now_secs() -> (r: i64)
    ensures
        utc_secs_in_range(r),
{
    chrono::Utc::now().timestamp()
}

/// The milliseconds since the UNIX epoch of the date that `chrono` reads
/// from a text, if it reads one.
pub uninterp spec fn parsed_datetime_millis(s: Seq<char>) -> Option<i64>;

/// Reads a date with `str::parse::<chrono::DateTime<chrono::Utc>>` and gives
/// its milliseconds since the UNIX epoch (`DateTime::timestamp_millis`).
/// `chrono` accepts the RFC 3339 forms; the contract names the result
/// without spelling the grammar out.
#[verifier::external_body]
pub(crate) fn parse_datetime_millis(s: &str) -> (r: Option<i64>)
    ensures
        r == parsed_datetime_millis(s@),
{
    s.parse::<chrono::DateTime<chrono::Utc>>().ok().map(|t| t.timestamp_millis())
}

/// The microseconds since the UNIX epoch of the date that `chrono` reads
/// from a text, if it reads one.
pub uninterp spec fn parsed_datetime_micros(s: Seq<char>) -> Option<i64>;

/// Reads a date with `str::parse::<chrono::DateTime<chrono::Utc>>`, as the
/// derived deserializer of a `DateTime<Utc>` field does, and gives its
/// microseconds since the UNIX epoch (`DateTime::timestamp_micros`); the
/// contract names the result.
#[verifier::external_body]
pub(crate) fn parse_datetime_micros(s: &str) -> (r: Option<i64>)
    ensures
        r == parsed_datetime_micros(s@),
{
    s.parse::<chrono::DateTime<chrono::Utc>>().ok().map(|t| t.timestamp_micros())
}

/// The milliseconds since the UNIX epoch of `chrono::Utc::now()`, from
/// `DateTime::timestamp_millis`. It depends on the clock; the contract says
/// only that it is a date of the calendar, as every `DateTime` is.
#[verifier::external_body]
pub(crate) fn now_millis() -> (r: i64)
    ensures
        utc_millis_in_range(r),
{
    chrono::Utc::now().timestamp_millis()
}

/// The RFC 3339 text of the date `ms` milliseconds after the UNIX epoch, as
/// `chrono` writes it.
pub uninterp spec fn rfc3339_text(ms: i64) -> Seq<char>;

/// Writes the date `ms` milliseconds after the UNIX epoch with
/// `chrono::DateTime::to_rfc3339` on `Utc`. `chrono` picks the digits of the
/// fraction and writes the offset as `+00:00`; the contract names the text
/// without spelling that out.
#[verifier::external_body]
pub(crate) fn rfc3339_of_millis(ms: i64) -> (r: String)
    requires
        utc_millis_in_range(ms),
    ensures
        r@ == rfc3339_text(ms),
{
    chrono::Utc.timestamp_millis_opt(ms).unwrap().to_rfc3339()
}

/// The ISO 8601 text of the date `ms` milliseconds after the UNIX epoch, as
/// `chrono` writes it for `Debug` and for serialization.
pub uninterp spec fn iso8601_text(ms: i64) -> Seq<char>;

/// Writes the date `ms` milliseconds after the UNIX epoch in the form that
/// `chrono` gives to `Debug` and to `serde` for a `DateTime<Utc>`: the naive
/// date and time followed by `Z`. The contract names the text.
#[verifier::external_body]
pub(crate) fn iso8601_of_millis(ms: i64) -> (r: String)
    requires
        utc_millis_in_range(ms),
    ensures
        r@ == iso8601_text(ms),
{
    format!("{:?}", chrono::Utc.timestamp_millis_opt(ms).unwrap())
}

} // verus!
