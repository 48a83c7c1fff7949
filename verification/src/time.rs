//! Points in time, as seconds and nanoseconds since the Unix epoch (UTC).
use chrono::TimeZone;
use vstd::prelude::*;

verus! {

/// A UTC point in time: whole seconds since 1970-01-01 00:00:00 and the
/// nanoseconds past that second.
#[derive(Debug, Clone, Copy, PartialEq, Eq, Structural)]
pub struct Timestamp {
    pub secs: i64,
    pub nanos: u32,
}

/// The first second that chrono's UTC date-times reach: -262143-01-01 00:00:00.
pub open spec fn min_utc_secs() -> int {
    -8_334_601_228_800
}

/// The last second that chrono's UTC date-times reach: 262142-12-31 23:59:59.
pub open spec fn max_utc_secs() -> int {
    8_210_266_876_799
}

/// Whether chrono has a UTC date-time `secs` seconds and `nanos` nanoseconds after the epoch
/// (what `DateTime::from_timestamp` finds): the second lies in chrono's range, and the
/// nanoseconds stay below a second, or below two in the last second of a minute (a leap second).
pub open spec fn utc_timestamp_exists(secs: i64, nanos: u32) -> bool {
    &&& min_utc_secs() <= secs <= max_utc_secs()
    &&& (nanos < 1_000_000_000 || (nanos < 2_000_000_000 && secs % 60 == 59))
}

/// Whether chrono has a UTC date-time for this many milliseconds since the epoch.
pub open spec fn utc_millis_in_range(millis: i64) -> bool {
    min_utc_secs() <= millis as int / 1000 <= max_utc_secs()
}

/// The point in time that lies `millis` milliseconds after the epoch.
pub open spec fn spec_from_millis(millis: i64) -> Timestamp {
    Timestamp {
        secs: (millis as int / 1000) as i64,
        nanos: ((millis as int % 1000) * 1_000_000) as u32,
    }
}

/// Calls chrono's `TimeZone::timestamp_millis_opt` on `Utc`. Claimed: the result is
/// present exactly when chrono's range holds the instant, and then it lies `millis`
/// milliseconds after the epoch (seconds by Euclidean division, as chrono computes them).
#[verifier::external_body]
pub(crate) fn timestamp_from_millis(millis: i64) -> (r: Option<Timestamp>)
    ensures
        r is Some <==> utc_millis_in_range(millis),
        r matches Some(t) ==> t == spec_from_millis(millis),
{
    match chrono::Utc.timestamp_millis_opt(millis).single() {
        Some(d) => Some(Timestamp { secs: d.timestamp(), nanos: d.timestamp_subsec_nanos() }),
        None => None,
    }
}

/// Calls chrono's `Utc::now`. Claimed: the reading is a date-time that chrono has, with
/// fewer nanoseconds than a second (`Utc::now` builds it with `DateTime::from_timestamp` from
/// the system clock's whole seconds and sub-second nanoseconds). Which reading it is, is left
/// open.
#[verifier::external_body]
pub(crate) fn utc_now() -> (r: Timestamp)
    ensures
        min_utc_secs() <= r.secs <= max_utc_secs(),
        r.nanos < 1_000_000_000,
{
    let now = chrono::Utc::now();
    Timestamp { secs: now.timestamp(), nanos: now.timestamp_subsec_nanos() }
}

/// How chrono writes the UTC date-time `secs` seconds and `nanos` nanoseconds after the
/// epoch (`NaiveDateTime`'s `Display`).
pub uninterp spec fn naive_datetime_text(secs: i64, nanos: u32) -> Seq<char>;

/// Calls chrono's `DateTime::from_timestamp`, `DateTime::naive_utc` and `NaiveDateTime`'s
/// `Display`. Claimed: the text is present exactly when chrono has the date-time, and is then a
/// function of the two numbers alone (both named above).
#[verifier::external_body]
pub(crate) fn datetime_text(t: Timestamp) -> (r: Option<String>)
    ensures
        r is Some <==> utc_timestamp_exists(t.secs, t.nanos),
        r matches Some(text) ==> text@ == naive_datetime_text(t.secs, t.nanos),
{
    match chrono::DateTime::from_timestamp(t.secs, t.nanos) {
        Some(d) => Some(d.naive_utc().to_string()),
        None => None,
    }
}

/// How chrono writes the UTC date-time `secs` seconds and `nanos` nanoseconds after the
/// epoch in RFC 2822 form (`DateTime::to_rfc2822`).
pub uninterp spec fn rfc2822_text(secs: i64, nanos: u32) -> Seq<char>;

/// Calls chrono's `Utc::now` and `DateTime::to_rfc2822`. Claimed: the text is the RFC 2822
/// form (named above) of some reading of the clock; which reading is left open.
#[verifier::external_body]
pub(crate) fn now_rfc2822() -> (r: String)
    ensures
        exists|t: Timestamp| r@ == #[trigger] rfc2822_text(t.secs, t.nanos),
{
    chrono::Utc::now().to_rfc2822()
}

} // verus!
