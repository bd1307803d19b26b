//! Instants in Coordinated Universal Time, read from and written as
//! ISO 8601 / RFC 3339 text by chrono.
use vstd::prelude::*;
use chrono::DateTime;

verus! {

/// An instant: whole seconds since 1970-01-01T00:00:00Z and the nanoseconds
/// past that second (above 999,999,999 only within a leap second).
#[derive(Clone, Copy, Debug, PartialEq, Eq, Structural)]
pub struct Timestamp {
    pub secs: i64,
    pub nanos: u32,
}

/// The instant that chrono reads from RFC 3339 text, if it reads one.
pub uninterp spec fn rfc3339_instant(s: Seq<char>) -> Option<Timestamp>;

/// The instant that chrono reads from `s` under the strftime pattern `fmt`.
pub uninterp spec fn formatted_instant(s: Seq<char>, fmt: Seq<char>) -> Option<Timestamp>;

/// chrono's RFC 3339 rendering of an instant in UTC, where it can hold it.
pub uninterp spec fn rfc3339_text(t: Timestamp) -> Option<Seq<char>>;

/// Relies on `DateTime::parse_from_rfc3339`, read as an instant in UTC. A
/// parsed instant round-trips through `DateTime::from_timestamp`, so it renders.
#[verifier::external_body]
fn parse_rfc3339(s: &str) -> (r: Option<Timestamp>)
    ensures
        r == rfc3339_instant(s@),
        r matches Some(t) ==> rfc3339_text(t) is Some,
{
    match DateTime::parse_from_rfc3339(s) {
        Ok(dt) => Some(Timestamp { secs: dt.timestamp(), nanos: dt.timestamp_subsec_nanos() }),
        Err(_) => None,
    }
}

/// Relies on `DateTime::parse_from_str`, read as an instant in UTC. A
/// parsed instant round-trips through `DateTime::from_timestamp`, so it renders.
#[verifier::external_body]
fn parse_formatted(s: &str, fmt: &str) -> (r: Option<Timestamp>)
    ensures
        r == formatted_instant(s@, fmt@),
        r matches Some(t) ==> rfc3339_text(t) is Some,
{
    match DateTime::parse_from_str(s, fmt) {
        Ok(dt) => Some(Timestamp { secs: dt.timestamp(), nanos: dt.timestamp_subsec_nanos() }),
        Err(_) => None,
    }
}

/// Relies on `DateTime::<Utc>::to_rfc3339`, on the instant that
/// `DateTime::from_timestamp` builds from the two fields.
#[verifier::external_body]
pub(crate) fn render_rfc3339(t: Timestamp) -> (r: Option<String>)
    ensures
        r matches Some(s) ==> rfc3339_text(t) == Some(s@),
        r is None ==> rfc3339_text(t) is None,
{
    match DateTime::from_timestamp(t.secs, t.nanos) {
        Some(dt) => Some(dt.to_rfc3339()),
        None => None,
    }
}

/// The instant that a timestamp text denotes: RFC 3339 first, then
/// `YYYY-MM-DDTHH:MM:SS±HHMM`, `YYYY-MM-DDTHH:MM±HHMM` and
/// `YYYY-MM-DDTHH:MM:SS±HH:MM`; the first form that reads it wins.
pub open spec fn iso_instant(s: Seq<char>) -> Option<Timestamp> {
    if rfc3339_instant(s) is Some {
        rfc3339_instant(s)
    } else if formatted_instant(s, "%Y-%m-%dT%H:%M:%S%z"@) is Some {
        formatted_instant(s, "%Y-%m-%dT%H:%M:%S%z"@)
    } else if formatted_instant(s, "%Y-%m-%dT%H:%M%z"@) is Some {
        formatted_instant(s, "%Y-%m-%dT%H:%M%z"@)
    } else {
        formatted_instant(s, "%Y-%m-%dT%H:%M:%S%:z"@)
    }
}

/// Reads an ISO 8601 timestamp with an offset, normalised to UTC.
pub fn parse_iso_timestamp(s: &str) -> (r: Option<Timestamp>)
    ensures
        r == iso_instant(s@),
        r matches Some(t) ==> rfc3339_text(t) is Some,
{
    let a = parse_rfc3339(s);
    if a.is_some() {
        return a;
    }
    let b = parse_formatted(s, "%Y-%m-%dT%H:%M:%S%z");
    if b.is_some() {
        return b;
    }
    let c = parse_formatted(s, "%Y-%m-%dT%H:%M%z");
    if c.is_some() {
        return c;
    }
    parse_formatted(s, "%Y-%m-%dT%H:%M:%S%:z")
}

} // verus!
