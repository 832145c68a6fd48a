//! Instants of the wire formats and the timestamps of events.

use vstd::prelude::*;

use crate::event::Timestamp;

verus! {

pub const NANOS_PER_SEC: u32 = 1_000_000_000;

/// An instant in UTC: whole seconds since the Unix epoch, and nanoseconds
/// since the last whole second, which reach into the following second where
/// a leap second is meant.
#[derive(Clone, Copy, Debug, PartialEq, Eq, Structural)]
pub struct UtcInstant {
    pub secs: i64,
    pub nanos: u32,
}

impl UtcInstant {
    /// A calendar has such an instant: nanoseconds beyond the second only
    /// occur in the last second of a minute.
    pub open spec fn valid(self) -> bool {
        self.nanos < 1_000_000_000 || (self.secs % 60 == 59 && self.nanos < 2_000_000_000)
    }

    /// Nanoseconds since the Unix epoch.
    pub open spec fn total_nanos(self) -> int {
        self.secs * 1_000_000_000 + self.nanos
    }
}

/// Builds a `chrono::DateTime<Utc>` with `DateTime::from_timestamp` and calls
/// `DateTime::timestamp_nanos_opt` on it: the nanoseconds since the epoch
/// where an `i64` holds them, and `None` otherwise. An instant too far off
/// for `chrono` is too far off for an `i64` of nanoseconds.
#[verifier::external_body]
fn nanos_opt(at: UtcInstant) -> (r: Option<i64>)
    requires
        at.valid(),
    ensures
        r == if i64::MIN <= at.total_nanos() <= i64::MAX {
            Some(at.total_nanos() as i64)
        } else {
            None
        },
{
    chrono::DateTime::<chrono::Utc>::from_timestamp(at.secs, at.nanos)
        .and_then(|dt| dt.timestamp_nanos_opt())
}

/// Calls `chrono::DateTime::<Utc>::from_timestamp_nanos`, which splits the
/// nanoseconds into whole seconds, rounded down, and the rest.
#[verifier::external_body]
fn from_nanos(nanos: i64) -> (r: UtcInstant)
    ensures
        r.nanos < 1_000_000_000,
        r.total_nanos() == nanos,
{
    let dt = chrono::DateTime::<chrono::Utc>::from_timestamp_nanos(nanos);
    UtcInstant { secs: dt.timestamp(), nanos: dt.timestamp_subsec_nanos() }
}

/// Seconds and nanoseconds of the instant that a text in the format of RFC 3339
/// names, as `chrono` reads it.
pub uninterp spec fn rfc3339_parts(text: Seq<char>) -> Option<(i64, u32)>;

/// Calls `chrono::DateTime::parse_from_rfc3339` and takes the instant in UTC
/// apart: `None` where the text is refused.
#[verifier::external_body]
fn parse_rfc3339(text: &str) -> (r: Option<(i64, u32)>)
    ensures
        r == rfc3339_parts(text@),
{
    chrono::DateTime::parse_from_rfc3339(text)
        .ok()
        .map(|dt| (dt.timestamp(), dt.timestamp_subsec_nanos()))
}

/// The instant of its parts.
pub fn instant_of_parts(parts: Option<(i64, u32)>) -> (r: Option<UtcInstant>)
    ensures
        parts is None <==> r is None,
        parts is Some ==> r->0.secs == (parts->0).0 && r->0.nanos == (parts->0).1,
{
    match parts {
        Some((secs, nanos)) => Some(UtcInstant { secs, nanos }),
        None => None,
    }
}

/// The instant that a text of the wire names, if it names one.
pub fn wire_instant(text: &str) -> (r: Option<UtcInstant>)
    ensures
        rfc3339_parts(text@) is None <==> r is None,
        rfc3339_parts(text@) matches Some(parts) ==> r->0.secs == parts.0 && r->0.nanos
            == parts.1,
{
    instant_of_parts(parse_rfc3339(text))
}

/// The timestamp of an instant, or the epoch where it is out of range.
pub open spec fn timestamp_of(at: UtcInstant) -> Timestamp {
    if i64::MIN <= at.total_nanos() <= i64::MAX {
        Timestamp(at.total_nanos() as i64)
    } else {
        Timestamp(0)
    }
}

pub fn chrono_to_ts(at: UtcInstant) -> (r: Timestamp)
    requires
        at.valid(),
    ensures
        r == timestamp_of(at),
{
    match nanos_opt(at) {
        Some(n) => Timestamp(n),
        None => Timestamp(0),
    }
}

pub fn ts_to_chrono(ts: Timestamp) -> (r: UtcInstant)
    ensures
        r.valid(),
        r.total_nanos() == ts.0,
{
    from_nanos(ts.0)
}

/// A timestamp survives the way to an instant and back.
pub proof fn law_instants_round_trip(ts: Timestamp, at: UtcInstant)
    requires
        at.total_nanos() == ts.0,
    ensures
        timestamp_of(at) == ts,
{
}

/// Timestamps keep the order and the distance of instants: one second is a
/// billion nanoseconds.
pub proof fn law_timestamps_count_nanoseconds(at: UtcInstant, later: UtcInstant)
    requires
        i64::MIN <= at.total_nanos() <= i64::MAX,
        i64::MIN <= later.total_nanos() <= i64::MAX,
    ensures
        timestamp_of(later).0 - timestamp_of(at).0 == (later.secs - at.secs) * 1_000_000_000 + (
        later.nanos - at.nanos),
        at.secs == 0 && at.nanos == 0 ==> timestamp_of(at).0 == 0,
{
}

} // verus!
