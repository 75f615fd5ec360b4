//! Points in time, to the nanosecond, in the range that `chrono::DateTime<Utc>`
//! can hold.

use chrono::{DateTime, Utc};
use vstd::prelude::*;

verus! {

/// Seconds since the epoch of the first second of the earliest day that can be held.
pub const MIN_SECONDS: i64 = -8_334_601_228_800;

/// Seconds since the epoch of the last second of the latest day that can be held.
pub const MAX_SECONDS: i64 = 8_210_266_876_799;

/// The number of nanoseconds in a second.
pub const NANOS_PER_SECOND: u32 = 1_000_000_000;

/// A point in time as contracts speak of it: whole seconds since
/// 1970-01-01 00:00:00 UTC, leap seconds not counted, and the nanoseconds
/// since that second began.
pub struct Instant {
    pub secs: int,
    pub nanos: int,
}

impl Instant {
    /// Whether a `Timestamp` can hold this point in time. The nanoseconds reach
    /// into a second billion only to mark a leap second, which follows the
    /// last second of a minute.
    pub open spec fn representable(self) -> bool {
        &&& MIN_SECONDS <= self.secs <= MAX_SECONDS
        &&& 0 <= self.nanos < 2 * NANOS_PER_SECOND
        &&& (self.nanos >= NANOS_PER_SECOND ==> self.secs % 60 == 59)
    }

    /// The order of time: by the seconds first, then by the nanoseconds.
    pub open spec fn at_or_before(self, other: Instant) -> bool {
        self.secs < other.secs || (self.secs == other.secs && self.nanos <= other.nanos)
    }
}

/// A point in time that is always representable.
#[derive(Clone, Copy, Debug, PartialEq, Eq)]
pub struct Timestamp {
    secs: i64,
    nanos: u32,
}

impl View for Timestamp {
    type V = Instant;

    closed spec fn view(&self) -> Instant {
        Instant { secs: self.secs as int, nanos: self.nanos as int }
    }
}

/// The text that `chrono` displays for the UTC date and time at `secs` seconds
/// and `nanos` nanoseconds since the epoch.
pub uninterp spec fn utc_text(secs: int, nanos: int) -> Seq<char>;

impl Timestamp {
    /// Holds of every timestamp: it is representable.
    #[verifier::type_invariant]
    pub open spec fn valid(self) -> bool {
        self@.representable()
    }

    /// The timestamp at `secs` seconds and `nanos` nanoseconds since the epoch,
    /// if that point in time is representable.
    pub fn new(secs: i64, nanos: u32) -> (r: Option<Timestamp>)
        ensures
            r is Some <==> (Instant { secs: secs as int, nanos: nanos as int }).representable(),
            r matches Some(t) ==> t@ == (Instant { secs: secs as int, nanos: nanos as int }),
    {
        if secs < MIN_SECONDS || secs > MAX_SECONDS {
            return None;
        }
        if nanos >= NANOS_PER_SECOND {
            if nanos - NANOS_PER_SECOND >= NANOS_PER_SECOND {
                return None;
            }
            // MIN_SECONDS is a whole number of minutes
            let into_minute: i64 = (secs - MIN_SECONDS) % 60;
            if into_minute != 59 {
                return None;
            }
        }
        Some(Timestamp { secs, nanos })
    }

    /// Whole seconds since the epoch.
    pub fn secs(&self) -> (r: i64)
        ensures
            r == self@.secs,
    {
        self.secs
    }

    /// Nanoseconds since the second began.
    pub fn nanos(&self) -> (r: u32)
        ensures
            r == self@.nanos,
    {
        self.nanos
    }

    /// Whether this point in time is `other` or comes before it.
    pub fn at_or_before(&self, other: &Timestamp) -> (r: bool)
        ensures
            r == self@.at_or_before(other@),
    {
        self.secs < other.secs || (self.secs == other.secs && self.nanos <= other.nanos)
    }
}

/// Reads the system clock with `chrono::Utc::now` and keeps the seconds and
/// nanoseconds that `timestamp` and `timestamp_subsec_nanos` give for it.
/// Assumed: what the clock gives is representable, since `chrono` built a
/// `DateTime<Utc>` from it. Nothing is assumed of which time it is, and two
/// readings may come in any order.
#[verifier::external_body]
pub(crate) fn now() -> (t: Timestamp)
    ensures
        t@.representable(),
{
    let t = Utc::now();
    Timestamp { secs: t.timestamp(), nanos: t.timestamp_subsec_nanos() }
}

/// Formats a timestamp with `chrono`: `DateTime::<Utc>::from_timestamp`, then
/// the `Display` of the result. Assumed: the conversion succeeds on every
/// representable point in time, and the text depends on the seconds and the
/// nanoseconds alone.
#[verifier::external_body]
pub(crate) fn utc_string(t: Timestamp) -> (s: String)
    requires
        t@.representable(),
    ensures
        s@ == utc_text(t@.secs, t@.nanos),
{
    DateTime::<Utc>::from_timestamp(t.secs, t.nanos).unwrap().to_string()
}

} // verus!
