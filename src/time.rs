//! Points in time, held as seconds and nanoseconds since the Unix epoch (UTC),
//! and their textual forms.

use vstd::prelude::*;

verus! {

/// The last second that the calendar library can represent (end of year 262142).
pub const MAX_TIMESTAMP_SECS: i64 = 8210266876799;

/// Nanoseconds in one second.
pub const NANOS_PER_SEC: u32 = 1000000000;

/// A UTC instant: whole seconds since 1970-01-01T00:00:00Z and the nanoseconds past them.
#[derive(Clone, Copy, Debug, PartialEq, Eq, Structural)]
pub struct Timestamp {
    pub secs: i64,
    pub nanos: u32,
}

impl Timestamp {
    /// An instant at or after the epoch that the calendar library can represent.
    pub open spec fn valid(self) -> bool {
        0 <= self.secs <= MAX_TIMESTAMP_SECS && self.nanos < NANOS_PER_SEC
    }

    /// `self` lies strictly after `other`.
    pub open spec fn after(self, other: Timestamp) -> bool {
        self.secs > other.secs || (self.secs == other.secs && self.nanos > other.nanos)
    }

    /// Builds an instant, refusing one that is not valid.
    pub fn from_parts(secs: i64, nanos: u32) -> (r: Option<Timestamp>)
        ensures
            r matches Some(t) ==> t.valid() && t.secs == secs && t.nanos == nanos,
            r is None <==> !(Timestamp { secs, nanos }).valid(),
    {
        if 0 <= secs && secs <= MAX_TIMESTAMP_SECS && nanos < NANOS_PER_SEC {
            Some(Timestamp { secs, nanos })
        } else {
            None
        }
    }

    /// Whether `self` lies strictly after `other`.
    pub fn is_after(&self, other: &Timestamp) -> (r: bool)
        ensures
            r == self.after(*other),
    {
        self.secs > other.secs || (self.secs == other.secs && self.nanos > other.nanos)
    }
}

/// The RFC 3339 form of the UTC instant `secs`/`nanos` (as `2024-05-01T12:00:00+00:00`).
pub uninterp spec fn rfc3339_of(secs: int, nanos: int) -> Seq<char>;

/// The compact form `YYYYMMDD_HHMMSS` of the UTC second `secs`.
pub uninterp spec fn compact_stamp_of(secs: int) -> Seq<char>;

/// Relies on chrono::Utc::now (and `timestamp`, `timestamp_subsec_nanos`): it
/// takes the system time as a duration since the epoch (panicking when the
/// clock is set before it), so the seconds are not negative and the
/// nanoseconds stay under a billion, and it returns only after
/// `DateTime::from_timestamp` accepted them, which bounds the seconds by the
/// calendar's last representable second.
#[verifier::external_body]
pub(crate) fn current_time() -> (r: Timestamp)
    ensures
        r.valid(),
{
    let now = chrono::Utc::now();
    Timestamp { secs: now.timestamp(), nanos: now.timestamp_subsec_nanos() }
}

/// Relies on chrono's DateTime::from_timestamp, which accepts every valid
/// instant, and DateTime::to_rfc3339, whose text depends on the instant alone.
#[verifier::external_body]
pub(crate) fn rfc3339_text(t: Timestamp) -> (r: String)
    requires
        t.valid(),
    ensures
        r@ == rfc3339_of(t.secs as int, t.nanos as int),
{
    match chrono::DateTime::from_timestamp(t.secs, t.nanos) {
        Some(d) => d.to_rfc3339(),
        None => String::new(),
    }
}

/// Relies on chrono's DateTime::from_timestamp, which accepts every valid
/// instant, and its strftime formatting with `%Y%m%d_%H%M%S`, whose text
/// depends on the second alone.
#[verifier::external_body]
pub(crate) fn compact_stamp_text(t: Timestamp) -> (r: String)
    requires
        t.valid(),
    ensures
        r@ == compact_stamp_of(t.secs as int),
{
    match chrono::DateTime::from_timestamp(t.secs, t.nanos) {
        Some(d) => d.format("%Y%m%d_%H%M%S").to_string(),
        None => String::new(),
    }
}

} // verus!
