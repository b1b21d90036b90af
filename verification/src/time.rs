use vstd::prelude::*;

verus! {

/// Largest magnitude of a second count that a timestamp may carry.
///
/// The chrono date types used at the persistence boundary represent
/// roughly 262,000 years around the epoch; this bound stays safely
/// inside that range.
pub const MAX_TIMESTAMP_SECS: i64 = 8_000_000_000_000;

/// Nanoseconds in one second; the subsecond field stays below this.
pub const NANOS_PER_SEC: u32 = 1_000_000_000;

/// A point in time, as seconds and nanoseconds relative to the Unix
/// epoch, interpreted as UTC.
///
/// Entity creation times are values of this type; the deterministic
/// identifier and the opaque codec both consume it.
#[derive(Clone, Copy, Debug, PartialEq, Eq, Structural, Hash)]
pub struct Timestamp {
    /// Whole seconds since the Unix epoch (may be negative).
    pub secs: i64,
    /// Nanoseconds past the second, always below `NANOS_PER_SEC`.
    pub nsecs: u32,
}

impl Timestamp {
    /// The timestamp lies in the representable range: subseconds are a
    /// proper fraction and the seconds stay within the date range that
    /// the persistence boundary can hold.
    pub open spec fn well_formed(self) -> bool {
        &&& -MAX_TIMESTAMP_SECS <= self.secs <= MAX_TIMESTAMP_SECS
        &&& self.nsecs < NANOS_PER_SEC
    }

    /// Builds a timestamp, rejecting values outside the representable
    /// range.
    pub fn new(secs: i64, nsecs: u32) -> (r: Option<Timestamp>)
        ensures
            r matches Some(t) ==> t.well_formed() && t.secs == secs && t.nsecs == nsecs,
            r is Some <==> (Timestamp { secs, nsecs }).well_formed(),
    {
        if -MAX_TIMESTAMP_SECS <= secs && secs <= MAX_TIMESTAMP_SECS && nsecs < NANOS_PER_SEC {
            Some(Timestamp { secs, nsecs })
        } else {
            None
        }
    }

    /// The Unix epoch itself.
    pub fn epoch() -> (r: Timestamp)
        ensures
            r.well_formed(),
            r.secs == 0,
            r.nsecs == 0,
    {
        Timestamp { secs: 0, nsecs: 0 }
    }
}

} // verus!
