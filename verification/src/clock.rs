//! Instants of UTC time as Unix seconds and nanoseconds.

use vstd::prelude::*;

verus! {

/// An instant: whole seconds since the Unix epoch and the nanoseconds
/// within that second.
#[derive(Debug, Clone, PartialEq, Eq)]
pub struct Instant {
    pub secs: i64,
    pub nanos: u32,
}

/// The Unix seconds of the first instant chrono can represent
/// (`NaiveDateTime::MIN`, January 1 of 262144 BCE).
pub open spec fn min_timestamp() -> int {
    -8334601315200
}

/// The Unix seconds of the last second chrono can represent
/// (`NaiveDateTime::MAX`, December 31 of 262142 CE).
pub open spec fn max_timestamp() -> int {
    8210266876799
}

/// An instant chrono can represent, with nanoseconds below one second.
pub open spec fn representable(t: Instant) -> bool {
    min_timestamp() <= t.secs <= max_timestamp() && t.nanos < 1_000_000_000
}

impl Instant {
    /// Whether chrono can represent the instant, with nanoseconds below one
    /// second.
    pub fn is_representable(&self) -> (b: bool)
        ensures
            b == representable(*self),
    {
        -8334601315200 <= self.secs && self.secs <= 8210266876799 && self.nanos < 1_000_000_000
    }
}

/// `chrono::Utc::now()`, read as `timestamp()` and
/// `timestamp_subsec_nanos()`. Claimed (chrono builds it from the system
/// time since the epoch, and a `DateTime` lies between chrono's first and
/// last representable instants): the seconds are not negative, the instant
/// is representable and the nanoseconds are below one second. Nothing else
/// is claimed of the value.
#[verifier::external_body]
pub(crate) fn utc_now() -> (t: Instant)
    ensures
        0 <= t.secs,
        representable(t),
{
    let now = chrono::Utc::now();
    Instant { secs: now.timestamp(), nanos: now.timestamp_subsec_nanos() }
}

/// Nanoseconds from `from` to `to`.
pub open spec fn nanos_between(from: Instant, to: Instant) -> int {
    (to.secs - from.secs) * 1_000_000_000 + (to.nanos - from.nanos)
}

/// Whole seconds from `from` to `to`, rounded toward zero (chrono's
/// `signed_duration_since(..).num_seconds()`).
pub open spec fn whole_seconds_between(from: Instant, to: Instant) -> int {
    let d = nanos_between(from, to);
    if d >= 0 {
        d / 1_000_000_000
    } else {
        -((-d) / 1_000_000_000)
    }
}

/// Whole seconds from `from` to `to`, rounded toward zero.
pub fn seconds_between(from: &Instant, to: &Instant) -> (s: i64)
    requires
        representable(*from),
        representable(*to),
    ensures
        s == whole_seconds_between(*from, *to),
{
    let secs: i64 = to.secs - from.secs;
    let nanos: i64 = to.nanos as i64 - from.nanos as i64;
    let d: i128 = (secs as i128) * 1_000_000_000 + (nanos as i128);
    assert(d == nanos_between(*from, *to));
    let w: i128 = if d >= 0 { d / 1_000_000_000 } else { -((-d) / 1_000_000_000) };
    assert(-1_000_000_000_000_001 <= w <= 1_000_000_000_000_001) by (nonlinear_arith)
        requires
            w == (if d >= 0 { d / 1_000_000_000 } else { -((-d) / 1_000_000_000) }),
            -1_000_000_000_000_000_000_000_000 - 1_000_000_000 <= d <= 1_000_000_000_000_000_000_000_000 + 1_000_000_000,
    ;
    w as i64
}

} // verus!
