//! Time as this crate sees it: spans and instants of `std::time`, read as
//! whole nanoseconds, and the two clocks that a stopwatch consults.

use std::time::Duration;
use std::time::Instant;
use vstd::prelude::*;

verus! {

/// Nanoseconds in one second.
pub const NANOS_PER_SEC: u128 = 1_000_000_000;

/// Nanoseconds in one millisecond.
pub const NANOS_PER_MILLI: u128 = 1_000_000;

/// The longest span a `Duration` can hold, in nanoseconds:
/// `u64::MAX` seconds and 999,999,999 nanoseconds.
pub const MAX_SPAN_NANOS: u128 = 18_446_744_073_709_551_615_999_999_999;

/// `std::time::Instant`, a reading of the monotonic clock. Nothing inside
/// it is looked at: it is carried along and handed back to `std::time`.
#[verifier::external_type_specification]
#[verifier::external_body]
pub struct ExInstant(Instant);

/// The length of a `Duration` in whole nanoseconds: its seconds times
/// `NANOS_PER_SEC`, and its nanoseconds beyond them.
pub uninterp spec fn duration_nanos(d: Duration) -> nat;

/// The place of an `Instant` on the monotonic clock's time line, in
/// nanoseconds from an origin that the platform picks. Only the way
/// between two instants is ever measured, never the place itself.
pub uninterp spec fn instant_nanos(t: Instant) -> int;

/// A span cut off at the longest one that can be held.
pub open spec fn saturate(nanos: nat) -> nat {
    if nanos <= MAX_SPAN_NANOS {
        nanos
    } else {
        MAX_SPAN_NANOS as nat
    }
}

/// The way from `earlier` to `later` on the monotonic time line, zero where
/// `earlier` comes after `later`.
pub open spec fn span_between(earlier: Instant, later: Instant) -> nat {
    if instant_nanos(later) >= instant_nanos(earlier) {
        (instant_nanos(later) - instant_nanos(earlier)) as nat
    } else {
        0
    }
}

/// `Instant::now` reads the monotonic clock. Nothing is claimed of the
/// reading.
pub assume_specification[ Instant::now ]() -> (t: Instant)
;

/// `Instant::duration_since` measures the way from `earlier` to `t`, and
/// gives the zero span where `earlier` lies after `t`, as std documents it
/// for the versions that saturate there.
pub assume_specification[ Instant::duration_since ](t: &Instant, earlier: Instant) -> (d: Duration)
    ensures
        duration_nanos(d) == if instant_nanos(*t) >= instant_nanos(earlier) {
            instant_nanos(*t) - instant_nanos(earlier)
        } else {
            0
        },
;

/// `Duration::new` builds a span from seconds and nanoseconds, carrying
/// whole seconds out of `nanos`. It panics where that carry overflows the
/// seconds, which `requires` leaves out.
pub assume_specification[ Duration::new ](secs: u64, nanos: u32) -> (d: Duration)
    requires
        secs + nanos / 1_000_000_000 <= u64::MAX,
    ensures
        duration_nanos(d) == secs * NANOS_PER_SEC + nanos,
;

/// `Duration::as_nanos` gives the whole span in nanoseconds, which is never
/// more than `MAX_SPAN_NANOS`.
pub assume_specification[ Duration::as_nanos ](d: &Duration) -> (n: u128)
    ensures
        n == duration_nanos(*d),
        n <= MAX_SPAN_NANOS,
;

/// The `Duration` of `nanos` nanoseconds.
pub(crate) fn span_of(nanos: u128) -> (d: Duration)
    requires
        nanos <= MAX_SPAN_NANOS,
    ensures
        duration_nanos(d) == nanos,
{
    let secs = (nanos / NANOS_PER_SEC) as u64;
    let subsec = (nanos % NANOS_PER_SEC) as u32;
    Duration::new(secs, subsec)
}

/// Reads the wall clock with `std::time::SystemTime::now` and gives the
/// reading as chrono counts it: `DateTime::<Utc>::from` turns it into a date
/// and `DateTime::timestamp_millis` into milliseconds since the Unix epoch,
/// negative for a clock that stands before 1970. Nothing is claimed of the
/// reading. The conversion fails only beyond the dates that chrono can
/// hold, some 262,000 years from the epoch, where no system clock stands.
#[verifier::external_body]
pub(crate) fn wallclock_millis() -> (millis: i64) {
    chrono::DateTime::<chrono::Utc>::from(std::time::SystemTime::now()).timestamp_millis()
}

} // verus!
