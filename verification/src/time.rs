//! Points in time as requests carry them (seconds and nanoseconds since the
//! Unix epoch) and as the services compare and store them.
use vstd::prelude::*;

verus! {

/// A timestamp as a request carries it.
#[derive(Debug, Clone, Copy, PartialEq, Eq)]
pub struct Timestamp {
    pub seconds: i64,
    pub nanos: i32,
}

/// A UTC date-time: whole seconds since the epoch and the nanoseconds past
/// them (at or above 1e9 only within a leap second).
#[derive(Debug, Clone, Copy, PartialEq, Eq)]
pub struct Instant {
    pub seconds: i64,
    pub nanos: u32,
}

/// The first second chrono can represent: January 1 of the year -262143,
/// in seconds since the epoch.
pub const MIN_CHRONO_SECONDS: i64 = -8_334_601_228_800;

/// The last second chrono can represent: December 31 of the year 262142,
/// 23:59:59, in seconds since the epoch.
pub const MAX_CHRONO_SECONDS: i64 = 8_210_266_876_799;

/// Whether `chrono::DateTime::<Utc>::from_timestamp` accepts the parts: the
/// second lies in chrono's date range, and the nanoseconds stay below one
/// second, or below two on a leap second (second 59 of a minute).
pub open spec fn chrono_accepts(seconds: i64, nanos: u32) -> bool {
    &&& MIN_CHRONO_SECONDS <= seconds <= MAX_CHRONO_SECONDS
    &&& (nanos < 1_000_000_000 || (nanos < 2_000_000_000 && seconds % 60 == 59))
}

/// Calls `chrono::DateTime::<Utc>::from_timestamp` and tells whether it gave
/// a date-time. The contract states when it does: the day number must fall
/// between `NaiveDate::MIN` and `NaiveDate::MAX`, and
/// `NaiveTime::from_num_seconds_from_midnight_opt` takes nanoseconds below
/// 2,000,000,000 and, from 1,000,000,000 on, only at second 59.
#[verifier::external_body]
fn datetime_is_valid(seconds: i64, nanos: u32) -> (r: bool)
    ensures
        r == chrono_accepts(seconds, nanos),
{
    chrono::DateTime::<chrono::Utc>::from_timestamp(seconds, nanos).is_some()
}

/// The date-time a timestamp stands for: none for a missing timestamp,
/// negative nanoseconds, or parts chrono refuses.
pub open spec fn to_instant_spec(ts: Option<Timestamp>) -> Option<Instant> {
    match ts {
        None => None,
        Some(t) => if t.nanos < 0 {
            None
        } else if chrono_accepts(t.seconds, t.nanos as u32) {
            Some(Instant { seconds: t.seconds, nanos: t.nanos as u32 })
        } else {
            None
        },
    }
}

/// The date-time a timestamp stands for, if it stands for one.
pub fn timestamp_to_chrono(ts: Option<Timestamp>) -> (r: Option<Instant>)
    ensures
        r == to_instant_spec(ts),
{
    match ts {
        None => None,
        Some(t) => {
            if t.nanos < 0 {
                return None;
            }
            let nanos: u32 = t.nanos as u32;
            if datetime_is_valid(t.seconds, nanos) {
                Some(Instant { seconds: t.seconds, nanos })
            } else {
                None
            }
        },
    }
}

/// The timestamp sent back for a date-time: its whole seconds, with the
/// nanoseconds dropped.
pub fn chrono_to_timestamp(dt: Option<Instant>) -> (r: Option<Timestamp>)
    ensures
        r == match dt {
            None => None,
            Some(i) => Some(Timestamp { seconds: i.seconds, nanos: 0 }),
        },
{
    match dt {
        None => None,
        Some(i) => Some(Timestamp { seconds: i.seconds, nanos: 0 }),
    }
}

/// `a` is strictly later than `b`.
pub open spec fn later(a: Instant, b: Instant) -> bool {
    a.seconds > b.seconds || (a.seconds == b.seconds && a.nanos > b.nanos)
}

/// `a` is strictly later than `b`.
pub fn is_later(a: Instant, b: Instant) -> (r: bool)
    ensures
        r == later(a, b),
{
    a.seconds > b.seconds || (a.seconds == b.seconds && a.nanos > b.nanos)
}

/// A date-time sent back and read again is the same whole second.
pub proof fn lemma_timestamp_roundtrip(i: Instant)
    requires
        chrono_accepts(i.seconds, 0),
    ensures
        to_instant_spec(Some(Timestamp { seconds: i.seconds, nanos: 0 })) == Some(
            Instant { seconds: i.seconds, nanos: 0 },
        ),
{
}

/// The nanoseconds past the second that the clock keeps: a leap second's
/// extra second is held at the last nanosecond of the second.
pub open spec fn clock_fraction(nanos: u32) -> int {
    if nanos < 1_000_000_000 {
        nanos as int
    } else {
        999_999_999
    }
}

/// A date-time on the nanosecond clock the auctions compare: nanoseconds
/// since the epoch.
pub open spec fn clock_value(t: Instant) -> int {
    t.seconds * 1_000_000_000 + clock_fraction(t.nanos)
}

/// A date-time as nanoseconds since the epoch, the clock auction windows
/// and bids are compared on; `None` when that does not fit in an `i64`
/// (before 1677 or after 2262).
pub fn clock_nanos(t: Instant) -> (r: Option<i64>)
    ensures
        match r {
            Some(v) => v == clock_value(t),
            None => clock_value(t) < i64::MIN || clock_value(t) > i64::MAX,
        },
{
    let frac: i128 = if t.nanos < 1_000_000_000 {
        t.nanos as i128
    } else {
        999_999_999
    };
    let v: i128 = t.seconds as i128 * 1_000_000_000 + frac;
    if v < i64::MIN as i128 || v > i64::MAX as i128 {
        None
    } else {
        Some(v as i64)
    }
}

/// The clock keeps the order of date-times: a larger clock value is a
/// later date-time, and outside leap seconds a later date-time has a
/// larger clock value, so comparing clock values decides as comparing the
/// date-times does; equal date-times have equal values.
pub proof fn lemma_clock_keeps_order(a: Instant, b: Instant)
    ensures
        clock_value(a) > clock_value(b) ==> later(a, b),
        a.nanos < 1_000_000_000 && b.nanos < 1_000_000_000 ==> (later(a, b) <==> clock_value(a)
            > clock_value(b)),
        a == b ==> clock_value(a) == clock_value(b),
{
    if a.seconds > b.seconds {
        assert(a.seconds * 1_000_000_000 >= b.seconds * 1_000_000_000 + 1_000_000_000) by (nonlinear_arith)
            requires
                a.seconds > b.seconds,
        ;
    } else if a.seconds < b.seconds {
        assert(b.seconds * 1_000_000_000 >= a.seconds * 1_000_000_000 + 1_000_000_000) by (nonlinear_arith)
            requires
                a.seconds < b.seconds,
        ;
    }
}

} // verus!
