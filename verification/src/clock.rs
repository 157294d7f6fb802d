use crate::model::UtcInstant;
use vstd::prelude::*;

verus! {

/// The whole seconds from `earlier` to `later` that chrono reports:
/// `(later - earlier).num_seconds()` for the two `DateTime<Utc>` built with
/// `DateTime::from_timestamp`, or `None` when chrono cannot represent one of
/// the two instants.
pub uninterp spec fn chrono_whole_seconds_between(
    later_secs: i64,
    later_nanos: u32,
    earlier_secs: i64,
    earlier_nanos: u32,
) -> Option<i64>;

/// The text chrono's `format("%Y-%m-%d %H:%M")` gives for the `DateTime<Utc>`
/// that `DateTime::from_timestamp(secs, nanos)` builds, or `None` when chrono
/// cannot represent that instant.
pub uninterp spec fn chrono_minute_stamp(secs: i64, nanos: u32) -> Option<Seq<char>>;

/// The whole seconds chrono counts from `earlier` to `later`.
pub open spec fn seconds_between(later: UtcInstant, earlier: UtcInstant) -> Option<i64> {
    chrono_whole_seconds_between(later.secs, later.nanos, earlier.secs, earlier.nanos)
}

/// Whether an instant is an ordinary one: no leap second, and well inside
/// the years chrono can represent (within about 253 000 years of 1970; chrono
/// goes to year 262 142 either way).
pub open spec fn is_ordinary_instant(t: UtcInstant) -> bool {
    -8_000_000_000_000 <= t.secs <= 8_000_000_000_000 && t.nanos < 1_000_000_000
}

/// The nanoseconds from `earlier` to `later`.
pub open spec fn nanos_between(later: UtcInstant, earlier: UtcInstant) -> int {
    (later.secs - earlier.secs) * 1_000_000_000 + later.nanos - earlier.nanos
}

/// The whole seconds in `nanos` nanoseconds, truncated toward zero.
pub open spec fn whole_seconds_of(nanos: int) -> int {
    if nanos >= 0 {
        nanos / 1_000_000_000
    } else {
        -((-nanos) / 1_000_000_000)
    }
}

/// Reads the system clock: `SystemTime::now`, turned into a chrono
/// `DateTime<Utc>` by chrono's `From<SystemTime>`.
///
/// Nothing is claimed of the instant but that its nanoseconds stay below a
/// second, as chrono's conversion builds them from a `Duration`'s sub-second
/// nanoseconds. A clock set before 1970 gives a negative timestamp. The
/// conversion's one `unwrap` fails only for instants more than 262 000 years
/// from 1970, which is not left out here, since no argument decides it.
#[verifier::external_body]
pub(crate) fn utc_now() -> (r: UtcInstant)
    ensures
        r.nanos < 1_000_000_000,
{
    let now = chrono::DateTime::<chrono::Utc>::from(std::time::SystemTime::now());
    UtcInstant { secs: now.timestamp(), nanos: now.timestamp_subsec_nanos() }
}

/// Subtracts two instants with chrono (`DateTime::from_timestamp` for each,
/// `-` between them, then `TimeDelta::num_seconds`).
///
/// The result is named `chrono_whole_seconds_between` of the two instants'
/// fields. For ordinary instants it is the difference in whole seconds,
/// truncated toward zero: chrono's `TimeDelta` holds the exact difference as
/// floored seconds and nanoseconds below a second, and `num_seconds` adds one
/// back to a negative value with nanoseconds. Leap seconds and instants near
/// the ends of chrono's range are left to the name alone.
#[verifier::external_body]
pub(crate) fn whole_seconds_between(later: UtcInstant, earlier: UtcInstant) -> (r: Option<i64>)
    ensures
        r == chrono_whole_seconds_between(later.secs, later.nanos, earlier.secs, earlier.nanos),
        is_ordinary_instant(later) && is_ordinary_instant(earlier) ==> r == Some(
            whole_seconds_of(nanos_between(later, earlier)) as i64,
        ),
{
    let later = chrono::DateTime::from_timestamp(later.secs, later.nanos);
    let earlier = chrono::DateTime::from_timestamp(earlier.secs, earlier.nanos);
    match (later, earlier) {
        (Some(l), Some(e)) => Some((l - e).num_seconds()),
        _ => None,
    }
}

/// Formats an instant as `YYYY-MM-DD HH:MM` in UTC with chrono
/// (`DateTime::from_timestamp`, then `format("%Y-%m-%d %H:%M")`).
///
/// Its text is named `chrono_minute_stamp` of the instant's fields. An
/// ordinary instant always gets a stamp: `from_timestamp` fails only for
/// instants outside chrono's years or with a second's worth of nanoseconds or
/// more, and formatting a date with its time cannot fail. The calendar text
/// itself is left to the name.
#[verifier::external_body]
pub(crate) fn minute_stamp(at: UtcInstant) -> (r: Option<String>)
    ensures
        match r {
            Some(s) => chrono_minute_stamp(at.secs, at.nanos) == Some(s@),
            None => chrono_minute_stamp(at.secs, at.nanos) is None,
        },
        is_ordinary_instant(at) ==> r is Some,
{
    match chrono::DateTime::from_timestamp(at.secs, at.nanos) {
        Some(t) => Some(t.format("%Y-%m-%d %H:%M").to_string()),
        None => None,
    }
}

} // verus!
