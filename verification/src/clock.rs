//! The current time, as stored with tracks and flags.

use vstd::prelude::*;
use crate::sqlite::{Timestamp, clock_read, read_clock, utc_at, utc_timestamp};

verus! {

/// The Unix time, in whole seconds (negative before 1970) and nanoseconds
/// below one billion, of a clock reading given as its distance from the
/// epoch: after it (`Ok`) or before it (`Err`). A reading too far from the
/// epoch for a signed 64-bit count of seconds has none.
pub open spec fn unix_time_of(since: Result<(u64, u32), (u64, u32)>) -> Option<(i64, u32)> {
    match since {
        Ok((s, n)) => if s <= i64::MAX {
            Some((s as i64, n))
        } else {
            None
        },
        Err((s, n)) => if s > i64::MAX {
            None
        } else if n == 0 {
            Some(((0 - s) as i64, 0u32))
        } else {
            Some(((0 - s - 1) as i64, (1_000_000_000 - n) as u32))
        },
    }
}

/// Turns a distance from the epoch into Unix time: a time before the
/// epoch with a fraction of a second counts down to the whole second below
/// it and up by the rest.
pub fn unix_time(since: Result<(u64, u32), (u64, u32)>) -> (r: Option<(i64, u32)>)
    requires
        since matches Ok((_, n)) ==> n < 1_000_000_000,
        since matches Err((_, n)) ==> n < 1_000_000_000,
    ensures
        r == unix_time_of(since),
        r matches Some((_, n)) ==> n < 1_000_000_000,
{
    match since {
        Ok((s, n)) => if s <= 9_223_372_036_854_775_807u64 {
            Some((s as i64, n))
        } else {
            None
        },
        Err((s, n)) => if s > 9_223_372_036_854_775_807u64 {
            None
        } else if n == 0 {
            Some((0 - (s as i64), 0))
        } else {
            Some((0 - (s as i64) - 1, 1_000_000_000 - n))
        },
    }
}

/// A clock reading at `since` from the epoch can be stored: its Unix time
/// lies within eight trillion seconds of the epoch.
pub open spec fn storable(since: Result<(u64, u32), (u64, u32)>) -> bool {
    unix_time_of(since) matches Some((s, _)) && -8_000_000_000_000 <= s <= 8_000_000_000_000
}

/// `t` is what `now` makes of a clock reading at `since` from the epoch:
/// the UTC time of its Unix time, or nothing, which happens only when the
/// reading cannot be stored.
pub open spec fn time_of_reading(since: Result<(u64, u32), (u64, u32)>, t: Option<Timestamp>) -> bool {
    match t {
        Some(at) => unix_time_of(since) matches Some((s, n)) && at == utc_at(s, n),
        None => !storable(since),
    }
}

/// The current time of the system clock, before or after 1970; `None` only
/// when the clock reads a time too far from 1970 to be stored.
pub fn now() -> (t: Option<Timestamp>)
    ensures
        exists|since: Result<(u64, u32), (u64, u32)>| clock_read(since) && #[trigger] time_of_reading(since, t),
{
    let since = read_clock();
    let t = match unix_time(since) {
        Some((seconds, nanos)) => utc_timestamp(seconds, nanos),
        None => None,
    };
    assert(time_of_reading(since, t));
    t
}

}
