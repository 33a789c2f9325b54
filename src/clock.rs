//! The local wall clock, read through chrono.
use vstd::prelude::*;
use chrono::{Datelike, Timelike};
use crate::schedule::LocalTime;

verus! {

/// Seconds in one day.
pub const DAY_SECONDS: u32 = 86_400;

/// Relies on chrono's `Local::now`, `NaiveDateTime::date` and `time`,
/// `Datelike::num_days_from_ce`, and `Timelike::num_seconds_from_midnight`
/// (a non-leap second of the day, below 86400) and `nanosecond` (below
/// 2,000,000,000, from 1,000,000,000 on within a leap second).
/// `Utc::now` panics when the system clock reads before 1970, and
/// `naive_local` at the edge of chrono's date range; no argument can rule
/// out such a machine state.
#[verifier::external_body]
fn read_local_clock() -> (r: (i32, u32, u32))
    ensures
        r.1 < DAY_SECONDS,
        r.2 < 2_000_000_000,
{
    let now = chrono::Local::now().naive_local();
    (now.date().num_days_from_ce(), now.time().num_seconds_from_midnight(), now.time().nanosecond())
}

/// The instant of day `day` that lies `secs` seconds and `nanos` nanoseconds
/// after its midnight, to the microsecond below. A leap second (`nanos` from
/// one second on) is held at the last microsecond of its second.
pub fn local_time_from_parts(day: i32, secs: u32, nanos: u32) -> (r: LocalTime)
    requires
        secs < DAY_SECONDS,
    ensures
        r.wf(),
        r.day == day,
        r.micros == secs * 1_000_000 + (if nanos < 1_000_000_000 {
            nanos / 1000
        } else {
            999_999
        }),
{
    let sub: u64 = if nanos < 1_000_000_000 {
        nanos as u64 / 1000
    } else {
        999_999
    };
    LocalTime { day, micros: secs as u64 * 1_000_000 + sub }
}

/// The local time now. Two readings may differ; each one is a valid instant.
pub fn local_now() -> (r: LocalTime)
    ensures
        r.wf(),
{
    let (day, secs, nanos) = read_local_clock();
    local_time_from_parts(day, secs, nanos)
}

} // verus!
