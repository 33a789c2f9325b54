//! The alarm schedule and the computation of the next fade window.
//!
//! All times are in microseconds. A local wall-clock instant is a day number
//! and the microseconds since that day's midnight.
use vstd::prelude::*;

verus! {

/// Microseconds in one day.
pub const DAY_MICROS: u64 = 86_400_000_000;

/// The longest fade that the controller accepts, in microseconds.
pub const MAX_FADE_MICROS: u64 = 9_223_372_036_854_775_807;

/// Number of even steps in one fade.
pub const FADE_STEPS: u64 = 256;

/// The alarm schedule: the fade ends at the time of day `end` and lasts
/// `fade_duration`.
#[derive(Clone, Copy, Debug, PartialEq, Eq, Structural)]
pub struct Alarm {
    /// Wake time, as microseconds since midnight.
    pub end: u64,
    /// Length of the fade, in microseconds.
    pub fade_duration: u64,
}

/// Whether fades should run.
#[derive(Clone, Copy, Debug, PartialEq, Eq, Structural)]
pub struct ActiveStatus {
    activated: bool,
}

impl ActiveStatus {
    pub fn new(activated: bool) -> (r: ActiveStatus)
        ensures
            r.is_activated() == activated,
    {
        ActiveStatus { activated }
    }

    pub closed spec fn is_activated(self) -> bool {
        self.activated
    }

    pub fn activated(&self) -> (r: bool)
        ensures
            r == self.is_activated(),
    {
        self.activated
    }
}

/// A local wall-clock instant.
#[derive(Clone, Copy, Debug, PartialEq, Eq, Structural)]
pub struct LocalTime {
    /// Days since an arbitrary fixed epoch.
    pub day: i32,
    /// Microseconds since that day's midnight.
    pub micros: u64,
}

impl LocalTime {
    /// The time of day lies within the day.
    pub open spec fn wf(self) -> bool {
        self.micros < DAY_MICROS
    }

    /// This instant as microseconds since the epoch's midnight.
    pub open spec fn instant(self) -> int {
        self.day * DAY_MICROS + self.micros
    }
}

/// Why no fade window could be computed for a schedule.
#[derive(Clone, Copy, Debug, PartialEq, Eq, Structural)]
pub enum ScheduleError {
    /// The wake time is not a time of day (it is a day or more).
    WakeTimeOutOfRange,
    /// The fade is longer than the controller can represent.
    FadeTooLong,
}

/// The next fade window. `start` and `end` are instants in microseconds
/// since the epoch's midnight; `delta` is how long to wait before `start`.
#[derive(Clone, Copy, Debug, PartialEq, Eq, Structural)]
pub struct FadeWindow {
    pub start: i128,
    pub end: i128,
    pub delta: u64,
}

/// The day of the next occurrence of the wake time: today, unless the wake
/// time has already passed today.
pub open spec fn anchor_day(alarm: Alarm, now: LocalTime) -> int {
    if alarm.end < now.micros {
        now.day + 1
    } else {
        now.day as int
    }
}

/// The instant at which the next fade ends.
pub open spec fn window_end(alarm: Alarm, now: LocalTime) -> int {
    anchor_day(alarm, now) * DAY_MICROS + alarm.end
}

/// The instant at which the next fade starts.
pub open spec fn window_start(alarm: Alarm, now: LocalTime) -> int {
    window_end(alarm, now) - alarm.fade_duration
}

/// How long to wait from `now` until the fade starts; never negative.
pub open spec fn window_delta(alarm: Alarm, now: LocalTime) -> int {
    if window_start(alarm, now) > now.instant() {
        window_start(alarm, now) - now.instant()
    } else {
        0
    }
}

/// Whether a schedule can be run at all.
pub open spec fn schedule_error(alarm: Alarm) -> Option<ScheduleError> {
    if alarm.end >= DAY_MICROS {
        Some(ScheduleError::WakeTimeOutOfRange)
    } else if alarm.fade_duration > MAX_FADE_MICROS {
        Some(ScheduleError::FadeTooLong)
    } else {
        None
    }
}

/// The pause between two steps of a fade.
pub open spec fn chunk_of(fade_duration: u64) -> int {
    fade_duration as int / FADE_STEPS as int
}

/// Computes the next fade window for `alarm` as seen at `now`.
pub fn compute_window(alarm: &Alarm, now: &LocalTime) -> (r: Result<FadeWindow, ScheduleError>)
    requires
        now.wf(),
    ensures
        match schedule_error(*alarm) {
            Some(e) => r == Err::<FadeWindow, ScheduleError>(e),
            None => r matches Ok(w) && w.end == window_end(*alarm, *now) && w.start
                == window_start(*alarm, *now) && w.delta == window_delta(*alarm, *now),
        },
{
    if alarm.end >= DAY_MICROS {
        return Err(ScheduleError::WakeTimeOutOfRange);
    }
    if alarm.fade_duration > MAX_FADE_MICROS {
        return Err(ScheduleError::FadeTooLong);
    }
    let day: i128 = if alarm.end < now.micros {
        now.day as i128 + 1
    } else {
        now.day as i128
    };
    let midnight: i128 = day * (DAY_MICROS as i128);
    let end: i128 = midnight + alarm.end as i128;
    let start: i128 = end - alarm.fade_duration as i128;
    let current: i128 = now.day as i128 * (DAY_MICROS as i128) + now.micros as i128;
    let delta: u64 = if start > current {
        proof {
            lemma_end_within_a_day(*alarm, *now);
        }
        (start - current) as u64
    } else {
        0
    };
    Ok(FadeWindow { start, end, delta })
}

/// The pause between two steps of a fade of `fade_duration`.
pub fn chunk_delta(fade_duration: u64) -> (r: u64)
    ensures
        r == chunk_of(fade_duration),
        r * FADE_STEPS <= fade_duration < r * FADE_STEPS + FADE_STEPS,
{
    fade_duration / FADE_STEPS
}

/// The fade ends at the next occurrence of the wake time: not before `now`,
/// less than a day after it, at the wake time of its day, and no occurrence
/// of the wake time lies between `now` and it.
pub proof fn lemma_end_within_a_day(alarm: Alarm, now: LocalTime)
    requires
        now.wf(),
        alarm.end < DAY_MICROS,
    ensures
        now.instant() <= window_end(alarm, now) < now.instant() + DAY_MICROS,
        window_end(alarm, now) == anchor_day(alarm, now) * DAY_MICROS + alarm.end,
        forall|d: int|
            #![trigger d * DAY_MICROS]
            d * DAY_MICROS + alarm.end >= now.instant() ==> d * DAY_MICROS + alarm.end
                >= window_end(alarm, now),
{
    assert forall|d: int|
        #![trigger d * DAY_MICROS]
        d * DAY_MICROS + alarm.end >= now.instant() implies d * DAY_MICROS + alarm.end
            >= window_end(alarm, now) by {
        if d < anchor_day(alarm, now) {
            assert(d * DAY_MICROS <= (anchor_day(alarm, now) - 1) * DAY_MICROS)
                by (nonlinear_arith)
                requires
                    d <= anchor_day(alarm, now) - 1,
            ;
            assert((anchor_day(alarm, now) - 1) * DAY_MICROS == anchor_day(alarm, now)
                * DAY_MICROS - DAY_MICROS) by (nonlinear_arith);
            assert(now.day * DAY_MICROS + DAY_MICROS == (now.day + 1) * DAY_MICROS)
                by (nonlinear_arith);
        } else {
            assert(d * DAY_MICROS >= anchor_day(alarm, now) * DAY_MICROS) by (nonlinear_arith)
                requires
                    d >= anchor_day(alarm, now),
            ;
        }
    }
    assert(now.day * DAY_MICROS + DAY_MICROS == (now.day + 1) * DAY_MICROS) by (nonlinear_arith);
}

/// The fade starts exactly `fade_duration` before it ends, and the wait is
/// never negative: it is zero when the fade is at least as long as the time
/// left until the end.
pub proof fn lemma_start_and_wait(alarm: Alarm, now: LocalTime)
    requires
        now.wf(),
        alarm.end < DAY_MICROS,
    ensures
        window_start(alarm, now) == window_end(alarm, now) - alarm.fade_duration,
        window_delta(alarm, now) >= 0,
        window_delta(alarm, now) < DAY_MICROS,
        alarm.fade_duration >= window_end(alarm, now) - now.instant() ==> window_delta(alarm, now)
            == 0,
        window_delta(alarm, now) > 0 ==> now.instant() + window_delta(alarm, now)
            == window_start(alarm, now),
{
    lemma_end_within_a_day(alarm, now);
}

} // verus!
