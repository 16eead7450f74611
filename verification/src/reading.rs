//! A clock reading: the positions of the three hands at one instant, held
//! exactly as integer nanoseconds.
//!
//! Each field is the hand's progress through its revolution: the second
//! hand through its minute, the minute hand through its hour, the hour hand
//! through its half day. Dividing a field by the matching period gives the
//! fractional value of the classical reading (for instance an `hour_ns` of
//! `11_730_000_000_000` is the fractional hour `3.2583…` of a quarter past
//! three and a half minute more).

use vstd::prelude::*;

verus! {

/// Nanoseconds per revolution of the second hand (one minute).
pub const SECOND_HAND_PERIOD_NS: u64 = 60_000_000_000;

/// Nanoseconds per revolution of the minute hand (one hour).
pub const MINUTE_HAND_PERIOD_NS: u64 = 3_600_000_000_000;

/// Nanoseconds per revolution of the hour hand (twelve hours).
pub const HOUR_HAND_PERIOD_NS: u64 = 43_200_000_000_000;

/// The three hand positions at one instant, in nanoseconds of progress
/// through each hand's revolution.
#[derive(Clone, Copy, PartialEq, Eq, Structural, Debug)]
pub struct ClockReading {
    /// Progress of the second hand through its minute.
    pub second_ns: u64,
    /// Progress of the minute hand through its hour.
    pub minute_ns: u64,
    /// Progress of the hour hand through its half day.
    pub hour_ns: u64,
}

impl ClockReading {
    /// Each hand is strictly inside its revolution.
    pub open spec fn wf(self) -> bool {
        &&& self.second_ns < SECOND_HAND_PERIOD_NS
        &&& self.minute_ns < MINUTE_HAND_PERIOD_NS
        &&& self.hour_ns < HOUR_HAND_PERIOD_NS
    }

    /// The reading built from wall-clock components: each coarser hand
    /// carries the full progress of the finer ones, which is what makes the
    /// hands sweep smoothly instead of jumping.
    pub open spec fn spec_from_components(hour: u32, minute: u32, second: u32, nanos: u32)
        -> ClockReading {
        ClockReading {
            second_ns: (second * 1_000_000_000 + nanos) as u64,
            minute_ns: (minute * 60_000_000_000 + second * 1_000_000_000 + nanos) as u64,
            hour_ns: (hour * 3_600_000_000_000 + minute * 60_000_000_000 + second * 1_000_000_000
                + nanos) as u64,
        }
    }

    /// Builds the reading for the wall-clock components `hour` (on the
    /// twelve-hour dial), `minute`, `second` and `nanos`.
    pub fn from_components(hour: u32, minute: u32, second: u32, nanos: u32) -> (r: ClockReading)
        requires
            hour < 12,
            minute < 60,
            second < 60,
            nanos < 1_000_000_000,
        ensures
            r == ClockReading::spec_from_components(hour, minute, second, nanos),
            r.wf(),
    {
        let second_ns: u64 = second as u64 * 1_000_000_000 + nanos as u64;
        let minute_ns: u64 = minute as u64 * 60_000_000_000 + second_ns;
        let hour_ns: u64 = hour as u64 * 3_600_000_000_000 + minute_ns;
        ClockReading { second_ns, minute_ns, hour_ns }
    }

    /// The reading a separate dial shows for an elapsed duration of `ms`
    /// milliseconds: seconds and minutes wrap at sixty, hours wrap on the
    /// twelve-hour dial following the usual 3600 seconds per hour.
    pub open spec fn spec_from_elapsed_ms(ms: u64) -> ClockReading {
        ClockReading {
            second_ns: ((ms / 1000 % 60) * 1_000_000_000 + (ms % 1000) * 1_000_000) as u64,
            minute_ns: ((ms / 1000 / 60 % 60) * 60_000_000_000 + (ms / 1000 % 60) * 1_000_000_000
                + (ms % 1000) * 1_000_000) as u64,
            hour_ns: ((ms / 1000 / 3600 % 12) * 3_600_000_000_000 + (ms / 1000 / 60 % 60)
                * 60_000_000_000 + (ms / 1000 % 60) * 1_000_000_000 + (ms % 1000)
                * 1_000_000) as u64,
        }
    }

    /// Builds the reading an elapsed duration of `ms` milliseconds puts on
    /// a dial, sub-second progress included.
    pub fn from_elapsed_ms(ms: u64) -> (r: ClockReading)
        ensures
            r == ClockReading::spec_from_elapsed_ms(ms),
            r.wf(),
    {
        let millis: u64 = ms % 1000;
        let total_s: u64 = ms / 1000;
        let second_ns: u64 = (total_s % 60) * 1_000_000_000 + millis * 1_000_000;
        let minute_ns: u64 = (total_s / 60 % 60) * 60_000_000_000 + second_ns;
        let hour_ns: u64 = (total_s / 3600 % 12) * 3_600_000_000_000 + minute_ns;
        ClockReading { second_ns, minute_ns, hour_ns }
    }
}

} // verus!
