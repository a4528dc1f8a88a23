//! The forecast as the flyability rules consume it, and the day-phase
//! classification of a forecast hour.
use crate::measures::{Temperature, WindSpeed};
use vstd::prelude::*;

verus! {

pub const SECONDS_PER_MINUTE: i64 = 60;
pub const SECONDS_PER_HOUR: i64 = 3600;
pub const SECONDS_PER_DAY: i64 = 86400;
/// A sunrise or sunset within this many minutes of the start of an hour
/// snaps the whole hour to the phase that follows the boundary.
pub const BOUNDARY_SNAP_MINUTES: i64 = 14;
/// A boundary before this minute of an hour makes the hour twilight.
pub const TWILIGHT_LIMIT_MINUTES: i64 = 45;

/// An instant (seconds since the Unix epoch) seen in a fixed UTC offset
/// (seconds east of UTC).
#[derive(Debug, Clone, Copy)]
pub struct ZonedTime {
    pub timestamp: i64,
    pub offset: i32,
}

impl ZonedTime {
    /// The local wall-clock seconds of the instant, counted from the epoch.
    pub open spec fn local_seconds(self) -> int {
        self.timestamp + self.offset
    }

    /// The number of the local calendar day (day 0 is 1970-01-01).
    pub open spec fn local_day(self) -> int {
        self.local_seconds() / (SECONDS_PER_DAY as int)
    }

    /// Seconds elapsed since local midnight.
    pub open spec fn second_of_day(self) -> int {
        self.local_seconds() % (SECONDS_PER_DAY as int)
    }

    pub fn day_number(&self) -> (r: i64)
        ensures
            r == self.local_day(),
    {
        let x: i128 = self.timestamp as i128 + self.offset as i128;
        // Shifted by whole days to a non-negative dividend, the division
        // rounds down as the local day number does.
        let shift: i128 = 0x4_0000_0000_0000;
        let y: i128 = x + shift * (SECONDS_PER_DAY as i128);
        assert(y >= 0);
        let q: i128 = y / (SECONDS_PER_DAY as i128);
        assert(q == x / 86400 + shift) by (nonlinear_arith)
            requires
                y == x + shift * 86400,
                q == y / 86400,
        ;
        assert(-0x1_0000_0000_0000 <= x / 86400 <= 0x1_0000_0000_0000) by (nonlinear_arith)
            requires
                -0x8000_0000_0000_0000 - 0x8000_0000 <= x <= 0x7fff_ffff_ffff_ffff + 0x7fff_ffff,
        ;
        (q - shift) as i64
    }

    pub fn seconds_since_midnight(&self) -> (r: i64)
        ensures
            r == self.second_of_day(),
            0 <= r < SECONDS_PER_DAY,
    {
        let x: i128 = self.timestamp as i128 + self.offset as i128;
        let shift: i128 = 0x4_0000_0000_0000;
        let y: i128 = x + shift * (SECONDS_PER_DAY as i128);
        let m: i128 = y % (SECONDS_PER_DAY as i128);
        assert(m == x % 86400) by (nonlinear_arith)
            requires
                y == x + shift * 86400,
                m == y % 86400,
        ;
        m as i64
    }
}

/// A calendar date in a fixed UTC offset.
#[derive(Debug, Clone, Copy)]
pub struct LocalDate {
    pub day: i64,
    pub offset: i32,
}

#[derive(Debug, PartialEq, Eq, Structural, Clone, Copy)]
pub enum TimeOfDay {
    NIGHT,
    TWILIGHT,
    DAY,
}

/// The phase of the hour `[t, t + 1h)` of a day with the given sunrise and
/// sunset, all in seconds.
pub open spec fn day_phase(t: int, sunrise: int, sunset: int) -> TimeOfDay {
    let end = t + SECONDS_PER_HOUR;
    let snap = t + BOUNDARY_SNAP_MINUTES * SECONDS_PER_MINUTE;
    let twilight = t + TWILIGHT_LIMIT_MINUTES * SECONDS_PER_MINUTE;
    if sunset >= end && sunrise < t {
        TimeOfDay::DAY
    } else if sunrise >= end || sunset < t {
        TimeOfDay::NIGHT
    } else if sunset < end {
        if sunset < snap {
            TimeOfDay::NIGHT
        } else if sunset < twilight {
            TimeOfDay::TWILIGHT
        } else {
            TimeOfDay::DAY
        }
    } else if sunrise < snap {
        TimeOfDay::DAY
    } else if sunrise < twilight {
        TimeOfDay::TWILIGHT
    } else {
        TimeOfDay::NIGHT
    }
}

/// Classifies the hour that starts at `date_time`.
pub fn get_time_of_day(date_time: ZonedTime, sunrise: ZonedTime, sunset: ZonedTime) -> (r:
    TimeOfDay)
    ensures
        r == day_phase(
            date_time.timestamp as int,
            sunrise.timestamp as int,
            sunset.timestamp as int,
        ),
{
    let t: i128 = date_time.timestamp as i128;
    let rise: i128 = sunrise.timestamp as i128;
    let set: i128 = sunset.timestamp as i128;
    let end: i128 = t + SECONDS_PER_HOUR as i128;
    let snap: i128 = t + (BOUNDARY_SNAP_MINUTES * SECONDS_PER_MINUTE) as i128;
    let twilight: i128 = t + (TWILIGHT_LIMIT_MINUTES * SECONDS_PER_MINUTE) as i128;
    if set >= end && rise < t {
        TimeOfDay::DAY
    } else if rise >= end || set < t {
        TimeOfDay::NIGHT
    } else if set < end {
        if set < snap {
            TimeOfDay::NIGHT
        } else if set < twilight {
            TimeOfDay::TWILIGHT
        } else {
            TimeOfDay::DAY
        }
    } else if rise < snap {
        TimeOfDay::DAY
    } else if rise < twilight {
        TimeOfDay::TWILIGHT
    } else {
        TimeOfDay::NIGHT
    }
}

/// One hour of a day's forecast. `pop` is the probability of precipitation
/// in thousandths; `wind_deg` the compass direction the wind blows from.
#[derive(Debug, Clone, Copy)]
pub struct HourWeatherForecast {
    pub time: ZonedTime,
    pub time_of_day: TimeOfDay,
    pub temperature: Temperature,
    pub feels_like: Temperature,
    pub wind_speed: WindSpeed,
    pub wind_deg: i16,
    pub pop: i32,
}

/// One calendar day of forecast, its hours in ascending time order.
#[derive(Debug)]
pub struct DayWeatherForecast {
    pub date: LocalDate,
    pub sunrise: ZonedTime,
    pub sunset: ZonedTime,
    pub hourly: Vec<HourWeatherForecast>,
}

} // verus!
