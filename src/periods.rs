//! Merging consecutive flyable hours into periods.
use crate::forecast::{HourWeatherForecast, ZonedTime, SECONDS_PER_HOUR};
use crate::measures::{Temperature, WindSpeed};
use vstd::prelude::*;

verus! {

/// A run of consecutive flyable hours and the extremes observed in it.
#[derive(Debug, Clone, Copy)]
pub struct SiteFlyablePeriod {
    pub start: ZonedTime,
    pub duration_hours: u64,
    pub wind_min: WindSpeed,
    pub wind_max: WindSpeed,
    pub wind_degree_min: i16,
    pub wind_degree_max: i16,
    pub temp_min: Temperature,
    pub temp_max: Temperature,
}

/// The period made of the single hour `hour`.
pub open spec fn period_of(hour: HourWeatherForecast) -> SiteFlyablePeriod {
    SiteFlyablePeriod {
        start: hour.time,
        duration_hours: 1,
        wind_min: hour.wind_speed,
        wind_max: hour.wind_speed,
        wind_degree_min: hour.wind_deg,
        wind_degree_max: hour.wind_deg,
        temp_min: hour.temperature,
        temp_max: hour.temperature,
    }
}

impl SiteFlyablePeriod {
    /// `hour` starts exactly when the period ends.
    pub open spec fn continues_with(self, hour: HourWeatherForecast) -> bool {
        self.start.timestamp + self.duration_hours * SECONDS_PER_HOUR == hour.time.timestamp
    }

    /// The period grown by `hour`: one hour longer, extremes updated by the
    /// measures' canonical ordering.
    pub open spec fn grown_by(self, hour: HourWeatherForecast) -> SiteFlyablePeriod {
        SiteFlyablePeriod {
            start: self.start,
            duration_hours: (self.duration_hours + 1) as u64,
            wind_min: if self.wind_min.mps_milli() > hour.wind_speed.mps_milli() {
                hour.wind_speed
            } else {
                self.wind_min
            },
            wind_max: if self.wind_max.mps_milli() < hour.wind_speed.mps_milli() {
                hour.wind_speed
            } else {
                self.wind_max
            },
            wind_degree_min: if self.wind_degree_min > hour.wind_deg {
                hour.wind_deg
            } else {
                self.wind_degree_min
            },
            wind_degree_max: if self.wind_degree_max < hour.wind_deg {
                hour.wind_deg
            } else {
                self.wind_degree_max
            },
            temp_min: if self.temp_min.celsius_milli() > hour.temperature.celsius_milli() {
                hour.temperature
            } else {
                self.temp_min
            },
            temp_max: if self.temp_max.celsius_milli() < hour.temperature.celsius_milli() {
                hour.temperature
            } else {
                self.temp_max
            },
        }
    }

    pub fn from_hour(hour: &HourWeatherForecast) -> (r: SiteFlyablePeriod)
        ensures
            r == period_of(*hour),
    {
        SiteFlyablePeriod {
            start: hour.time,
            duration_hours: 1,
            wind_min: hour.wind_speed,
            wind_max: hour.wind_speed,
            wind_degree_min: hour.wind_deg,
            wind_degree_max: hour.wind_deg,
            temp_min: hour.temperature,
            temp_max: hour.temperature,
        }
    }

    pub fn is_next_hour(&self, hour: &HourWeatherForecast) -> (r: bool)
        ensures
            r == self.continues_with(*hour),
    {
        let d: i128 = self.duration_hours as i128;
        assert(0 <= d * 3600 <= 0x1_0000_0000_0000_0000 * 3600) by (nonlinear_arith)
            requires
                0 <= d <= 0xffff_ffff_ffff_ffff,
        ;
        self.start.timestamp as i128 + d * SECONDS_PER_HOUR as i128 == hour.time.timestamp as i128
    }

    pub fn add_hour(&mut self, hour: &HourWeatherForecast)
        requires
            old(self).duration_hours < u64::MAX,
        ensures
            *final(self) == old(self).grown_by(*hour),
    {
        self.duration_hours = self.duration_hours + 1;
        let speed = hour.wind_speed.meters_per_second();
        if self.wind_min.meters_per_second() > speed {
            self.wind_min = hour.wind_speed;
        }
        if self.wind_max.meters_per_second() < speed {
            self.wind_max = hour.wind_speed;
        }
        if self.wind_degree_min > hour.wind_deg {
            self.wind_degree_min = hour.wind_deg;
        }
        if self.wind_degree_max < hour.wind_deg {
            self.wind_degree_max = hour.wind_deg;
        }
        let temperature = hour.temperature.celsius();
        if self.temp_min.celsius() > temperature {
            self.temp_min = hour.temperature;
        }
        if self.temp_max.celsius() < temperature {
            self.temp_max = hour.temperature;
        }
    }
}

/// The periods of a sequence of hours, built in one pass from the left: an
/// hour that continues the last period grows it, any other starts a new one.
pub open spec fn merge_hours(hours: Seq<HourWeatherForecast>) -> Seq<SiteFlyablePeriod>
    decreases hours.len(),
{
    if hours.len() == 0 {
        seq![]
    } else {
        let before = merge_hours(hours.drop_last());
        let hour = hours.last();
        if before.len() == 0 {
            seq![period_of(hour)]
        } else if before.last().continues_with(hour) {
            before.update(before.len() - 1, before.last().grown_by(hour))
        } else {
            before.push(period_of(hour))
        }
    }
}

/// Merging gives periods exactly for non-empty input, and no period is
/// longer than the input.
pub proof fn lemma_merge_shape(hours: Seq<HourWeatherForecast>)
    ensures
        (merge_hours(hours).len() == 0) == (hours.len() == 0),
        merge_hours(hours).len() <= hours.len(),
        forall|k: int|
            0 <= k < merge_hours(hours).len() ==> 1 <= #[trigger] merge_hours(hours)[k].duration_hours
                <= hours.len(),
    decreases hours.len(),
{
    if hours.len() > 0 {
        lemma_merge_shape(hours.drop_last());
    }
}

/// Each hour starts strictly after the one before it.
pub open spec fn strictly_ascending(hours: Seq<HourWeatherForecast>) -> bool {
    forall|a: int, b: int|
        0 <= a < b < hours.len() ==> hours[a].time.timestamp < hours[b].time.timestamp
}

/// The number of hours that the periods cover together.
pub open spec fn total_hours(periods: Seq<SiteFlyablePeriod>) -> int
    decreases periods.len(),
{
    if periods.len() == 0 {
        0
    } else {
        total_hours(periods.drop_last()) + periods.last().duration_hours
    }
}

/// The instant at which a period ends.
pub open spec fn period_end(p: SiteFlyablePeriod) -> int {
    p.start.timestamp + p.duration_hours * SECONDS_PER_HOUR
}

/// Merging chronologically ordered hours gives periods whose starts
/// strictly increase, with a gap (a missing or left-out hour) between each
/// period and the next, and which together cover every hour once.
pub proof fn lemma_merged_periods_ordered(hours: Seq<HourWeatherForecast>)
    requires
        strictly_ascending(hours),
    ensures
        forall|a: int, b: int|
            0 <= a < b < merge_hours(hours).len() ==> merge_hours(hours)[a].start.timestamp
                < merge_hours(hours)[b].start.timestamp,
        forall|k: int|
            0 <= k < merge_hours(hours).len() - 1 ==> merge_hours(hours)[k + 1].start.timestamp
                != period_end(#[trigger] merge_hours(hours)[k]),
        total_hours(merge_hours(hours)) == hours.len(),
    decreases hours.len(),
{
    if hours.len() > 0 {
        let rest = hours.drop_last();
        let h = hours.last();
        assert(strictly_ascending(rest));
        lemma_merged_periods_ordered(rest);
        lemma_merge_starts_bounded(rest);
        let before = merge_hours(rest);
        let after = merge_hours(hours);
        if before.len() == 0 {
            assert(after =~= seq![period_of(h)]);
            assert(after.drop_last() =~= seq![]);
        } else if before.last().continues_with(h) {
            assert(after.drop_last() =~= before.drop_last());
        } else {
            lemma_merge_shape(rest);
            assert(rest.last() == hours[hours.len() - 2]);
            assert(after.drop_last() =~= before);
        }
    }
}

/// Every period of merged hours starts at or before the last hour.
proof fn lemma_merge_starts_bounded(hours: Seq<HourWeatherForecast>)
    requires
        strictly_ascending(hours),
    ensures
        hours.len() > 0 ==> forall|k: int|
            0 <= k < merge_hours(hours).len() ==> (#[trigger] merge_hours(hours)[k]).start.timestamp
                <= hours.last().time.timestamp,
    decreases hours.len(),
{
    if hours.len() > 0 {
        let rest = hours.drop_last();
        let h = hours.last();
        let before = merge_hours(rest);
        assert(strictly_ascending(rest));
        lemma_merge_starts_bounded(rest);
        if rest.len() > 0 {
            assert(rest.last() == hours[hours.len() - 2]);
        } else {
            assert(before.len() == 0);
        }
        if before.len() == 0 {
        } else if before.last().continues_with(h) {
            assert forall|k: int| 0 <= k < merge_hours(hours).len() implies (
            #[trigger] merge_hours(hours)[k]).start.timestamp <= h.time.timestamp by {
                assert(before[k].start == merge_hours(hours)[k].start);
            }
        } else {
            assert forall|k: int| 0 <= k < merge_hours(hours).len() implies (
            #[trigger] merge_hours(hours)[k]).start.timestamp <= h.time.timestamp by {
                if k < before.len() {
                    assert(before[k] == merge_hours(hours)[k]);
                }
            }
        }
    }
}

/// Groups chronologically ordered flyable hours into maximal runs of
/// consecutive hours.
pub fn merge_flyable_hours(hours: &Vec<HourWeatherForecast>) -> (r: Vec<SiteFlyablePeriod>)
    ensures
        r@ == merge_hours(hours@),
        (r@.len() == 0) == (hours@.len() == 0),
{
    let mut periods: Vec<SiteFlyablePeriod> = Vec::new();
    if hours.len() == 0 {
        return periods;
    }
    let mut current = SiteFlyablePeriod::from_hour(&hours[0]);
    assert(hours@.take(1).drop_last() =~= seq![]);
    assert(hours@.take(1).last() == hours@[0]);
    assert(merge_hours(hours@.take(1).drop_last()).len() == 0);
    assert(merge_hours(hours@.take(1)) =~= periods@.push(current));
    let mut i: usize = 1;
    while i < hours.len()
        invariant
            1 <= i <= hours@.len(),
            merge_hours(hours@.take(i as int)) == periods@.push(current),
        decreases hours@.len() - i,
    {
        let hour = &hours[i];
        proof {
            lemma_merge_shape(hours@.take(i as int));
            assert(hours@.take(i + 1).drop_last() =~= hours@.take(i as int));
            assert(periods@.push(current).last() == current);
            assert(current.duration_hours <= i);
        }
        let ghost before = periods@.push(current);
        if current.is_next_hour(hour) {
            current.add_hour(hour);
            assert(before.update(before.len() - 1, before.last().grown_by(*hour)) =~= periods@.push(
                current,
            ));
        } else {
            periods.push(current);
            current = SiteFlyablePeriod::from_hour(hour);
        }
        i = i + 1;
    }
    assert(hours@.take(i as int) =~= hours@);
    periods.push(current);
    periods
}

} // verus!
