//! The forecast service's data as received, and its grouping into days.
use crate::forecast::{
    day_phase, get_time_of_day, DayWeatherForecast, HourWeatherForecast, LocalDate, ZonedTime,
};
use crate::measures::{Temperature, WindSpeed};
use vstd::prelude::*;

verus! {

#[derive(Debug)]
pub struct WeatherEvent {
    pub id: u16,
    pub main: String,
    pub description: String,
}

/// One hour as the service reports it: times in seconds since the Unix
/// epoch, temperatures in thousandths of a degree Celsius, wind speed in
/// thousandths of a meter per second, probability of precipitation in
/// thousandths.
#[derive(Debug)]
pub struct HourlyWeather {
    pub dt: i64,
    pub temp: i32,
    pub feels_like: i32,
    pub wind_speed: i32,
    pub wind_deg: i16,
    pub clouds: i16,
    pub pop: i32,
    pub weather: Vec<WeatherEvent>,
}

#[derive(Debug)]
pub struct DailyWeather {
    pub dt: i64,
    pub sunrise: i64,
    pub sunset: i64,
}

/// A forecast as the service reports it; `timezone_offset` is in seconds
/// east of UTC, `lat` and `lon` in millionths of a degree.
#[derive(Debug)]
pub struct WeatherForecast {
    pub lat: i64,
    pub lon: i64,
    pub timezone: String,
    pub timezone_offset: i32,
    pub daily: Vec<DailyWeather>,
    pub hourly: Vec<HourlyWeather>,
}

/// Where and with which key forecasts are requested.
pub struct OpenWeatherMapClient {
    pub url: String,
    pub app_id: String,
}

impl OpenWeatherMapClient {
    pub fn new(url: String, app_id: String) -> (r: OpenWeatherMapClient)
        ensures
            r.url == url,
            r.app_id == app_id,
    {
        OpenWeatherMapClient { url, app_id }
    }
}

/// The local day of a timestamp in the given offset.
pub open spec fn day_of(timestamp: i64, offset: i32) -> int {
    ZonedTime { timestamp, offset }.local_day()
}

/// A reported hour in the offset of the forecast, classified against the
/// given sunrise and sunset.
pub open spec fn hour_from(h: HourlyWeather, offset: i32, sunrise: i64, sunset: i64) -> HourWeatherForecast {
    HourWeatherForecast {
        time: ZonedTime { timestamp: h.dt, offset },
        time_of_day: day_phase(h.dt as int, sunrise as int, sunset as int),
        temperature: Temperature::C(h.temp),
        feels_like: Temperature::C(h.feels_like),
        wind_speed: WindSpeed::MPS(h.wind_speed),
        wind_deg: h.wind_deg,
        pop: h.pop,
    }
}

/// The reported hours that fall on the local day of `day`, in order,
/// classified against that day's sunrise and sunset.
pub open spec fn hours_of_day(hourly: Seq<HourlyWeather>, offset: i32, day: DailyWeather) -> Seq<
    HourWeatherForecast,
>
    decreases hourly.len(),
{
    if hourly.len() == 0 {
        seq![]
    } else {
        let before = hours_of_day(hourly.drop_last(), offset, day);
        let h = hourly.last();
        if day_of(h.dt, offset) == day_of(day.dt, offset) {
            before.push(hour_from(h, offset, day.sunrise, day.sunset))
        } else {
            before
        }
    }
}

/// No later daily entry falls on the same local day as entry `i`.
pub open spec fn is_last_of_day(daily: Seq<DailyWeather>, offset: i32, i: int) -> bool {
    forall|j: int| i < j < daily.len() ==> day_of(daily[j].dt, offset) != day_of(daily[i].dt, offset)
}

/// The daily entries from `i` on that give a day of the grouped forecast:
/// the last entry of each local day that has at least one reported hour.
pub open spec fn kept_days_from(f: WeatherForecast, i: int) -> Seq<int>
    decreases f.daily@.len() - i,
{
    if i < 0 || i >= f.daily@.len() {
        seq![]
    } else if is_last_of_day(f.daily@, f.timezone_offset, i) && hours_of_day(
        f.hourly@,
        f.timezone_offset,
        f.daily@[i],
    ).len() > 0 {
        seq![i] + kept_days_from(f, i + 1)
    } else {
        kept_days_from(f, i + 1)
    }
}

/// `day` is the day that daily entry `i` of `f` gives.
#[verifier::opaque]
pub open spec fn is_day_of_entry(day: DayWeatherForecast, f: WeatherForecast, i: int) -> bool {
    let entry = f.daily@[i];
    let offset = f.timezone_offset;
    &&& day.date.day == day_of(entry.dt, offset)
    &&& day.date.offset == offset
    &&& day.sunrise == ZonedTime { timestamp: entry.sunrise, offset }
    &&& day.sunset == ZonedTime { timestamp: entry.sunset, offset }
    &&& day.hourly@ == hours_of_day(f.hourly@, offset, entry)
}

fn hour_forecast(h: &HourlyWeather, offset: i32, sunrise: i64, sunset: i64) -> (r:
    HourWeatherForecast)
    ensures
        r == hour_from(*h, offset, sunrise, sunset),
{
    let time = ZonedTime { timestamp: h.dt, offset };
    HourWeatherForecast {
        time,
        time_of_day: get_time_of_day(
            time,
            ZonedTime { timestamp: sunrise, offset },
            ZonedTime { timestamp: sunset, offset },
        ),
        temperature: Temperature::C(h.temp),
        feels_like: Temperature::C(h.feels_like),
        wind_speed: WindSpeed::MPS(h.wind_speed),
        wind_deg: h.wind_deg,
        pop: h.pop,
    }
}

fn collect_hours(f: &WeatherForecast, i: usize) -> (r: Vec<HourWeatherForecast>)
    requires
        i < f.daily@.len(),
    ensures
        r@ == hours_of_day(f.hourly@, f.timezone_offset, f.daily@[i as int]),
{
    let offset = f.timezone_offset;
    let entry = &f.daily[i];
    let day = ZonedTime { timestamp: entry.dt, offset }.day_number();
    let mut hours: Vec<HourWeatherForecast> = Vec::new();
    let mut k: usize = 0;
    while k < f.hourly.len()
        invariant
            i < f.daily@.len(),
            entry == f.daily@[i as int],
            offset == f.timezone_offset,
            day == day_of(entry.dt, offset),
            k <= f.hourly@.len(),
            hours@ == hours_of_day(f.hourly@.take(k as int), offset, *entry),
        decreases f.hourly@.len() - k,
    {
        let h = &f.hourly[k];
        proof {
            assert(f.hourly@.take(k + 1).drop_last() =~= f.hourly@.take(k as int));
            assert(f.hourly@.take(k + 1).last() == f.hourly@[k as int]);
        }
        if (ZonedTime { timestamp: h.dt, offset }).day_number() == day {
            hours.push(hour_forecast(h, offset, entry.sunrise, entry.sunset));
        }
        k = k + 1;
    }
    assert(f.hourly@.take(k as int) =~= f.hourly@);
    hours
}

fn last_of_day(f: &WeatherForecast, i: usize) -> (r: bool)
    requires
        i < f.daily@.len(),
    ensures
        r == is_last_of_day(f.daily@, f.timezone_offset, i as int),
{
    let offset = f.timezone_offset;
    let day = ZonedTime { timestamp: f.daily[i].dt, offset }.day_number();
    let n = f.daily.len();
    let mut j: usize = i + 1;
    while j < n
        invariant
            i < j <= f.daily@.len(),
            n == f.daily@.len(),
            day == day_of(f.daily@[i as int].dt, offset),
            offset == f.timezone_offset,
            forall|m: int| i < m < j ==> day_of(f.daily@[m].dt, offset) != day,
        decreases f.daily@.len() - j,
    {
        if (ZonedTime { timestamp: f.daily[j].dt, offset }).day_number() == day {
            return false;
        }
        j = j + 1;
    }
    true
}

/// Where a day of local day number `d` goes among days in ascending order.
/// `day` is the day of one of the daily entries in `entries`.
pub open spec fn is_day_of_some_entry(day: DayWeatherForecast, f: WeatherForecast, entries: Seq<
    int,
>) -> bool {
    exists|j: int| entries.contains(j) && #[trigger] is_day_of_entry(day, f, j)
}

/// Daily entry `j` gives one of `days`.
pub open spec fn is_entry_of_some_day(j: int, f: WeatherForecast, days: Seq<DayWeatherForecast>) -> bool {
    exists|k: int| 0 <= k < days.len() && #[trigger] is_day_of_entry(days[k], f, j)
}

fn insertion_point(days: &Vec<DayWeatherForecast>, d: i64) -> (p: usize)
    requires
        forall|a: int, b: int|
            0 <= a < b < days@.len() ==> days@[a].date.day < days@[b].date.day,
    ensures
        p <= days@.len(),
        forall|k: int| 0 <= k < p ==> days@[k].date.day < d,
        forall|k: int| p <= k < days@.len() ==> days@[k].date.day >= d,
{
    let mut p: usize = 0;
    while p < days.len() && days[p].date.day < d
        invariant
            p <= days@.len(),
            forall|k: int| 0 <= k < p ==> days@[k].date.day < d,
        decreases days@.len() - p,
    {
        p = p + 1;
    }
    p
}

/// Days indexed both ways by the kept daily entries are exactly the days of
/// those entries.
proof fn lemma_days_cover_kept(
    days: Seq<DayWeatherForecast>,
    f: WeatherForecast,
    kept: Seq<int>,
    idx: Seq<int>,
    pos: Seq<int>,
)
    requires
        idx.len() == days.len(),
        pos.len() == kept.len(),
        forall|k: int|
            0 <= k < idx.len() ==> kept.contains(#[trigger] idx[k]) && is_day_of_entry(
                days[k],
                f,
                idx[k],
            ),
        forall|m: int| 0 <= m < kept.len() ==> 0 <= #[trigger] pos[m] < days.len() && idx[pos[m]] == kept[m],
    ensures
        forall|k: int| 0 <= k < days.len() ==> is_day_of_some_entry(#[trigger] days[k], f, kept),
        forall|j: int| kept.contains(j) ==> #[trigger] is_entry_of_some_day(j, f, days),
{
    assert forall|k: int| 0 <= k < days.len() implies is_day_of_some_entry(
        #[trigger] days[k],
        f,
        kept,
    ) by {
        assert(kept.contains(idx[k]) && is_day_of_entry(days[k], f, idx[k]));
    }
    assert forall|j: int| kept.contains(j) implies #[trigger] is_entry_of_some_day(j, f, days) by {
        let m = choose|m: int| 0 <= m < kept.len() && kept[m] == j;
        assert(idx[pos[m]] == j);
        assert(is_day_of_entry(days[pos[m]], f, j));
    }
}

/// Groups a reported forecast into calendar days in the forecast's offset,
/// in ascending order of date. Each local day of the daily list gives one
/// day, with the sunrise and sunset of its last daily entry and, in order,
/// the reported hours that fall on it; days without hours are left out, and
/// so are hours on a day that the daily list does not hold.
pub fn days_from_forecast(f: &WeatherForecast) -> (r: Vec<DayWeatherForecast>)
    ensures
        r@.len() == kept_days_from(*f, 0).len(),
        forall|a: int, b: int| 0 <= a < b < r@.len() ==> r@[a].date.day < r@[b].date.day,
        forall|k: int|
            0 <= k < r@.len() ==> is_day_of_some_entry(#[trigger] r@[k], *f, kept_days_from(*f, 0)),
        forall|j: int|
            kept_days_from(*f, 0).contains(j) ==> #[trigger] is_entry_of_some_day(j, *f, r@),
{
    let offset = f.timezone_offset;
    let mut days: Vec<DayWeatherForecast> = Vec::new();
    let ghost mut kept: Seq<int> = seq![];
    // `days[k]` is the day of entry `idx[k]`; `kept[m]` is the entry of `days[pos[m]]`.
    let ghost mut idx: Seq<int> = seq![];
    let ghost mut pos: Seq<int> = seq![];
    let mut i: usize = 0;
    while i < f.daily.len()
        invariant
            i <= f.daily@.len(),
            offset == f.timezone_offset,
            kept_days_from(*f, 0) == kept + kept_days_from(*f, i as int),
            days@.len() == kept.len(),
            idx.len() == days@.len(),
            pos.len() == kept.len(),
            forall|k: int|
                0 <= k < idx.len() ==> {
                    &&& 0 <= #[trigger] idx[k] < i
                    &&& is_last_of_day(f.daily@, offset, idx[k])
                    &&& kept.contains(idx[k])
                    &&& is_day_of_entry(days@[k], *f, idx[k])
                    &&& days@[k].date.day == day_of(f.daily@[idx[k]].dt, offset)
                },
            forall|m: int|
                0 <= m < kept.len() ==> 0 <= #[trigger] pos[m] < days@.len() && idx[pos[m]]
                    == kept[m],
            forall|a: int, b: int|
                0 <= a < b < days@.len() ==> days@[a].date.day < days@[b].date.day,
        decreases f.daily@.len() - i,
    {
        let entry = &f.daily[i];
        if last_of_day(f, i) {
            let hours = collect_hours(f, i);
            if hours.len() > 0 {
                let d = ZonedTime { timestamp: entry.dt, offset }.day_number();
                let day = DayWeatherForecast {
                    date: LocalDate { day: d, offset },
                    sunrise: ZonedTime { timestamp: entry.sunrise, offset },
                    sunset: ZonedTime { timestamp: entry.sunset, offset },
                    hourly: hours,
                };
                proof {
                    reveal(is_day_of_entry);
                }
                assert(is_day_of_entry(day, *f, i as int));
                let p = insertion_point(&days, d);
                let ghost old_days = days@;
                proof {
                    assert forall|k: int| 0 <= k < old_days.len() implies old_days[k].date.day
                        != d by {
                        assert(is_last_of_day(f.daily@, offset, idx[k]));
                    }
                    old_days.insert_ensures(p as int, day);
                    idx.insert_ensures(p as int, i as int);
                }
                days.insert(p, day);
                proof {
                    assert(kept.push(i as int) + kept_days_from(*f, i + 1) =~= kept
                        + kept_days_from(*f, i as int));
                    let old_idx = idx;
                    let old_kept = kept;
                    let old_pos = pos;
                    kept = kept.push(i as int);
                    idx = idx.insert(p as int, i as int);
                    pos = old_pos.map_values(|q: int| if q >= p { q + 1 } else { q }).push(
                        p as int,
                    );
                    assert forall|a: int, b: int|
                        0 <= a < b < days@.len() implies days@[a].date.day < days@[b].date.day by {
                        if b <= p {
                        } else if a <= p {
                            assert(days@[b] == old_days[b - 1]);
                        } else {
                            assert(days@[a] == old_days[a - 1]);
                            assert(days@[b] == old_days[b - 1]);
                        }
                    }
                    assert forall|k: int| 0 <= k < idx.len() implies {
                        &&& 0 <= #[trigger] idx[k] < i + 1
                        &&& is_last_of_day(f.daily@, offset, idx[k])
                        &&& kept.contains(idx[k])
                        &&& is_day_of_entry(days@[k], *f, idx[k])
                        &&& days@[k].date.day == day_of(f.daily@[idx[k]].dt, offset)
                    } by {
                        if k == p {
                            assert(kept[old_kept.len() as int] == i);
                        } else {
                            let o = if k < p {
                                k
                            } else {
                                k - 1
                            };
                            assert(idx[k] == old_idx[o]);
                            assert(days@[k] == old_days[o]);
                            let m = choose|m: int|
                                0 <= m < old_kept.len() && old_kept[m] == old_idx[o];
                            assert(kept[m] == idx[k]);
                        }
                    }
                    assert forall|m: int| 0 <= m < kept.len() implies 0 <= #[trigger] pos[m]
                        < days@.len() && idx[pos[m]] == kept[m] by {
                        if m < old_kept.len() {
                            let q = old_pos[m];
                            if q >= p {
                                assert(idx[q + 1] == old_idx[q]);
                            } else {
                                assert(idx[q] == old_idx[q]);
                            }
                        }
                    }
                }
            }
        }
        i = i + 1;
    }
    assert(kept_days_from(*f, i as int) =~= seq![]);
    assert(kept =~= kept_days_from(*f, 0));
    proof {
        lemma_days_cover_kept(days@, *f, kept, idx, pos);
    }
    days
}

} // verus!
