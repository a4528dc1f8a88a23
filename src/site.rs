//! Flying sites, their flyability thresholds, and the notifier's settings.
use crate::forecast::{HourWeatherForecast, TimeOfDay};
use crate::measures::WindSpeed;
use vstd::prelude::*;

verus! {

/// The largest probability of precipitation, in thousandths, that still
/// lets an hour be flown.
pub const MAX_FLYABLE_POP: i32 = 300;

/// A site and the conditions under which it can be flown. Latitude and
/// longitude are in millionths of a degree.
#[derive(Debug)]
pub struct FlyingSite {
    pub name: String,
    pub latitude: i64,
    pub longitude: i64,
    pub min_flyable_wind: WindSpeed,
    pub max_flyable_wind: WindSpeed,
    pub min_flyable_wind_degree: i16,
    pub max_flyable_wind_degree: i16,
}

/// Where the notifications go.
#[derive(Debug)]
pub struct Telegram {
    pub bot_token: String,
    pub chat_ids: Vec<String>,
}

#[derive(Debug)]
pub struct ApplicationConfig {
    pub weather_api_url: String,
    pub weather_api_token: String,
    pub telegram: Telegram,
    pub sites: Vec<FlyingSite>,
}

impl FlyingSite {
    /// Every threshold of the site holds in the hour.
    pub open spec fn flyable(&self, hour: HourWeatherForecast) -> bool {
        &&& hour.pop <= MAX_FLYABLE_POP
        &&& hour.time_of_day == TimeOfDay::DAY
        &&& self.min_flyable_wind_degree <= hour.wind_deg <= self.max_flyable_wind_degree
        &&& self.min_flyable_wind.mps_milli() <= hour.wind_speed.mps_milli()
        &&& hour.wind_speed.mps_milli() <= self.max_flyable_wind.mps_milli()
    }

    pub fn is_flyable(&self, hour: &HourWeatherForecast) -> (r: bool)
        ensures
            r == self.flyable(*hour),
    {
        let speed = hour.wind_speed.meters_per_second();
        !(hour.pop > MAX_FLYABLE_POP || hour.time_of_day != TimeOfDay::DAY
            || self.min_flyable_wind_degree > hour.wind_deg
            || hour.wind_deg > self.max_flyable_wind_degree
            || self.min_flyable_wind.meters_per_second() > speed
            || speed > self.max_flyable_wind.meters_per_second())
    }
}

} // verus!
