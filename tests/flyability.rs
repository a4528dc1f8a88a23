use flyable_forecast::forecast::{
    get_time_of_day, DayWeatherForecast, HourWeatherForecast, LocalDate, TimeOfDay, ZonedTime,
};
use flyable_forecast::forecast_client::{
    days_from_forecast, DailyWeather, HourlyWeather, OpenWeatherMapClient, WeatherForecast,
};
use flyable_forecast::measures::{Temperature, WindSpeed};
use flyable_forecast::notification::TelegramClient;
use flyable_forecast::periods::{merge_flyable_hours, SiteFlyablePeriod};
use flyable_forecast::report::{
    compose_message, prepare_report_for_site, prepare_report_for_site_at, select_flyable_hours,
    SiteFlyAbilityReport,
};
use flyable_forecast::site::FlyingSite;

const HOUR: i64 = 3600;
const DAY: i64 = 86400;

fn at(seconds: i64) -> ZonedTime {
    ZonedTime { timestamp: seconds, offset: 0 }
}

fn hour(time: i64, wind_mps: i32, deg: i16, temp_c: i32) -> HourWeatherForecast {
    HourWeatherForecast {
        time: at(time),
        time_of_day: TimeOfDay::DAY,
        temperature: Temperature::C(temp_c),
        feels_like: Temperature::C(temp_c),
        wind_speed: WindSpeed::MPS(wind_mps),
        wind_deg: deg,
        pop: 100,
    }
}

fn site() -> FlyingSite {
    FlyingSite {
        name: String::from("Hill"),
        latitude: 45_000_000,
        longitude: 7_000_000,
        min_flyable_wind: WindSpeed::MPS(2_000),
        max_flyable_wind: WindSpeed::MPS(8_000),
        min_flyable_wind_degree: 180,
        max_flyable_wind_degree: 270,
    }
}

#[test]
fn wind_speeds_in_different_units_compare_equal() {
    assert!(WindSpeed::MPH(10_000) == WindSpeed::KMPH(16_093));
    assert!(WindSpeed::MPH(10_000) != WindSpeed::KMPH(16_200));
    assert!(WindSpeed::MPS(1_000) < WindSpeed::MPH(3_000));
}

#[test]
fn wind_speed_round_trip_through_meters_per_second() {
    let w = WindSpeed::MPH(10_000);
    let mps = w.meters_per_second();
    assert_eq!(mps, 4_470);
    let back = WindSpeed::MPS(mps as i32).miles_per_hour();
    assert!((back - 10_000).abs() <= 1);
    let k = WindSpeed::KMPH(25_000);
    let back_k = WindSpeed::MPS(k.meters_per_second() as i32).kilometers_per_second();
    assert!((back_k - 25_000).abs() <= 2);
    assert_eq!(WindSpeed::MPS(10_000).kilometers_per_second(), 36_000);
    assert_eq!(WindSpeed::KMPH(36_000).meters_per_second(), 10_000);
    assert_eq!(WindSpeed::MPS(-1_000).miles_per_hour(), -2_237);
}

#[test]
fn temperature_conversions() {
    assert_eq!(Temperature::C(0).fahrenheit(), 32_000);
    assert_eq!(Temperature::C(100_000).fahrenheit(), 212_000);
    assert_eq!(Temperature::F(212_000).celsius(), 100_000);
    assert_eq!(Temperature::F(0).celsius(), -17_778);
    assert!(Temperature::C(100_000) == Temperature::F(212_000));
    assert!(Temperature::C(-40_000) == Temperature::F(-40_000));
    assert!(Temperature::C(20_000) > Temperature::F(60_000));
}

const SUNRISE: i64 = 6 * HOUR;
const SUNSET: i64 = 20 * HOUR;

fn phase(start: i64) -> TimeOfDay {
    get_time_of_day(at(start), at(SUNRISE), at(SUNSET))
}

#[test]
fn day_phase_near_sunset() {
    assert_eq!(phase(19 * HOUR + 50 * 60), TimeOfDay::NIGHT);
    assert_eq!(phase(19 * HOUR + 20 * 60), TimeOfDay::TWILIGHT);
    assert_eq!(phase(19 * HOUR), TimeOfDay::DAY);
    assert_eq!(phase(19 * HOUR + 46 * 60), TimeOfDay::TWILIGHT);
    assert_eq!(phase(20 * HOUR), TimeOfDay::NIGHT);
}

#[test]
fn day_phase_near_sunrise_and_away_from_boundaries() {
    assert_eq!(phase(5 * HOUR + 50 * 60), TimeOfDay::DAY);
    assert_eq!(phase(5 * HOUR + 20 * 60), TimeOfDay::TWILIGHT);
    assert_eq!(phase(5 * HOUR + 10 * 60), TimeOfDay::NIGHT);
    assert_eq!(phase(5 * HOUR), TimeOfDay::NIGHT);
    assert_eq!(phase(6 * HOUR), TimeOfDay::DAY);
    assert_eq!(phase(12 * HOUR), TimeOfDay::DAY);
    assert_eq!(phase(23 * HOUR), TimeOfDay::NIGHT);
    assert_eq!(phase(2 * HOUR), TimeOfDay::NIGHT);
}

#[test]
fn flyability_rejects_on_wind_speed_alone() {
    let s = site();
    let mut h = hour(12 * HOUR, 9_000, 200, 15_000);
    assert!(!s.is_flyable(&h));
    h.wind_speed = WindSpeed::MPS(5_000);
    assert!(s.is_flyable(&h));
}

#[test]
fn flyability_rejects_on_each_other_threshold() {
    let s = site();
    let good = hour(12 * HOUR, 5_000, 200, 15_000);
    assert!(s.is_flyable(&good));
    let mut h = good;
    h.pop = 301;
    assert!(!s.is_flyable(&h));
    h.pop = 300;
    assert!(s.is_flyable(&h));
    let mut h = good;
    h.time_of_day = TimeOfDay::TWILIGHT;
    assert!(!s.is_flyable(&h));
    let mut h = good;
    h.wind_deg = 271;
    assert!(!s.is_flyable(&h));
    h.wind_deg = 270;
    assert!(s.is_flyable(&h));
    let mut h = good;
    h.wind_speed = WindSpeed::MPS(1_999);
    assert!(!s.is_flyable(&h));
    h.wind_speed = WindSpeed::KMPH(7_200);
    assert!(s.is_flyable(&h));
}

#[test]
fn merging_splits_at_a_gap() {
    let hours = vec![
        hour(8 * HOUR, 3_000, 200, 15_000),
        hour(9 * HOUR, 5_000, 190, 17_000),
        hour(10 * HOUR, 4_000, 230, 16_000),
        hour(12 * HOUR, 6_000, 210, 18_000),
        hour(13 * HOUR, 2_000, 250, 14_000),
    ];
    let periods = merge_flyable_hours(&hours);
    assert_eq!(periods.len(), 2);
    assert_eq!(periods[0].start.timestamp, 8 * HOUR);
    assert_eq!(periods[0].duration_hours, 3);
    assert_eq!(periods[1].start.timestamp, 12 * HOUR);
    assert_eq!(periods[1].duration_hours, 2);
    assert!(periods[0].wind_min == WindSpeed::MPS(3_000));
    assert!(periods[0].wind_max == WindSpeed::MPS(5_000));
    assert_eq!(periods[0].wind_degree_min, 190);
    assert_eq!(periods[0].wind_degree_max, 230);
    assert!(periods[0].temp_min == Temperature::C(15_000));
    assert!(periods[0].temp_max == Temperature::C(17_000));
}

#[test]
fn merging_nothing_gives_nothing() {
    let periods = merge_flyable_hours(&vec![]);
    assert!(periods.is_empty());
}

fn day_forecast(day: i64, hours: Vec<HourWeatherForecast>) -> DayWeatherForecast {
    DayWeatherForecast {
        date: LocalDate { day, offset: 0 },
        sunrise: at(day * DAY + SUNRISE),
        sunset: at(day * DAY + SUNSET),
        hourly: hours,
    }
}

#[test]
fn report_is_none_without_flyable_hours() {
    let now = 10 * DAY + 12 * HOUR;
    let stormy = vec![hour(11 * DAY + 12 * HOUR, 12_000, 200, 15_000)];
    let forecasts = vec![day_forecast(11, stormy)];
    assert!(prepare_report_for_site_at(forecasts, site(), now).is_none());
    assert!(prepare_report_for_site_at(vec![], site(), now).is_none());
    let only_today = vec![day_forecast(10, vec![hour(10 * DAY + 13 * HOUR, 5_000, 200, 15_000)])];
    assert!(prepare_report_for_site_at(only_today, site(), now).is_none());
    let s = site();
    assert!(select_flyable_hours(&s, &vec![]).is_empty());
}

#[test]
fn report_covers_tomorrow() {
    let now = 10 * DAY + 12 * HOUR;
    let today = day_forecast(10, vec![hour(10 * DAY + 13 * HOUR, 5_000, 200, 15_000)]);
    let tomorrow = day_forecast(
        11,
        vec![
            hour(11 * DAY + 8 * HOUR, 3_000, 200, 15_000),
            hour(11 * DAY + 9 * HOUR, 9_000, 200, 15_000),
            hour(11 * DAY + 10 * HOUR, 4_000, 220, 16_000),
            hour(11 * DAY + 11 * HOUR, 5_000, 240, 17_000),
        ],
    );
    let report = prepare_report_for_site_at(vec![today, tomorrow], site(), now).unwrap();
    assert_eq!(report.site.name, "Hill");
    assert_eq!(report.periods.len(), 2);
    assert_eq!(report.periods[0].duration_hours, 1);
    assert_eq!(report.periods[1].start.timestamp, 11 * DAY + 10 * HOUR);
    assert_eq!(report.periods[1].duration_hours, 2);
}

#[test]
fn report_from_the_clock_skips_a_forecast_of_long_ago() {
    let old = day_forecast(3, vec![hour(3 * DAY + 12 * HOUR, 5_000, 200, 15_000)]);
    assert!(prepare_report_for_site(vec![old], site()).is_none());
}

fn sample_report() -> SiteFlyAbilityReport {
    SiteFlyAbilityReport {
        site: site(),
        periods: vec![SiteFlyablePeriod {
            start: ZonedTime { timestamp: 11 * DAY + 6 * HOUR, offset: 2 * 3600 },
            duration_hours: 3,
            wind_min: WindSpeed::MPS(2_000),
            wind_max: WindSpeed::MPS(4_000),
            wind_degree_min: 200,
            wind_degree_max: 250,
            temp_min: Temperature::C(15_000),
            temp_max: Temperature::C(20_500),
        }],
    }
}

#[test]
fn report_text_has_one_line_per_period() {
    let text = sample_report().as_string();
    assert_eq!(
        text,
        "Hill is flyable tomorrow:\n- Starting at 08:00 for 3 hours. Wind from 4.5 to 8.9 MPH. \
         Direction from 200.0 to 250.0 degrees. Temperature from 59.0F to 68.9F"
    );
}

#[test]
fn report_text_of_negative_values() {
    let mut r = sample_report();
    r.periods[0].temp_min = Temperature::C(-20_000);
    r.periods[0].wind_degree_min = -5;
    r.periods[0].start = ZonedTime { timestamp: 11 * DAY + 30 * 60, offset: -3600 };
    let text = r.as_string();
    assert!(text.contains("Starting at 23:30"));
    assert!(text.contains("Temperature from -4.0F to 68.9F"));
    assert!(text.contains("Direction from -5.0 to 250.0"));
}

#[test]
fn formatting_twice_gives_the_same_text() {
    let r = sample_report();
    assert_eq!(r.as_string(), r.as_string());
}

#[test]
fn message_joins_the_reports() {
    let a = sample_report();
    let mut b = sample_report();
    b.site.name = String::from("Dune");
    b.periods.clear();
    let message = compose_message(&vec![a, b]);
    assert_eq!(message, format!("{}Dune is flyable tomorrow:", sample_report().as_string()));
    assert_eq!(compose_message(&vec![]), "");
}

fn raw_hour(dt: i64, wind: i32) -> HourlyWeather {
    HourlyWeather {
        dt,
        temp: 15_000,
        feels_like: 14_000,
        wind_speed: wind,
        wind_deg: 200,
        clouds: 10,
        pop: 0,
        weather: vec![],
    }
}

#[test]
fn forecast_is_grouped_by_local_day() {
    let offset = 3600;
    let f = WeatherForecast {
        lat: 45_000_000,
        lon: 7_000_000,
        timezone: String::from("Europe/Zurich"),
        timezone_offset: offset,
        daily: vec![
            DailyWeather { dt: 11 * DAY + 11 * HOUR, sunrise: 11 * DAY + 5 * HOUR, sunset: 11 * DAY + 19 * HOUR },
            DailyWeather { dt: 12 * DAY + 11 * HOUR, sunrise: 0, sunset: 0 },
            DailyWeather { dt: 12 * DAY + 10 * HOUR, sunrise: 12 * DAY + 5 * HOUR, sunset: 12 * DAY + 19 * HOUR },
            DailyWeather { dt: 13 * DAY + 11 * HOUR, sunrise: 13 * DAY + 5 * HOUR, sunset: 13 * DAY + 19 * HOUR },
        ],
        hourly: vec![
            raw_hour(11 * DAY + 22 * HOUR, 1_000),
            raw_hour(11 * DAY + 23 * HOUR, 2_000),
            raw_hour(12 * DAY + 11 * HOUR, 3_000),
            raw_hour(20 * DAY, 4_000),
        ],
    };
    let days = days_from_forecast(&f);
    assert_eq!(days.len(), 2);
    assert_eq!(days[0].date.day, 11);
    assert_eq!(days[0].hourly.len(), 1);
    assert_eq!(days[0].hourly[0].time_of_day, TimeOfDay::NIGHT);
    assert_eq!(days[1].date.day, 12);
    assert_eq!(days[1].sunrise.timestamp, 12 * DAY + 5 * HOUR);
    assert_eq!(days[1].hourly.len(), 2);
    assert_eq!(days[1].hourly[0].time.timestamp, 11 * DAY + 23 * HOUR);
    assert_eq!(days[1].hourly[1].time_of_day, TimeOfDay::DAY);
    assert!(days[1].hourly[1].wind_speed == WindSpeed::MPS(3_000));
}

#[test]
fn clients_hold_their_addresses() {
    let t = TelegramClient::new(String::from("SECRET-REDACTED"));
    assert_eq!(t.url, "https://api.telegram.org/botSECRET-REDACTED/sendMessage");
    let w = OpenWeatherMapClient::new(String::from("https://example.org/onecall"), String::from("key"));
    assert_eq!(w.url, "https://example.org/onecall");
    assert_eq!(w.app_id, "key");
}

#[test]
fn grouped_days_come_in_date_order() {
    let f = WeatherForecast {
        lat: 0,
        lon: 0,
        timezone: String::from("UTC"),
        timezone_offset: 0,
        daily: vec![
            DailyWeather { dt: 13 * DAY + 12 * HOUR, sunrise: 13 * DAY + SUNRISE, sunset: 13 * DAY + SUNSET },
            DailyWeather { dt: 11 * DAY + 12 * HOUR, sunrise: 11 * DAY + SUNRISE, sunset: 11 * DAY + SUNSET },
            DailyWeather { dt: 12 * DAY + 12 * HOUR, sunrise: 12 * DAY + SUNRISE, sunset: 12 * DAY + SUNSET },
        ],
        hourly: vec![
            raw_hour(11 * DAY + 12 * HOUR, 1_000),
            raw_hour(12 * DAY + 12 * HOUR, 2_000),
            raw_hour(13 * DAY + 12 * HOUR, 3_000),
        ],
    };
    let days = days_from_forecast(&f);
    let dates: Vec<i64> = days.iter().map(|d| d.date.day).collect();
    assert_eq!(dates, vec![11, 12, 13]);
    assert!(days[2].hourly[0].wind_speed == WindSpeed::MPS(3_000));
    assert_eq!(days[0].sunset.timestamp, 11 * DAY + SUNSET);
}
