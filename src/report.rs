//! Per-site flyability reports: choosing tomorrow's forecast, filtering and
//! merging its flyable hours, and rendering the result as text.
use crate::forecast::{DayWeatherForecast, HourWeatherForecast, ZonedTime, SECONDS_PER_DAY};
use crate::measures::{round_div, round_div_i64};
use crate::periods::{merge_flyable_hours, merge_hours, SiteFlyablePeriod};
use crate::site::FlyingSite;
use crate::text::{clock_text, nat_text, push_clock, push_nat, push_tenths, tenths_text};
use vstd::prelude::*;

verus! {

/// The flyable periods of one site for one day.
#[derive(Debug)]
pub struct SiteFlyAbilityReport {
    pub site: FlyingSite,
    pub periods: Vec<SiteFlyablePeriod>,
}

/// The start and length of a period in its report line.
pub open spec fn period_time_text(p: SiteFlyablePeriod) -> Seq<char> {
    "\n- Starting at "@ + clock_text(p.start.second_of_day() as nat) + " for "@ + nat_text(
        p.duration_hours as nat,
    ) + " hours."@
}

/// The wind speed range of a period, in miles per hour.
pub open spec fn period_wind_text(p: SiteFlyablePeriod) -> Seq<char> {
    " Wind from "@ + tenths_text(round_div(p.wind_min.mph_milli(), 100)) + " to "@ + tenths_text(
        round_div(p.wind_max.mph_milli(), 100),
    ) + " MPH."@
}

/// The wind direction range of a period, in degrees.
pub open spec fn period_direction_text(p: SiteFlyablePeriod) -> Seq<char> {
    " Direction from "@ + tenths_text(p.wind_degree_min * 10) + " to "@ + tenths_text(
        p.wind_degree_max * 10,
    ) + " degrees."@
}

/// The temperature range of a period, in degrees Fahrenheit.
pub open spec fn period_temperature_text(p: SiteFlyablePeriod) -> Seq<char> {
    " Temperature from "@ + tenths_text(round_div(p.temp_min.fahrenheit_milli(), 100)) + "F to "@
        + tenths_text(round_div(p.temp_max.fahrenheit_milli(), 100)) + "F"@
}

/// The report line of one period: start time, length, and the wind speed
/// (miles per hour), wind direction (degrees) and temperature (Fahrenheit)
/// ranges, each with one decimal place.
pub open spec fn period_text(p: SiteFlyablePeriod) -> Seq<char> {
    period_time_text(p) + period_wind_text(p) + period_direction_text(p)
        + period_temperature_text(p)
}

/// The lines of the periods, in order.
pub open spec fn periods_text(ps: Seq<SiteFlyablePeriod>) -> Seq<char>
    decreases ps.len(),
{
    if ps.len() == 0 {
        seq![]
    } else {
        periods_text(ps.drop_last()) + period_text(ps.last())
    }
}

/// The text of a report: a heading with the site's name, then one line per
/// period.
pub open spec fn report_text(r: SiteFlyAbilityReport) -> Seq<char> {
    r.site.name@ + " is flyable tomorrow:"@ + periods_text(r.periods@)
}

/// The texts of the reports, one after the other.
pub open spec fn reports_text(rs: Seq<SiteFlyAbilityReport>) -> Seq<char>
    decreases rs.len(),
{
    if rs.len() == 0 {
        seq![]
    } else {
        reports_text(rs.drop_last()) + report_text(rs.last())
    }
}

fn push_period_time(s: &mut String, p: &SiteFlyablePeriod)
    ensures
        final(s)@ == old(s)@ + period_time_text(*p),
{
    s.append("\n- Starting at ");
    let second = p.start.seconds_since_midnight();
    push_clock(s, second as u64);
    s.append(" for ");
    push_nat(s, p.duration_hours);
    s.append(" hours.");
    assert(final(s)@ =~= old(s)@ + period_time_text(*p));
}

fn push_period_wind(s: &mut String, p: &SiteFlyablePeriod)
    ensures
        final(s)@ == old(s)@ + period_wind_text(*p),
{
    s.append(" Wind from ");
    push_tenths(s, round_div_i64(p.wind_min.miles_per_hour(), 100));
    s.append(" to ");
    push_tenths(s, round_div_i64(p.wind_max.miles_per_hour(), 100));
    s.append(" MPH.");
    assert(final(s)@ =~= old(s)@ + period_wind_text(*p));
}

fn push_period_direction(s: &mut String, p: &SiteFlyablePeriod)
    ensures
        final(s)@ == old(s)@ + period_direction_text(*p),
{
    s.append(" Direction from ");
    push_tenths(s, p.wind_degree_min as i64 * 10);
    s.append(" to ");
    push_tenths(s, p.wind_degree_max as i64 * 10);
    s.append(" degrees.");
    assert(final(s)@ =~= old(s)@ + period_direction_text(*p));
}

fn push_period_temperature(s: &mut String, p: &SiteFlyablePeriod)
    ensures
        final(s)@ == old(s)@ + period_temperature_text(*p),
{
    s.append(" Temperature from ");
    push_tenths(s, round_div_i64(p.temp_min.fahrenheit(), 100));
    s.append("F to ");
    push_tenths(s, round_div_i64(p.temp_max.fahrenheit(), 100));
    s.append("F");
    assert(final(s)@ =~= old(s)@ + period_temperature_text(*p));
}

fn push_period(s: &mut String, p: &SiteFlyablePeriod)
    ensures
        final(s)@ == old(s)@ + period_text(*p),
{
    push_period_time(s, p);
    push_period_wind(s, p);
    push_period_direction(s, p);
    push_period_temperature(s, p);
    assert(final(s)@ =~= old(s)@ + period_text(*p));
}

impl SiteFlyAbilityReport {
    pub fn as_string(&self) -> (r: String)
        ensures
            r@ == report_text(*self),
    {
        let mut repr = self.site.name.clone();
        repr.append(" is flyable tomorrow:");
        let mut i: usize = 0;
        while i < self.periods.len()
            invariant
                i <= self.periods@.len(),
                repr@ == self.site.name@ + " is flyable tomorrow:"@ + periods_text(
                    self.periods@.take(i as int),
                ),
            decreases self.periods@.len() - i,
        {
            push_period(&mut repr, &self.periods[i]);
            proof {
                assert(self.periods@.take(i + 1).drop_last() =~= self.periods@.take(i as int));
            }
            i = i + 1;
            assert(repr@ =~= self.site.name@ + " is flyable tomorrow:"@ + periods_text(
                self.periods@.take(i as int),
            ));
        }
        assert(self.periods@.take(i as int) =~= self.periods@);
        repr
    }
}

/// Rendering is a function of the report alone: two texts that `as_string`
/// gives for the same report are identical.
pub proof fn lemma_report_text_repeatable(r: SiteFlyAbilityReport, first: String, second: String)
    requires
        first@ == report_text(r),
        second@ == report_text(r),
    ensures
        first@ == second@,
{
}

/// The message that carries all the reports.
pub fn compose_message(reports: &Vec<SiteFlyAbilityReport>) -> (r: String)
    ensures
        r@ == reports_text(reports@),
{
    let mut message = String::new();
    let mut i: usize = 0;
    while i < reports.len()
        invariant
            i <= reports@.len(),
            message@ == reports_text(reports@.take(i as int)),
        decreases reports@.len() - i,
    {
        let text = reports[i].as_string();
        message.append(text.as_str());
        proof {
            assert(reports@.take(i + 1).drop_last() =~= reports@.take(i as int));
        }
        i = i + 1;
    }
    assert(reports@.take(i as int) =~= reports@);
    message
}

/// The hours of `hours` that the site can be flown in, in order.
pub open spec fn flyable_hours(site: FlyingSite, hours: Seq<HourWeatherForecast>) -> Seq<
    HourWeatherForecast,
>
    decreases hours.len(),
{
    if hours.len() == 0 {
        seq![]
    } else if site.flyable(hours.last()) {
        flyable_hours(site, hours.drop_last()).push(hours.last())
    } else {
        flyable_hours(site, hours.drop_last())
    }
}

/// The local day after the one that holds `now`, in the UTC offset `offset`.
pub open spec fn day_after(now: int, offset: int) -> int {
    (now + offset) / (SECONDS_PER_DAY as int) + 1
}

/// `days[k]` is the first forecast of day `d`.
pub open spec fn is_first_on_day(days: Seq<DayWeatherForecast>, k: int, d: int) -> bool {
    &&& 0 <= k < days.len()
    &&& days[k].date.day == d
    &&& forall|j: int| 0 <= j < k ==> days[j].date.day != d
}

/// `r` is the report of `site` made at `now` from `forecasts`: it covers the
/// first forecast of the day after `now` (in the offset of the first
/// forecast), and exists exactly when that forecast has a flyable hour.
pub open spec fn is_site_report(
    forecasts: Seq<DayWeatherForecast>,
    site: FlyingSite,
    now: int,
    r: Option<SiteFlyAbilityReport>,
) -> bool {
    if forecasts.len() == 0 {
        r is None
    } else {
        let d = day_after(now, forecasts[0].date.offset as int);
        match r {
            Some(rep) => exists|k: int|
                #[trigger] is_first_on_day(forecasts, k, d) && flyable_hours(
                    site,
                    forecasts[k].hourly@,
                ).len() > 0 && rep.site == site && rep.periods@ == merge_hours(
                    flyable_hours(site, forecasts[k].hourly@),
                ),
            None => forall|k: int|
                #[trigger] is_first_on_day(forecasts, k, d) ==> flyable_hours(
                    site,
                    forecasts[k].hourly@,
                ).len() == 0,
        }
    }
}

/// The hours of `hours` that the site can be flown in.
pub fn select_flyable_hours(site: &FlyingSite, hours: &Vec<HourWeatherForecast>) -> (r: Vec<
    HourWeatherForecast,
>)
    ensures
        r@ == flyable_hours(*site, hours@),
{
    let mut flying: Vec<HourWeatherForecast> = Vec::new();
    let mut i: usize = 0;
    while i < hours.len()
        invariant
            i <= hours@.len(),
            flying@ == flyable_hours(*site, hours@.take(i as int)),
        decreases hours@.len() - i,
    {
        proof {
            assert(hours@.take(i + 1).drop_last() =~= hours@.take(i as int));
            assert(hours@.take(i + 1).last() == hours@[i as int]);
        }
        if site.is_flyable(&hours[i]) {
            flying.push(hours[i]);
        }
        i = i + 1;
    }
    assert(hours@.take(i as int) =~= hours@);
    flying
}

/// The report of `site` for the day after `now` (seconds since the Unix
/// epoch), or none when there is no forecast for that day or no hour of it
/// can be flown.
pub fn prepare_report_for_site_at(
    forecasts: Vec<DayWeatherForecast>,
    site: FlyingSite,
    now: i64,
) -> (r: Option<SiteFlyAbilityReport>)
    ensures
        is_site_report(forecasts@, site, now as int, r),
{
    if forecasts.len() == 0 {
        return None;
    }
    let offset = forecasts[0].date.offset;
    let today = ZonedTime { timestamp: now, offset }.day_number();
    let tomorrow = today + 1;
    let ghost d = day_after(now as int, offset as int);
    let mut i: usize = 0;
    while i < forecasts.len() && forecasts[i].date.day != tomorrow
        invariant
            i <= forecasts@.len(),
            tomorrow == d,
            forall|j: int| 0 <= j < i ==> forecasts@[j].date.day != d,
        decreases forecasts@.len() - i,
    {
        i = i + 1;
    }
    if i == forecasts.len() {
        assert(forall|k: int| !is_first_on_day(forecasts@, k, d));
        return None;
    }
    assert(is_first_on_day(forecasts@, i as int, d));
    let flying = select_flyable_hours(&site, &forecasts[i].hourly);
    if flying.len() == 0 {
        assert(forall|k: int| is_first_on_day(forecasts@, k, d) ==> k == i);
        return None;
    }
    let periods = merge_flyable_hours(&flying);
    Some(SiteFlyAbilityReport { site, periods })
}

/// Relies on chrono::Utc::now: the current instant, read as whole seconds
/// since the Unix epoch by `DateTime::timestamp`.
#[verifier::external_body]
fn current_timestamp() -> (r: i64) {
    chrono::Utc::now().timestamp()
}

/// The report of `site` for tomorrow, as the clock tells it.
pub fn prepare_report_for_site(forecasts: Vec<DayWeatherForecast>, site: FlyingSite) -> (r:
    Option<SiteFlyAbilityReport>)
    ensures
        exists|now: i64| is_site_report(forecasts@, site, now as int, r),
{
    let now = current_timestamp();
    let ghost days = forecasts@;
    let ghost s = site;
    let r = prepare_report_for_site_at(forecasts, site, now);
    assert(is_site_report(days, s, now as int, r));
    r
}

} // verus!
