//! Flyability forecasts for wind-dependent outdoor activities: unit-aware
//! measures, a day-phase classifier, a per-site flyability predicate, the
//! merging of flyable hours into periods, and the text of the report.

pub mod forecast;
pub mod forecast_client;
pub mod measures;
pub mod notification;
pub mod periods;
pub mod report;
pub mod site;
pub mod text;
