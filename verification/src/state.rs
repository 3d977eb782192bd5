use vstd::prelude::*;

use crate::clock::ClockTime;
use crate::weather::WeatherCondition;

verus! {

/// What the screen shows: the latest forecast readings, the clock reading
/// and whether the device is on the network.
#[derive(Clone, Debug)]
pub struct ApplicationState {
    pub temperature_cur: i8,
    pub temperature_min: i8,
    pub temperature_max: i8,
    /// Chance of precipitation for each hour of the day, in percent.
    pub rain_probability: Vec<u8>,
    pub weather_condition: WeatherCondition,
    pub time: ClockTime,
    pub is_wifi_connected: bool,
}

/// One forecast, as the forecast service reports it, with each temperature
/// already converted to a whole number of degrees.
#[derive(Clone, Debug)]
pub struct WeatherReport {
    pub current_temperature: i8,
    /// Daily maxima; the first is today's.
    pub daily_max: Vec<i8>,
    /// Daily minima; the first is today's.
    pub daily_min: Vec<i8>,
    /// Daily WMO weather codes; the first is today's.
    pub daily_weather_code: Vec<u8>,
    /// Hourly chance of precipitation, in percent.
    pub hourly_precipitation_probability: Vec<u8>,
}

/// Why a report could not be taken over whole.
#[derive(Clone, Copy, Debug, PartialEq, Eq, Structural)]
pub enum ReportError {
    /// The report has no daily minimum.
    MissingMinimum,
    /// The report has no daily maximum.
    MissingMaximum,
    /// The report has no daily weather code.
    MissingWeatherCode,
}

/// The hourly precipitation chances shown before the first report arrives.
pub open spec fn default_rain_probability() -> Seq<u8> {
    seq![
        10u8, 20, 30, 50, 70, 50, 70, 80, 90, 100, 90, 80,
        10, 20, 30, 40, 50, 60, 70, 80, 90, 100, 90, 80,
    ]
}

/// Milliseconds the network worker waits between two rounds.
pub const REQUEST_INTERVAL_MS: u32 = 10_000;

/// What the network worker does in one round, given whether the device is
/// on the network.
#[derive(Clone, Copy, Debug, PartialEq, Eq, Structural)]
pub struct PollPlan {
    /// Ask the access point to connect again.
    pub reconnect: bool,
    /// Fetch a forecast and take it over.
    pub fetch: bool,
}

/// The round's plan: reconnect when off the network, fetch when on it.
pub fn plan_poll(connected: bool) -> (p: PollPlan)
    ensures
        p.reconnect == !connected,
        p.fetch == connected,
{
    PollPlan { reconnect: !connected, fetch: connected }
}

impl ApplicationState {
    /// The state after applying `report` to `self`: the fields are taken over
    /// in the order current temperature, minimum, maximum, weather condition
    /// and hourly chances, and taking over stops at the first list of the
    /// report that is empty; the fields before it keep their new values.
    pub open spec fn after_report(self, report: WeatherReport) -> ApplicationState {
        let s1 = ApplicationState { temperature_cur: report.current_temperature, ..self };
        if report.daily_min@.len() == 0 {
            s1
        } else {
            let s2 = ApplicationState { temperature_min: report.daily_min@[0], ..s1 };
            if report.daily_max@.len() == 0 {
                s2
            } else {
                let s3 = ApplicationState { temperature_max: report.daily_max@[0], ..s2 };
                if report.daily_weather_code@.len() == 0 {
                    s3
                } else {
                    ApplicationState {
                        weather_condition: crate::weather::condition_of_code(
                            report.daily_weather_code@[0],
                        ),
                        rain_probability: report.hourly_precipitation_probability,
                        ..s3
                    }
                }
            }
        }
    }

    /// The outcome of applying `report`: success exactly when each daily list
    /// has a first entry, else the first list found empty.
    pub open spec fn report_outcome(report: WeatherReport) -> Result<(), ReportError> {
        if report.daily_min@.len() == 0 {
            Err(ReportError::MissingMinimum)
        } else if report.daily_max@.len() == 0 {
            Err(ReportError::MissingMaximum)
        } else if report.daily_weather_code@.len() == 0 {
            Err(ReportError::MissingWeatherCode)
        } else {
            Ok(())
        }
    }

    /// Two states hold the same values; the chance lists are compared by
    /// their contents.
    pub open spec fn same_as(self, other: ApplicationState) -> bool {
        &&& self.temperature_cur == other.temperature_cur
        &&& self.temperature_min == other.temperature_min
        &&& self.temperature_max == other.temperature_max
        &&& self.rain_probability@ == other.rain_probability@
        &&& self.weather_condition == other.weather_condition
        &&& self.time == other.time
        &&& self.is_wifi_connected == other.is_wifi_connected
    }

    /// Takes over a forecast report (see `after_report` and `report_outcome`).
    pub fn apply_report(&mut self, report: &WeatherReport) -> (r: Result<(), ReportError>)
        ensures
            final(self).same_as(old(self).after_report(*report)),
            r == Self::report_outcome(*report),
            final(self).temperature_cur == report.current_temperature,
            (report.daily_min@.len() > 0 && report.daily_max@.len() > 0
                && report.daily_weather_code@.len() > 0) ==> {
                &&& r is Ok
                &&& final(self).temperature_min == report.daily_min@[0]
                &&& final(self).temperature_max == report.daily_max@[0]
                &&& final(self).weather_condition == crate::weather::condition_of_code(
                    report.daily_weather_code@[0],
                )
                &&& final(self).rain_probability@ == report.hourly_precipitation_probability@
            },
            report.daily_min@.len() == 0 ==> r == Err::<(), ReportError>(ReportError::MissingMinimum),
            (report.daily_min@.len() > 0 && report.daily_max@.len() == 0) ==> r == Err::<(), ReportError>(
                ReportError::MissingMaximum,
            ),
            (report.daily_min@.len() > 0 && report.daily_max@.len() > 0
                && report.daily_weather_code@.len() == 0) ==> r == Err::<(), ReportError>(
                ReportError::MissingWeatherCode,
            ),
            final(self).time == old(self).time,
            final(self).is_wifi_connected == old(self).is_wifi_connected,
    {
        self.temperature_cur = report.current_temperature;
        if report.daily_min.len() == 0 {
            return Err(ReportError::MissingMinimum);
        }
        self.temperature_min = report.daily_min[0];
        if report.daily_max.len() == 0 {
            return Err(ReportError::MissingMaximum);
        }
        self.temperature_max = report.daily_max[0];
        if report.daily_weather_code.len() == 0 {
            return Err(ReportError::MissingWeatherCode);
        }
        self.weather_condition = WeatherCondition::from_code(report.daily_weather_code[0]);
        self.rain_probability = report.hourly_precipitation_probability.clone();
        Ok(())
    }

    /// Records whether the device is on the network.
    pub fn record_connectivity(&mut self, connected: bool)
        ensures
            final(self).same_as(ApplicationState { is_wifi_connected: connected, ..*old(self) }),
    {
        self.is_wifi_connected = connected;
    }
}

/// Applying the same report a second time changes nothing.
pub proof fn lemma_report_idempotent(s: ApplicationState, report: WeatherReport)
    ensures
        s.after_report(report).after_report(report) == s.after_report(report),
{
}

/// A report never touches the clock reading or the network status.
pub proof fn lemma_report_keeps_clock_and_network(s: ApplicationState, report: WeatherReport)
    ensures
        s.after_report(report).time == s.time,
        s.after_report(report).is_wifi_connected == s.is_wifi_connected,
{
}

/// Recording the network status and taking over a report commute.
pub proof fn lemma_connectivity_and_report_commute(
    s: ApplicationState,
    report: WeatherReport,
    connected: bool,
)
    ensures
        (ApplicationState { is_wifi_connected: connected, ..s }).after_report(report)
            == (ApplicationState { is_wifi_connected: connected, ..s.after_report(report) }),
{
}

/// A report whose daily lists all have an entry is shown whole: today's
/// temperatures, the condition of today's code and the hourly chances.
pub proof fn lemma_complete_report_shown(s: ApplicationState, report: WeatherReport)
    requires
        ApplicationState::report_outcome(report) is Ok,
    ensures
        s.after_report(report).temperature_cur == report.current_temperature,
        s.after_report(report).temperature_min == report.daily_min@[0],
        s.after_report(report).temperature_max == report.daily_max@[0],
        s.after_report(report).weather_condition == crate::weather::condition_of_code(
            report.daily_weather_code@[0],
        ),
        s.after_report(report).rain_probability@ == report.hourly_precipitation_probability@,
{
}

/// A report that stops early leaves the fields after the missing list as
/// they were.
pub proof fn lemma_incomplete_report_keeps_rest(s: ApplicationState, report: WeatherReport)
    ensures
        ApplicationState::report_outcome(report) == Err::<(), ReportError>(ReportError::MissingMinimum)
            ==> s.after_report(report) == (ApplicationState { temperature_cur: report.current_temperature, ..s }),
        ApplicationState::report_outcome(report) is Err ==> {
            &&& s.after_report(report).weather_condition == s.weather_condition
            &&& s.after_report(report).rain_probability == s.rain_probability
        },
{
}

/// A report with at least one entry in each daily list, such as the service
/// sends for a one-day forecast, is accepted and shown whole: today's
/// minimum, maximum and weather condition and the hourly chances. A report
/// with an empty daily list is refused with the first empty list named, the
/// lists being looked at in the order minimum, maximum, weather code.
pub proof fn lemma_report_accepted_iff_lists_filled(s: ApplicationState, report: WeatherReport)
    ensures
        (report.daily_min@.len() >= 1 && report.daily_max@.len() >= 1
            && report.daily_weather_code@.len() >= 1) ==> {
            &&& ApplicationState::report_outcome(report) == Ok::<(), ReportError>(())
            &&& s.after_report(report).temperature_cur == report.current_temperature
            &&& s.after_report(report).temperature_min == report.daily_min@[0]
            &&& s.after_report(report).temperature_max == report.daily_max@[0]
            &&& s.after_report(report).weather_condition == crate::weather::condition_of_code(
                report.daily_weather_code@[0],
            )
            &&& s.after_report(report).rain_probability@ == report.hourly_precipitation_probability@
        },
        report.daily_min@.len() == 0 ==> {
            &&& ApplicationState::report_outcome(report) == Err::<(), ReportError>(ReportError::MissingMinimum)
            &&& s.after_report(report).temperature_min == s.temperature_min
        },
        (report.daily_min@.len() >= 1 && report.daily_max@.len() == 0) ==> {
            &&& ApplicationState::report_outcome(report) == Err::<(), ReportError>(ReportError::MissingMaximum)
            &&& s.after_report(report).temperature_min == report.daily_min@[0]
            &&& s.after_report(report).temperature_max == s.temperature_max
        },
        (report.daily_min@.len() >= 1 && report.daily_max@.len() >= 1
            && report.daily_weather_code@.len() == 0) ==> {
            &&& ApplicationState::report_outcome(report) == Err::<(), ReportError>(ReportError::MissingWeatherCode)
            &&& s.after_report(report).temperature_max == report.daily_max@[0]
            &&& s.after_report(report).weather_condition == s.weather_condition
        },
{
}

impl Default for ApplicationState {
    /// The state shown before any report: +2 degrees now, -10 at least and
    /// 32 at most, clear weather, a sample day of precipitation chances, the
    /// clock at the epoch and no network.
    fn default() -> (s: ApplicationState)
        ensures
            s.temperature_cur == 2,
            s.temperature_min == -10,
            s.temperature_max == 32,
            s.rain_probability@ == default_rain_probability(),
            s.weather_condition == WeatherCondition::Clear,
            s.time == ClockTime::epoch_spec(),
            !s.is_wifi_connected,
    {
        ApplicationState {
            temperature_cur: 2,
            temperature_min: -10,
            temperature_max: 32,
            rain_probability: vec![
                10, 20, 30, 50, 70, 50, 70, 80, 90, 100, 90, 80,
                10, 20, 30, 40, 50, 60, 70, 80, 90, 100, 90, 80,
            ],
            weather_condition: WeatherCondition::Clear,
            time: ClockTime::epoch(),
            is_wifi_connected: false,
        }
    }
}

} // verus!
