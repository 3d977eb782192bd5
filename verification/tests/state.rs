use weather_clock::clock::ClockTime;
use weather_clock::state::{plan_poll, ApplicationState, PollPlan, ReportError, WeatherReport};
use weather_clock::weather::WeatherCondition;

fn report() -> WeatherReport {
    WeatherReport {
        current_temperature: -3,
        daily_max: vec![1, 5],
        daily_min: vec![-7, -2],
        daily_weather_code: vec![73, 0],
        hourly_precipitation_probability: vec![0, 5, 100],
    }
}

#[test]
fn default_state_values() {
    let s = ApplicationState::default();
    assert_eq!(s.temperature_cur, 2);
    assert_eq!(s.temperature_min, -10);
    assert_eq!(s.temperature_max, 32);
    assert_eq!(
        s.rain_probability,
        vec![10, 20, 30, 50, 70, 50, 70, 80, 90, 100, 90, 80, 10, 20, 30, 40, 50, 60, 70, 80, 90, 100, 90, 80]
    );
    assert_eq!(s.weather_condition, WeatherCondition::Clear);
    assert_eq!(s.time, ClockTime { year: 1970, month: 1, day: 1, hour: 0, minute: 0, second: 0 });
    assert_eq!(s.time, ClockTime::epoch());
    assert!(!s.is_wifi_connected);
}

#[test]
fn complete_report_is_taken_over() {
    let mut s = ApplicationState::default();
    assert_eq!(s.apply_report(&report()), Ok(()));
    assert_eq!(s.temperature_cur, -3);
    assert_eq!(s.temperature_min, -7);
    assert_eq!(s.temperature_max, 1);
    assert_eq!(s.weather_condition, WeatherCondition::Snow);
    assert_eq!(s.rain_probability, vec![0, 5, 100]);
    assert_eq!(s.time, ClockTime::epoch());
    assert!(!s.is_wifi_connected);
}

#[test]
fn report_without_minimum_updates_current_only() {
    let mut s = ApplicationState::default();
    let mut r = report();
    r.daily_min.clear();
    assert_eq!(s.apply_report(&r), Err(ReportError::MissingMinimum));
    assert_eq!(s.temperature_cur, -3);
    assert_eq!(s.temperature_min, -10);
    assert_eq!(s.temperature_max, 32);
    assert_eq!(s.weather_condition, WeatherCondition::Clear);
    assert_eq!(s.rain_probability.len(), 24);
}

#[test]
fn report_without_maximum_keeps_maximum() {
    let mut s = ApplicationState::default();
    let mut r = report();
    r.daily_max.clear();
    assert_eq!(s.apply_report(&r), Err(ReportError::MissingMaximum));
    assert_eq!(s.temperature_cur, -3);
    assert_eq!(s.temperature_min, -7);
    assert_eq!(s.temperature_max, 32);
    assert_eq!(s.weather_condition, WeatherCondition::Clear);
    assert_eq!(s.rain_probability.len(), 24);
}

#[test]
fn report_without_weather_code_keeps_condition_and_chances() {
    let mut s = ApplicationState::default();
    let mut r = report();
    r.daily_weather_code.clear();
    assert_eq!(s.apply_report(&r), Err(ReportError::MissingWeatherCode));
    assert_eq!(s.temperature_cur, -3);
    assert_eq!(s.temperature_min, -7);
    assert_eq!(s.temperature_max, 1);
    assert_eq!(s.weather_condition, WeatherCondition::Clear);
    assert_eq!(s.rain_probability.len(), 24);
}

#[test]
fn report_missing_everything_names_minimum_first() {
    let mut s = ApplicationState::default();
    let r = WeatherReport {
        current_temperature: 9,
        daily_max: vec![],
        daily_min: vec![],
        daily_weather_code: vec![],
        hourly_precipitation_probability: vec![],
    };
    assert_eq!(s.apply_report(&r), Err(ReportError::MissingMinimum));
    assert_eq!(s.temperature_cur, 9);
}

#[test]
fn applying_a_report_twice_is_like_once() {
    let mut once = ApplicationState::default();
    let _ = once.apply_report(&report());
    let mut twice = ApplicationState::default();
    let _ = twice.apply_report(&report());
    let _ = twice.apply_report(&report());
    assert_eq!(once.temperature_cur, twice.temperature_cur);
    assert_eq!(once.temperature_min, twice.temperature_min);
    assert_eq!(once.temperature_max, twice.temperature_max);
    assert_eq!(once.weather_condition, twice.weather_condition);
    assert_eq!(once.rain_probability, twice.rain_probability);
}

#[test]
fn connectivity_is_recorded_and_decides_fetch() {
    let mut s = ApplicationState::default();
    s.record_connectivity(true);
    assert!(s.is_wifi_connected);
    assert_eq!(s.temperature_cur, 2);
    s.record_connectivity(false);
    assert!(!s.is_wifi_connected);
    assert_eq!(plan_poll(true), PollPlan { reconnect: false, fetch: true });
    assert_eq!(plan_poll(false), PollPlan { reconnect: true, fetch: false });
}

#[test]
fn connectivity_and_report_commute() {
    let mut a = ApplicationState::default();
    a.record_connectivity(true);
    let _ = a.apply_report(&report());
    let mut b = ApplicationState::default();
    let _ = b.apply_report(&report());
    b.record_connectivity(true);
    assert_eq!(a.is_wifi_connected, b.is_wifi_connected);
    assert_eq!(a.temperature_max, b.temperature_max);
    assert_eq!(a.rain_probability, b.rain_probability);
}
