use meteo_wizard::coordinate::Coordinate;
use meteo_wizard::settings::url_config::{HourlyTempFromGround, UrlConfig};

fn coord(text: &str) -> Coordinate {
    Coordinate::new(text.to_string()).expect("numeric text")
}

fn all_flags_config(forecast_days: u32, past_days: u32) -> UrlConfig {
    UrlConfig::new(
        coord("12.3456"),
        coord("-7.891"),
        HourlyTempFromGround::TempAt2m,
        true,
        true,
        true,
        true,
        true,
        true,
        true,
        true,
        true,
        forecast_days,
        past_days,
    )
}

#[test]
fn selector_parses_known_codes() {
    assert_eq!(
        HourlyTempFromGround::from_str("1"),
        Ok(HourlyTempFromGround::TempAt2m)
    );
    assert_eq!(
        HourlyTempFromGround::from_str("2"),
        Ok(HourlyTempFromGround::TempAt80m)
    );
    assert_eq!(
        HourlyTempFromGround::from_str("3"),
        Ok(HourlyTempFromGround::TemAt120m)
    );
    assert_eq!(
        HourlyTempFromGround::from_str("4"),
        Ok(HourlyTempFromGround::TemAt180m)
    );
}

#[test]
fn selector_defaults_silently_on_unknown_codes() {
    assert_eq!(
        HourlyTempFromGround::from_str("9"),
        Ok(HourlyTempFromGround::Unspecified)
    );
    assert_eq!(
        HourlyTempFromGround::from_str(""),
        Ok(HourlyTempFromGround::Unspecified)
    );
    assert_eq!(
        HourlyTempFromGround::from_str("12"),
        Ok(HourlyTempFromGround::Unspecified)
    );
}

#[test]
fn selector_fragments_are_fixed() {
    assert_eq!(HourlyTempFromGround::Unspecified.fragment(), "");
    assert_eq!(HourlyTempFromGround::TempAt2m.fragment(), "hourly=temperature_2m");
    assert_eq!(HourlyTempFromGround::TempAt80m.fragment(), "hourly=temperature_80m");
    assert_eq!(HourlyTempFromGround::TemAt120m.fragment(), "hourly=temperature_120m");
    assert_eq!(HourlyTempFromGround::TemAt180m.fragment(), "hourly=temperature_180m");
}

#[test]
fn render_with_all_flags_and_day_ranges() {
    let url = all_flags_config(2, 2).render();
    assert_eq!(
        url,
        "https://api.open-meteo.com/v1/forecast?latitude=12.346&longitude&longitude=-7.891\
         &hourly=temperature_2m,relative_humidity_2m,apparent_temperature,\
         precipitation_probability,precipitation,rain,showers,snowfall,weather_code,visibility\
         &forecast_days=2&past_days=2"
    );
}

#[test]
fn render_omits_forecast_days_when_zero() {
    let url = all_flags_config(0, 0).render();
    assert!(!url.contains("forecast_days="));
    assert!(!url.contains("past_days="));
}

#[test]
fn render_includes_forecast_days_when_nonzero() {
    let url = all_flags_config(5, 0).render();
    assert!(url.contains("&forecast_days=5"));
    assert!(!url.contains("past_days="));
    let url = all_flags_config(305, 12).render();
    assert!(url.ends_with("&forecast_days=305&past_days=12"));
}

#[test]
fn render_with_no_flags_and_no_band() {
    let config = UrlConfig::new(
        coord("0"),
        coord("0"),
        HourlyTempFromGround::Unspecified,
        false,
        false,
        false,
        false,
        false,
        false,
        false,
        false,
        false,
        0,
        0,
    );
    assert_eq!(
        config.render(),
        "https://api.open-meteo.com/v1/forecast?latitude=0.000&longitude&longitude=0.000&"
    );
}

#[test]
fn build_matches_new() {
    let a = all_flags_config(2, 2).render();
    let b = UrlConfig::build(
        coord("12.3456"),
        coord("-7.891"),
        HourlyTempFromGround::TempAt2m,
        true,
        true,
        true,
        true,
        true,
        true,
        true,
        true,
        true,
        2,
        2,
    )
    .render();
    assert_eq!(a, b);
}

#[test]
fn with_operations_replace_exactly_one_parameter() {
    let config = all_flags_config(2, 2)
        .with_latitude(coord("48.85"))
        .with_longitude(coord("2.35"))
        .with_forecast_days(7)
        .with_past_days(0);
    assert_eq!(config.latitude.as_text(), "48.85");
    assert_eq!(config.longitude.as_text(), "2.35");
    assert_eq!(config.forecast_days, 7);
    assert_eq!(config.past_days, 0);
    assert!(config.rain && config.visibility);
    let url = config.render();
    assert!(url.contains("latitude=48.850"));
    assert!(url.contains("longitude=2.350"));
    assert!(url.ends_with("&forecast_days=7"));
}
