use magic_mirror::codes::{get_weather_desc, get_weather_image};
use magic_mirror::daynight::{get_clock, is_night, reformat_time};
use magic_mirror::dates::reformat_date;
use magic_mirror::errors::RequestError;

#[test]
fn desc_clear_sky_day_and_night() {
    // 09:30 pm is past an 08:00 pm sunset: night variant.
    assert_eq!(get_weather_desc("113", "09:30 pm", "08:00 pm"), "Clear");
    // 07:30 pm is before sunset: day variant.
    assert_eq!(get_weather_desc("113", "07:30 pm", "08:00 pm"), "Sunny/Clear");
}

#[test]
fn desc_fixed_codes() {
    assert_eq!(get_weather_desc("116", "07:30 pm", "08:00 pm"), "Partly Cloudy");
    assert_eq!(get_weather_desc("395", "09:30 pm", "08:00 pm"), "Moderate or heavy snow in area with thunder");
    assert_eq!(get_weather_desc("122", "01:00 am", "08:00 pm"), "Overcast");
}

#[test]
fn unknown_code_maps_to_defined_text_and_icon() {
    let desc = get_weather_desc("999", "07:30 pm", "08:00 pm");
    assert_eq!(desc, "Invalid weather code: 999");
    assert!(!desc.is_empty());
    let icon = get_weather_image("999", "07:30 pm", "08:00 pm", false);
    assert_eq!(icon, "svg/wi-na.svg");
    assert!(!icon.is_empty());
    let icon_night = get_weather_image("999", "09:30 pm", "08:00 pm", false);
    assert_eq!(icon_night, "svg/wi-na.svg");
}

#[test]
fn icon_day_night_variants() {
    assert_eq!(get_weather_image("113", "07:30 pm", "08:00 pm", false), "svg/wi-day-sunny.svg");
    assert_eq!(get_weather_image("113", "09:30 pm", "08:00 pm", false), "svg/wi-night-clear.svg");
    assert_eq!(get_weather_image("116", "09:30 pm", "08:00 pm", false), "svg/wi-night-partly-cloudy.svg");
}

#[test]
fn icon_forced_day_ignores_night() {
    // Past sunset, but the day-level icon is forced to daytime art.
    assert_eq!(get_weather_image("113", "09:30 pm", "08:00 pm", true), "svg/wi-day-sunny.svg");
}

#[test]
fn is_night_is_total_and_defaults_to_day() {
    // Unparseable strings on either side default to day.
    assert!(!is_night("not a time", "08:00 pm", false));
    assert!(!is_night("09:30 pm", "not a time", false));
    assert!(!is_night("", "", false));
    // Midnight is indistinguishable from unparseable: day.
    assert!(!is_night("12:00 am", "08:00 pm", false));
    // Force-day overrides a clear night.
    assert!(!is_night("11:30 pm", "08:00 pm", true));
    // An ordinary night reading.
    assert!(is_night("09:30 pm", "08:00 pm", false));
    assert!(!is_night("07:30 pm", "08:00 pm", false));
}

#[test]
fn reformat_date_long_form() {
    assert_eq!(reformat_date("2024-01-31".to_string()).unwrap(), "Wednesday January 31, 2024");
    // %e pads a one-digit day with a space.
    assert_eq!(reformat_date("2024-01-05".to_string()).unwrap(), "Friday January  5, 2024");
}

#[test]
fn reformat_date_rejects_malformed() {
    assert!(reformat_date("January 5".to_string()).is_err());
    assert!(reformat_date("2024-13-01".to_string()).is_err());
    assert!(reformat_date("".to_string()).is_err());
}

#[test]
fn reformat_time_twelve_hour() {
    assert_eq!(reformat_time("300".to_string(), true), ("03 AM".to_string(), 3));
    assert_eq!(reformat_time("0".to_string(), true), ("12 AM".to_string(), 0));
    assert_eq!(reformat_time("1200".to_string(), true), ("12 PM".to_string(), 12));
    assert_eq!(reformat_time("2300".to_string(), true), ("11 PM".to_string(), 23));
}

#[test]
fn reformat_time_twenty_four_hour() {
    assert_eq!(reformat_time("1500".to_string(), false), ("15".to_string(), 15));
    assert_eq!(reformat_time("0".to_string(), false), ("00".to_string(), 0));
    assert_eq!(reformat_time("1000".to_string(), false), ("10".to_string(), 10));
}

#[test]
fn reformat_time_out_of_range_falls_back_to_midnight() {
    assert_eq!(reformat_time("2500".to_string(), true), ("12 AM".to_string(), 0));
}

#[test]
fn clock_display() {
    assert_eq!(get_clock(13, 5, true), "01:05 PM");
    assert_eq!(get_clock(13, 5, false), "13:05");
    assert_eq!(get_clock(0, 0, true), "12:00 AM");
    assert_eq!(get_clock(0, 0, false), "00:00");
}

#[test]
fn status_descriptions() {
    assert_eq!(RequestError::new(404).details, "Not Found");
    assert_eq!(RequestError::new(503).details, "Service Unavailable");
    assert_eq!(RequestError::new(418).details, "I'm a teapot");
    assert_eq!(RequestError::new(504).http_code, 504);
}
