use magic_mirror::display::{
    get_average_precip, update_all_weather, CurrentWeatherGui, DaysWeatherGui, HourlyWeatherGui,
};
use magic_mirror::model::{
    get_daily_weather_code, Astronomy, CurrentConditions, CurrentWeather, DailyForecast,
    ForecastDay, ForecastHour, Weather,
};

fn raw_hour(raw_time: &str, code: &str, rain: &str, snow: &str) -> ForecastHour {
    ForecastHour {
        raw_time: raw_time.to_string(),
        time: String::new(),
        temp_f: "72".to_string(),
        temp_c: "22".to_string(),
        feels_like_f: "75".to_string(),
        feels_like_c: "24".to_string(),
        chance_of_rain: rain.to_string(),
        chance_of_snow: snow.to_string(),
        weather_code: code.to_string(),
        weather_desc: String::new(),
        weather_image: String::new(),
    }
}

fn raw_day(raw_date: &str, hours: Vec<ForecastHour>) -> ForecastDay {
    ForecastDay {
        raw_date: raw_date.to_string(),
        date: String::new(),
        avg_temp_f: "70".to_string(),
        max_temp_f: "80".to_string(),
        min_temp_f: "60".to_string(),
        avg_temp_c: "21".to_string(),
        max_temp_c: "27".to_string(),
        min_temp_c: "16".to_string(),
        uv_index: "5".to_string(),
        weather_code: String::new(),
        weather_desc: String::new(),
        weather_image: String::new(),
        astronomy: vec![Astronomy {
            moon_phase: "Waxing Crescent".to_string(),
            sunrise: "06:45 AM".to_string(),
            sunset: "08:00 PM".to_string(),
        }],
        hourly: hours,
    }
}

fn raw_current(code: &str) -> CurrentWeather {
    CurrentWeather {
        current_condition: vec![CurrentConditions {
            weather_code: code.to_string(),
            feels_like_f: "75".to_string(),
            feels_like_c: "24".to_string(),
            temp_c: "22".to_string(),
            temp_f: "72".to_string(),
            humidity: "65".to_string(),
            pressure: "1015".to_string(),
            uv_index: "5".to_string(),
            visibility: "10".to_string(),
            weather_desc: String::new(),
            weather_image: String::new(),
        }],
    }
}

fn normalized_sample() -> Weather {
    let hours = vec![
        raw_hour("0", "113", "30", "10"),
        raw_hour("300", "113", "0", "0"),
        raw_hour("600", "116", "20", "0"),
    ];
    let daily = DailyForecast { weather: vec![raw_day("2024-01-31", hours)] };
    Weather::new(
        raw_current("116"),
        daily,
        "04:30 pm".to_string(),
        "01/31/24".to_string(),
        true,
    )
    .unwrap()
}

#[test]
fn daily_code_is_the_mode() {
    let hours = vec![
        raw_hour("0", "113", "0", "0"),
        raw_hour("300", "113", "0", "0"),
        raw_hour("600", "116", "0", "0"),
    ];
    assert_eq!(get_daily_weather_code(&hours), "113");
}

#[test]
fn daily_code_tie_goes_to_first_encountered() {
    let hours = vec![
        raw_hour("0", "116", "0", "0"),
        raw_hour("300", "113", "0", "0"),
        raw_hour("600", "113", "0", "0"),
        raw_hour("900", "116", "0", "0"),
    ];
    // Both codes occur twice; the scan keeps the one seen first.
    assert_eq!(get_daily_weather_code(&hours), "116");
}

#[test]
fn normalization_fills_derived_fields() {
    let weather = normalized_sample();
    assert_eq!(weather.last_time_updated, "04:30 pm");
    assert_eq!(weather.last_date_updated, "01/31/24");

    let current = &weather.current_weather.current_condition[0];
    // 04:30 pm is before the 08:00 PM sunset: day variant.
    assert_eq!(current.weather_desc, "Partly Cloudy");
    assert_eq!(current.weather_image, "svg/wi-day-cloudy.svg");
    assert_eq!(current.temp_f, "72");

    let day = &weather.daily_forecast.weather[0];
    assert_eq!(day.date, "Wednesday January 31, 2024");
    assert_eq!(day.weather_code, "113");
    assert_eq!(day.weather_desc, "Sunny/Clear");
    // Day-level icons are always the daytime variant.
    assert_eq!(day.weather_image, "svg/wi-day-sunny.svg");

    let first_hour = &day.hourly[0];
    assert_eq!(first_hour.time, "12 AM");
    assert_eq!(first_hour.weather_desc, "Sunny/Clear");
    assert_eq!(first_hour.weather_image, "svg/wi-day-sunny.svg");
    let third_hour = &day.hourly[2];
    assert_eq!(third_hour.time, "06 AM");
    assert_eq!(third_hour.weather_desc, "Partly Cloudy");
}

#[test]
fn normalization_keeps_twenty_four_hour_labels() {
    let hours = vec![raw_hour("1500", "113", "0", "0")];
    let daily = DailyForecast { weather: vec![raw_day("2024-01-31", hours)] };
    let weather = Weather::new(
        raw_current("113"),
        daily,
        "04:30 pm".to_string(),
        "01/31/24".to_string(),
        false,
    )
    .unwrap();
    assert_eq!(weather.daily_forecast.weather[0].hourly[0].time, "15");
}

#[test]
fn normalization_fails_on_malformed_date() {
    let hours = vec![raw_hour("0", "113", "0", "0")];
    let daily = DailyForecast { weather: vec![raw_day("January 31", hours)] };
    let result = Weather::new(
        raw_current("113"),
        daily,
        "04:30 pm".to_string(),
        "01/31/24".to_string(),
        true,
    );
    assert!(result.is_err());
}

#[test]
fn hourly_precip_is_rain_plus_snow() {
    let hour = raw_hour("0", "113", "30", "10");
    let gui = HourlyWeatherGui::update(&hour, "f").unwrap();
    assert_eq!(gui.chance_of_precip, "40");
    assert_eq!(gui.temp, "72");
    assert_eq!(gui.unit, "f");
}

#[test]
fn hourly_precip_accepts_leading_plus() {
    let hour = raw_hour("0", "113", "+30", "10");
    let gui = HourlyWeatherGui::update(&hour, "c").unwrap();
    assert_eq!(gui.chance_of_precip, "40");
    assert_eq!(gui.temp, "22");
}

#[test]
fn hourly_precip_rejects_non_numeric() {
    let hour = raw_hour("0", "113", "maybe", "10");
    assert!(HourlyWeatherGui::update(&hour, "f").is_err());
}

#[test]
fn average_precip_is_mean_of_hour_sums() {
    let hours = vec![
        raw_hour("0", "113", "30", "10"),
        raw_hour("300", "113", "20", "0"),
    ];
    // Sums 40 and 20: mean 30.
    assert_eq!(get_average_precip(&hours).unwrap(), "30");
}

#[test]
fn average_precip_rounds_half_to_even() {
    let a = vec![raw_hour("0", "113", "40", "0"), raw_hour("300", "113", "41", "0")];
    assert_eq!(get_average_precip(&a).unwrap(), "40");
    let b = vec![raw_hour("0", "113", "41", "0"), raw_hour("300", "113", "42", "0")];
    assert_eq!(get_average_precip(&b).unwrap(), "42");
}

#[test]
fn average_precip_rejects_empty_and_non_numeric() {
    assert!(get_average_precip(&vec![]).is_err());
    let hours = vec![raw_hour("0", "113", "x", "0")];
    assert!(get_average_precip(&hours).is_err());
}

#[test]
fn unit_selects_temperature_fields() {
    let weather = normalized_sample();
    for unit in ["f", "F"] {
        let gui = CurrentWeatherGui::update(&weather, unit).unwrap();
        assert_eq!(gui.current_temp, "72");
        assert_eq!(gui.feels_like, "75");
        assert_eq!(gui.unit, unit);
    }
    for unit in ["c", "C"] {
        let gui = CurrentWeatherGui::update(&weather, unit).unwrap();
        assert_eq!(gui.current_temp, "22");
        assert_eq!(gui.feels_like, "24");
    }
}

#[test]
fn unrecognized_unit_yields_placeholder_record() {
    let weather = normalized_sample();
    let gui = CurrentWeatherGui::update(&weather, "k").unwrap();
    assert_eq!(gui.current_temp, "Error");
    assert_eq!(gui.unit, "");
}

#[test]
fn day_record_carries_sunset_and_average() {
    let weather = normalized_sample();
    let day = &weather.daily_forecast.weather[0];
    let gui = DaysWeatherGui::update(day, "F").unwrap();
    assert_eq!(gui.max_temp, "80");
    assert_eq!(gui.min_temp, "60");
    assert_eq!(gui.sunrise, "06:45 AM");
    assert_eq!(gui.sunset, "08:00 PM");
    // Hour sums 40, 0, 20: mean 20.
    assert_eq!(gui.average_chance_of_precip, "20");
    let gui_c = DaysWeatherGui::update(day, "c").unwrap();
    assert_eq!(gui_c.max_temp, "27");
    assert_eq!(gui_c.min_temp, "16");
}

#[test]
fn update_all_weather_assembles_the_shim() {
    let weather = normalized_sample();
    let shim = update_all_weather(&weather, "F", "04:30 PM".to_string(), "Wednesday January, 31 2024".to_string())
        .unwrap();
    assert_eq!(shim.daily_weather.len(), 1);
    assert_eq!(shim.hourly_weather.len(), 3);
    assert_eq!(shim.current_weather.current_temp, "72");
    assert_eq!(shim.hourly_weather[0].chance_of_precip, "40");
    assert_eq!(shim.clock, "04:30 PM");
    assert_eq!(shim.date, "Wednesday January, 31 2024");
}

#[test]
fn update_all_weather_fails_on_bad_hourly_precip() {
    let hours = vec![raw_hour("0", "113", "30", "oops")];
    let daily = DailyForecast { weather: vec![raw_day("2024-01-31", hours)] };
    let weather = Weather::new(
        raw_current("113"),
        daily,
        "04:30 pm".to_string(),
        "01/31/24".to_string(),
        true,
    )
    .unwrap();
    assert!(update_all_weather(&weather, "F", "x".to_string(), "y".to_string()).is_err());
}

#[test]
fn default_current_record_is_placeholder() {
    let gui = CurrentWeatherGui::default();
    assert_eq!(gui.weather_desc, "Error");
    assert_eq!(gui.weather_image, "svg\\wi-na.svg");
    assert_eq!(gui.current_temp, "");
}
