//! The condition-code tables: every provider condition code maps to a
//! human description and to an icon reference, with day and night
//! variants where the art differs. A code outside the known set maps
//! to an explicit unknown description and icon, never to an error.

use vstd::prelude::*;

use crate::daynight::{is_night, night_of};
use crate::text::str_eq;

verus! {

/// The provider condition codes the tables cover.
pub open spec fn known_code(code: Seq<char>) -> bool {
    ||| code == "113"@
    ||| code == "116"@
    ||| code == "119"@
    ||| code == "122"@
    ||| code == "143"@
    ||| code == "176"@
    ||| code == "179"@
    ||| code == "182"@
    ||| code == "185"@
    ||| code == "200"@
    ||| code == "227"@
    ||| code == "230"@
    ||| code == "248"@
    ||| code == "260"@
    ||| code == "263"@
    ||| code == "266"@
    ||| code == "281"@
    ||| code == "284"@
    ||| code == "293"@
    ||| code == "296"@
    ||| code == "299"@
    ||| code == "302"@
    ||| code == "305"@
    ||| code == "308"@
    ||| code == "311"@
    ||| code == "314"@
    ||| code == "317"@
    ||| code == "320"@
    ||| code == "323"@
    ||| code == "326"@
    ||| code == "329"@
    ||| code == "332"@
    ||| code == "335"@
    ||| code == "338"@
    ||| code == "350"@
    ||| code == "353"@
    ||| code == "356"@
    ||| code == "359"@
    ||| code == "362"@
    ||| code == "365"@
    ||| code == "368"@
    ||| code == "371"@
    ||| code == "374"@
    ||| code == "377"@
    ||| code == "386"@
    ||| code == "389"@
    ||| code == "392"@
    ||| code == "395"@
}

/// The description of a condition code, with the day/night variant
/// of a clear sky; an unknown code names itself.
pub open spec fn weather_desc_spec(code: Seq<char>, night: bool) -> Seq<char> {
    if code == "113"@ {
        if night {
            "Clear"@
        } else {
            "Sunny/Clear"@
        }
    } else if code == "116"@ {
        "Partly Cloudy"@
    } else if code == "119"@ {
        "Cloudy"@
    } else if code == "122"@ {
        "Overcast"@
    } else if code == "143"@ {
        "Mist"@
    } else if code == "176"@ {
        "Patchy rain nearby"@
    } else if code == "179"@ {
        "Patchy snow nearby"@
    } else if code == "182"@ {
        "Patchy sleet nearby"@
    } else if code == "185"@ {
        "Patchy freezing drizzle nearby"@
    } else if code == "200"@ {
        "Thundery outbreaks nearby"@
    } else if code == "227"@ {
        "Blowing snow"@
    } else if code == "230"@ {
        "Blizzard"@
    } else if code == "248"@ {
        "Fog"@
    } else if code == "260"@ {
        "Freezing fog"@
    } else if code == "263"@ {
        "Patchy light drizzle"@
    } else if code == "266"@ {
        "Light drizzle"@
    } else if code == "281"@ {
        "Freezing drizzle"@
    } else if code == "284"@ {
        "Heavy freezing drizzle"@
    } else if code == "293"@ {
        "Patchy light rain"@
    } else if code == "296"@ {
        "Light rain"@
    } else if code == "299"@ {
        "Moderate rain at times"@
    } else if code == "302"@ {
        "Moderate rain"@
    } else if code == "305"@ {
        "Heavy rain at times"@
    } else if code == "308"@ {
        "Heavy rain"@
    } else if code == "311"@ {
        "Light freezing rain"@
    } else if code == "314"@ {
        "Moderate or Heavy freezing rain"@
    } else if code == "317"@ {
        "Light sleet"@
    } else if code == "320"@ {
        "Moderate or heavy sleet"@
    } else if code == "323"@ {
        "Patchy light snow"@
    } else if code == "326"@ {
        "Light snow"@
    } else if code == "329"@ {
        "Patchy moderate snow"@
    } else if code == "332"@ {
        "Moderate snow"@
    } else if code == "335"@ {
        "Patchy heavy snow"@
    } else if code == "338"@ {
        "Heavy snow"@
    } else if code == "350"@ {
        "Hail"@
    } else if code == "353"@ {
        "Light rain shower"@
    } else if code == "356"@ {
        "Moderate or heavy rain shower"@
    } else if code == "359"@ {
        "Torrential rain shower"@
    } else if code == "362"@ {
        "Light sleet showers"@
    } else if code == "365"@ {
        "Moderate or heavy sleet showers"@
    } else if code == "368"@ {
        "Light snow showers"@
    } else if code == "371"@ {
        "Moderate or heavy snow showers"@
    } else if code == "374"@ {
        "Light showers of hail"@
    } else if code == "377"@ {
        "Moderate or heavy showers of hail"@
    } else if code == "386"@ {
        "Patchy light rain in area with thunder"@
    } else if code == "389"@ {
        "Moderate or heavy rain in area with thunder"@
    } else if code == "392"@ {
        "Patchy light snow in area with thunder"@
    } else if code == "395"@ {
        "Moderate or heavy snow in area with thunder"@
    } else {
        "Invalid weather code: "@ + code
    }
}

/// The daytime icon of a condition code.
pub open spec fn day_icon(code: Seq<char>) -> Seq<char> {
    if code == "113"@ {
        "svg/wi-day-sunny.svg"@
    } else if code == "116"@ {
        "svg/wi-day-cloudy.svg"@
    } else if code == "119"@ {
        "svg/wi-day-cloudy.svg"@
    } else if code == "122"@ {
        "svg/wi-day-sunny-overcast.svg"@
    } else if code == "143"@ {
        "svg/wi-day-haze.svg"@
    } else if code == "176"@ {
        "svg/wi-day-sprinkle.svg"@
    } else if code == "179"@ {
        "svg/wi-day-snow.svg"@
    } else if code == "182"@ {
        "svg/wi-day-sleet.svg"@
    } else if code == "185"@ {
        "svg/wi-day-rain-mix.svg"@
    } else if code == "200"@ {
        "svg/wi-day-rain-mix.svg"@
    } else if code == "227"@ {
        "svg/wi-day-snow-wind.svg"@
    } else if code == "230"@ {
        "svg/wi-day-snow-thunderstorm.svg"@
    } else if code == "248"@ {
        "svg/wi-day-fog.svg"@
    } else if code == "260"@ {
        "svg/wi-day-fog.svg"@
    } else if code == "263"@ {
        "svg/wi-day-sprinkle.svg"@
    } else if code == "266"@ {
        "svg/wi-day-sprinkle.svg"@
    } else if code == "281"@ {
        "svg/wi-day-rain-mix.svg"@
    } else if code == "284"@ {
        "svg/wi-day-rain-mix.svg"@
    } else if code == "293"@ {
        "svg/wi-day-sprinkle.svg"@
    } else if code == "296"@ {
        "svg/wi-day-rain.svg"@
    } else if code == "299"@ {
        "svg/wi-day-rain.svg"@
    } else if code == "302"@ {
        "svg/wi-day-rain.svg"@
    } else if code == "305"@ {
        "svg/wi-day-rain.svg"@
    } else if code == "308"@ {
        "svg/wi-day-rain.svg"@
    } else if code == "311"@ {
        "svg/wi-day-rain-mix.svg"@
    } else if code == "314"@ {
        "svg/wi-day-rain-mix.svg"@
    } else if code == "317"@ {
        "svg/wi-day-sleet.svg"@
    } else if code == "320"@ {
        "svg/wi-day-sleet.svg"@
    } else if code == "323"@ {
        "svg/wi-day-snow.svg"@
    } else if code == "326"@ {
        "svg/wi-day-snow.svg"@
    } else if code == "329"@ {
        "svg/wi-day-snow.svg"@
    } else if code == "332"@ {
        "svg/wi-day-snow.svg"@
    } else if code == "335"@ {
        "svg/wi-day-snow-wind.svg"@
    } else if code == "338"@ {
        "svg/wi-day-snow-wind.svg"@
    } else if code == "350"@ {
        "svg/wi-day-hail.svg"@
    } else if code == "353"@ {
        "svg/wi-day-rain.svg"@
    } else if code == "356"@ {
        "svg/wi-day-rain.svg"@
    } else if code == "359"@ {
        "svg/wi-day-thunderstorm.svg"@
    } else if code == "362"@ {
        "svg/wi-day-sleet.svg"@
    } else if code == "365"@ {
        "svg/wi-day-sleet-storm.svg"@
    } else if code == "368"@ {
        "svg/wi-day-snow.svg"@
    } else if code == "371"@ {
        "svg/wi-day-snow-wind.svg"@
    } else if code == "374"@ {
        "svg/wi-day-hail.svg"@
    } else if code == "377"@ {
        "svg/wi-day-hail.svg"@
    } else if code == "386"@ {
        "svg/wi-day-rain.svg"@
    } else if code == "389"@ {
        "svg/wi-day-thunderstorm.svg"@
    } else if code == "392"@ {
        "svg/wi-day-snow-thunderstorm.svg"@
    } else if code == "395"@ {
        "svg/wi-day-thunderstorm.svg"@
    } else if code == "NA"@ {
        "svg/wi-na.svg"@
    } else {
        "svg/wi-na.svg"@
    }
}

/// The nighttime icon of a condition code.
pub open spec fn night_icon(code: Seq<char>) -> Seq<char> {
    if code == "113"@ {
        "svg/wi-night-clear.svg"@
    } else if code == "116"@ {
        "svg/wi-night-partly-cloudy.svg"@
    } else if code == "119"@ {
        "svg/wi-night-cloudy.svg"@
    } else if code == "122"@ {
        "svg/wi-night-cloudy.svg"@
    } else if code == "143"@ {
        "svg/wi-night-fog.svg"@
    } else if code == "176"@ {
        "svg/wi-night-rain.svg"@
    } else if code == "179"@ {
        "svg/wi-night-snow.svg"@
    } else if code == "182"@ {
        "svg/wi-night-sleet.svg"@
    } else if code == "185"@ {
        "svg/wi-night-rain-mix.svg"@
    } else if code == "200"@ {
        "svg/wi-night-lightning.svg"@
    } else if code == "227"@ {
        "svg/wi-night-snow-wind.svg"@
    } else if code == "230"@ {
        "svg/wi-night-snow-wind.svg"@
    } else if code == "248"@ {
        "svg/wi-night-fog.svg"@
    } else if code == "260"@ {
        "svg/wi-night-fog.svg"@
    } else if code == "263"@ {
        "svg/wi-night-rain.svg"@
    } else if code == "266"@ {
        "svg/wi-night-rain.svg"@
    } else if code == "281"@ {
        "svg/wi-night-rain-mix.svg"@
    } else if code == "284"@ {
        "svg/wi-night-rain-mix.svg"@
    } else if code == "293"@ {
        "svg/wi-night-rain.svg"@
    } else if code == "296"@ {
        "svg/wi-night-rain.svg"@
    } else if code == "299"@ {
        "svg/wi-night-rain.svg"@
    } else if code == "302"@ {
        "svg/wi-night-rain.svg"@
    } else if code == "305"@ {
        "svg/wi-night-storm-showers.svg"@
    } else if code == "308"@ {
        "svg/wi-night-storm-showers.svg"@
    } else if code == "311"@ {
        "svg/wi-night-rain-mix.svg"@
    } else if code == "314"@ {
        "svg/wi-night-rain-mix.svg"@
    } else if code == "317"@ {
        "svg/wi-night-sleet.svg"@
    } else if code == "320"@ {
        "svg/wi-night-sleet-storm.svg"@
    } else if code == "323"@ {
        "svg/wi-night-snow.svg"@
    } else if code == "326"@ {
        "svg/wi-night-snow.svg"@
    } else if code == "329"@ {
        "svg/wi-night-snow.svg"@
    } else if code == "332"@ {
        "svg/wi-night-snow.svg"@
    } else if code == "335"@ {
        "svg/wi-night-snow.svg"@
    } else if code == "338"@ {
        "svg/wi-night-snow.svg"@
    } else if code == "350"@ {
        "svg/wi-night-hail.svg"@
    } else if code == "353"@ {
        "svg/wi-night-hail.svg"@
    } else if code == "356"@ {
        "svg/wi-night-snow-thunderstorm.svg"@
    } else if code == "359"@ {
        "svg/wi-night-thunderstorm.svg"@
    } else if code == "362"@ {
        "svg/wi-night-sleet.svg"@
    } else if code == "365"@ {
        "svg/wi-night-sleet-storm.svg"@
    } else if code == "368"@ {
        "svg/wi-night-snow.svg"@
    } else if code == "371"@ {
        "svg/wi-night-snow.svg"@
    } else if code == "374"@ {
        "svg/wi-night-hail.svg"@
    } else if code == "377"@ {
        "svg/wi-night-hail.svg"@
    } else if code == "386"@ {
        "svg/wi-night-rain.svg"@
    } else if code == "389"@ {
        "svg/wi-night-thunderstorm.svg"@
    } else if code == "392"@ {
        "svg/wi-night-snow.svg"@
    } else if code == "395"@ {
        "svg/wi-night-snow-thunderstorm.svg"@
    } else if code == "NA"@ {
        "svg/wi-na.svg"@
    } else {
        "svg/wi-na.svg"@
    }
}

/// The icon of a condition code under a day/night state.
pub open spec fn weather_icon_spec(code: Seq<char>, night: bool) -> Seq<char> {
    if night {
        night_icon(code)
    } else {
        day_icon(code)
    }
}

/// Maps a condition code to its description, classifying the observed
/// time against the sunset for the clear-sky day/night variant. An
/// unknown code yields a description naming the code.
pub fn get_weather_desc(weather_code: &str, last_time_updated: &str, sunset: &str) -> (r:
    String)
    ensures
        r@ == weather_desc_spec(weather_code@, night_of(last_time_updated@, sunset@, false)),
{
    if str_eq(weather_code, "113") {
        if is_night(last_time_updated, sunset, false) {
            "Clear".to_owned()
        } else {
            "Sunny/Clear".to_owned()
        }
    } else if str_eq(weather_code, "116") {
        "Partly Cloudy".to_owned()
    } else if str_eq(weather_code, "119") {
        "Cloudy".to_owned()
    } else if str_eq(weather_code, "122") {
        "Overcast".to_owned()
    } else if str_eq(weather_code, "143") {
        "Mist".to_owned()
    } else if str_eq(weather_code, "176") {
        "Patchy rain nearby".to_owned()
    } else if str_eq(weather_code, "179") {
        "Patchy snow nearby".to_owned()
    } else if str_eq(weather_code, "182") {
        "Patchy sleet nearby".to_owned()
    } else if str_eq(weather_code, "185") {
        "Patchy freezing drizzle nearby".to_owned()
    } else if str_eq(weather_code, "200") {
        "Thundery outbreaks nearby".to_owned()
    } else if str_eq(weather_code, "227") {
        "Blowing snow".to_owned()
    } else if str_eq(weather_code, "230") {
        "Blizzard".to_owned()
    } else if str_eq(weather_code, "248") {
        "Fog".to_owned()
    } else if str_eq(weather_code, "260") {
        "Freezing fog".to_owned()
    } else if str_eq(weather_code, "263") {
        "Patchy light drizzle".to_owned()
    } else if str_eq(weather_code, "266") {
        "Light drizzle".to_owned()
    } else if str_eq(weather_code, "281") {
        "Freezing drizzle".to_owned()
    } else if str_eq(weather_code, "284") {
        "Heavy freezing drizzle".to_owned()
    } else if str_eq(weather_code, "293") {
        "Patchy light rain".to_owned()
    } else if str_eq(weather_code, "296") {
        "Light rain".to_owned()
    } else if str_eq(weather_code, "299") {
        "Moderate rain at times".to_owned()
    } else if str_eq(weather_code, "302") {
        "Moderate rain".to_owned()
    } else if str_eq(weather_code, "305") {
        "Heavy rain at times".to_owned()
    } else if str_eq(weather_code, "308") {
        "Heavy rain".to_owned()
    } else if str_eq(weather_code, "311") {
        "Light freezing rain".to_owned()
    } else if str_eq(weather_code, "314") {
        "Moderate or Heavy freezing rain".to_owned()
    } else if str_eq(weather_code, "317") {
        "Light sleet".to_owned()
    } else if str_eq(weather_code, "320") {
        "Moderate or heavy sleet".to_owned()
    } else if str_eq(weather_code, "323") {
        "Patchy light snow".to_owned()
    } else if str_eq(weather_code, "326") {
        "Light snow".to_owned()
    } else if str_eq(weather_code, "329") {
        "Patchy moderate snow".to_owned()
    } else if str_eq(weather_code, "332") {
        "Moderate snow".to_owned()
    } else if str_eq(weather_code, "335") {
        "Patchy heavy snow".to_owned()
    } else if str_eq(weather_code, "338") {
        "Heavy snow".to_owned()
    } else if str_eq(weather_code, "350") {
        "Hail".to_owned()
    } else if str_eq(weather_code, "353") {
        "Light rain shower".to_owned()
    } else if str_eq(weather_code, "356") {
        "Moderate or heavy rain shower".to_owned()
    } else if str_eq(weather_code, "359") {
        "Torrential rain shower".to_owned()
    } else if str_eq(weather_code, "362") {
        "Light sleet showers".to_owned()
    } else if str_eq(weather_code, "365") {
        "Moderate or heavy sleet showers".to_owned()
    } else if str_eq(weather_code, "368") {
        "Light snow showers".to_owned()
    } else if str_eq(weather_code, "371") {
        "Moderate or heavy snow showers".to_owned()
    } else if str_eq(weather_code, "374") {
        "Light showers of hail".to_owned()
    } else if str_eq(weather_code, "377") {
        "Moderate or heavy showers of hail".to_owned()
    } else if str_eq(weather_code, "386") {
        "Patchy light rain in area with thunder".to_owned()
    } else if str_eq(weather_code, "389") {
        "Moderate or heavy rain in area with thunder".to_owned()
    } else if str_eq(weather_code, "392") {
        "Patchy light snow in area with thunder".to_owned()
    } else if str_eq(weather_code, "395") {
        "Moderate or heavy snow in area with thunder".to_owned()
    } else {
        "Invalid weather code: ".to_owned().concat(weather_code)
    }
}

/// Maps a condition code to its icon reference, a path relative to
/// the asset root. Day/night classification follows the observed time
/// and the sunset unless the caller forces daytime art; an unknown
/// code yields the placeholder icon.
pub fn get_weather_image(weather_code: &str, last_time_updated: &str, sunset: &str,
    force_day: bool) -> (r: String)
    ensures
        r@ == weather_icon_spec(weather_code@, night_of(last_time_updated@, sunset@, force_day)),
{
    if is_night(last_time_updated, sunset, force_day) {
        if str_eq(weather_code, "113") {
            "svg/wi-night-clear.svg".to_owned()
        } else if str_eq(weather_code, "116") {
            "svg/wi-night-partly-cloudy.svg".to_owned()
        } else if str_eq(weather_code, "119") {
            "svg/wi-night-cloudy.svg".to_owned()
        } else if str_eq(weather_code, "122") {
            "svg/wi-night-cloudy.svg".to_owned()
        } else if str_eq(weather_code, "143") {
            "svg/wi-night-fog.svg".to_owned()
        } else if str_eq(weather_code, "176") {
            "svg/wi-night-rain.svg".to_owned()
        } else if str_eq(weather_code, "179") {
            "svg/wi-night-snow.svg".to_owned()
        } else if str_eq(weather_code, "182") {
            "svg/wi-night-sleet.svg".to_owned()
        } else if str_eq(weather_code, "185") {
            "svg/wi-night-rain-mix.svg".to_owned()
        } else if str_eq(weather_code, "200") {
            "svg/wi-night-lightning.svg".to_owned()
        } else if str_eq(weather_code, "227") {
            "svg/wi-night-snow-wind.svg".to_owned()
        } else if str_eq(weather_code, "230") {
            "svg/wi-night-snow-wind.svg".to_owned()
        } else if str_eq(weather_code, "248") {
            "svg/wi-night-fog.svg".to_owned()
        } else if str_eq(weather_code, "260") {
            "svg/wi-night-fog.svg".to_owned()
        } else if str_eq(weather_code, "263") {
            "svg/wi-night-rain.svg".to_owned()
        } else if str_eq(weather_code, "266") {
            "svg/wi-night-rain.svg".to_owned()
        } else if str_eq(weather_code, "281") {
            "svg/wi-night-rain-mix.svg".to_owned()
        } else if str_eq(weather_code, "284") {
            "svg/wi-night-rain-mix.svg".to_owned()
        } else if str_eq(weather_code, "293") {
            "svg/wi-night-rain.svg".to_owned()
        } else if str_eq(weather_code, "296") {
            "svg/wi-night-rain.svg".to_owned()
        } else if str_eq(weather_code, "299") {
            "svg/wi-night-rain.svg".to_owned()
        } else if str_eq(weather_code, "302") {
            "svg/wi-night-rain.svg".to_owned()
        } else if str_eq(weather_code, "305") {
            "svg/wi-night-storm-showers.svg".to_owned()
        } else if str_eq(weather_code, "308") {
            "svg/wi-night-storm-showers.svg".to_owned()
        } else if str_eq(weather_code, "311") {
            "svg/wi-night-rain-mix.svg".to_owned()
        } else if str_eq(weather_code, "314") {
            "svg/wi-night-rain-mix.svg".to_owned()
        } else if str_eq(weather_code, "317") {
            "svg/wi-night-sleet.svg".to_owned()
        } else if str_eq(weather_code, "320") {
            "svg/wi-night-sleet-storm.svg".to_owned()
        } else if str_eq(weather_code, "323") {
            "svg/wi-night-snow.svg".to_owned()
        } else if str_eq(weather_code, "326") {
            "svg/wi-night-snow.svg".to_owned()
        } else if str_eq(weather_code, "329") {
            "svg/wi-night-snow.svg".to_owned()
        } else if str_eq(weather_code, "332") {
            "svg/wi-night-snow.svg".to_owned()
        } else if str_eq(weather_code, "335") {
            "svg/wi-night-snow.svg".to_owned()
        } else if str_eq(weather_code, "338") {
            "svg/wi-night-snow.svg".to_owned()
        } else if str_eq(weather_code, "350") {
            "svg/wi-night-hail.svg".to_owned()
        } else if str_eq(weather_code, "353") {
            "svg/wi-night-hail.svg".to_owned()
        } else if str_eq(weather_code, "356") {
            "svg/wi-night-snow-thunderstorm.svg".to_owned()
        } else if str_eq(weather_code, "359") {
            "svg/wi-night-thunderstorm.svg".to_owned()
        } else if str_eq(weather_code, "362") {
            "svg/wi-night-sleet.svg".to_owned()
        } else if str_eq(weather_code, "365") {
            "svg/wi-night-sleet-storm.svg".to_owned()
        } else if str_eq(weather_code, "368") {
            "svg/wi-night-snow.svg".to_owned()
        } else if str_eq(weather_code, "371") {
            "svg/wi-night-snow.svg".to_owned()
        } else if str_eq(weather_code, "374") {
            "svg/wi-night-hail.svg".to_owned()
        } else if str_eq(weather_code, "377") {
            "svg/wi-night-hail.svg".to_owned()
        } else if str_eq(weather_code, "386") {
            "svg/wi-night-rain.svg".to_owned()
        } else if str_eq(weather_code, "389") {
            "svg/wi-night-thunderstorm.svg".to_owned()
        } else if str_eq(weather_code, "392") {
            "svg/wi-night-snow.svg".to_owned()
        } else if str_eq(weather_code, "395") {
            "svg/wi-night-snow-thunderstorm.svg".to_owned()
        } else if str_eq(weather_code, "NA") {
            "svg/wi-na.svg".to_owned()
        } else {
            "svg/wi-na.svg".to_owned()
        }
    } else {
        if str_eq(weather_code, "113") {
            "svg/wi-day-sunny.svg".to_owned()
        } else if str_eq(weather_code, "116") {
            "svg/wi-day-cloudy.svg".to_owned()
        } else if str_eq(weather_code, "119") {
            "svg/wi-day-cloudy.svg".to_owned()
        } else if str_eq(weather_code, "122") {
            "svg/wi-day-sunny-overcast.svg".to_owned()
        } else if str_eq(weather_code, "143") {
            "svg/wi-day-haze.svg".to_owned()
        } else if str_eq(weather_code, "176") {
            "svg/wi-day-sprinkle.svg".to_owned()
        } else if str_eq(weather_code, "179") {
            "svg/wi-day-snow.svg".to_owned()
        } else if str_eq(weather_code, "182") {
            "svg/wi-day-sleet.svg".to_owned()
        } else if str_eq(weather_code, "185") {
            "svg/wi-day-rain-mix.svg".to_owned()
        } else if str_eq(weather_code, "200") {
            "svg/wi-day-rain-mix.svg".to_owned()
        } else if str_eq(weather_code, "227") {
            "svg/wi-day-snow-wind.svg".to_owned()
        } else if str_eq(weather_code, "230") {
            "svg/wi-day-snow-thunderstorm.svg".to_owned()
        } else if str_eq(weather_code, "248") {
            "svg/wi-day-fog.svg".to_owned()
        } else if str_eq(weather_code, "260") {
            "svg/wi-day-fog.svg".to_owned()
        } else if str_eq(weather_code, "263") {
            "svg/wi-day-sprinkle.svg".to_owned()
        } else if str_eq(weather_code, "266") {
            "svg/wi-day-sprinkle.svg".to_owned()
        } else if str_eq(weather_code, "281") {
            "svg/wi-day-rain-mix.svg".to_owned()
        } else if str_eq(weather_code, "284") {
            "svg/wi-day-rain-mix.svg".to_owned()
        } else if str_eq(weather_code, "293") {
            "svg/wi-day-sprinkle.svg".to_owned()
        } else if str_eq(weather_code, "296") {
            "svg/wi-day-rain.svg".to_owned()
        } else if str_eq(weather_code, "299") {
            "svg/wi-day-rain.svg".to_owned()
        } else if str_eq(weather_code, "302") {
            "svg/wi-day-rain.svg".to_owned()
        } else if str_eq(weather_code, "305") {
            "svg/wi-day-rain.svg".to_owned()
        } else if str_eq(weather_code, "308") {
            "svg/wi-day-rain.svg".to_owned()
        } else if str_eq(weather_code, "311") {
            "svg/wi-day-rain-mix.svg".to_owned()
        } else if str_eq(weather_code, "314") {
            "svg/wi-day-rain-mix.svg".to_owned()
        } else if str_eq(weather_code, "317") {
            "svg/wi-day-sleet.svg".to_owned()
        } else if str_eq(weather_code, "320") {
            "svg/wi-day-sleet.svg".to_owned()
        } else if str_eq(weather_code, "323") {
            "svg/wi-day-snow.svg".to_owned()
        } else if str_eq(weather_code, "326") {
            "svg/wi-day-snow.svg".to_owned()
        } else if str_eq(weather_code, "329") {
            "svg/wi-day-snow.svg".to_owned()
        } else if str_eq(weather_code, "332") {
            "svg/wi-day-snow.svg".to_owned()
        } else if str_eq(weather_code, "335") {
            "svg/wi-day-snow-wind.svg".to_owned()
        } else if str_eq(weather_code, "338") {
            "svg/wi-day-snow-wind.svg".to_owned()
        } else if str_eq(weather_code, "350") {
            "svg/wi-day-hail.svg".to_owned()
        } else if str_eq(weather_code, "353") {
            "svg/wi-day-rain.svg".to_owned()
        } else if str_eq(weather_code, "356") {
            "svg/wi-day-rain.svg".to_owned()
        } else if str_eq(weather_code, "359") {
            "svg/wi-day-thunderstorm.svg".to_owned()
        } else if str_eq(weather_code, "362") {
            "svg/wi-day-sleet.svg".to_owned()
        } else if str_eq(weather_code, "365") {
            "svg/wi-day-sleet-storm.svg".to_owned()
        } else if str_eq(weather_code, "368") {
            "svg/wi-day-snow.svg".to_owned()
        } else if str_eq(weather_code, "371") {
            "svg/wi-day-snow-wind.svg".to_owned()
        } else if str_eq(weather_code, "374") {
            "svg/wi-day-hail.svg".to_owned()
        } else if str_eq(weather_code, "377") {
            "svg/wi-day-hail.svg".to_owned()
        } else if str_eq(weather_code, "386") {
            "svg/wi-day-rain.svg".to_owned()
        } else if str_eq(weather_code, "389") {
            "svg/wi-day-thunderstorm.svg".to_owned()
        } else if str_eq(weather_code, "392") {
            "svg/wi-day-snow-thunderstorm.svg".to_owned()
        } else if str_eq(weather_code, "395") {
            "svg/wi-day-thunderstorm.svg".to_owned()
        } else if str_eq(weather_code, "NA") {
            "svg/wi-na.svg".to_owned()
        } else {
            "svg/wi-na.svg".to_owned()
        }
    }
}

/// Law: a condition code outside the known set still maps to the
/// defined unknown description and placeholder icon, and neither is
/// empty.
pub proof fn lemma_unknown_code_defaults(code: Seq<char>, night: bool)
    requires
        !known_code(code),
    ensures
        weather_desc_spec(code, night) == "Invalid weather code: "@ + code,
        weather_desc_spec(code, night).len() > 0,
        weather_icon_spec(code, night) == "svg/wi-na.svg"@,
        weather_icon_spec(code, night).len() > 0,
{
    reveal_strlit("Invalid weather code: ");
    reveal_strlit("svg/wi-na.svg");
}

} // verus!
