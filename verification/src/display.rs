//! Display records: the normalized model reduced to the strings a
//! presentation layer shows, with the temperature fields chosen by
//! the unit preference and per-hour/per-day precipitation chances.

use vstd::prelude::*;

use crate::codes::{get_weather_image, weather_icon_spec};
use crate::daynight::night_of;
use crate::errors::UIError;
use crate::model::{ForecastDay, ForecastHour, Weather};
use crate::text::{dec_str, parse_u32, str_eq, u32_parse, u64_to_string};

verus! {

/// A unit string selecting Fahrenheit.
pub open spec fn unit_is_f(u: Seq<char>) -> bool {
    u == "f"@ || u == "F"@
}

/// A unit string selecting Celsius.
pub open spec fn unit_is_c(u: Seq<char>) -> bool {
    u == "c"@ || u == "C"@
}

fn unit_f(unit: &str) -> (r: bool)
    ensures
        r == unit_is_f(unit@),
{
    str_eq(unit, "f") || str_eq(unit, "F")
}

fn unit_c(unit: &str) -> (r: bool)
    ensures
        r == unit_is_c(unit@),
{
    str_eq(unit, "c") || str_eq(unit, "C")
}

/// The current-conditions display record.
#[derive(Debug, Clone)]
pub struct CurrentWeatherGui {
    pub last_time_updated: String,
    pub last_date_updated: String,
    pub unit: String,
    pub current_temp: String,
    pub feels_like: String,
    pub humidity: String,
    pub uv_index: String,
    pub visibility: String,
    pub weather_desc: String,
    pub weather_image: String,
}

impl Default for CurrentWeatherGui {
    /// The placeholder record shown before any data arrives.
    fn default() -> (r: CurrentWeatherGui)
        ensures
            r.last_time_updated@ == ""@,
            r.last_date_updated@ == ""@,
            r.unit@ == ""@,
            r.current_temp@ == ""@,
            r.feels_like@ == ""@,
            r.humidity@ == ""@,
            r.uv_index@ == ""@,
            r.visibility@ == ""@,
            r.weather_desc@ == "Error"@,
            r.weather_image@ == "svg\\wi-na.svg"@,
    {
        CurrentWeatherGui {
            last_time_updated: "".to_owned(),
            last_date_updated: "".to_owned(),
            unit: "".to_owned(),
            current_temp: "".to_owned(),
            feels_like: "".to_owned(),
            humidity: "".to_owned(),
            uv_index: "".to_owned(),
            visibility: "".to_owned(),
            weather_desc: "Error".to_owned(),
            weather_image: "svg\\wi-na.svg".to_owned(),
        }
    }
}

/// A forecast day's display record.
#[derive(Debug, Clone)]
pub struct DaysWeatherGui {
    pub unit: String,
    pub date: String,
    pub max_temp: String,
    pub min_temp: String,
    pub uv_index: String,
    pub sunrise: String,
    pub sunset: String,
    pub average_chance_of_precip: String,
    pub weather_desc: String,
    pub weather_image: String,
}

/// A forecast hour's display record.
#[derive(Debug, Clone)]
pub struct HourlyWeatherGui {
    pub unit: String,
    pub time: String,
    pub temp: String,
    pub feels_like: String,
    pub chance_of_precip: String,
    pub weather_desc: String,
    pub weather_image: String,
}

/// An hour's precipitation chance: the chance of rain plus the chance
/// of snow, when both read as numbers.
pub open spec fn precip_sum(h: ForecastHour) -> Option<int> {
    match (u32_parse(h.chance_of_rain@), u32_parse(h.chance_of_snow@)) {
        (Some(r), Some(s)) => Some(r + s),
        _ => None,
    }
}

/// Every hour's precipitation fields read as numbers.
pub open spec fn all_precip_parse(hours: Seq<ForecastHour>) -> bool {
    forall|k: int| 0 <= k < hours.len() ==> precip_sum(#[trigger] hours[k]) is Some
}

/// The sum of all hours' precipitation chances.
pub open spec fn total_precip(hours: Seq<ForecastHour>) -> int
    recommends
        all_precip_parse(hours),
    decreases hours.len(),
{
    if hours.len() == 0 {
        0
    } else {
        total_precip(hours.drop_last()) + precip_sum(hours.last())->Some_0
    }
}

/// Division rounded to the nearest integer, a half going to the even
/// neighbour.
pub open spec fn round_half_even(num: int, den: int) -> int
    recommends
        num >= 0,
        den > 0,
{
    let q = num / den;
    let r2 = 2 * (num % den);
    if r2 > den {
        q + 1
    } else if r2 < den {
        q
    } else if q % 2 == 0 {
        q
    } else {
        q + 1
    }
}

/// The day's average-precipitation display text: the rounded mean of
/// its hours' summed chances, or "Error" where an hour's chance does
/// not read as a number or the day has no hours.
pub open spec fn avg_precip_text(day: ForecastDay) -> Seq<char> {
    if day.hourly@.len() > 0 && all_precip_parse(day.hourly@) {
        dec_str(round_half_even(total_precip(day.hourly@), day.hourly@.len() as int))
    } else {
        "Error"@
    }
}

proof fn lemma_total_precip_bound(hours: Seq<ForecastHour>)
    requires
        all_precip_parse(hours),
    ensures
        0 <= total_precip(hours) <= hours.len() * 8589934590,
    decreases hours.len(),
{
    if hours.len() > 0 {
        assert(all_precip_parse(hours.drop_last()));
        lemma_total_precip_bound(hours.drop_last());
        assert(precip_sum(hours.last())->Some_0 <= 8589934590);
        assert((hours.len() - 1) * 8589934590 + 8589934590 == hours.len() * 8589934590)
            by (nonlinear_arith);
    }
}

/// The arithmetic mean of the hours' summed precipitation chances,
/// rounded to the nearest whole percent. An hour whose chance does
/// not read as a number, or an empty hour list, is a data error.
pub fn get_average_precip(hourly_weather: &Vec<ForecastHour>) -> (r: Result<String, UIError>)
    ensures
        r is Ok <==> hourly_weather@.len() > 0 && all_precip_parse(hourly_weather@),
        r matches Ok(t) ==> t@ == avg_precip_text_of(hourly_weather@),
        r matches Err(e) ==> e is DataError,
{
    let n = hourly_weather.len();
    if n == 0 {
        return Err(UIError::DataError { msg: "No hourly entries to average.".to_owned() });
    }
    let mut total: u128 = 0;
    let mut i: usize = 0;
    proof {
        assert(hourly_weather@.take(0) =~= Seq::<ForecastHour>::empty());
    }
    while i < n
        invariant
            n == hourly_weather@.len(),
            0 <= i <= n,
            all_precip_parse(hourly_weather@.take(i as int)),
            total == total_precip(hourly_weather@.take(i as int)),
            total <= i * 8589934590,
        decreases n - i,
    {
        let hour = &hourly_weather[i];
        let rain = match parse_u32(hour.chance_of_rain.as_str()) {
            Some(x) => x,
            None => {
                return Err(
                    UIError::DataError { msg: "Error parsing rain chance".to_owned() },
                );
            },
        };
        let snow = match parse_u32(hour.chance_of_snow.as_str()) {
            Some(x) => x,
            None => {
                return Err(
                    UIError::DataError { msg: "Error parsing rain chance".to_owned() },
                );
            },
        };
        proof {
            assert(hourly_weather@.take(i + 1).drop_last() =~= hourly_weather@.take(i as int));
            assert(hourly_weather@.take(i + 1).last() == hourly_weather@[i as int]);
            assert(precip_sum(hourly_weather@[i as int]) == Some((rain + snow) as int));
        }
        total = total + rain as u128 + snow as u128;
        i += 1;
    }
    proof {
        assert(hourly_weather@.take(n as int) =~= hourly_weather@);
    }
    let den: u128 = n as u128;
    let q = total / den;
    let rem = total % den;
    proof {
        lemma_total_precip_bound(hourly_weather@);
        assert(q <= 8589934590) by (nonlinear_arith)
            requires
                den > 0,
                total <= den * 8589934590,
                q == total / den,
        ;
    }
    let rounded: u128 = if 2 * rem > den {
        q + 1
    } else if 2 * rem < den {
        q
    } else if q % 2 == 0 {
        q
    } else {
        q + 1
    };
    Ok(u64_to_string(rounded as u64))
}

/// The display text `get_average_precip` yields for a given hour list.
pub open spec fn avg_precip_text_of(hours: Seq<ForecastHour>) -> Seq<char>
    recommends
        hours.len() > 0,
        all_precip_parse(hours),
{
    dec_str(round_half_even(total_precip(hours), hours.len() as int))
}

/// How a current-conditions display record relates to the model: the
/// unit preference picks the temperature fields, and an unrecognized
/// unit yields the defensive placeholder record.
pub open spec fn current_gui_derived(w: Weather, unit: Seq<char>, g: CurrentWeatherGui) -> bool
    recommends
        w.current_weather.current_condition@.len() > 0,
{
    if unit_is_f(unit) || unit_is_c(unit) {
        let c = w.current_weather.current_condition@[0];
        &&& g.last_time_updated@ == w.last_time_updated@
        &&& g.last_date_updated@ == w.last_date_updated@
        &&& g.unit@ == unit
        &&& g.current_temp@ == (if unit_is_f(unit) {
            c.temp_f@
        } else {
            c.temp_c@
        })
        &&& g.feels_like@ == (if unit_is_f(unit) {
            c.feels_like_f@
        } else {
            c.feels_like_c@
        })
        &&& g.humidity@ == c.humidity@
        &&& g.visibility@ == c.visibility@
        &&& g.uv_index@ == c.uv_index@
        &&& g.weather_desc@ == c.weather_desc@
        &&& g.weather_image@ == c.weather_image@
    } else {
        &&& g.last_time_updated@ == ""@
        &&& g.last_date_updated@ == ""@
        &&& g.unit@ == ""@
        &&& g.current_temp@ == "Error"@
        &&& g.feels_like@ == ""@
        &&& g.humidity@ == ""@
        &&& g.visibility@ == ""@
        &&& g.uv_index@ == ""@
        &&& g.weather_desc@ == ""@
        &&& g.weather_image@ == ".\\src\\svg\\wi-na.svg"@
    }
}

/// How a day's display record relates to its model day.
pub open spec fn day_gui_derived(day: ForecastDay, unit: Seq<char>, g: DaysWeatherGui) -> bool
    recommends
        (unit_is_f(unit) || unit_is_c(unit)) ==> day.astronomy@.len() > 0,
{
    if unit_is_f(unit) || unit_is_c(unit) {
        &&& g.unit@ == unit
        &&& g.date@ == day.date@
        &&& g.max_temp@ == (if unit_is_f(unit) {
            day.max_temp_f@
        } else {
            day.max_temp_c@
        })
        &&& g.min_temp@ == (if unit_is_f(unit) {
            day.min_temp_f@
        } else {
            day.min_temp_c@
        })
        &&& g.uv_index@ == day.uv_index@
        &&& g.sunrise@ == day.astronomy@[0].sunrise@
        &&& g.sunset@ == day.astronomy@[0].sunset@
        &&& g.average_chance_of_precip@ == avg_precip_text(day)
        &&& g.weather_desc@ == day.weather_desc@
        &&& g.weather_image@ == day.weather_image@
    } else {
        &&& g.unit@ == ""@
        &&& g.date@ == "Error"@
        &&& g.max_temp@ == ""@
        &&& g.min_temp@ == ""@
        &&& g.uv_index@ == ""@
        &&& g.sunrise@ == ""@
        &&& g.sunset@ == ""@
        &&& g.average_chance_of_precip@ == ""@
        &&& g.weather_desc@ == "Error"@
        &&& g.weather_image@ == weather_icon_spec("NA"@, night_of("12:00 PM"@, "9:00 PM"@, false))
    }
}

/// How an hour's display record relates to its model hour.
pub open spec fn hour_gui_derived(hour: ForecastHour, unit: Seq<char>, g: HourlyWeatherGui) -> bool
    recommends
        precip_sum(hour) is Some,
{
    if unit_is_f(unit) || unit_is_c(unit) {
        &&& g.unit@ == unit
        &&& g.time@ == hour.time@
        &&& g.temp@ == (if unit_is_f(unit) {
            hour.temp_f@
        } else {
            hour.temp_c@
        })
        &&& g.feels_like@ == (if unit_is_f(unit) {
            hour.feels_like_f@
        } else {
            hour.feels_like_c@
        })
        &&& g.chance_of_precip@ == dec_str(precip_sum(hour)->Some_0)
        &&& g.weather_desc@ == hour.weather_desc@
        &&& g.weather_image@ == hour.weather_image@
    } else {
        &&& g.unit@ == ""@
        &&& g.time@ == ""@
        &&& g.temp@ == ""@
        &&& g.feels_like@ == ""@
        &&& g.chance_of_precip@ == ""@
        &&& g.weather_desc@ == "Error"@
        &&& g.weather_image@ == weather_icon_spec("NA"@, night_of("12:00 PM"@, "9:00 PM"@, false))
    }
}

impl CurrentWeatherGui {
    /// Reduces the model's current conditions to display strings,
    /// the unit preference selecting the temperature fields. Never
    /// fails: a recognized unit always selects, and an unrecognized
    /// one yields the placeholder record.
    pub fn update(weather_forecast: &Weather, unit: &str) -> (r: Result<CurrentWeatherGui, UIError>)
        requires
            weather_forecast.current_weather.current_condition@.len() > 0,
        ensures
            r is Ok,
            r matches Ok(g) ==> current_gui_derived(*weather_forecast, unit@, g),
    {
        if unit_f(unit) || unit_c(unit) {
            let c = &weather_forecast.current_weather.current_condition[0];
            Ok(
                CurrentWeatherGui {
                    last_time_updated: weather_forecast.last_time_updated.clone(),
                    last_date_updated: weather_forecast.last_date_updated.clone(),
                    unit: unit.to_owned(),
                    current_temp: if unit_f(unit) {
                        c.temp_f.clone()
                    } else {
                        c.temp_c.clone()
                    },
                    feels_like: if unit_f(unit) {
                        c.feels_like_f.clone()
                    } else {
                        c.feels_like_c.clone()
                    },
                    humidity: c.humidity.clone(),
                    visibility: c.visibility.clone(),
                    uv_index: c.uv_index.clone(),
                    weather_desc: c.weather_desc.clone(),
                    weather_image: c.weather_image.clone(),
                },
            )
        } else {
            Ok(
                CurrentWeatherGui {
                    last_time_updated: "".to_owned(),
                    last_date_updated: "".to_owned(),
                    unit: "".to_owned(),
                    current_temp: "Error".to_owned(),
                    feels_like: "".to_owned(),
                    humidity: "".to_owned(),
                    visibility: "".to_owned(),
                    uv_index: "".to_owned(),
                    weather_desc: "".to_owned(),
                    weather_image: ".\\src\\svg\\wi-na.svg".to_owned(),
                },
            )
        }
    }
}

impl DaysWeatherGui {
    /// Reduces one forecast day to display strings, the unit
    /// preference selecting the temperature fields. Never fails: a
    /// day whose precipitation average cannot be computed shows
    /// "Error" there instead.
    pub fn update(day_weather: &ForecastDay, unit: &str) -> (r: Result<DaysWeatherGui, UIError>)
        requires
            (unit_is_f(unit@) || unit_is_c(unit@)) ==> day_weather.astronomy@.len() > 0,
        ensures
            r is Ok,
            r matches Ok(g) ==> day_gui_derived(*day_weather, unit@, g),
    {
        let average_precip: String = match get_average_precip(&day_weather.hourly) {
            Ok(x) => x,
            Err(_) => "Error".to_owned(),
        };
        if unit_f(unit) || unit_c(unit) {
            Ok(
                DaysWeatherGui {
                    unit: unit.to_owned(),
                    date: day_weather.date.clone(),
                    max_temp: if unit_f(unit) {
                        day_weather.max_temp_f.clone()
                    } else {
                        day_weather.max_temp_c.clone()
                    },
                    min_temp: if unit_f(unit) {
                        day_weather.min_temp_f.clone()
                    } else {
                        day_weather.min_temp_c.clone()
                    },
                    uv_index: day_weather.uv_index.clone(),
                    sunrise: day_weather.astronomy[0].sunrise.clone(),
                    sunset: day_weather.astronomy[0].sunset.clone(),
                    average_chance_of_precip: average_precip,
                    weather_desc: day_weather.weather_desc.clone(),
                    weather_image: day_weather.weather_image.clone(),
                },
            )
        } else {
            Ok(
                DaysWeatherGui {
                    unit: "".to_owned(),
                    date: "Error".to_owned(),
                    max_temp: "".to_owned(),
                    min_temp: "".to_owned(),
                    uv_index: "".to_owned(),
                    sunrise: "".to_owned(),
                    sunset: "".to_owned(),
                    average_chance_of_precip: "".to_owned(),
                    weather_desc: "Error".to_owned(),
                    weather_image: get_weather_image("NA", "12:00 PM", "9:00 PM", false),
                },
            )
        }
    }
}

impl HourlyWeatherGui {
    /// Reduces one forecast hour to display strings, deriving the
    /// hour's precipitation chance as chance-of-rain plus
    /// chance-of-snow. A chance that does not read as a number is a
    /// data error.
    pub fn update(hour_weather: &ForecastHour, unit: &str) -> (r: Result<HourlyWeatherGui, UIError>)
        ensures
            r is Ok <==> precip_sum(*hour_weather) is Some,
            r matches Ok(g) ==> hour_gui_derived(*hour_weather, unit@, g),
            r matches Err(e) ==> e is DataError,
    {
        let rain = match parse_u32(hour_weather.chance_of_rain.as_str()) {
            Some(x) => x,
            None => {
                return Err(UIError::DataError { msg: "Error parsing rain chance".to_owned() });
            },
        };
        let snow = match parse_u32(hour_weather.chance_of_snow.as_str()) {
            Some(x) => x,
            None => {
                return Err(UIError::DataError { msg: "Error parsing rain chance".to_owned() });
            },
        };
        let precip = u64_to_string(rain as u64 + snow as u64);
        if unit_f(unit) || unit_c(unit) {
            Ok(
                HourlyWeatherGui {
                    unit: unit.to_owned(),
                    time: hour_weather.time.clone(),
                    temp: if unit_f(unit) {
                        hour_weather.temp_f.clone()
                    } else {
                        hour_weather.temp_c.clone()
                    },
                    feels_like: if unit_f(unit) {
                        hour_weather.feels_like_f.clone()
                    } else {
                        hour_weather.feels_like_c.clone()
                    },
                    chance_of_precip: precip,
                    weather_desc: hour_weather.weather_desc.clone(),
                    weather_image: hour_weather.weather_image.clone(),
                },
            )
        } else {
            Ok(
                HourlyWeatherGui {
                    unit: "".to_owned(),
                    time: "".to_owned(),
                    temp: "".to_owned(),
                    feels_like: "".to_owned(),
                    chance_of_precip: "".to_owned(),
                    weather_desc: "Error".to_owned(),
                    weather_image: get_weather_image("NA", "12:00 PM", "9:00 PM", false),
                },
            )
        }
    }
}

/// Everything the presentation layer shows at once: the current
/// conditions, each day's record, today's hourly records, and the
/// wall-clock strings.
#[derive(Debug, Clone)]
pub struct WeatherShim {
    pub current_weather: CurrentWeatherGui,
    pub daily_weather: Vec<DaysWeatherGui>,
    pub hourly_weather: Vec<HourlyWeatherGui>,
    pub clock: String,
    pub date: String,
}

/// A normalized model every display reduction accepts: a current
/// condition, at least one day, and an astronomy record per day.
pub open spec fn model_displayable(w: Weather) -> bool {
    &&& w.current_weather.current_condition@.len() > 0
    &&& w.daily_forecast.weather@.len() > 0
    &&& forall|i: int|
        0 <= i < w.daily_forecast.weather@.len()
            ==> #[trigger] w.daily_forecast.weather@[i].astronomy@.len() > 0
}

/// Reduces a whole normalized model to its display records: the
/// current conditions, one record per forecast day, and one record
/// per hour of day 0, with the supplied wall-clock strings attached.
/// The one failure is an hour of day 0 whose precipitation chance
/// does not read as a number.
pub fn update_all_weather(weather_forecast: &Weather, unit: &str, clock: String, date: String) -> (r:
    Result<WeatherShim, UIError>)
    requires
        model_displayable(*weather_forecast),
    ensures
        r is Ok <==> all_precip_parse(weather_forecast.daily_forecast.weather@[0].hourly@),
        r matches Ok(s) ==> ({
            let days = weather_forecast.daily_forecast.weather@;
            &&& current_gui_derived(*weather_forecast, unit@, s.current_weather)
            &&& s.daily_weather@.len() == days.len()
            &&& forall|i: int|
                0 <= i < days.len() ==> day_gui_derived(
                    #[trigger] days[i],
                    unit@,
                    s.daily_weather@[i],
                )
            &&& s.hourly_weather@.len() == days[0].hourly@.len()
            &&& forall|k: int|
                0 <= k < days[0].hourly@.len() ==> hour_gui_derived(
                    #[trigger] days[0].hourly@[k],
                    unit@,
                    s.hourly_weather@[k],
                )
            &&& s.clock@ == clock@
            &&& s.date@ == date@
        }),
        r matches Err(e) ==> e is DataError,
{
    let current_weather = match CurrentWeatherGui::update(weather_forecast, unit) {
        Ok(x) => x,
        Err(_) => {
            return Err(
                UIError::DataError { msg: "Error in getting current weather.".to_owned() },
            );
        },
    };
    let days = &weather_forecast.daily_forecast.weather;
    let ndays = days.len();
    let mut daily_weather: Vec<DaysWeatherGui> = Vec::new();
    let mut i: usize = 0;
    while i < ndays
        invariant
            ndays == days@.len(),
            days == weather_forecast.daily_forecast.weather,
            model_displayable(*weather_forecast),
            0 <= i <= ndays,
            daily_weather@.len() == i,
            forall|k: int|
                0 <= k < i ==> day_gui_derived(#[trigger] days@[k], unit@, daily_weather@[k]),
        decreases ndays - i,
    {
        let day_gui = match DaysWeatherGui::update(&days[i], unit) {
            Ok(x) => x,
            Err(_) => {
                return Err(
                    UIError::DataError { msg: "Error in getting a day's weather.".to_owned() },
                );
            },
        };
        daily_weather.push(day_gui);
        i += 1;
    }
    let hours = &days[0].hourly;
    let nhours = hours.len();
    let mut hourly_weather: Vec<HourlyWeatherGui> = Vec::new();
    let mut k: usize = 0;
    while k < nhours
        invariant
            nhours == hours@.len(),
            hours@ == weather_forecast.daily_forecast.weather@[0].hourly@,
            0 <= k <= nhours,
            hourly_weather@.len() == k,
            forall|j: int|
                0 <= j < k ==> precip_sum(#[trigger] hours@[j]) is Some && hour_gui_derived(
                    hours@[j],
                    unit@,
                    hourly_weather@[j],
                ),
        decreases nhours - k,
    {
        let hour_gui = match HourlyWeatherGui::update(&hours[k], unit) {
            Ok(x) => x,
            Err(_) => {
                proof {
                    assert(!all_precip_parse(weather_forecast.daily_forecast.weather@[0].hourly@));
                }
                return Err(
                    UIError::DataError { msg: "Error in getting an hour's weather.".to_owned() },
                );
            },
        };
        hourly_weather.push(hour_gui);
        k += 1;
    }
    Ok(WeatherShim { current_weather, daily_weather, hourly_weather, clock, date })
}

} // verus!
