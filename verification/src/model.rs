//! The forecast data model and the normalization engine: raw records
//! become display-ready records with derived dates, times, daily
//! representative codes, descriptions and icon references.

use vstd::prelude::*;

use crate::codes::{get_weather_desc, get_weather_image, weather_desc_spec, weather_icon_spec};
use crate::dates::{date_parse, display_date, iso_date_fmt, reformat_date};
use crate::daynight::{
    clock12_display, format_clock12, hour_display_12, hour_display_24, hour_of_raw, night_of,
    raw_hour_value, reformat_time,
};
use crate::errors::{ParseFailure, SettingsError};
use crate::text::str_eq;

verus! {

/// The user's display preferences: a location, a temperature unit,
/// and a 12-hour/24-hour clock choice.
#[derive(Debug, Clone)]
pub struct UserSettings {
    pub zip_code: String,
    pub unit: String,
    pub hour_12: bool,
}

/// The unit strings the pipeline accepts, in either case.
pub open spec fn unit_valid(u: Seq<char>) -> bool {
    u == "f"@ || u == "F"@ || u == "c"@ || u == "C"@
}

impl UserSettings {
    /// Validates a set of user settings. An unrecognized temperature
    /// unit is a hard configuration error; nothing downstream runs
    /// with one.
    pub fn new(zip_code: String, unit: String, hour_12: bool) -> (r: Result<
        UserSettings,
        SettingsError,
    >)
        ensures
            unit_valid(unit@) ==> (r matches Ok(s) && s.zip_code@ == zip_code@ && s.unit@ == unit@
                && s.hour_12 == hour_12),
            !unit_valid(unit@) ==> (r matches Err(e) && e matches SettingsError::SerdeError {
                error_desc,
            } && error_desc@ == "Invalid unit."@),
    {
        if str_eq(unit.as_str(), "f") || str_eq(unit.as_str(), "F") || str_eq(unit.as_str(), "c")
            || str_eq(unit.as_str(), "C") {
            Ok(UserSettings { zip_code, unit, hour_12 })
        } else {
            Err(SettingsError::SerdeError { error_desc: "Invalid unit.".to_owned() })
        }
    }
}

/// One astronomy record of a forecast day; the first record of a day
/// is authoritative.
#[derive(Debug, Clone)]
pub struct Astronomy {
    pub moon_phase: String,
    pub sunrise: String,
    pub sunset: String,
}

/// One hour of a forecast day. `time`, `weather_desc` and
/// `weather_image` are derived during normalization and are empty in
/// a raw record.
#[derive(Debug, Clone)]
pub struct ForecastHour {
    pub raw_time: String,
    pub time: String,
    pub temp_f: String,
    pub temp_c: String,
    pub feels_like_f: String,
    pub feels_like_c: String,
    pub chance_of_rain: String,
    pub chance_of_snow: String,
    pub weather_code: String,
    pub weather_desc: String,
    pub weather_image: String,
}

/// One forecast day. `date`, `weather_code`, `weather_desc` and
/// `weather_image` are derived during normalization.
#[derive(Debug, Clone)]
pub struct ForecastDay {
    pub raw_date: String,
    pub date: String,
    pub avg_temp_f: String,
    pub max_temp_f: String,
    pub min_temp_f: String,
    pub avg_temp_c: String,
    pub max_temp_c: String,
    pub min_temp_c: String,
    pub uv_index: String,
    pub weather_code: String,
    pub weather_desc: String,
    pub weather_image: String,
    pub astronomy: Vec<Astronomy>,
    pub hourly: Vec<ForecastHour>,
}

/// The multi-day view of a payload.
#[derive(Debug, Clone)]
pub struct DailyForecast {
    pub weather: Vec<ForecastDay>,
}

/// The current conditions of a payload. `weather_desc` and
/// `weather_image` are derived during normalization.
#[derive(Debug, Clone)]
pub struct CurrentConditions {
    pub weather_code: String,
    pub feels_like_f: String,
    pub feels_like_c: String,
    pub temp_c: String,
    pub temp_f: String,
    pub humidity: String,
    pub pressure: String,
    pub uv_index: String,
    pub visibility: String,
    pub weather_desc: String,
    pub weather_image: String,
}

/// The current-conditions view of a payload; the first entry is
/// authoritative.
#[derive(Debug, Clone)]
pub struct CurrentWeather {
    pub current_condition: Vec<CurrentConditions>,
}

/// The normalized model: capture time and date, current conditions,
/// and the ordered forecast days (day 0 is today).
#[derive(Debug, Clone)]
pub struct Weather {
    pub last_time_updated: String,
    pub last_date_updated: String,
    pub daily_forecast: DailyForecast,
    pub current_weather: CurrentWeather,
}

/// How often a code occurs in a sequence of codes.
pub open spec fn code_count(codes: Seq<Seq<char>>, c: Seq<char>) -> int
    decreases codes.len(),
{
    if codes.len() == 0 {
        0
    } else {
        code_count(codes.drop_last(), c) + if codes.last() == c {
            1int
        } else {
            0int
        }
    }
}

/// The distinct codes of a sequence, in order of first appearance.
pub open spec fn dedup_first(codes: Seq<Seq<char>>) -> Seq<Seq<char>>
    decreases codes.len(),
{
    if codes.len() == 0 {
        Seq::empty()
    } else {
        let p = dedup_first(codes.drop_last());
        if p.contains(codes.last()) {
            p
        } else {
            p.push(codes.last())
        }
    }
}

/// A left-to-right scan of candidate codes keeping the first one with
/// the strictly greatest count: the accepted deterministic tie-break.
pub open spec fn best_of(codes: Seq<Seq<char>>, cands: Seq<Seq<char>>) -> Seq<char>
    recommends
        cands.len() > 0,
    decreases cands.len(),
{
    if cands.len() <= 1 {
        cands[0]
    } else {
        let prev = best_of(codes, cands.drop_last());
        if code_count(codes, cands.last()) > code_count(codes, prev) {
            cands.last()
        } else {
            prev
        }
    }
}

/// The statistical mode of a sequence of codes; a tie goes to the
/// code whose first occurrence comes earliest.
pub open spec fn mode_of(codes: Seq<Seq<char>>) -> Seq<char>
    recommends
        codes.len() > 0,
{
    best_of(codes, dedup_first(codes))
}

/// The condition codes of a day's hours, in order.
pub open spec fn hour_codes(hours: Seq<ForecastHour>) -> Seq<Seq<char>> {
    hours.map_values(|h: ForecastHour| h.weather_code@)
}

proof fn lemma_count_push(codes: Seq<Seq<char>>, x: Seq<char>, c: Seq<char>)
    ensures
        code_count(codes.push(x), c) == code_count(codes, c) + if x == c {
            1int
        } else {
            0int
        },
{
    assert(codes.push(x).drop_last() =~= codes);
    assert(codes.push(x).last() == x);
}

proof fn lemma_count_bound(codes: Seq<Seq<char>>, c: Seq<char>)
    ensures
        0 <= code_count(codes, c) <= codes.len(),
    decreases codes.len(),
{
    if codes.len() > 0 {
        lemma_count_bound(codes.drop_last(), c);
    }
}

proof fn lemma_dedup_push(codes: Seq<Seq<char>>, x: Seq<char>)
    ensures
        dedup_first(codes.push(x)) == if dedup_first(codes).contains(x) {
            dedup_first(codes)
        } else {
            dedup_first(codes).push(x)
        },
{
    assert(codes.push(x).drop_last() =~= codes);
    assert(codes.push(x).last() == x);
}

proof fn lemma_dedup_contains(codes: Seq<Seq<char>>, x: Seq<char>)
    ensures
        dedup_first(codes).contains(x) <==> codes.contains(x),
    decreases codes.len(),
{
    if codes.len() > 0 {
        lemma_dedup_contains(codes.drop_last(), x);
        let p = dedup_first(codes.drop_last());
        if codes.contains(x) {
            let i = choose|i: int| 0 <= i < codes.len() && codes[i] == x;
            if i < codes.len() - 1 {
                assert(codes.drop_last()[i] == x);
                assert(codes.drop_last().contains(x));
            } else {
                assert(codes.last() == x);
            }
            if p.contains(x) {
                assert(dedup_first(codes).contains(x)) by {
                    if !p.contains(codes.last()) {
                        let j = choose|j: int| 0 <= j < p.len() && p[j] == x;
                        assert(p.push(codes.last())[j] == x);
                    }
                }
            } else {
                assert(codes.last() == x);
                assert(p.push(x).last() == x);
                assert(p.push(x).contains(x));
            }
        } else {
            assert(!codes.drop_last().contains(x)) by {
                if codes.drop_last().contains(x) {
                    let i = choose|i: int| 0 <= i < codes.len() - 1 && codes.drop_last()[i] == x;
                    assert(codes[i] == x);
                }
            }
            assert(codes.last() != x) by {
                if codes.last() == x {
                    assert(codes[codes.len() - 1] == x);
                }
            }
            if !p.contains(codes.last()) {
                assert(!p.push(codes.last()).contains(x)) by {
                    if p.push(codes.last()).contains(x) {
                        let j = choose|j: int|
                            0 <= j < p.len() + 1 && p.push(codes.last())[j] == x;
                        if j < p.len() {
                            assert(p[j] == x);
                        }
                    }
                }
            }
        }
    }
}

proof fn lemma_best_of_props(codes: Seq<Seq<char>>, cands: Seq<Seq<char>>)
    requires
        cands.len() > 0,
    ensures
        cands.contains(best_of(codes, cands)),
        forall|k: int|
            0 <= k < cands.len() ==> code_count(codes, cands[k]) <= code_count(
                codes,
                best_of(codes, cands),
            ),
    decreases cands.len(),
{
    if cands.len() <= 1 {
        assert(cands[0] == best_of(codes, cands));
    } else {
        lemma_best_of_props(codes, cands.drop_last());
        let prev = best_of(codes, cands.drop_last());
        let best = best_of(codes, cands);
        assert(cands.drop_last().contains(prev));
        let j = choose|j: int| 0 <= j < cands.len() - 1 && cands.drop_last()[j] == prev;
        assert(cands[j] == prev);
        assert(forall|k: int|
            0 <= k < cands.len() - 1 ==> cands.drop_last()[k] == cands[k] && code_count(
                codes,
                cands[k],
            ) <= code_count(codes, prev));
    }
}

/// Law: the representative code of a non-empty code sequence occurs
/// in it, and no code in the sequence occurs more often.
pub proof fn lemma_mode_is_max(codes: Seq<Seq<char>>)
    requires
        codes.len() > 0,
    ensures
        codes.contains(mode_of(codes)),
        forall|i: int|
            0 <= i < codes.len() ==> code_count(codes, codes[i]) <= code_count(
                codes,
                mode_of(codes),
            ),
{
    assert(codes.contains(codes.last()));
    lemma_dedup_contains(codes, codes.last());
    assert(dedup_first(codes).len() > 0);
    lemma_best_of_props(codes, dedup_first(codes));
    lemma_dedup_contains(codes, mode_of(codes));
    assert forall|i: int| 0 <= i < codes.len() implies code_count(codes, codes[i]) <= code_count(
        codes,
        mode_of(codes),
    ) by {
        assert(codes.contains(codes[i]));
        lemma_dedup_contains(codes, codes[i]);
        let j = choose|j: int|
            0 <= j < dedup_first(codes).len() && dedup_first(codes)[j] == codes[i];
        lemma_best_of_props(codes, dedup_first(codes));
    }
}

/// The views of a vector of code strings.
pub open spec fn views_of(v: Seq<String>) -> Seq<Seq<char>> {
    v.map_values(|s: String| s@)
}

/// Derives a day's representative condition code: the code occurring
/// most often among the day's hourly entries, a tie going to the code
/// encountered first. A day with no hourly entries has no mode, so
/// the precondition excludes it.
pub fn get_daily_weather_code(hourly_weather: &Vec<ForecastHour>) -> (r: String)
    requires
        hourly_weather@.len() > 0,
    ensures
        r@ == mode_of(hour_codes(hourly_weather@)),
{
    let ghost codes = hour_codes(hourly_weather@);
    let mut distinct: Vec<String> = Vec::new();
    let mut counts: Vec<usize> = Vec::new();
    let n = hourly_weather.len();
    let mut i: usize = 0;
    proof {
        assert(codes.take(0) =~= Seq::<Seq<char>>::empty());
    }
    while i < n
        invariant
            n == hourly_weather@.len(),
            codes == hour_codes(hourly_weather@),
            0 <= i <= n,
            counts@.len() == distinct@.len(),
            views_of(distinct@) == dedup_first(codes.take(i as int)),
            forall|j: int|
                0 <= j < distinct@.len() ==> counts@[j] == code_count(
                    codes.take(i as int),
                    #[trigger] views_of(distinct@)[j],
                ),
            forall|j: int| 0 <= j < counts@.len() ==> #[trigger] counts@[j] <= i,
        decreases n - i,
    {
        let code: &String = &hourly_weather[i].weather_code;
        proof {
            assert(codes.take(i + 1).drop_last() =~= codes.take(i as int));
            assert(codes.take(i + 1).last() == code@);
            lemma_dedup_push(codes.take(i as int), code@);
            lemma_dedup_nodup(codes.take(i as int));
        }
        let dlen = distinct.len();
        let mut j: usize = 0;
        let mut found = false;
        while j < dlen && !found
            invariant
                counts@.len() == distinct@.len(),
                dlen == distinct@.len(),
                0 <= j <= dlen,
                !found ==> forall|k: int| 0 <= k < j ==> views_of(distinct@)[k] != code@,
                found ==> j < dlen && views_of(distinct@)[j as int] == code@,
            decreases dlen - j + if found {
                0int
            } else {
                1int
            },
        {
            if str_eq(distinct[j].as_str(), code.as_str()) {
                found = true;
            } else {
                j += 1;
            }
        }
        let ghost old_views = views_of(distinct@);
        let ghost prev = codes.take(i as int);
        proof {
            if found {
                assert(old_views.contains(code@));
            } else {
                assert(!old_views.contains(code@)) by {
                    if old_views.contains(code@) {
                        let k = choose|k: int| 0 <= k < old_views.len() && old_views[k] == code@;
                    }
                }
                lemma_dedup_contains(prev, code@);
                lemma_count_zero_when_absent(prev, code@);
            }
        }
        if found {
            let c = counts[j];
            proof {
                lemma_count_bound(prev, old_views[j as int]);
            }
            counts[j] = c + 1;
            proof {
                assert forall|k1: int, k2: int|
                    0 <= k1 < old_views.len() && 0 <= k2 < old_views.len() && k1 != k2
                    implies old_views[k1] != old_views[k2] by {
                    assert(dedup_first(prev)[k1] != dedup_first(prev)[k2]);
                }
            }
        } else {
            distinct.push(code.clone());
            counts.push(1);
            proof {
                assert(views_of(distinct@) =~= old_views.push(code@));
            }
        }
        proof {
            let now = codes.take(i + 1);
            assert forall|k: int| 0 <= k < distinct@.len() implies counts@[k] == code_count(
                now,
                #[trigger] views_of(distinct@)[k],
            ) by {
                lemma_count_push(prev, code@, views_of(distinct@)[k]);
                if found {
                    assert(views_of(distinct@)[k] == old_views[k]);
                    if k != j {
                        assert(old_views[k] != old_views[j as int]);
                    }
                } else {
                    if k < distinct@.len() - 1 {
                        assert(views_of(distinct@)[k] == old_views[k]);
                        assert(old_views[k] != code@);
                    } else {
                        assert(views_of(distinct@)[k] == code@);
                    }
                }
            }
        }
        i += 1;
    }
    proof {
        assert(codes.take(n as int) =~= codes);
        assert(distinct@.len() > 0) by {
            assert(codes.contains(codes.last()));
            lemma_dedup_contains(codes, codes.last());
        }
    }
    let m = distinct.len();
    let mut best: usize = 0;
    let mut j: usize = 1;
    proof {
        assert(views_of(distinct@).take(1)[0] == views_of(distinct@)[0]);
    }
    while j < m
        invariant
            m == distinct@.len(),
            counts@.len() == distinct@.len(),
            codes == hour_codes(hourly_weather@),
            views_of(distinct@) == dedup_first(codes),
            forall|k: int|
                0 <= k < distinct@.len() ==> counts@[k] == code_count(
                    codes,
                    #[trigger] views_of(distinct@)[k],
                ),
            0 < m,
            0 <= best < m,
            1 <= j <= m,
            best < j || (best == 0 && j <= 1),
            views_of(distinct@)[best as int] == best_of(codes, views_of(distinct@).take(j as int)),
        decreases m - j,
    {
        proof {
            let dv = views_of(distinct@);
            assert(dv.take(j + 1).drop_last() =~= dv.take(j as int));
            assert(dv.take(j + 1).last() == dv[j as int]);
        }
        if counts[j] > counts[best] {
            best = j;
        }
        j += 1;
    }
    proof {
        assert(views_of(distinct@).take(m as int) =~= views_of(distinct@));
    }
    distinct[best].clone()
}

proof fn lemma_dedup_nodup(codes: Seq<Seq<char>>)
    ensures
        forall|k1: int, k2: int|
            0 <= k1 < dedup_first(codes).len() && 0 <= k2 < dedup_first(codes).len() && k1 != k2
                ==> dedup_first(codes)[k1] != dedup_first(codes)[k2],
    decreases codes.len(),
{
    if codes.len() > 0 {
        lemma_dedup_nodup(codes.drop_last());
        let p = dedup_first(codes.drop_last());
        if !p.contains(codes.last()) {
            assert forall|k1: int, k2: int|
                0 <= k1 < p.len() + 1 && 0 <= k2 < p.len() + 1 && k1 != k2
                implies p.push(codes.last())[k1] != p.push(codes.last())[k2] by {
                if k1 < p.len() && k2 < p.len() {
                    assert(p[k1] != p[k2]);
                } else if k1 < p.len() {
                    assert(!p.contains(p[k1]) ==> false);
                    assert(p.contains(p[k1]));
                } else if k2 < p.len() {
                    assert(p.contains(p[k2]));
                }
            }
        }
    }
}

proof fn lemma_count_zero_when_absent(codes: Seq<Seq<char>>, c: Seq<char>)
    requires
        !codes.contains(c),
    ensures
        code_count(codes, c) == 0,
    decreases codes.len(),
{
    if codes.len() > 0 {
        assert(!codes.drop_last().contains(c)) by {
            if codes.drop_last().contains(c) {
                let i = choose|i: int| 0 <= i < codes.len() - 1 && codes.drop_last()[i] == c;
                assert(codes[i] == c);
            }
        }
        assert(codes.last() != c) by {
            if codes.last() == c {
                assert(codes[codes.len() - 1] == c);
            }
        }
        lemma_count_zero_when_absent(codes.drop_last(), c);
    }
}

/// An hourly record whose time label reads as a number, as the
/// normalizer demands.
pub open spec fn hour_ready(h: ForecastHour) -> bool {
    raw_hour_value(h.raw_time@) is Some
}

/// A raw forecast day the normalizer can work on: an authoritative
/// astronomy record, at least one hour, and readable hour labels.
pub open spec fn day_ready(day: ForecastDay) -> bool {
    &&& day.astronomy@.len() > 0
    &&& day.hourly@.len() > 0
    &&& forall|k: int| 0 <= k < day.hourly@.len() ==> hour_ready(#[trigger] day.hourly@[k])
}

/// Raw views the normalizer can work on.
pub open spec fn inputs_ready(current: CurrentWeather, daily: DailyForecast) -> bool {
    &&& current.current_condition@.len() > 0
    &&& daily.weather@.len() > 0
    &&& forall|i: int| 0 <= i < daily.weather@.len() ==> day_ready(#[trigger] daily.weather@[i])
}

/// The day/night state of an hourly record: its own on-the-hour
/// display time measured against the day's sunset.
pub open spec fn hour_night(h: ForecastHour, sunset: Seq<char>) -> bool {
    night_of(clock12_display(hour_of_raw(h.raw_time@)), sunset, false)
}

/// How a normalized hourly record relates to its raw record.
pub open spec fn hour_derived(
    inp: ForecastHour,
    out: ForecastHour,
    sunset: Seq<char>,
    hour_12: bool,
) -> bool {
    let h = hour_of_raw(inp.raw_time@);
    &&& out.raw_time@ == inp.raw_time@
    &&& out.time@ == (if hour_12 {
        hour_display_12(h)
    } else {
        hour_display_24(h)
    })
    &&& out.temp_f@ == inp.temp_f@
    &&& out.temp_c@ == inp.temp_c@
    &&& out.feels_like_f@ == inp.feels_like_f@
    &&& out.feels_like_c@ == inp.feels_like_c@
    &&& out.chance_of_rain@ == inp.chance_of_rain@
    &&& out.chance_of_snow@ == inp.chance_of_snow@
    &&& out.weather_code@ == inp.weather_code@
    &&& out.weather_desc@ == weather_desc_spec(inp.weather_code@, hour_night(inp, sunset))
    &&& out.weather_image@ == weather_icon_spec(inp.weather_code@, hour_night(inp, sunset))
}

/// How a normalized forecast day relates to its raw day: the display
/// date replaces the ISO date, the representative code is the mode of
/// the hourly codes, the day's own sunset classifies its description,
/// the day-level icon is always the daytime variant, and every hour
/// is normalized in place.
pub open spec fn day_derived(
    inp: ForecastDay,
    out: ForecastDay,
    weather_time: Seq<char>,
    hour_12: bool,
) -> bool {
    let sunset = inp.astronomy@[0].sunset@;
    let code = mode_of(hour_codes(inp.hourly@));
    &&& out.raw_date@ == inp.raw_date@
    &&& out.date@ == display_date(inp.raw_date@)
    &&& out.avg_temp_f@ == inp.avg_temp_f@
    &&& out.max_temp_f@ == inp.max_temp_f@
    &&& out.min_temp_f@ == inp.min_temp_f@
    &&& out.avg_temp_c@ == inp.avg_temp_c@
    &&& out.max_temp_c@ == inp.max_temp_c@
    &&& out.min_temp_c@ == inp.min_temp_c@
    &&& out.uv_index@ == inp.uv_index@
    &&& out.weather_code@ == code
    &&& out.weather_desc@ == weather_desc_spec(code, night_of(weather_time, sunset, false))
    &&& out.weather_image@ == weather_icon_spec(code, false)
    &&& out.astronomy == inp.astronomy
    &&& out.hourly@.len() == inp.hourly@.len()
    &&& forall|k: int|
        0 <= k < inp.hourly@.len() ==> hour_derived(
            inp.hourly@[k],
            #[trigger] out.hourly@[k],
            sunset,
            hour_12,
        )
}

/// How normalized current conditions relate to the raw record: the
/// description and icon come from the capture time held against
/// tonight's sunset, never forced to day.
pub open spec fn current_derived(
    inp: CurrentConditions,
    out: CurrentConditions,
    weather_time: Seq<char>,
    sunset: Seq<char>,
) -> bool {
    &&& out.weather_code@ == inp.weather_code@
    &&& out.feels_like_f@ == inp.feels_like_f@
    &&& out.feels_like_c@ == inp.feels_like_c@
    &&& out.temp_c@ == inp.temp_c@
    &&& out.temp_f@ == inp.temp_f@
    &&& out.humidity@ == inp.humidity@
    &&& out.pressure@ == inp.pressure@
    &&& out.uv_index@ == inp.uv_index@
    &&& out.visibility@ == inp.visibility@
    &&& out.weather_desc@ == weather_desc_spec(inp.weather_code@, night_of(
        weather_time,
        sunset,
        false,
    ))
    &&& out.weather_image@ == weather_icon_spec(inp.weather_code@, night_of(
        weather_time,
        sunset,
        false,
    ))
}

/// Every raw day's ISO date parses.
pub open spec fn dates_all_parse(days: Seq<ForecastDay>) -> bool {
    forall|i: int|
        0 <= i < days.len() ==> date_parse(#[trigger] days[i].raw_date@, iso_date_fmt()) is Some
}

impl Weather {
    /// Normalizes the two views of one payload into the display-ready
    /// model: capture time and date are recorded, the current
    /// conditions and every day and hour get their derived fields,
    /// and day 0's first astronomy entry supplies tonight's sunset
    /// for the current conditions. The one failure is a raw date that
    /// does not parse.
    pub fn new(
        current: CurrentWeather,
        daily: DailyForecast,
        weather_time: String,
        weather_date: String,
        hour_12: bool,
    ) -> (r: Result<Weather, ParseFailure>)
        requires
            inputs_ready(current, daily),
        ensures
            r matches Ok(w) ==> ({
                let sunset = daily.weather@[0].astronomy@[0].sunset@;
                &&& w.last_time_updated@ == weather_time@
                &&& w.last_date_updated@ == weather_date@
                &&& w.current_weather.current_condition@.len()
                    == current.current_condition@.len()
                &&& current_derived(
                    current.current_condition@[0],
                    w.current_weather.current_condition@[0],
                    weather_time@,
                    sunset,
                )
                &&& forall|k: int|
                    1 <= k < current.current_condition@.len()
                        ==> w.current_weather.current_condition@[k]
                        == current.current_condition@[k]
                &&& w.daily_forecast.weather@.len() == daily.weather@.len()
                &&& forall|i: int|
                    0 <= i < daily.weather@.len() ==> day_derived(
                        #[trigger] daily.weather@[i],
                        w.daily_forecast.weather@[i],
                        weather_time@,
                        hour_12,
                    )
            }),
            r is Ok <==> dates_all_parse(daily.weather@),
            r matches Err(e) ==> (e matches ParseFailure::Date { raw_date } && exists|i: int|
                0 <= i < daily.weather@.len() && daily.weather@[i].raw_date@ == raw_date@
                    && date_parse(raw_date@, iso_date_fmt()) is None),
    {
        let ghost days0 = daily.weather@;
        let ghost conds0 = current.current_condition@;
        let sunset: String = daily.weather[0].astronomy[0].sunset.clone();

        let mut conds_in = current.current_condition;
        let first = conds_in.remove(0);
        let cdesc = get_weather_desc(
            first.weather_code.as_str(),
            weather_time.as_str(),
            sunset.as_str(),
        );
        let cimg = get_weather_image(
            first.weather_code.as_str(),
            weather_time.as_str(),
            sunset.as_str(),
            false,
        );
        let mut conds: Vec<CurrentConditions> = Vec::new();
        conds.push(
            CurrentConditions {
                weather_code: first.weather_code,
                feels_like_f: first.feels_like_f,
                feels_like_c: first.feels_like_c,
                temp_c: first.temp_c,
                temp_f: first.temp_f,
                humidity: first.humidity,
                pressure: first.pressure,
                uv_index: first.uv_index,
                visibility: first.visibility,
                weather_desc: cdesc,
                weather_image: cimg,
            },
        );
        conds.append(&mut conds_in);
        proof {
            assert(conds@.len() == conds0.len());
            assert forall|k: int| 1 <= k < conds0.len() implies conds@[k] == conds0[k] by {
                assert(conds@[k] == conds0.remove(0)[k - 1]);
            }
        }

        let mut days_in = daily.weather;
        let mut weather_days: Vec<ForecastDay> = Vec::new();
        proof {
            assert(days_in@ =~= days0.skip(0));
        }
        while days_in.len() > 0
            invariant
                days0 == daily.weather@,
                weather_days@.len() + days_in@.len() == days0.len(),
                days_in@ == days0.skip(weather_days@.len() as int),
                forall|i: int| 0 <= i < days0.len() ==> day_ready(#[trigger] days0[i]),
                forall|i: int|
                    0 <= i < weather_days@.len() ==> day_derived(
                        #[trigger] days0[i],
                        weather_days@[i],
                        weather_time@,
                        hour_12,
                    ),
                forall|i: int|
                    0 <= i < weather_days@.len() ==> date_parse(
                        #[trigger] days0[i].raw_date@,
                        iso_date_fmt(),
                    ) is Some,
            decreases days_in@.len(),
        {
            let ghost idx = weather_days@.len() as int;
            let day = days_in.remove(0);
            proof {
                assert(day == days0[idx]);
                assert(days_in@ =~= days0.skip(idx + 1));
                assert(day_ready(days0[idx]));
            }
            let date = match reformat_date(day.raw_date.clone()) {
                Ok(d) => d,
                Err(e) => {
                    proof {
                        assert(days0[idx].raw_date@ == day.raw_date@);
                        assert(!dates_all_parse(days0));
                    }
                    return Err(e);
                },
            };
            let code = get_daily_weather_code(&day.hourly);
            let dsunset: String = day.astronomy[0].sunset.clone();
            let ddesc = get_weather_desc(code.as_str(), weather_time.as_str(), dsunset.as_str());
            let dimg = get_weather_image(
                code.as_str(),
                weather_time.as_str(),
                dsunset.as_str(),
                true,
            );
            let ghost hours0 = day.hourly@;
            let mut hours_in = day.hourly;
            let mut hours: Vec<ForecastHour> = Vec::new();
            proof {
                assert(hours_in@ =~= hours0.skip(0));
            }
            while hours_in.len() > 0
                invariant
                    hours@.len() + hours_in@.len() == hours0.len(),
                    hours_in@ == hours0.skip(hours@.len() as int),
                    forall|k: int| 0 <= k < hours0.len() ==> hour_ready(#[trigger] hours0[k]),
                    forall|k: int|
                        0 <= k < hours@.len() ==> hour_derived(
                            #[trigger] hours0[k],
                            hours@[k],
                            dsunset@,
                            hour_12,
                        ),
                decreases hours_in@.len(),
            {
                let ghost hk = hours@.len() as int;
                let hour = hours_in.remove(0);
                proof {
                    assert(hour == hours0[hk]);
                    assert(hours_in@ =~= hours0.skip(hk + 1));
                    assert(hour_ready(hours0[hk]));
                }
                let (disp, h) = reformat_time(hour.raw_time.clone(), hour_12);
                let clock = format_clock12(h);
                let hdesc = get_weather_desc(
                    hour.weather_code.as_str(),
                    clock.as_str(),
                    dsunset.as_str(),
                );
                let himg = get_weather_image(
                    hour.weather_code.as_str(),
                    clock.as_str(),
                    dsunset.as_str(),
                    false,
                );
                hours.push(
                    ForecastHour {
                        raw_time: hour.raw_time,
                        time: disp,
                        temp_f: hour.temp_f,
                        temp_c: hour.temp_c,
                        feels_like_f: hour.feels_like_f,
                        feels_like_c: hour.feels_like_c,
                        chance_of_rain: hour.chance_of_rain,
                        chance_of_snow: hour.chance_of_snow,
                        weather_code: hour.weather_code,
                        weather_desc: hdesc,
                        weather_image: himg,
                    },
                );
                proof {
                    assert(hour_derived(hours0[hk], hours@[hk], dsunset@, hour_12));
                }
            }
            proof {
                assert(hours@.len() == hours0.len());
            }
            weather_days.push(
                ForecastDay {
                    raw_date: day.raw_date,
                    date,
                    avg_temp_f: day.avg_temp_f,
                    max_temp_f: day.max_temp_f,
                    min_temp_f: day.min_temp_f,
                    avg_temp_c: day.avg_temp_c,
                    max_temp_c: day.max_temp_c,
                    min_temp_c: day.min_temp_c,
                    uv_index: day.uv_index,
                    weather_code: code,
                    weather_desc: ddesc,
                    weather_image: dimg,
                    astronomy: day.astronomy,
                    hourly: hours,
                },
            );
            proof {
                assert(day_derived(
                    days0[idx],
                    weather_days@[idx],
                    weather_time@,
                    hour_12,
                ));
            }
        }
        proof {
            assert(weather_days@.len() == days0.len());
            assert(dates_all_parse(days0));
        }
        Ok(
            Weather {
                last_time_updated: weather_time,
                last_date_updated: weather_date,
                daily_forecast: DailyForecast { weather: weather_days },
                current_weather: CurrentWeather { current_condition: conds },
            },
        )
    }
}

} // verus!
