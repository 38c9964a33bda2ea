//! The weather service's readings, and their conversion into validated
//! domain values.
use vstd::prelude::*;
use crate::bridge::{MAX_UNIX_SECONDS, MIN_UNIX_SECONDS, utc_stamp_parsed};
use crate::error::{Cause, CauseView, ErrorView, Stage, Unit, WeatherError, bare, within};
use crate::text::{after_first, before_first, parse_u32, parsed_u32, split_first};
use crate::types::{
    Astronomy, Humidity, LastUpdated, Location, Pressure, Temperature, WeatherCondition,
    WeatherTime, WindDirection, WindSpeed, api_stamp_format, clock_reading, compass_reading,
    is_compass, location_name, range_error, wind_error, wind_valid,
};

verus! {

/// The place and its local date and time, such as `2023-01-13 14:30`.
#[derive(Debug, Clone)]
pub struct LocationApi {
    pub name: String,
    pub localtime: String,
}

/// A condition as the service describes it.
#[derive(Debug, Clone)]
pub struct ConditionApi {
    pub text: String,
}

/// Sunrise and sunset texts, such as `06:30 AM`.
#[derive(Debug, Clone)]
pub struct AstroApi {
    pub sunrise: String,
    pub sunset: String,
}

/// One hour of the forecast. The service's decimal readings are held rounded
/// to the nearest integer.
#[derive(Debug, Clone)]
pub struct HourApi {
    /// Date and time, such as `2023-01-13 14:00`.
    pub time: String,
    pub temp_c: i32,
    pub condition: ConditionApi,
    pub wind_kph: u32,
    pub wind_dir: String,
    pub gust_kph: u32,
}

/// The current conditions. The service's decimal readings are held rounded
/// to the nearest integer.
#[derive(Debug, Clone)]
pub struct CurrentApi {
    pub last_updated_epoch: i64,
    /// Date and time of the update, such as `2023-01-13 14:30`.
    pub last_updated: String,
    pub temp_c: i32,
    pub condition: ConditionApi,
    pub wind_kph: u32,
    pub wind_dir: String,
    pub pressure_mb: u32,
    pub humidity: i32,
    pub feelslike_c: i32,
    pub gust_kph: u32,
}

/// One forecast day.
#[derive(Debug, Clone)]
pub struct ForecastDayApi {
    pub astro: Option<AstroApi>,
    pub hour: Vec<HourApi>,
}

/// The forecast days.
#[derive(Debug, Clone)]
pub struct ForecastApi {
    pub forecastday: Vec<ForecastDayApi>,
}

/// A whole response of the service.
#[derive(Debug, Clone)]
pub struct WeatherApiResponse {
    pub location: LocationApi,
    pub current: CurrentApi,
    pub forecast: Option<ForecastApi>,
}

/// The forecast for one hour.
#[derive(Debug)]
pub struct HourlyWeather {
    pub time: WeatherTime,
    pub temperature: Temperature,
    pub condition: WeatherCondition,
    pub wind_speed: WindSpeed,
    pub wind_direction: WindDirection,
}

/// `HourlyWeather` as plain values.
pub struct HourlyView {
    pub time: (u8, u8),
    pub temperature: int,
    pub condition: Seq<char>,
    pub wind_speed: (u32, Option<u32>),
    pub wind_direction: Seq<char>,
}

impl View for HourlyWeather {
    type V = HourlyView;

    open spec fn view(&self) -> HourlyView {
        HourlyView {
            time: self.time@,
            temperature: self.temperature@,
            condition: self.condition@,
            wind_speed: self.wind_speed@,
            wind_direction: self.wind_direction@,
        }
    }
}

/// The current conditions.
#[derive(Debug)]
pub struct CurrentWeather {
    pub last_updated: LastUpdated,
    pub temperature: Temperature,
    pub feels_like: Temperature,
    pub condition: WeatherCondition,
    pub humidity: Humidity,
    pub wind_speed: WindSpeed,
    pub wind_direction: WindDirection,
    pub pressure: Pressure,
}

/// `CurrentWeather` as plain values.
pub struct CurrentView {
    pub last_updated: int,
    pub temperature: int,
    pub feels_like: int,
    pub condition: Seq<char>,
    pub humidity: int,
    pub wind_speed: (u32, Option<u32>),
    pub wind_direction: Seq<char>,
    pub pressure: int,
}

impl View for CurrentWeather {
    type V = CurrentView;

    open spec fn view(&self) -> CurrentView {
        CurrentView {
            last_updated: self.last_updated@,
            temperature: self.temperature@,
            feels_like: self.feels_like@,
            condition: self.condition@,
            humidity: self.humidity@,
            wind_speed: self.wind_speed@,
            wind_direction: self.wind_direction@,
            pressure: self.pressure@,
        }
    }
}

/// Astronomy and the hourly forecast of one day.
#[derive(Debug)]
pub struct WeatherDay {
    pub astronomy: Option<Astronomy>,
    pub hourly_weather: Vec<HourlyWeather>,
}

/// `WeatherDay` as plain values.
pub struct DayView {
    pub astronomy: Option<((u8, u8), (u8, u8))>,
    pub hourly: Seq<HourlyView>,
}

pub open spec fn hourly_views(v: Seq<HourlyWeather>) -> Seq<HourlyView> {
    v.map_values(|h: HourlyWeather| h@)
}

impl View for WeatherDay {
    type V = DayView;

    open spec fn view(&self) -> DayView {
        DayView {
            astronomy: match self.astronomy {
                Some(a) => Some(a@),
                None => None,
            },
            hourly: hourly_views(self.hourly_weather@),
        }
    }
}

/// Current conditions, place and the day's forecast.
#[derive(Debug)]
pub struct WeatherData {
    pub current: CurrentWeather,
    pub location: Location,
    pub weather_day: Option<WeatherDay>,
}

/// `WeatherData` as plain values.
pub struct DataView {
    pub current: CurrentView,
    pub location: Seq<char>,
    pub weather_day: Option<DayView>,
}

impl View for WeatherData {
    type V = DataView;

    open spec fn view(&self) -> DataView {
        DataView {
            current: self.current@,
            location: self.location@,
            weather_day: match self.weather_day {
                Some(d) => Some(d@),
                None => None,
            },
        }
    }
}

/// The wind of rounded readings `sustained` and `gusts`: with gusts only
/// where they are stronger than the sustained wind.
pub open spec fn wind_reading(sustained: u32, gusts: u32) -> Result<(u32, Option<u32>), ErrorView> {
    let g = if gusts > sustained {
        Some(gusts)
    } else {
        None
    };
    if wind_valid(sustained, g) {
        Ok((sustained, g))
    } else {
        Err(wind_error(sustained, g))
    }
}

/// The wind of rounded readings: gusts are kept only where they are stronger
/// than the sustained wind, so equal readings make a wind without gusts.
pub fn wind_from_readings(sustained: u32, gusts: u32) -> (r: Result<WindSpeed, WeatherError>)
    ensures
        match r {
            Ok(w) => wind_reading(sustained, gusts) == Ok::<(u32, Option<u32>), ErrorView>(w@),
            Err(e) => wind_reading(sustained, gusts) == Err::<(u32, Option<u32>), ErrorView>(e@),
        },
        gusts <= sustained && sustained <= 500 ==> (r matches Ok(w) && w@ == (sustained, None::<u32>)),
        sustained < gusts && gusts <= 500 ==> (r matches Ok(w) && w@ == (sustained, Some(gusts))),
{
    if gusts > sustained {
        WindSpeed::builder().sustained(sustained).with_gusts(gusts).build()
    } else {
        WindSpeed::new(sustained)
    }
}

/// The time-of-day part of a `date time` text: what follows its first space,
/// up to the next one.
pub open spec fn time_part(s: Seq<char>) -> Option<Seq<char>> {
    match after_first(s, ' ') {
        Some(rest) => Some(before_first(rest, ' ')),
        None => None,
    }
}

/// The conversion of one forecast hour.
pub open spec fn hourly_reading(h: HourApi) -> Result<HourlyView, ErrorView> {
    match time_part(h.time@) {
        None => Err(bare(CauseView::MissingTimeOfDay { text: h.time@ })),
        Some(part) => match clock_reading(part) {
            None => Err(within(Stage::HourTime, bare(CauseView::InvalidTime { text: part }))),
            Some(time) => if !(-40 <= h.temp_c && h.temp_c <= 55) {
                Err(within(Stage::Temperature, range_error(h.temp_c as int, Unit::Celsius, -40, 55)))
            } else {
                match wind_reading(h.wind_kph, h.gust_kph) {
                    Err(e) => Err(within(Stage::Wind, e)),
                    Ok(wind) => if !is_compass(compass_reading(h.wind_dir@)) {
                        Err(
                            within(
                                Stage::WindDirection,
                                bare(CauseView::InvalidCompass { text: h.wind_dir@ }),
                            ),
                        )
                    } else {
                        Ok(
                            HourlyView {
                                time,
                                temperature: h.temp_c as int,
                                condition: h.condition.text@,
                                wind_speed: wind,
                                wind_direction: compass_reading(h.wind_dir@),
                            },
                        )
                    },
                }
            },
        },
    }
}

impl HourlyWeather {
    /// Converts one forecast hour: time of day, temperature, wind and
    /// direction are validated in that order, and the first failure is
    /// returned within the stage that met it.
    pub fn try_from(value: HourApi) -> (r: Result<HourlyWeather, WeatherError>)
        ensures
            match r {
                Ok(h) => hourly_reading(value) == Ok::<HourlyView, ErrorView>(h@),
                Err(e) => hourly_reading(value) == Err::<HourlyView, ErrorView>(e@),
            },
    {
        let (_, after) = split_first(value.time.as_str(), ' ');
        let time_str = match after {
            None => {
                return Err(
                    WeatherError::new(Cause::MissingTimeOfDay { text: value.time.clone() }),
                );
            },
            Some(rest) => split_first(rest, ' ').0,
        };
        let time = match WeatherTime::parse(time_str) {
            Ok(t) => t,
            Err(e) => {
                return Err(e.within(Stage::HourTime));
            },
        };
        let temperature = match Temperature::new(value.temp_c as i64) {
            Ok(t) => t,
            Err(e) => {
                return Err(e.within(Stage::Temperature));
            },
        };
        let wind_speed = match wind_from_readings(value.wind_kph, value.gust_kph) {
            Ok(w) => w,
            Err(e) => {
                return Err(e.within(Stage::Wind));
            },
        };
        let wind_direction = match WindDirection::from_compass(value.wind_dir.as_str()) {
            Ok(d) => d,
            Err(e) => {
                return Err(e.within(Stage::WindDirection));
            },
        };
        let condition = WeatherCondition::new(value.condition.text);
        Ok(HourlyWeather { time, temperature, condition, wind_speed, wind_direction })
    }
}

/// The update instant of the current conditions: the epoch seconds where
/// they are representable, else the date-time text.
pub open spec fn stamp_reading(c: CurrentApi) -> Result<int, ErrorView> {
    if MIN_UNIX_SECONDS <= c.last_updated_epoch && c.last_updated_epoch <= MAX_UNIX_SECONDS {
        Ok(c.last_updated_epoch as int)
    } else {
        match utc_stamp_parsed(api_stamp_format(), c.last_updated@) {
            Some(t) => Ok(t as int),
            None => Err(
                within(
                    Stage::LastUpdated,
                    bare(CauseView::InvalidTimestamp { text: c.last_updated@ }),
                ),
            ),
        }
    }
}

/// The conversion of the current conditions.
pub open spec fn current_reading(c: CurrentApi) -> Result<CurrentView, ErrorView> {
    match stamp_reading(c) {
        Err(e) => Err(e),
        Ok(stamp) => if !(-40 <= c.temp_c && c.temp_c <= 55) {
            Err(within(Stage::Temperature, range_error(c.temp_c as int, Unit::Celsius, -40, 55)))
        } else if !(-40 <= c.feelslike_c && c.feelslike_c <= 55) {
            Err(within(Stage::FeelsLike, range_error(c.feelslike_c as int, Unit::Celsius, -40, 55)))
        } else if !(0 <= c.humidity && c.humidity <= 100) {
            Err(within(Stage::Humidity, range_error(c.humidity as int, Unit::Percent, 0, 100)))
        } else {
            match wind_reading(c.wind_kph, c.gust_kph) {
                Err(e) => Err(within(Stage::Wind, e)),
                Ok(wind) => if !(800 <= c.pressure_mb && c.pressure_mb <= 1100) {
                    Err(
                        within(
                            Stage::Pressure,
                            range_error(c.pressure_mb as int, Unit::HectoPascals, 800, 1100),
                        ),
                    )
                } else if !is_compass(compass_reading(c.wind_dir@)) {
                    Err(
                        within(
                            Stage::WindDirection,
                            bare(CauseView::InvalidCompass { text: c.wind_dir@ }),
                        ),
                    )
                } else {
                    Ok(
                        CurrentView {
                            last_updated: stamp,
                            temperature: c.temp_c as int,
                            feels_like: c.feelslike_c as int,
                            condition: c.condition.text@,
                            humidity: c.humidity as int,
                            wind_speed: wind,
                            wind_direction: compass_reading(c.wind_dir@),
                            pressure: c.pressure_mb as int,
                        },
                    )
                },
            }
        },
    }
}

impl CurrentWeather {
    /// Converts the current conditions: update time, temperature, felt
    /// temperature, humidity, wind, pressure and direction are validated in
    /// that order, and the first failure is returned within its stage.
    pub fn try_from(value: CurrentApi) -> (r: Result<CurrentWeather, WeatherError>)
        ensures
            match r {
                Ok(c) => current_reading(value) == Ok::<CurrentView, ErrorView>(c@),
                Err(e) => current_reading(value) == Err::<CurrentView, ErrorView>(e@),
            },
    {
        let last_updated = match LastUpdated::from_epoch(value.last_updated_epoch) {
            Ok(u) => u,
            Err(_) => match LastUpdated::from_api_format(value.last_updated.as_str()) {
                Ok(u) => u,
                Err(e) => {
                    return Err(e.within(Stage::LastUpdated));
                },
            },
        };
        let temperature = match Temperature::new(value.temp_c as i64) {
            Ok(t) => t,
            Err(e) => {
                return Err(e.within(Stage::Temperature));
            },
        };
        let feels_like = match Temperature::new(value.feelslike_c as i64) {
            Ok(t) => t,
            Err(e) => {
                return Err(e.within(Stage::FeelsLike));
            },
        };
        let humidity = match Humidity::new(value.humidity as i64) {
            Ok(h) => h,
            Err(e) => {
                return Err(e.within(Stage::Humidity));
            },
        };
        let wind_speed = match wind_from_readings(value.wind_kph, value.gust_kph) {
            Ok(w) => w,
            Err(e) => {
                return Err(e.within(Stage::Wind));
            },
        };
        let pressure = match Pressure::new(value.pressure_mb as i64) {
            Ok(p) => p,
            Err(e) => {
                return Err(e.within(Stage::Pressure));
            },
        };
        let wind_direction = match WindDirection::from_compass(value.wind_dir.as_str()) {
            Ok(d) => d,
            Err(e) => {
                return Err(e.within(Stage::WindDirection));
            },
        };
        let condition = WeatherCondition::new(value.condition.text);
        Ok(
            CurrentWeather {
                last_updated,
                temperature,
                feels_like,
                condition,
                humidity,
                wind_speed,
                wind_direction,
                pressure,
            },
        )
    }
}

/// The conversion of sunrise and sunset texts.
pub open spec fn astro_reading(a: AstroApi) -> Result<((u8, u8), (u8, u8)), ErrorView> {
    match clock_reading(a.sunrise@) {
        None => Err(within(Stage::Sunrise, bare(CauseView::InvalidTime { text: a.sunrise@ }))),
        Some(rise) => match clock_reading(a.sunset@) {
            None => Err(within(Stage::Sunset, bare(CauseView::InvalidTime { text: a.sunset@ }))),
            Some(set) => Ok((rise, set)),
        },
    }
}

impl Astronomy {
    /// Reads the sunrise, then the sunset.
    pub fn try_from(value: AstroApi) -> (r: Result<Astronomy, WeatherError>)
        ensures
            match r {
                Ok(a) => astro_reading(value) == Ok::<((u8, u8), (u8, u8)), ErrorView>(a@),
                Err(e) => astro_reading(value) == Err::<((u8, u8), (u8, u8)), ErrorView>(e@),
            },
    {
        let sunrise = match WeatherTime::parse(value.sunrise.as_str()) {
            Ok(t) => t,
            Err(e) => {
                return Err(e.within(Stage::Sunrise));
            },
        };
        let sunset = match WeatherTime::parse(value.sunset.as_str()) {
            Ok(t) => t,
            Err(e) => {
                return Err(e.within(Stage::Sunset));
            },
        };
        Ok(Astronomy::new(sunrise, sunset))
    }
}

/// The conversion of forecast hours: all of them, or the first failure.
pub open spec fn hours_reading(hs: Seq<HourApi>) -> Result<Seq<HourlyView>, ErrorView>
    decreases hs.len(),
{
    if hs.len() == 0 {
        Ok(Seq::empty())
    } else {
        match hours_reading(hs.drop_last()) {
            Err(e) => Err(e),
            Ok(vs) => match hourly_reading(hs.last()) {
                Err(e) => Err(e),
                Ok(v) => Ok(vs.push(v)),
            },
        }
    }
}

proof fn lemma_hours_failed_prefix(hs: Seq<HourApi>, k: int)
    requires
        0 <= k <= hs.len(),
        hours_reading(hs.subrange(0, k)) is Err,
    ensures
        hours_reading(hs) == hours_reading(hs.subrange(0, k)),
    decreases hs.len() - k,
{
    if k == hs.len() {
        assert(hs.subrange(0, k) =~= hs);
    } else {
        let shorter = hs.drop_last();
        assert(shorter.subrange(0, k) =~= hs.subrange(0, k));
        lemma_hours_failed_prefix(shorter, k);
    }
}

/// The astronomy of a forecast day, where it is given.
pub open spec fn astronomy_reading(d: ForecastDayApi) -> Result<
    Option<((u8, u8), (u8, u8))>,
    ErrorView,
> {
    match d.astro {
        None => Ok(None),
        Some(a) => match astro_reading(a) {
            Ok(x) => Ok(Some(x)),
            Err(e) => Err(within(Stage::Astronomy, e)),
        },
    }
}

/// The conversion of one forecast day: its astronomy, if given, then all
/// of its hours.
pub open spec fn day_reading(d: ForecastDayApi) -> Result<DayView, ErrorView> {
    match astronomy_reading(d) {
        Err(e) => Err(e),
        Ok(astronomy) => match hours_reading(d.hour@) {
            Err(e) => Err(within(Stage::HourlyWeather, e)),
            Ok(hourly) => Ok(DayView { astronomy, hourly }),
        },
    }
}

/// The last hour that the forecast window starting at hour `now` reaches:
/// eleven hours on, but not past 23.
pub open spec fn window_end(now: int) -> int {
    if now + 11 < 23 {
        now + 11
    } else {
        23
    }
}

/// An hour of the forecast window that starts at hour `now`.
pub open spec fn in_window(h: HourlyView, now: int) -> bool {
    now <= h.time.0 && h.time.0 <= window_end(now)
}

/// The hours of `hs` in the window that starts at hour `now`, in order.
pub open spec fn window_hours(hs: Seq<HourlyView>, now: int) -> Seq<HourlyView>
    decreases hs.len(),
{
    if hs.len() == 0 {
        hs
    } else if in_window(hs.last(), now) {
        window_hours(hs.drop_last(), now).push(hs.last())
    } else {
        window_hours(hs.drop_last(), now)
    }
}

/// An hour is among the hours kept for the window that starts at `now`
/// exactly when it is among the given hours and its hour lies in the window:
/// from `now` to eleven hours later, and not past 23.
pub proof fn lemma_window_members(hs: Seq<HourlyView>, now: int)
    ensures
        forall|x: HourlyView| #[trigger]
            window_hours(hs, now).contains(x) <==> (hs.contains(x) && in_window(x, now)),
    decreases hs.len(),
{
    if hs.len() > 0 {
        let init = hs.drop_last();
        let last = hs.last();
        lemma_window_members(init, now);
        let w0 = window_hours(init, now);
        let w = window_hours(hs, now);
        assert(w == if in_window(last, now) {
            w0.push(last)
        } else {
            w0
        });
        assert forall|x: HourlyView| #[trigger]
            window_hours(hs, now).contains(x) <==> (hs.contains(x) && in_window(x, now)) by {
            if w.contains(x) {
                let i = choose|i: int| 0 <= i < w.len() && w[i] == x;
                if in_window(last, now) && i == w0.len() {
                    assert(hs[hs.len() - 1] == x);
                } else {
                    assert(w0[i] == x);
                    assert(w0.contains(x));
                    let j = choose|j: int| 0 <= j < init.len() && init[j] == x;
                    assert(hs[j] == x);
                }
            }
            if hs.contains(x) && in_window(x, now) {
                let j = choose|j: int| 0 <= j < hs.len() && hs[j] == x;
                if j == hs.len() - 1 {
                    assert(w[w.len() - 1] == x);
                } else {
                    assert(init[j] == x);
                    assert(init.contains(x));
                    assert(w0.contains(x));
                    let k = choose|k: int| 0 <= k < w0.len() && w0[k] == x;
                    assert(w[k] == x);
                }
            }
        }
    }
}

impl WeatherDay {
    /// Converts one forecast day; a failure of its astronomy or of any hour
    /// fails the whole day.
    pub fn try_from(value: ForecastDayApi) -> (r: Result<WeatherDay, WeatherError>)
        ensures
            match r {
                Ok(d) => day_reading(value) == Ok::<DayView, ErrorView>(d@),
                Err(e) => day_reading(value) == Err::<DayView, ErrorView>(e@),
            },
    {
        let astronomy = match value.astro {
            None => None,
            Some(a) => match Astronomy::try_from(a) {
                Ok(x) => Some(x),
                Err(e) => {
                    return Err(e.within(Stage::Astronomy));
                },
            },
        };
        let ghost all = value.hour@;
        let mut rest = value.hour;
        let n = rest.len();
        let mut hourly_weather: Vec<HourlyWeather> = Vec::new();
        let mut i: usize = 0;
        assert(all.subrange(0, 0) =~= Seq::<HourApi>::empty());
        assert(all.subrange(0, n as int) =~= all);
        assert(hourly_views(hourly_weather@) =~= Seq::<HourlyView>::empty());
        assert(hours_reading(all.subrange(0, 0)) == Ok::<Seq<HourlyView>, ErrorView>(
            Seq::empty(),
        ));
        while i < n
            invariant
                n == all.len(),
                i <= n,
                all == value.hour@,
                astronomy_reading(value) == Ok::<Option<((u8, u8), (u8, u8))>, ErrorView>(
                    match astronomy {
                        Some(a) => Some(a@),
                        None => None,
                    },
                ),
                rest@ == all.subrange(i as int, n as int),
                hours_reading(all.subrange(0, i as int)) == Ok::<Seq<HourlyView>, ErrorView>(
                    hourly_views(hourly_weather@),
                ),
            decreases n - i,
        {
            let h = rest.remove(0);
            assert(all.subrange(0, i + 1).drop_last() =~= all.subrange(0, i as int));
            assert(all.subrange(0, i + 1).last() == h);
            let ghost before = hourly_weather@;
            match HourlyWeather::try_from(h) {
                Ok(x) => {
                    hourly_weather.push(x);
                    assert(hourly_views(hourly_weather@) =~= hourly_views(before).push(x@));
                },
                Err(e) => {
                    proof {
                        assert(hours_reading(all.subrange(0, i + 1)) == Err::<
                            Seq<HourlyView>,
                            ErrorView,
                        >(e@));
                        lemma_hours_failed_prefix(all, i + 1);
                        assert(hours_reading(value.hour@) == Err::<Seq<HourlyView>, ErrorView>(e@));
                    }
                    return Err(e.within(Stage::HourlyWeather));
                },
            }
            assert(rest@ =~= all.subrange(i + 1, n as int));
            i = i + 1;
        }
        Ok(WeatherDay { astronomy, hourly_weather })
    }

    /// Keeps the hours from `current_local_hour` to eleven hours later, but
    /// not past 23, in their order.
    pub fn filter_future_hours(self, current_local_hour: u32) -> (r: WeatherDay)
        ensures
            r@.astronomy == self@.astronomy,
            r@.hourly == window_hours(self@.hourly, current_local_hour as int),
            forall|i: int|
                0 <= i < r@.hourly.len() ==> in_window(
                    #[trigger] r@.hourly[i],
                    current_local_hour as int,
                ),
    {
        let ghost now = current_local_hour as int;
        let last: u32 = if current_local_hour < 12 {
            current_local_hour + 11
        } else {
            23
        };
        let ghost all = hourly_views(self.hourly_weather@);
        let mut rest = self.hourly_weather;
        let n = rest.len();
        let mut kept: Vec<HourlyWeather> = Vec::new();
        let mut i: usize = 0;
        assert(all.subrange(0, 0) =~= Seq::<HourlyView>::empty());
        assert(hourly_views(kept@) =~= Seq::<HourlyView>::empty());
        while i < n
            invariant
                n == all.len(),
                i <= n,
                rest@.len() == n - i,
                hourly_views(rest@) == all.subrange(i as int, n as int),
                hourly_views(kept@) == window_hours(all.subrange(0, i as int), now),
                forall|k: int|
                    0 <= k < hourly_views(kept@).len() ==> in_window(
                        #[trigger] hourly_views(kept@)[k],
                        now,
                    ),
                last == window_end(now),
                now == current_local_hour as int,
            decreases n - i,
        {
            let ghost before = hourly_views(kept@);
            assert(hourly_views(rest@)[0] == rest@[0]@);
            let ghost old_rest = rest@;
            let h = rest.remove(0);
            assert(rest@ =~= old_rest.subrange(1, old_rest.len() as int));
            assert forall|k: int| 0 <= k < rest@.len() implies #[trigger] hourly_views(rest@)[k]
                == all[i + 1 + k] by {
                assert(hourly_views(old_rest)[k + 1] == old_rest[k + 1]@);
            }
            assert(h@ == all[i as int]);
            assert(all.subrange(0, i + 1).drop_last() =~= all.subrange(0, i as int));
            assert(all.subrange(0, i + 1).last() == h@);
            let hour = h.time.hour24();
            assert(window_hours(all.subrange(0, i + 1), now) == if in_window(h@, now) {
                before.push(h@)
            } else {
                before
            });
            assert(in_window(h@, now) == (current_local_hour <= hour && hour <= last));
            if current_local_hour <= hour && hour <= last {
                kept.push(h);
                assert(hourly_views(kept@) =~= before.push(h@));
            } else {
                assert(hourly_views(kept@) =~= before);
            }
            assert(hourly_views(rest@) =~= all.subrange(i + 1, n as int));
            i = i + 1;
        }
        assert(all.subrange(0, n as int) =~= all);
        WeatherDay { astronomy: self.astronomy, hourly_weather: kept }
    }
}

/// The local hour of a `date time` text: the digits before the first colon
/// of its time part; 0 where there are none or they do not make a `u32`.
pub open spec fn local_hour(localtime: Seq<char>) -> u32 {
    match time_part(localtime) {
        None => 0,
        Some(part) => match parsed_u32(before_first(part, ':')) {
            Some(h) => h,
            None => 0,
        },
    }
}

/// The local hour of a `date time` text such as `2023-01-13 14:30`; 0 where
/// it cannot be read.
pub fn local_hour_of(localtime: &str) -> (r: u32)
    ensures
        r == local_hour(localtime@),
{
    match split_first(localtime, ' ').1 {
        None => 0,
        Some(rest) => {
            let part = split_first(rest, ' ').0;
            match parse_u32(split_first(part, ':').0) {
                Some(h) => h,
                None => 0,
            }
        },
    }
}

/// The conversion of a whole response: the current conditions, the place,
/// and the first forecast day, if any, cut to the window from the local hour.
pub open spec fn data_reading(v: WeatherApiResponse) -> Result<DataView, ErrorView> {
    match current_reading(v.current) {
        Err(e) => Err(within(Stage::CurrentConditions, e)),
        Ok(current) => {
            let location = location_name(v.location.name@);
            let now = local_hour(v.location.localtime@) as int;
            match v.forecast {
                Some(f) if f.forecastday@.len() > 0 => match day_reading(f.forecastday@[0]) {
                    Err(e) => Err(within(Stage::WeatherDay, e)),
                    Ok(day) => Ok(
                        DataView {
                            current,
                            location,
                            weather_day: Some(
                                DayView {
                                    astronomy: day.astronomy,
                                    hourly: window_hours(day.hourly, now),
                                },
                            ),
                        },
                    ),
                },
                _ => Ok(DataView { current, location, weather_day: None }),
            }
        },
    }
}

impl WeatherData {
    /// Converts a whole response; see `data_reading`.
    pub fn try_from(value: WeatherApiResponse) -> (r: Result<WeatherData, WeatherError>)
        ensures
            match r {
                Ok(d) => data_reading(value) == Ok::<DataView, ErrorView>(d@),
                Err(e) => data_reading(value) == Err::<DataView, ErrorView>(e@),
            },
    {
        let current = match CurrentWeather::try_from(value.current) {
            Ok(c) => c,
            Err(e) => {
                return Err(e.within(Stage::CurrentConditions));
            },
        };
        let hour = local_hour_of(value.location.localtime.as_str());
        let location = Location::new(value.location.name);
        let weather_day = match value.forecast {
            None => None,
            Some(f) => {
                let mut days = f.forecastday;
                if days.len() == 0 {
                    None
                } else {
                    let first = days.remove(0);
                    match WeatherDay::try_from(first) {
                        Ok(day) => Some(day.filter_future_hours(hour)),
                        Err(e) => {
                            return Err(e.within(Stage::WeatherDay));
                        },
                    }
                }
            },
        };
        Ok(WeatherData { current, location, weather_day })
    }
}

} // verus!
