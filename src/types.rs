//! Domain values of a weather reading, each valid by construction.
use vstd::prelude::*;
use core::marker::PhantomData;
use crate::error::{Cause, CauseView, ErrorView, Unit, WeatherError, bare};
use crate::bridge::{
    MAX_UNIX_SECONDS, MIN_UNIX_SECONDS, clock_parsed, format_utc, lower_of, parse_clock,
    parse_utc_stamp, to_lower, to_upper, unix_seconds_valid, upper_of, utc_formatted,
    utc_stamp_parsed,
};
use crate::text::{
    contains_text, decimal, decimal_text, has_part, same_text, signed_decimal, signed_decimal_text,
    trim, trimmed, two_digit_text, two_digits,
};

verus! {

/// The error of a reading `value` outside `[min, max]` of its unit.
pub open spec fn range_error(value: int, unit: Unit, min: int, max: int) -> ErrorView {
    bare(CauseView::OutOfRange { value, unit, min, max })
}

/// A kind of reading with a closed interval of valid values and a unit.
pub trait RangeValidated {
    spec fn lowest() -> int;

    spec fn highest() -> int;

    spec fn unit_of() -> Unit;

    /// The smallest valid value.
    fn min() -> (r: i64)
        ensures
            r == Self::lowest(),
    ;

    /// The largest valid value.
    fn max() -> (r: i64)
        ensures
            r == Self::highest(),
    ;

    /// The unit of the readings.
    fn unit() -> (r: Unit)
        ensures
            r == Self::unit_of(),
    ;

    /// Accepts exactly the values in `[MIN, MAX]`.
    fn validate(value: i64) -> (r: Result<(), WeatherError>)
        ensures
            r is Ok <==> Self::lowest() <= value <= Self::highest(),
            r matches Err(e) ==> e@ == range_error(
                value as int,
                Self::unit_of(),
                Self::lowest(),
                Self::highest(),
            ),
    {
        let lo = Self::min();
        let hi = Self::max();
        if value < lo || value > hi {
            Err(WeatherError::new(Cause::OutOfRange { value, unit: Self::unit(), min: lo, max: hi }))
        } else {
            Ok(())
        }
    }
}

/// A reading of kind `R`, within `R`'s interval.
#[derive(Debug)]
pub struct RangeValidatedValue<R: RangeValidated> {
    value: i64,
    range: PhantomData<R>,
}

impl<R: RangeValidated> Clone for RangeValidatedValue<R> {
    fn clone(&self) -> (r: Self)
        ensures
            r@ == self@,
    {
        proof {
            use_type_invariant(self);
        }
        RangeValidatedValue { value: self.value, range: PhantomData }
    }
}

impl<R: RangeValidated> Copy for RangeValidatedValue<R> {

}

impl<R: RangeValidated> View for RangeValidatedValue<R> {
    type V = int;

    closed spec fn view(&self) -> int {
        self.value as int
    }
}

impl<R: RangeValidated> RangeValidatedValue<R> {
    #[verifier::type_invariant]
    spec fn in_range(self) -> bool {
        R::lowest() <= self.value <= R::highest()
    }

    /// The reading `value`, if it lies in `R`'s interval.
    pub fn new(value: i64) -> (r: Result<Self, WeatherError>)
        ensures
            r is Ok <==> R::lowest() <= value <= R::highest(),
            r matches Ok(v) ==> v@ == value,
            r matches Err(e) ==> e@ == range_error(
                value as int,
                R::unit_of(),
                R::lowest(),
                R::highest(),
            ),
    {
        match R::validate(value) {
            Ok(()) => Ok(RangeValidatedValue { value, range: PhantomData }),
            Err(e) => Err(e),
        }
    }

    /// The reading.
    pub fn value(&self) -> (r: i64)
        ensures
            r == self@,
            R::lowest() <= r <= R::highest(),
    {
        proof {
            use_type_invariant(self);
        }
        self.value
    }
}

/// Air temperature: -40 to 55 °C.
#[derive(Debug, Clone, Copy)]
pub struct WeatherTempRange;

impl RangeValidated for WeatherTempRange {
    open spec fn lowest() -> int {
        -40
    }

    open spec fn highest() -> int {
        55
    }

    open spec fn unit_of() -> Unit {
        Unit::Celsius
    }

    fn min() -> (r: i64) {
        -40
    }

    fn max() -> (r: i64) {
        55
    }

    fn unit() -> (r: Unit) {
        Unit::Celsius
    }
}

/// Relative humidity: 0 to 100 %.
#[derive(Debug, Clone, Copy)]
pub struct HumidityRange;

impl RangeValidated for HumidityRange {
    open spec fn lowest() -> int {
        0
    }

    open spec fn highest() -> int {
        100
    }

    open spec fn unit_of() -> Unit {
        Unit::Percent
    }

    fn min() -> (r: i64) {
        0
    }

    fn max() -> (r: i64) {
        100
    }

    fn unit() -> (r: Unit) {
        Unit::Percent
    }
}

/// Atmospheric pressure: 800 to 1100 hPa.
#[derive(Debug, Clone, Copy)]
pub struct PressureRange;

impl RangeValidated for PressureRange {
    open spec fn lowest() -> int {
        800
    }

    open spec fn highest() -> int {
        1100
    }

    open spec fn unit_of() -> Unit {
        Unit::HectoPascals
    }

    fn min() -> (r: i64) {
        800
    }

    fn max() -> (r: i64) {
        1100
    }

    fn unit() -> (r: Unit) {
        Unit::HectoPascals
    }
}

/// Wind speed: 0 to 500 km/h.
#[derive(Debug, Clone, Copy)]
pub struct WindSpeedRange;

impl RangeValidated for WindSpeedRange {
    open spec fn lowest() -> int {
        0
    }

    open spec fn highest() -> int {
        500
    }

    open spec fn unit_of() -> Unit {
        Unit::KilometresPerHour
    }

    fn min() -> (r: i64) {
        0
    }

    fn max() -> (r: i64) {
        500
    }

    fn unit() -> (r: Unit) {
        Unit::KilometresPerHour
    }
}

/// Temperature in whole degrees Celsius.
pub type Temperature = RangeValidatedValue<WeatherTempRange>;

/// Relative humidity in whole percent.
pub type Humidity = RangeValidatedValue<HumidityRange>;

/// Atmospheric pressure in whole hectopascals.
pub type Pressure = RangeValidatedValue<PressureRange>;

/// `t` degrees Celsius as text, such as `-3°C`.
pub open spec fn celsius_text(t: int) -> Seq<char> {
    signed_decimal(t) + "°C"@
}

/// The dew point approximated from temperature `t` and humidity `h`; `t`
/// itself where the approximation leaves the temperature range.
pub open spec fn dew_point_of(t: int, h: int) -> int {
    let d = t - (100 - h) / 5;
    if -40 <= d <= 55 {
        d
    } else {
        t
    }
}

impl RangeValidatedValue<WeatherTempRange> {
    /// The temperature in degrees Celsius.
    pub fn as_celsius(&self) -> (r: i32)
        ensures
            r == self@,
            -40 <= r <= 55,
    {
        self.value() as i32
    }

    /// The temperature as text, such as `25°C`.
    pub fn to_string(&self) -> (r: String)
        ensures
            r@ == celsius_text(self@),
    {
        let mut r = signed_decimal_text(self.value());
        r.append("°C");
        r
    }
}

impl RangeValidatedValue<HumidityRange> {
    /// The humidity in whole percent.
    pub fn as_int(&self) -> (r: i32)
        ensures
            r == self@,
            0 <= r <= 100,
    {
        self.value() as i32
    }

    /// The dew point at `temperature`: `t - (100 - h) / 5`, or `temperature`
    /// itself where that leaves the temperature range.
    pub fn dew_point(&self, temperature: &Temperature) -> (r: Temperature)
        ensures
            r@ == dew_point_of(temperature@, self@),
    {
        let t = temperature.as_celsius() as i64;
        let h = self.as_int() as i64;
        let d = t - (100 - h) / 5;
        match Temperature::new(d) {
            Ok(v) => v,
            Err(_) => *temperature,
        }
    }

    /// The humidity as text, such as `60%`.
    pub fn to_string(&self) -> (r: String)
        ensures
            r@ == signed_decimal(self@) + "%"@,
    {
        let mut r = signed_decimal_text(self.value());
        r.append("%");
        r
    }
}

impl RangeValidatedValue<PressureRange> {
    /// The pressure as text, such as `1013 hPa`.
    pub fn to_string(&self) -> (r: String)
        ensures
            r@ == signed_decimal(self@) + " hPa"@,
    {
        let mut r = signed_decimal_text(self.value());
        r.append(" hPa");
        r
    }
}

/// Severity band of a wind speed.
#[derive(Debug, Clone, Copy, PartialEq, Eq, Structural)]
pub enum WindSpeedCategory {
    /// 0 to 19 km/h.
    Calm,
    /// 20 to 50 km/h.
    ModerateBreezes,
    /// 51 to 88 km/h.
    Gales,
    /// 89 to 117 km/h.
    Storms,
    /// 118 km/h and more.
    Hurricane,
}

/// The band of the speed `speed` km/h.
pub open spec fn category_of(speed: int) -> WindSpeedCategory {
    if speed <= 19 {
        WindSpeedCategory::Calm
    } else if speed <= 50 {
        WindSpeedCategory::ModerateBreezes
    } else if speed <= 88 {
        WindSpeedCategory::Gales
    } else if speed <= 117 {
        WindSpeedCategory::Storms
    } else {
        WindSpeedCategory::Hurricane
    }
}

/// The display color of a band.
pub open spec fn category_color(c: WindSpeedCategory) -> Seq<char> {
    match c {
        WindSpeedCategory::Calm => "#FFFFFF"@,
        WindSpeedCategory::ModerateBreezes => "#00AA00"@,
        WindSpeedCategory::Gales => "#FFA500"@,
        WindSpeedCategory::Storms => "#FF0000"@,
        WindSpeedCategory::Hurricane => "#9B30FF"@,
    }
}

/// The speed `speed` as markup, colored by its band.
pub open spec fn colored_speed(speed: nat) -> Seq<char> {
    "<span foreground=\""@ + category_color(category_of(speed as int)) + "\">"@ + decimal(speed)
        + "</span>"@
}

/// Plain text of a wind of `sustained` km/h with optional `gusts`.
pub open spec fn wind_text(sustained: u32, gusts: Option<u32>) -> Seq<char> {
    match gusts {
        Some(g) => decimal(sustained as nat) + " km/h (Gusts: "@ + decimal(g as nat) + " km/h)"@,
        None => decimal(sustained as nat) + " km/h"@,
    }
}

/// Markup of a wind, each figure colored by its own band.
pub open spec fn wind_markup(sustained: u32, gusts: Option<u32>) -> Seq<char> {
    match gusts {
        Some(g) => colored_speed(sustained as nat) + " km/h (Gusts: "@ + colored_speed(g as nat)
            + " km/h)"@,
        None => colored_speed(sustained as nat) + " km/h"@,
    }
}

/// Sustained speed and gusts that make a valid wind: both at most 500 km/h,
/// gusts no weaker than the sustained wind.
pub open spec fn wind_valid(sustained: u32, gusts: Option<u32>) -> bool {
    sustained <= 500 && match gusts {
        Some(g) => sustained <= g && g <= 500,
        None => true,
    }
}

/// The error that an invalid wind gives: the sustained speed's range first,
/// then the gusts' range, then their order.
pub open spec fn wind_error(sustained: u32, gusts: Option<u32>) -> ErrorView {
    if sustained > 500 {
        range_error(sustained as int, Unit::KilometresPerHour, 0, 500)
    } else {
        match gusts {
            Some(g) => if g > 500 {
                range_error(g as int, Unit::KilometresPerHour, 0, 500)
            } else {
                bare(CauseView::GustsBelowSustained { gusts: g as nat, sustained: sustained as nat })
            },
            None => bare(CauseView::MissingSustained),
        }
    }
}

impl WindSpeedCategory {
    /// The band that a speed of `speed` km/h falls in.
    pub fn of_speed(speed: u32) -> (r: WindSpeedCategory)
        ensures
            r == category_of(speed as int),
    {
        if speed <= 19 {
            WindSpeedCategory::Calm
        } else if speed <= 50 {
            WindSpeedCategory::ModerateBreezes
        } else if speed <= 88 {
            WindSpeedCategory::Gales
        } else if speed <= 117 {
            WindSpeedCategory::Storms
        } else {
            WindSpeedCategory::Hurricane
        }
    }

    /// The band's display color.
    pub fn color(&self) -> (r: &'static str)
        ensures
            r@ == category_color(*self),
    {
        match self {
            WindSpeedCategory::Calm => "#FFFFFF",
            WindSpeedCategory::ModerateBreezes => "#00AA00",
            WindSpeedCategory::Gales => "#FFA500",
            WindSpeedCategory::Storms => "#FF0000",
            WindSpeedCategory::Hurricane => "#9B30FF",
        }
    }
}

/// Staged construction of a `WindSpeed`: the sustained speed is required.
#[derive(Debug, Clone, Copy)]
pub struct WindSpeedBuilder {
    sustained: Option<u32>,
    gusts: Option<u32>,
}

impl View for WindSpeedBuilder {
    type V = (Option<u32>, Option<u32>);

    closed spec fn view(&self) -> (Option<u32>, Option<u32>) {
        (self.sustained, self.gusts)
    }
}

impl WindSpeedBuilder {
    /// A builder with neither speed set.
    pub fn new() -> (r: WindSpeedBuilder)
        ensures
            r@ == (None::<u32>, None::<u32>),
    {
        WindSpeedBuilder { sustained: None, gusts: None }
    }

    /// Sets the sustained speed in km/h.
    pub fn sustained(self, speed: u32) -> (r: WindSpeedBuilder)
        ensures
            r@ == (Some(speed), self@.1),
    {
        WindSpeedBuilder { sustained: Some(speed), gusts: self.gusts }
    }

    /// Sets the gust speed in km/h.
    pub fn with_gusts(self, gusts: u32) -> (r: WindSpeedBuilder)
        ensures
            r@ == (self@.0, Some(gusts)),
    {
        WindSpeedBuilder { sustained: self.sustained, gusts: Some(gusts) }
    }

    /// The wind speed, as `WindSpeed::with_gusts` gives it; an error where no
    /// sustained speed was set.
    pub fn build(self) -> (r: Result<WindSpeed, WeatherError>)
        ensures
            match self@.0 {
                None => r matches Err(e) && e@ == bare(CauseView::MissingSustained),
                Some(s) => (r is Ok <==> wind_valid(s, self@.1)) && (r matches Ok(w) ==> w@ == (
                    s,
                    self@.1,
                )) && (r matches Err(e) ==> e@ == wind_error(s, self@.1)),
            },
    {
        match self.sustained {
            None => Err(WeatherError::new(Cause::MissingSustained)),
            Some(s) => WindSpeed::with_gusts(s, self.gusts),
        }
    }
}

impl Default for WindSpeedBuilder {
    fn default() -> (r: WindSpeedBuilder)
        ensures
            r@ == (None::<u32>, None::<u32>),
    {
        WindSpeedBuilder::new()
    }
}

/// Sustained wind and optional gusts, in km/h.
#[derive(Debug, Clone, Copy, PartialEq, Eq)]
pub struct WindSpeed {
    sustained: u32,
    gusts: Option<u32>,
}

impl View for WindSpeed {
    type V = (u32, Option<u32>);

    closed spec fn view(&self) -> (u32, Option<u32>) {
        (self.sustained, self.gusts)
    }
}

impl WindSpeed {
    #[verifier::type_invariant]
    spec fn valid(self) -> bool {
        wind_valid(self.sustained, self.gusts)
    }

    /// A wind of `sustained` km/h without gusts.
    pub fn new(sustained: u32) -> (r: Result<WindSpeed, WeatherError>)
        ensures
            r is Ok <==> sustained <= 500,
            r matches Ok(w) ==> w@ == (sustained, None::<u32>),
            r matches Err(e) ==> e@ == wind_error(sustained, None),
    {
        WindSpeed::with_gusts(sustained, None)
    }

    /// A wind of `sustained` km/h with optional `gusts`: both at most 500,
    /// and gusts no weaker than the sustained wind.
    pub fn with_gusts(sustained: u32, gusts: Option<u32>) -> (r: Result<WindSpeed, WeatherError>)
        ensures
            r is Ok <==> wind_valid(sustained, gusts),
            r matches Ok(w) ==> w@ == (sustained, gusts),
            r matches Err(e) ==> e@ == wind_error(sustained, gusts),
    {
        if let Err(e) = WindSpeedRange::validate(sustained as i64) {
            return Err(e);
        }
        if let Some(g) = gusts {
            if let Err(e) = WindSpeedRange::validate(g as i64) {
                return Err(e);
            }
            if g < sustained {
                return Err(
                    WeatherError::new(Cause::GustsBelowSustained { gusts: g, sustained }),
                );
            }
        }
        Ok(WindSpeed { sustained, gusts })
    }

    /// A builder for staged construction.
    pub fn builder() -> (r: WindSpeedBuilder)
        ensures
            r@ == (None::<u32>, None::<u32>),
    {
        WindSpeedBuilder::new()
    }

    /// The sustained speed in km/h.
    pub fn sustained(&self) -> (r: u32)
        ensures
            r == self@.0,
            r <= 500,
    {
        proof {
            use_type_invariant(self);
        }
        self.sustained
    }

    /// The gust speed in km/h, if any.
    pub fn gusts(&self) -> (r: Option<u32>)
        ensures
            r == self@.1,
    {
        self.gusts
    }

    /// The band of the sustained speed.
    pub fn category(&self) -> (r: WindSpeedCategory)
        ensures
            r == category_of(self@.0 as int),
    {
        WindSpeedCategory::of_speed(self.sustained)
    }

    /// The display color of the sustained speed's band.
    pub fn color(&self) -> (r: &'static str)
        ensures
            r@ == category_color(category_of(self@.0 as int)),
    {
        self.category().color()
    }

    /// Markup of the wind: the sustained figure colored by its band and, with
    /// gusts, the gust figure colored by its own.
    pub fn format_colored(&self) -> (r: String)
        ensures
            r@ == wind_markup(self@.0, self@.1),
    {
        let mut r = colored_figure(self.sustained);
        match self.gusts {
            Some(g) => {
                r.append(" km/h (Gusts: ");
                r.append(colored_figure(g).as_str());
                r.append(" km/h)");
            },
            None => {
                r.append(" km/h");
            },
        }
        r
    }

    /// Markup of the sustained speed alone, colored by its band.
    pub fn format_colored_compact(&self) -> (r: String)
        ensures
            r@ == colored_speed(self@.0 as nat) + " km/h"@,
    {
        let mut r = colored_figure(self.sustained);
        r.append(" km/h");
        r
    }

    /// Plain text of the wind: `S km/h`, or `S km/h (Gusts: G km/h)`.
    pub fn to_string(&self) -> (r: String)
        ensures
            r@ == wind_text(self@.0, self@.1),
    {
        let mut r = decimal_text(self.sustained as u64);
        match self.gusts {
            Some(g) => {
                r.append(" km/h (Gusts: ");
                r.append(decimal_text(g as u64).as_str());
                r.append(" km/h)");
            },
            None => {
                r.append(" km/h");
            },
        }
        r
    }
}

/// A wind given gusts equal to its sustained speed reads differently from
/// the same wind without gusts: only the former has a gusts clause.
pub proof fn lemma_equal_gusts_shown(speed: u32)
    ensures
        wind_text(speed, Some(speed)) != wind_text(speed, None),
        wind_markup(speed, Some(speed)) != wind_markup(speed, None),
{
    reveal_strlit(" km/h (Gusts: ");
    reveal_strlit(" km/h)");
    reveal_strlit(" km/h");
    assert(wind_text(speed, Some(speed)).len() > wind_text(speed, None).len());
    assert(wind_markup(speed, Some(speed)).len() > wind_markup(speed, None).len());
}

/// `speed` as markup colored by its band.
fn colored_figure(speed: u32) -> (r: String)
    ensures
        r@ == colored_speed(speed as nat),
{
    let mut r = String::from_str("<span foreground=\"");
    r.append(WindSpeedCategory::of_speed(speed).color());
    r.append("\">");
    r.append(decimal_text(speed as u64).as_str());
    r.append("</span>");
    r
}

/// The `i`-th of the sixteen compass points, clockwise from north.
pub open spec fn compass_point(i: int) -> Seq<char> {
    if i == 0 { "N"@ }
    else if i == 1 { "NNE"@ }
    else if i == 2 { "NE"@ }
    else if i == 3 { "ENE"@ }
    else if i == 4 { "E"@ }
    else if i == 5 { "ESE"@ }
    else if i == 6 { "SE"@ }
    else if i == 7 { "SSE"@ }
    else if i == 8 { "S"@ }
    else if i == 9 { "SSW"@ }
    else if i == 10 { "SW"@ }
    else if i == 11 { "WSW"@ }
    else if i == 12 { "W"@ }
    else if i == 13 { "WNW"@ }
    else if i == 14 { "NW"@ }
    else { "NNW"@ }
}

/// `s` is one of the sixteen compass abbreviations.
pub open spec fn is_compass(s: Seq<char>) -> bool {
    exists|i: int| 0 <= i < 16 && #[trigger] compass_point(i) == s
}

/// The direction that the token `token` names: the token trimmed and in upper case.
pub open spec fn compass_reading(token: Seq<char>) -> Seq<char> {
    upper_of(trimmed(token))
}

fn compass_text(i: usize) -> (r: &'static str)
    requires
        i < 16,
    ensures
        r@ == compass_point(i as int),
{
    if i == 0 { "N" }
    else if i == 1 { "NNE" }
    else if i == 2 { "NE" }
    else if i == 3 { "ENE" }
    else if i == 4 { "E" }
    else if i == 5 { "ESE" }
    else if i == 6 { "SE" }
    else if i == 7 { "SSE" }
    else if i == 8 { "S" }
    else if i == 9 { "SSW" }
    else if i == 10 { "SW" }
    else if i == 11 { "WSW" }
    else if i == 12 { "W" }
    else if i == 13 { "WNW" }
    else if i == 14 { "NW" }
    else { "NNW" }
}

/// The position of `text` among the sixteen compass points, clockwise from
/// north; `None` where it is none of them.
pub fn compass_index(text: &str) -> (r: Option<usize>)
    ensures
        match r {
            Some(i) => i < 16 && compass_point(i as int) == text@,
            None => !is_compass(text@),
        },
{
    let mut i: usize = 0;
    while i < 16
        invariant
            i <= 16,
            forall|k: int| 0 <= k < i ==> compass_point(k) != text@,
        decreases 16 - i,
    {
        if same_text(text, compass_text(i)) {
            return Some(i);
        }
        i = i + 1;
    }
    None
}

/// A wind direction: one of the sixteen compass points.
#[derive(Debug, PartialEq)]
pub struct WindDirection {
    direction: String,
}

impl Clone for WindDirection {
    fn clone(&self) -> (r: Self)
        ensures
            r@ == self@,
    {
        proof {
            use_type_invariant(self);
        }
        WindDirection { direction: self.direction.clone() }
    }
}

impl View for WindDirection {
    type V = Seq<char>;

    closed spec fn view(&self) -> Seq<char> {
        self.direction@
    }
}

impl WindDirection {
    #[verifier::type_invariant]
    spec fn on_compass(self) -> bool {
        is_compass(self.direction@)
    }

    /// The direction of a compass token, read case-insensitively after
    /// trimming; an error naming the token where it is no compass point.
    pub fn from_compass(compass: &str) -> (r: Result<WindDirection, WeatherError>)
        ensures
            r is Ok <==> is_compass(compass_reading(compass@)),
            r matches Ok(d) ==> d@ == compass_reading(compass@),
            r matches Err(e) ==> e@ == bare(CauseView::InvalidCompass { text: compass@ }),
    {
        let direction = to_upper(trim(compass));
        match compass_index(direction.as_str()) {
            Some(_) => Ok(WindDirection { direction }),
            None => Err(
                WeatherError::new(Cause::InvalidCompass { text: String::from_str(compass) }),
            ),
        }
    }

    /// The compass abbreviation, such as `NNW`.
    pub fn to_string(&self) -> (r: String)
        ensures
            r@ == self@,
    {
        self.direction.clone()
    }
}

/// A place name; never blank.
#[derive(Debug, Clone, PartialEq)]
pub struct Location {
    name: String,
}

impl View for Location {
    type V = Seq<char>;

    closed spec fn view(&self) -> Seq<char> {
        self.name@
    }
}

/// The name that a location given as `name` shows: `Unknown` where `name`
/// is empty or only whitespace.
pub open spec fn location_name(name: Seq<char>) -> Seq<char> {
    if trimmed(name).len() == 0 {
        "Unknown"@
    } else {
        name
    }
}

impl Location {
    /// The location `name`, or `Unknown` where it is blank.
    pub fn new(name: String) -> (r: Location)
        ensures
            r@ == location_name(name@),
    {
        if trim(name.as_str()).unicode_len() == 0 {
            Location { name: String::from_str("Unknown") }
        } else {
            Location { name }
        }
    }

    /// The name.
    pub fn to_string(&self) -> (r: String)
        ensures
            r@ == self@,
    {
        self.name.clone()
    }
}

/// The icon for a condition text already in lower case: the first group of
/// keywords that occurs in it decides.
pub open spec fn icon_of(c: Seq<char>) -> Seq<char> {
    if has_part(c, "sunny"@) || has_part(c, "clear"@) {
        "☀️"@
    } else if has_part(c, "partly"@) || has_part(c, "partial"@) {
        "⛅"@
    } else if has_part(c, "cloudy"@) || has_part(c, "overcast"@) {
        "☁️"@
    } else if has_part(c, "rain"@) || has_part(c, "drizzle"@) {
        "🌧️"@
    } else if has_part(c, "storm"@) || has_part(c, "thunder"@) {
        "⛈️"@
    } else if has_part(c, "snow"@) || has_part(c, "blizzard"@) {
        "🌨️"@
    } else if has_part(c, "fog"@) || has_part(c, "mist"@) {
        "🌫️"@
    } else if has_part(c, "wind"@) {
        "💨"@
    } else {
        "🌤️"@
    }
}

/// The icon for a condition text already in lower case.
pub fn icon_for(lowered: &str) -> (r: &'static str)
    ensures
        r@ == icon_of(lowered@),
{
    if contains_text(lowered, "sunny") || contains_text(lowered, "clear") {
        "☀️"
    } else if contains_text(lowered, "partly") || contains_text(lowered, "partial") {
        "⛅"
    } else if contains_text(lowered, "cloudy") || contains_text(lowered, "overcast") {
        "☁️"
    } else if contains_text(lowered, "rain") || contains_text(lowered, "drizzle") {
        "🌧️"
    } else if contains_text(lowered, "storm") || contains_text(lowered, "thunder") {
        "⛈️"
    } else if contains_text(lowered, "snow") || contains_text(lowered, "blizzard") {
        "🌨️"
    } else if contains_text(lowered, "fog") || contains_text(lowered, "mist") {
        "🌫️"
    } else if contains_text(lowered, "wind") {
        "💨"
    } else {
        "🌤️"
    }
}

/// A free-text description of the weather.
#[derive(Debug, Clone, PartialEq)]
pub struct WeatherCondition {
    description: String,
}

impl View for WeatherCondition {
    type V = Seq<char>;

    closed spec fn view(&self) -> Seq<char> {
        self.description@
    }
}

impl WeatherCondition {
    /// The condition `description`.
    pub fn new(description: String) -> (r: WeatherCondition)
        ensures
            r@ == description@,
    {
        WeatherCondition { description }
    }

    /// The icon for the description, matched case-insensitively.
    pub fn icon(&self) -> (r: &'static str)
        ensures
            r@ == icon_of(lower_of(self@)),
    {
        let lowered = to_lower(self.description.as_str());
        icon_for(lowered.as_str())
    }

    /// The description.
    pub fn to_string(&self) -> (r: String)
        ensures
            r@ == self@,
    {
        self.description.clone()
    }
}

/// The time formats tried, in order: 12-hour with a space before the period
/// (`06:30 AM`), 24-hour (`18:30`), 12-hour without the space (`6:30AM`),
/// and 12-hour without zero padding (`6:30 AM`).
pub open spec fn time_format(i: int) -> Seq<char> {
    if i == 0 {
        "[hour repr:12]:[minute] [period]"@
    } else if i == 1 {
        "[hour]:[minute]"@
    } else if i == 2 {
        "[hour repr:12]:[minute][period]"@
    } else {
        "[hour padding:none repr:12]:[minute] [period]"@
    }
}

/// Hour and minute of a time-of-day text: the first format that reads the
/// trimmed text decides; `None` where none does.
pub open spec fn clock_reading(s: Seq<char>) -> Option<(u8, u8)> {
    let t = trimmed(s);
    if clock_parsed(time_format(0), t) is Some {
        clock_parsed(time_format(0), t)
    } else if clock_parsed(time_format(1), t) is Some {
        clock_parsed(time_format(1), t)
    } else if clock_parsed(time_format(2), t) is Some {
        clock_parsed(time_format(2), t)
    } else {
        clock_parsed(time_format(3), t)
    }
}

/// `hh:mm` for the time of day `seconds` seconds after midnight.
pub open spec fn clock_text(seconds: int) -> Seq<char> {
    two_digits((seconds / 3600) as nat) + ":"@ + two_digits(((seconds % 3600) / 60) as nat)
}

fn time_format_text(i: usize) -> (r: &'static str)
    requires
        i < 4,
    ensures
        r@ == time_format(i as int),
{
    if i == 0 {
        "[hour repr:12]:[minute] [period]"
    } else if i == 1 {
        "[hour]:[minute]"
    } else if i == 2 {
        "[hour repr:12]:[minute][period]"
    } else {
        "[hour padding:none repr:12]:[minute] [period]"
    }
}

/// A time of day to the minute.
#[derive(Debug, Clone, Copy, PartialEq, Eq)]
pub struct WeatherTime {
    hour: u8,
    minute: u8,
}

impl View for WeatherTime {
    type V = (u8, u8);

    closed spec fn view(&self) -> (u8, u8) {
        (self.hour, self.minute)
    }
}

impl WeatherTime {
    #[verifier::type_invariant]
    spec fn on_clock(self) -> bool {
        self.hour < 24 && self.minute < 60
    }

    /// The time that `time_str` gives in the first accepted format that
    /// reads it; an error naming the text where none does.
    pub fn parse(time_str: &str) -> (r: Result<WeatherTime, WeatherError>)
        ensures
            r is Ok <==> clock_reading(time_str@) is Some,
            r matches Ok(t) ==> clock_reading(time_str@) == Some(t@),
            r matches Err(e) ==> e@ == bare(CauseView::InvalidTime { text: time_str@ }),
    {
        let trimmed_str = trim(time_str);
        let mut i: usize = 0;
        while i < 4
            invariant
                i <= 4,
                trimmed_str@ == trimmed(time_str@),
                forall|k: int| 0 <= k < i ==> clock_parsed(time_format(k), trimmed_str@) is None,
            decreases 4 - i,
        {
            if let Some((h, m)) = parse_clock(trimmed_str, time_format_text(i)) {
                return Ok(WeatherTime { hour: h, minute: m });
            }
            i = i + 1;
        }
        Err(WeatherError::new(Cause::InvalidTime { text: String::from_str(time_str) }))
    }

    /// The time `hour:minute`, where that is a time of day.
    pub fn from_hour_minute(hour: u32, minute: u32) -> (r: Option<WeatherTime>)
        ensures
            r is Some <==> hour < 24 && minute < 60,
            r matches Some(t) ==> t@ == (hour as u8, minute as u8),
    {
        if hour < 24 && minute < 60 {
            Some(WeatherTime { hour: hour as u8, minute: minute as u8 })
        } else {
            None
        }
    }

    /// The hour, 0 to 23.
    pub fn hour24(self) -> (r: u32)
        ensures
            r == self@.0,
            r < 24,
    {
        proof {
            use_type_invariant(&self);
        }
        self.hour as u32
    }

    /// The minute, 0 to 59.
    pub fn minute(self) -> (r: u32)
        ensures
            r == self@.1,
            r < 60,
    {
        proof {
            use_type_invariant(&self);
        }
        self.minute as u32
    }

    /// The time as `hh:mm` on a 24-hour clock.
    pub fn format_24h(self) -> (r: String)
        ensures
            r@ == two_digits(self@.0 as nat) + ":"@ + two_digits(self@.1 as nat),
    {
        let mut r = two_digit_text(self.hour as u64);
        r.append(":");
        r.append(two_digit_text(self.minute as u64).as_str());
        r
    }

    /// Seconds from midnight.
    pub fn total_seconds(self) -> (r: u32)
        ensures
            r == self@.0 * 3600 + self@.1 * 60,
            r < 86400,
    {
        proof {
            use_type_invariant(&self);
        }
        (self.hour as u32) * 3600 + (self.minute as u32) * 60
    }

    /// The time as `hh:mm` on a 24-hour clock.
    pub fn to_string(self) -> (r: String)
        ensures
            r@ == two_digits(self@.0 as nat) + ":"@ + two_digits(self@.1 as nat),
    {
        self.format_24h()
    }
}

/// A length of time in whole minutes.
#[derive(Debug, Clone, Copy, PartialEq, Eq)]
pub struct Duration {
    total_minutes: u32,
}

impl View for Duration {
    type V = nat;

    closed spec fn view(&self) -> nat {
        self.total_minutes as nat
    }
}

impl Duration {
    /// The duration of `minutes` minutes.
    pub fn from_minutes(minutes: u32) -> (r: Duration)
        ensures
            r@ == minutes,
    {
        Duration { total_minutes: minutes }
    }

    /// The whole hours.
    pub fn hours(self) -> (r: u32)
        ensures
            r == self@ / 60,
    {
        self.total_minutes / 60
    }

    /// The minutes beyond the whole hours, 0 to 59.
    pub fn minutes(self) -> (r: u32)
        ensures
            r == self@ % 60,
    {
        self.total_minutes % 60
    }

    /// The duration as `h:mm`.
    pub fn to_string(self) -> (r: String)
        ensures
            r@ == decimal(self@ / 60) + ":"@ + two_digits(self@ % 60),
    {
        let mut r = decimal_text(self.hours() as u64);
        r.append(":");
        r.append(two_digit_text(self.minutes() as u64).as_str());
        r
    }
}

/// Seconds from midnight of a time of day.
pub open spec fn seconds_of(t: (u8, u8)) -> int {
    t.0 * 3600 + t.1 * 60
}

/// Seconds from sunrise to sunset, the sunset taken on the next day where it
/// is earlier than the sunrise.
pub open spec fn day_seconds(rise: int, set: int) -> int {
    if set >= rise {
        set - rise
    } else {
        86400 - rise + set
    }
}

/// Seconds from midnight of the midpoint between sunrise and sunset.
pub open spec fn noon_seconds(rise: int, set: int) -> int {
    if set >= rise {
        rise + (set - rise) / 2
    } else {
        (rise + day_seconds(rise, set) / 2) % 86400
    }
}

/// Sunrise and sunset of one day.
#[derive(Debug, Clone, Copy, PartialEq, Eq)]
pub struct Astronomy {
    sunrise: WeatherTime,
    sunset: WeatherTime,
}

impl View for Astronomy {
    type V = ((u8, u8), (u8, u8));

    closed spec fn view(&self) -> ((u8, u8), (u8, u8)) {
        (self.sunrise@, self.sunset@)
    }
}

impl Astronomy {
    /// The day with sunrise `sunrise` and sunset `sunset`.
    pub fn new(sunrise: WeatherTime, sunset: WeatherTime) -> (r: Astronomy)
        ensures
            r@ == (sunrise@, sunset@),
    {
        Astronomy { sunrise, sunset }
    }

    /// The sunrise.
    pub fn sunrise(&self) -> (r: WeatherTime)
        ensures
            r@ == self@.0,
    {
        self.sunrise
    }

    /// The sunset.
    pub fn sunset(&self) -> (r: WeatherTime)
        ensures
            r@ == self@.1,
    {
        self.sunset
    }

    /// Whole minutes from sunrise to sunset, across midnight where the
    /// sunset is earlier than the sunrise.
    pub fn day_length(&self) -> (r: Duration)
        ensures
            r@ == day_seconds(seconds_of(self@.0), seconds_of(self@.1)) / 60,
    {
        let rise = self.sunrise.total_seconds();
        let set = self.sunset.total_seconds();
        let seconds = if set >= rise {
            set - rise
        } else {
            (86400 - rise) + set
        };
        Duration::from_minutes(seconds / 60)
    }

    /// The midpoint between sunrise and sunset, written as `hh:mm` and read
    /// back as a time of day.
    pub fn solar_noon(&self) -> (r: Result<WeatherTime, WeatherError>)
        ensures
            ({
                let text = clock_text(noon_seconds(seconds_of(self@.0), seconds_of(self@.1)));
                &&& r is Ok <==> clock_reading(text) is Some
                &&& r matches Ok(t) ==> clock_reading(text) == Some(t@)
                &&& r matches Err(e) ==> e@ == bare(CauseView::InvalidTime { text })
            }),
    {
        let rise = self.sunrise.total_seconds();
        let set = self.sunset.total_seconds();
        let noon = if set >= rise {
            rise + (set - rise) / 2
        } else {
            let length = (86400 - rise) + set;
            (rise + length / 2) % 86400
        };
        let mut text = two_digit_text((noon / 3600) as u64);
        text.append(":");
        text.append(two_digit_text(((noon % 3600) / 60) as u64).as_str());
        WeatherTime::parse(text.as_str())
    }
}

/// The format of the service's date-time texts, such as `2023-01-13 14:30`.
pub open spec fn api_stamp_format() -> Seq<char> {
    "[year]-[month]-[day] [hour]:[minute]"@
}

/// The display format of an update time, such as `2023-01-13 14:30Z`.
pub open spec fn display_stamp_format() -> Seq<char> {
    "[year]-[month]-[day] [hour]:[minute]Z"@
}

/// The text shown for an update time at `seconds` after the epoch.
pub open spec fn stamp_text(seconds: int) -> Seq<char> {
    match utc_formatted(display_stamp_format(), seconds) {
        Some(t) => t,
        None => "Invalid date"@,
    }
}

/// The UTC instant at which the service last updated its readings, in
/// seconds since 1970-01-01 UTC.
#[derive(Debug, Clone, Copy, PartialEq, Eq)]
pub struct LastUpdated {
    seconds: i64,
}

impl View for LastUpdated {
    type V = int;

    closed spec fn view(&self) -> int {
        self.seconds as int
    }
}

impl LastUpdated {
    #[verifier::type_invariant]
    spec fn representable(self) -> bool {
        MIN_UNIX_SECONDS <= self.seconds <= MAX_UNIX_SECONDS
    }

    /// The instant `epoch_seconds` after the epoch, where the calendar
    /// reaches it (years -9999 to 9999).
    pub fn from_epoch(epoch_seconds: i64) -> (r: Result<LastUpdated, WeatherError>)
        ensures
            r is Ok <==> MIN_UNIX_SECONDS <= epoch_seconds <= MAX_UNIX_SECONDS,
            r matches Ok(u) ==> u@ == epoch_seconds,
            r matches Err(e) ==> e@ == bare(CauseView::InvalidEpoch { epoch: epoch_seconds as int }),
    {
        if unix_seconds_valid(epoch_seconds) {
            Ok(LastUpdated { seconds: epoch_seconds })
        } else {
            Err(WeatherError::new(Cause::InvalidEpoch { epoch: epoch_seconds }))
        }
    }

    /// The instant that a `YYYY-MM-DD HH:MM` text gives, taken as UTC.
    pub fn from_api_format(api_string: &str) -> (r: Result<LastUpdated, WeatherError>)
        ensures
            match utc_stamp_parsed(api_stamp_format(), api_string@) {
                Some(t) => r matches Ok(u) && u@ == t,
                None => r matches Err(e) && e@ == bare(
                    CauseView::InvalidTimestamp { text: api_string@ },
                ),
            },
    {
        match parse_utc_stamp(api_string, "[year]-[month]-[day] [hour]:[minute]") {
            Some(t) => Ok(LastUpdated { seconds: t }),
            None => Err(
                WeatherError::new(Cause::InvalidTimestamp { text: String::from_str(api_string) }),
            ),
        }
    }

    /// Seconds since 1970-01-01 UTC.
    pub fn unix_seconds(&self) -> (r: i64)
        ensures
            r == self@,
            MIN_UNIX_SECONDS <= r <= MAX_UNIX_SECONDS,
    {
        proof {
            use_type_invariant(self);
        }
        self.seconds
    }

    /// The instant as `YYYY-MM-DD HH:MMZ`.
    pub fn format_display(&self) -> (r: String)
        ensures
            r@ == stamp_text(self@),
    {
        match format_utc(self.seconds, "[year]-[month]-[day] [hour]:[minute]Z") {
            Some(t) => t,
            None => String::from_str("Invalid date"),
        }
    }

    /// The instant as `YYYY-MM-DD HH:MMZ`.
    pub fn to_string(&self) -> (r: String)
        ensures
            r@ == stamp_text(self@),
    {
        self.format_display()
    }
}

} // verus!
