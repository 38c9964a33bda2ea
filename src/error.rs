//! Errors of validation and conversion: a cause, wrapped in the stages of
//! conversion that were under way when it arose.
use vstd::prelude::*;
use crate::text::{decimal_text, signed_decimal_text, decimal, signed_decimal};

verus! {

/// The physical unit of a range-validated reading.
#[derive(Debug, Clone, Copy, PartialEq, Eq, Structural)]
pub enum Unit {
    Celsius,
    Percent,
    HectoPascals,
    KilometresPerHour,
}

pub open spec fn unit_text(u: Unit) -> Seq<char> {
    match u {
        Unit::Celsius => "°C"@,
        Unit::Percent => "%"@,
        Unit::HectoPascals => "hPa"@,
        Unit::KilometresPerHour => "km/h"@,
    }
}

impl Unit {
    /// The unit's symbol.
    pub fn symbol(&self) -> (r: &'static str)
        ensures
            r@ == unit_text(*self),
    {
        match self {
            Unit::Celsius => "°C",
            Unit::Percent => "%",
            Unit::HectoPascals => "hPa",
            Unit::KilometresPerHour => "km/h",
        }
    }
}

/// A stage of building a value, named in the error of a failure inside it.
#[derive(Debug, Clone, Copy, PartialEq, Eq, Structural)]
pub enum Stage {
    CurrentConditions,
    WeatherDay,
    Astronomy,
    HourlyWeather,
    Sunrise,
    Sunset,
    HourTime,
    Temperature,
    FeelsLike,
    Humidity,
    Wind,
    Pressure,
    WindDirection,
    LastUpdated,
}

pub open spec fn stage_text(s: Stage) -> Seq<char> {
    match s {
        Stage::CurrentConditions => "Failed to parse current conditions"@,
        Stage::WeatherDay => "Failed to parse weather day data"@,
        Stage::Astronomy => "Failed to parse astronomy data"@,
        Stage::HourlyWeather => "Failed to parse hourly weather data"@,
        Stage::Sunrise => "Failed to parse sunrise"@,
        Stage::Sunset => "Failed to parse sunset"@,
        Stage::HourTime => "Failed to parse time"@,
        Stage::Temperature => "Temperature out of range"@,
        Stage::FeelsLike => "Feels like temperature out of range"@,
        Stage::Humidity => "Humidity out of range"@,
        Stage::Wind => "Invalid wind data"@,
        Stage::Pressure => "Pressure out of range"@,
        Stage::WindDirection => "Invalid wind direction"@,
        Stage::LastUpdated => "Failed to parse last updated timestamp"@,
    }
}

impl Stage {
    /// What the stage was doing, in words.
    pub fn describe(&self) -> (r: &'static str)
        ensures
            r@ == stage_text(*self),
    {
        match self {
            Stage::CurrentConditions => "Failed to parse current conditions",
            Stage::WeatherDay => "Failed to parse weather day data",
            Stage::Astronomy => "Failed to parse astronomy data",
            Stage::HourlyWeather => "Failed to parse hourly weather data",
            Stage::Sunrise => "Failed to parse sunrise",
            Stage::Sunset => "Failed to parse sunset",
            Stage::HourTime => "Failed to parse time",
            Stage::Temperature => "Temperature out of range",
            Stage::FeelsLike => "Feels like temperature out of range",
            Stage::Humidity => "Humidity out of range",
            Stage::Wind => "Invalid wind data",
            Stage::Pressure => "Pressure out of range",
            Stage::WindDirection => "Invalid wind direction",
            Stage::LastUpdated => "Failed to parse last updated timestamp",
        }
    }
}

/// What went wrong, with the raw input that caused it.
#[derive(Debug, Clone)]
pub enum Cause {
    /// A reading outside the closed interval `[min, max]` of its kind.
    OutOfRange { value: i64, unit: Unit, min: i64, max: i64 },
    /// Gusts weaker than the sustained wind.
    GustsBelowSustained { gusts: u32, sustained: u32 },
    /// A wind speed built without its sustained speed.
    MissingSustained,
    /// A token that is none of the sixteen compass points.
    InvalidCompass { text: String },
    /// A text that no accepted time-of-day format reads.
    InvalidTime { text: String },
    /// A date-time text without a time part after a space.
    MissingTimeOfDay { text: String },
    /// Seconds since the epoch outside the representable instants.
    InvalidEpoch { epoch: i64 },
    /// A text that is no `YYYY-MM-DD HH:MM` date-time.
    InvalidTimestamp { text: String },
}

/// `Cause` with each text as its characters.
pub enum CauseView {
    OutOfRange { value: int, unit: Unit, min: int, max: int },
    GustsBelowSustained { gusts: nat, sustained: nat },
    MissingSustained,
    InvalidCompass { text: Seq<char> },
    InvalidTime { text: Seq<char> },
    MissingTimeOfDay { text: Seq<char> },
    InvalidEpoch { epoch: int },
    InvalidTimestamp { text: Seq<char> },
}

impl View for Cause {
    type V = CauseView;

    open spec fn view(&self) -> CauseView {
        match self {
            Cause::OutOfRange { value, unit, min, max } => CauseView::OutOfRange {
                value: *value as int,
                unit: *unit,
                min: *min as int,
                max: *max as int,
            },
            Cause::GustsBelowSustained { gusts, sustained } => CauseView::GustsBelowSustained {
                gusts: *gusts as nat,
                sustained: *sustained as nat,
            },
            Cause::MissingSustained => CauseView::MissingSustained,
            Cause::InvalidCompass { text } => CauseView::InvalidCompass { text: text@ },
            Cause::InvalidTime { text } => CauseView::InvalidTime { text: text@ },
            Cause::MissingTimeOfDay { text } => CauseView::MissingTimeOfDay { text: text@ },
            Cause::InvalidEpoch { epoch } => CauseView::InvalidEpoch { epoch: *epoch as int },
            Cause::InvalidTimestamp { text } => CauseView::InvalidTimestamp { text: text@ },
        }
    }
}

/// A failure: its cause, and the stages it aborted, outermost first.
#[derive(Debug, Clone)]
pub struct WeatherError {
    pub context: Vec<Stage>,
    pub cause: Cause,
}

/// `WeatherError` as plain values.
pub struct ErrorView {
    pub context: Seq<Stage>,
    pub cause: CauseView,
}

impl View for WeatherError {
    type V = ErrorView;

    open spec fn view(&self) -> ErrorView {
        ErrorView { context: self.context@, cause: self.cause@ }
    }
}

/// The error of `cause` outside any stage.
pub open spec fn bare(cause: CauseView) -> ErrorView {
    ErrorView { context: Seq::empty(), cause }
}

/// `e` as seen from inside `stage`.
pub open spec fn within(stage: Stage, e: ErrorView) -> ErrorView {
    ErrorView { context: seq![stage] + e.context, cause: e.cause }
}

pub open spec fn cause_text(c: CauseView) -> Seq<char> {
    match c {
        CauseView::OutOfRange { value, unit, min, max } => "Value "@ + signed_decimal(value) + " "@
            + unit_text(unit) + " is outside valid range ("@ + signed_decimal(min) + " to "@
            + signed_decimal(max) + ")"@,
        CauseView::GustsBelowSustained { gusts, sustained } => "Wind gusts "@ + decimal(gusts)
            + " km/h cannot be less than sustained wind "@ + decimal(sustained) + " km/h"@,
        CauseView::MissingSustained => "Sustained wind speed is required"@,
        CauseView::InvalidCompass { text } => "Invalid compass direction: "@ + text,
        CauseView::InvalidTime { text } => "Unable to parse time: "@ + text,
        CauseView::MissingTimeOfDay { text } => "Invalid time format: "@ + text,
        CauseView::InvalidEpoch { epoch } => "Invalid timestamp "@ + signed_decimal(epoch),
        CauseView::InvalidTimestamp { text } => "Failed to parse API timestamp: "@ + text,
    }
}

/// The stages' descriptions, each followed by `": "`.
pub open spec fn context_text(stages: Seq<Stage>) -> Seq<char>
    decreases stages.len(),
{
    if stages.len() == 0 {
        Seq::empty()
    } else {
        stage_text(stages[0]) + ": "@ + context_text(stages.drop_first())
    }
}

/// The message of an error: its stages, outermost first, then its cause.
pub open spec fn error_text(e: ErrorView) -> Seq<char> {
    context_text(e.context) + cause_text(e.cause)
}

impl Cause {
    /// The cause in words.
    pub fn message(&self) -> (r: String)
        ensures
            r@ == cause_text(self@),
    {
        match self {
            Cause::OutOfRange { value, unit, min, max } => {
                let mut r = String::from_str("Value ");
                r.append(signed_decimal_text(*value).as_str());
                r.append(" ");
                r.append(unit.symbol());
                r.append(" is outside valid range (");
                r.append(signed_decimal_text(*min).as_str());
                r.append(" to ");
                r.append(signed_decimal_text(*max).as_str());
                r.append(")");
                r
            },
            Cause::GustsBelowSustained { gusts, sustained } => {
                let mut r = String::from_str("Wind gusts ");
                r.append(decimal_text(*gusts as u64).as_str());
                r.append(" km/h cannot be less than sustained wind ");
                r.append(decimal_text(*sustained as u64).as_str());
                r.append(" km/h");
                r
            },
            Cause::MissingSustained => String::from_str("Sustained wind speed is required"),
            Cause::InvalidCompass { text } => {
                let mut r = String::from_str("Invalid compass direction: ");
                r.append(text.as_str());
                r
            },
            Cause::InvalidTime { text } => {
                let mut r = String::from_str("Unable to parse time: ");
                r.append(text.as_str());
                r
            },
            Cause::MissingTimeOfDay { text } => {
                let mut r = String::from_str("Invalid time format: ");
                r.append(text.as_str());
                r
            },
            Cause::InvalidEpoch { epoch } => {
                let mut r = String::from_str("Invalid timestamp ");
                r.append(signed_decimal_text(*epoch).as_str());
                r
            },
            Cause::InvalidTimestamp { text } => {
                let mut r = String::from_str("Failed to parse API timestamp: ");
                r.append(text.as_str());
                r
            },
        }
    }
}

impl WeatherError {
    /// The error of `cause`, outside any stage.
    pub fn new(cause: Cause) -> (r: WeatherError)
        ensures
            r@ == bare(cause@),
    {
        WeatherError { context: Vec::new(), cause }
    }

    /// This error, wrapped in the stage `stage`.
    pub fn within(self, stage: Stage) -> (r: WeatherError)
        ensures
            r@ == within(stage, self@),
    {
        let mut context = self.context;
        context.insert(0, stage);
        assert(context@ =~= seq![stage] + self.context@);
        WeatherError { context, cause: self.cause }
    }

    /// The message: each stage's description and `": "`, outermost first,
    /// then the cause.
    pub fn to_string(&self) -> (r: String)
        ensures
            r@ == error_text(self@),
    {
        let n = self.context.len();
        let mut r = String::new();
        let mut i: usize = 0;
        assert(self.context@.subrange(0, n as int) =~= self.context@);
        assert(r@ + context_text(self.context@) =~= context_text(self.context@));
        while i < n
            invariant
                n == self.context@.len(),
                i <= n,
                context_text(self.context@) == r@ + context_text(
                    self.context@.subrange(i as int, n as int),
                ),
            decreases n - i,
        {
            let ghost rest = self.context@.subrange(i as int, n as int);
            assert(rest.drop_first() =~= self.context@.subrange(i + 1, n as int));
            let ghost before = r@;
            r.append(self.context[i].describe());
            r.append(": ");
            assert(before + context_text(rest) =~= r@ + context_text(rest.drop_first()));
            i = i + 1;
        }
        assert(context_text(self.context@.subrange(n as int, n as int)) == Seq::<char>::empty());
        assert(r@ + Seq::<char>::empty() =~= r@);
        r.append(self.cause.message().as_str());
        r
    }
}

} // verus!
