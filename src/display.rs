//! Rendering of weather data as a status-bar line and a markup tooltip.
use vstd::prelude::*;
use crate::bridge::lower_of;
use crate::models::{DataView, HourlyView, HourlyWeather, WeatherData, hourly_views};
use crate::text::{decimal, signed_decimal, two_digits};
use crate::types::{
    Astronomy, celsius_text, clock_reading, clock_text, colored_speed, day_seconds, dew_point_of,
    icon_of, noon_seconds, seconds_of, stamp_text, wind_markup,
};

verus! {

/// A status-bar line and its tooltip.
#[derive(Debug, Clone)]
pub struct WaybarOutput {
    pub text: String,
    pub tooltip: String,
}

/// Renders weather data for a status bar.
#[derive(Debug, Clone, Copy)]
pub struct WaybarFormatter;

/// A time of day as `hh:mm`.
pub open spec fn time_text(t: (u8, u8)) -> Seq<char> {
    two_digits(t.0 as nat) + ":"@ + two_digits(t.1 as nat)
}

/// A number of minutes as `h:mm`.
pub open spec fn duration_text(minutes: nat) -> Seq<char> {
    decimal(minutes / 60) + ":"@ + two_digits(minutes % 60)
}

/// The solar noon shown for sunrise and sunset `a`: the sunrise where the
/// noon cannot be read back.
pub open spec fn noon_shown(a: ((u8, u8), (u8, u8))) -> (u8, u8) {
    match clock_reading(clock_text(noon_seconds(seconds_of(a.0), seconds_of(a.1)))) {
        Some(t) => t,
        None => a.0,
    }
}

/// The bar line: icon, temperature, sustained wind and place.
pub open spec fn display_text(d: DataView) -> Seq<char> {
    icon_of(lower_of(d.current.condition)) + " "@ + celsius_text(d.current.temperature) + "/ "@
        + colored_speed(d.current.wind_speed.0 as nat) + " km/h"@ + " "@ + d.location
}

/// The tooltip's first lines: the current conditions.
pub open spec fn basic_text(d: DataView) -> Seq<char> {
    let c = d.current;
    "📍 Location: "@ + d.location + "\n🌡️ Temperature: "@ + celsius_text(c.temperature)
        + "\n🌤️ Condition: "@ + c.condition + "\n🤚 Feels like: "@ + celsius_text(c.feels_like)
        + "\n💧 Humidity: "@ + signed_decimal(c.humidity) + "%"@ + " (Dew Point: "@ + celsius_text(
        dew_point_of(c.temperature, c.humidity),
    ) + ")\n💨 Wind: "@ + wind_markup(c.wind_speed.0, c.wind_speed.1) + " "@ + c.wind_direction
        + "\n📊 Pressure: "@ + signed_decimal(c.pressure) + " hPa"@
}

/// The tooltip's astronomy lines.
pub open spec fn astronomy_text(a: ((u8, u8), (u8, u8))) -> Seq<char> {
    "\n🌅 Sunrise: "@ + time_text(a.0) + "\n🌞 Solar Noon: "@ + time_text(noon_shown(a))
        + "\n🌇 Sunset: "@ + time_text(a.1) + "\n⏳ Daylength: "@ + duration_text(
        (day_seconds(seconds_of(a.0), seconds_of(a.1)) / 60) as nat,
    )
}

/// One hour of the forecast, on two lines.
pub open spec fn hourly_text(h: HourlyView) -> Seq<char> {
    "• "@ + time_text(h.time) + " - "@ + celsius_text(h.temperature) + " "@ + h.condition
        + "\n          Wind: "@ + wind_markup(h.wind_speed.0, h.wind_speed.1) + " "@
        + h.wind_direction
}

/// The hours of the forecast, one after another, separated by line breaks.
pub open spec fn hours_text(hs: Seq<HourlyView>) -> Seq<char>
    decreases hs.len(),
{
    if hs.len() == 0 {
        Seq::empty()
    } else if hs.len() == 1 {
        hourly_text(hs[0])
    } else {
        hours_text(hs.drop_last()) + "\n"@ + hourly_text(hs.last())
    }
}

/// The whole tooltip: current conditions, then astronomy and the upcoming
/// hours where the day gives them, then the update time.
pub open spec fn tooltip_text(d: DataView) -> Seq<char> {
    let astronomy = match d.weather_day {
        Some(day) => match day.astronomy {
            Some(a) => astronomy_text(a),
            None => Seq::empty(),
        },
        None => Seq::empty(),
    };
    let hourly = match d.weather_day {
        Some(day) => if day.hourly.len() > 0 {
            "\n\n⏰ Upcoming Hours:\n"@ + hours_text(day.hourly)
        } else {
            Seq::empty()
        },
        None => Seq::empty(),
    };
    basic_text(d) + astronomy + hourly + "\n\n🕐 Updated: "@ + stamp_text(d.current.last_updated)
}

/// The tooltip shown when no weather could be had.
pub open spec fn error_tooltip(location: Seq<char>, error: Seq<char>, attempted_at: Seq<char>) -> Seq<
    char,
> {
    "Unable to fetch weather data for "@ + location + "\n\nError: "@ + error
        + "\nService: WeatherAPI.com\n\nLast attempt: "@ + attempted_at
}

impl WaybarFormatter {
    /// A formatter.
    pub fn new() -> (r: WaybarFormatter) {
        WaybarFormatter
    }

    /// The bar line and tooltip for `weather_data`.
    pub fn format(&self, weather_data: &WeatherData) -> (r: Result<WaybarOutput, crate::error::WeatherError>)
        ensures
            r matches Ok(o) && o.text@ == display_text(weather_data@) && o.tooltip@
                == tooltip_text(weather_data@),
    {
        let text = self.format_display_text(weather_data);
        let tooltip = self.format_tooltip(weather_data);
        Ok(WaybarOutput { text, tooltip })
    }

    /// The output shown when no weather could be had for `location`, with the
    /// error's message and the time of the attempt.
    pub fn create_error_output(location: &str, error: &str, attempted_at: &str) -> (r: WaybarOutput)
        ensures
            r.text@ == "🌤️ -- Weather unavailable"@,
            r.tooltip@ == error_tooltip(location@, error@, attempted_at@),
    {
        let text = String::from_str("🌤️ -- Weather unavailable");
        let mut tooltip = String::from_str("Unable to fetch weather data for ");
        tooltip.append(location);
        tooltip.append("\n\nError: ");
        tooltip.append(error);
        tooltip.append("\nService: WeatherAPI.com\n\nLast attempt: ");
        tooltip.append(attempted_at);
        WaybarOutput { text, tooltip }
    }

    /// The bar line: icon, temperature, sustained wind and place.
    pub fn format_display_text(&self, weather_data: &WeatherData) -> (r: String)
        ensures
            r@ == display_text(weather_data@),
    {
        let mut r = String::from_str(weather_data.current.condition.icon());
        r.append(" ");
        r.append(weather_data.current.temperature.to_string().as_str());
        r.append("/ ");
        r.append(weather_data.current.wind_speed.format_colored_compact().as_str());
        r.append(" ");
        r.append(weather_data.location.to_string().as_str());
        assert(r@ =~= display_text(weather_data@));
        r
    }

    /// The tooltip's lines on the current conditions.
    fn format_basic(&self, weather_data: &WeatherData) -> (r: String)
        ensures
            r@ == basic_text(weather_data@),
    {
        let c = &weather_data.current;
        let dew_point = c.humidity.dew_point(&c.temperature);
        let mut r = String::from_str("📍 Location: ");
        r.append(weather_data.location.to_string().as_str());
        r.append("\n🌡️ Temperature: ");
        r.append(c.temperature.to_string().as_str());
        r.append("\n🌤️ Condition: ");
        r.append(c.condition.to_string().as_str());
        r.append("\n🤚 Feels like: ");
        r.append(c.feels_like.to_string().as_str());
        r.append("\n💧 Humidity: ");
        r.append(c.humidity.to_string().as_str());
        r.append(" (Dew Point: ");
        r.append(dew_point.to_string().as_str());
        r.append(")\n💨 Wind: ");
        r.append(c.wind_speed.format_colored().as_str());
        r.append(" ");
        r.append(c.wind_direction.to_string().as_str());
        r.append("\n📊 Pressure: ");
        r.append(c.pressure.to_string().as_str());
        assert(r@ =~= basic_text(weather_data@));
        r
    }

    /// The tooltip's astronomy lines; the sunrise stands in for a solar noon
    /// that cannot be read back.
    pub fn format_astronomy(&self, astronomy: &Astronomy) -> (r: String)
        ensures
            r@ == astronomy_text(astronomy@),
    {
        let noon = match astronomy.solar_noon() {
            Ok(t) => t,
            Err(_) => astronomy.sunrise(),
        };
        let mut r = String::from_str("\n🌅 Sunrise: ");
        r.append(astronomy.sunrise().to_string().as_str());
        r.append("\n🌞 Solar Noon: ");
        r.append(noon.to_string().as_str());
        r.append("\n🌇 Sunset: ");
        r.append(astronomy.sunset().to_string().as_str());
        r.append("\n⏳ Daylength: ");
        r.append(astronomy.day_length().to_string().as_str());
        assert(r@ =~= astronomy_text(astronomy@));
        r
    }

    /// The whole tooltip.
    pub fn format_tooltip(&self, weather_data: &WeatherData) -> (r: String)
        ensures
            r@ == tooltip_text(weather_data@),
    {
        let mut r = self.format_basic(weather_data);
        match &weather_data.weather_day {
            Some(day) => {
                match &day.astronomy {
                    Some(a) => {
                        r.append(self.format_astronomy(a).as_str());
                    },
                    None => {},
                }
            },
            None => {},
        }
        match &weather_data.weather_day {
            Some(day) => {
                if day.hourly_weather.len() > 0 {
                    r.append("\n\n⏰ Upcoming Hours:\n");
                    r.append(self.format_hours(&day.hourly_weather).as_str());
                }
            },
            None => {},
        }
        r.append("\n\n🕐 Updated: ");
        r.append(weather_data.current.last_updated.to_string().as_str());
        assert(r@ =~= tooltip_text(weather_data@));
        r
    }

    /// The hours, one after another, separated by line breaks.
    fn format_hours(&self, hours: &Vec<HourlyWeather>) -> (r: String)
        ensures
            r@ == hours_text(hourly_views(hours@)),
    {
        let ghost all = hourly_views(hours@);
        let n = hours.len();
        let mut r = String::new();
        let mut i: usize = 0;
        assert(all.subrange(0, 0).len() == 0);
        while i < n
            invariant
                n == hours@.len(),
                all == hourly_views(hours@),
                i <= n,
                r@ == hours_text(all.subrange(0, i as int)),
            decreases n - i,
        {
            let ghost before = r@;
            let ghost next = all.subrange(0, i + 1);
            assert(next.drop_last() =~= all.subrange(0, i as int));
            assert(next.last() == hours@[i as int]@);
            if i > 0 {
                r.append("\n");
            }
            r.append(self.format_hourly_entry(&hours[i]).as_str());
            if i == 0 {
                assert(r@ =~= hours_text(next));
            } else {
                assert(r@ =~= before + "\n"@ + hourly_text(next.last()));
            }
            i = i + 1;
        }
        assert(all.subrange(0, n as int) =~= all);
        r
    }

    /// One hour of the forecast, on two lines.
    pub fn format_hourly_entry(&self, hourly: &HourlyWeather) -> (r: String)
        ensures
            r@ == hourly_text(hourly@),
    {
        let mut r = String::from_str("• ");
        r.append(hourly.time.to_string().as_str());
        r.append(" - ");
        r.append(hourly.temperature.to_string().as_str());
        r.append(" ");
        r.append(hourly.condition.to_string().as_str());
        r.append("\n          Wind: ");
        r.append(hourly.wind_speed.format_colored().as_str());
        r.append(" ");
        r.append(hourly.wind_direction.to_string().as_str());
        assert(r@ =~= hourly_text(hourly@));
        r
    }
}

impl Default for WaybarFormatter {
    fn default() -> (r: WaybarFormatter) {
        WaybarFormatter::new()
    }
}

} // verus!
