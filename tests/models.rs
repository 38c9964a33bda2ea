use weather_waybar::error::{Cause, Stage};
use weather_waybar::models::{
    local_hour_of, wind_from_readings, AstroApi, ConditionApi, CurrentApi, CurrentWeather,
    ForecastApi, ForecastDayApi, HourApi, HourlyWeather, LocationApi, WeatherApiResponse,
    WeatherData, WeatherDay,
};
use weather_waybar::types::Astronomy;

fn condition(text: &str) -> ConditionApi {
    ConditionApi { text: text.to_string() }
}

fn hour_at(time: &str) -> HourApi {
    HourApi {
        time: time.to_string(),
        temp_c: 20,
        condition: condition("Clear"),
        wind_kph: 10,
        wind_dir: "N".to_string(),
        gust_kph: 19,
    }
}

fn current_api() -> CurrentApi {
    CurrentApi {
        last_updated_epoch: 1673620200,
        last_updated: "2023-01-13 14:30".to_string(),
        temp_c: 20,
        condition: condition("Clear"),
        wind_kph: 15,
        wind_dir: "NW".to_string(),
        pressure_mb: 1013,
        humidity: 60,
        feelslike_c: 22,
        gust_kph: 30,
    }
}

#[test]
fn test_weather_response_parsing() {
    let response = WeatherApiResponse {
        location: LocationApi {
            name: "Wellington".to_string(),
            localtime: "2023-01-13 14:30".to_string(),
        },
        current: current_api(),
        forecast: Some(ForecastApi {
            forecastday: vec![ForecastDayApi {
                astro: Some(AstroApi {
                    sunrise: "06:30 AM".to_string(),
                    sunset: "06:30 PM".to_string(),
                }),
                hour: vec![HourApi {
                    time: "2023-01-13 12:00".to_string(),
                    temp_c: 22,
                    condition: condition("Sunny"),
                    wind_kph: 10,
                    wind_dir: "N".to_string(),
                    gust_kph: 18,
                }],
            }],
        }),
    };
    let weather_data = WeatherData::try_from(response).expect("Valid domain conversion");

    assert_eq!(weather_data.current.temperature.as_celsius(), 20);
    assert_eq!(weather_data.current.humidity.as_int(), 60);
    assert_eq!(weather_data.location.to_string(), "Wellington");
}

#[test]
fn test_current_weather_parsing() {
    let current = CurrentApi {
        last_updated_epoch: 1673620200,
        last_updated: "2023-01-13 14:30".to_string(),
        temp_c: 19,
        condition: condition("Partly cloudy"),
        wind_kph: 12,
        wind_dir: "SW".to_string(),
        pressure_mb: 1010,
        humidity: 70,
        feelslike_c: 18,
        gust_kph: 24,
    };
    let domain_current = CurrentWeather::try_from(current).expect("Valid domain conversion");

    assert_eq!(domain_current.temperature.as_celsius(), 19);
    assert_eq!(domain_current.humidity.as_int(), 70);
    assert_eq!(domain_current.condition.to_string(), "Partly cloudy");
    assert_eq!(domain_current.wind_direction.to_string(), "SW");
}

#[test]
fn test_hourly_weather_parsing() {
    let hourly = HourApi {
        time: "2023-01-13 18:00".to_string(),
        temp_c: 18,
        condition: condition("Partly cloudy"),
        wind_kph: 12,
        wind_dir: "SW".to_string(),
        gust_kph: 20,
    };
    let domain_hourly = HourlyWeather::try_from(hourly).expect("Valid domain conversion");

    assert_eq!(domain_hourly.time.hour24(), 18);
    assert_eq!(domain_hourly.temperature.as_celsius(), 18);
    assert_eq!(domain_hourly.condition.to_string(), "Partly cloudy");
    assert_eq!(domain_hourly.wind_speed.to_string(), "12 km/h (Gusts: 20 km/h)");
}

#[test]
fn test_astronomy_parsing() {
    let astro = AstroApi {
        sunrise: "06:15 AM".to_string(),
        sunset: "08:45 PM".to_string(),
    };
    let domain_astro = Astronomy::try_from(astro).expect("Valid domain conversion");

    assert_eq!(domain_astro.sunrise().hour24(), 6);
    assert_eq!(domain_astro.sunrise().minute(), 15);
    assert_eq!(domain_astro.sunset().hour24(), 20);
    assert_eq!(domain_astro.sunset().minute(), 45);
}

#[test]
fn test_invalid_temperature_handling() {
    let mut current = current_api();
    current.temp_c = 999;
    current.feelslike_c = 999;
    let result = CurrentWeather::try_from(current);
    assert!(result.is_err());
}

#[test]
fn test_time_parsing_variations() {
    let time_variations = vec![
        ("2023-01-13 06:00", 6),
        ("2023-01-13 12:00", 12),
        ("2023-01-13 18:00", 18),
        ("2023-01-13 00:30", 0),
    ];

    for (time_str, expected_hour) in time_variations {
        let hourly = hour_at(time_str);
        let domain_hourly = HourlyWeather::try_from(hourly).expect("Valid conversion");
        assert_eq!(domain_hourly.time.hour24(), expected_hour);
    }
}

#[test]
fn test_wind_speed_with_gusts() {
    let hourly_with_gusts = HourApi {
        time: "2023-01-13 15:00".to_string(),
        temp_c: 20,
        condition: condition("Windy"),
        wind_kph: 30,
        wind_dir: "W".to_string(),
        gust_kph: 50,
    };
    let domain_hourly = HourlyWeather::try_from(hourly_with_gusts).expect("Valid conversion");
    assert_eq!(domain_hourly.wind_speed.to_string(), "30 km/h (Gusts: 50 km/h)");
}

#[test]
fn equal_gust_reading_gives_wind_without_gusts() {
    let wind = wind_from_readings(25, 25).unwrap();
    assert_eq!(wind.gusts(), None);
    assert_eq!(wind.to_string(), "25 km/h");

    let gusty = wind_from_readings(25, 26).unwrap();
    assert_eq!(gusty.gusts(), Some(26));
    assert_eq!(gusty.to_string(), "25 km/h (Gusts: 26 km/h)");

    let calmer_gust = wind_from_readings(25, 10).unwrap();
    assert_eq!(calmer_gust.gusts(), None);
}

#[test]
fn wind_readings_out_of_range_fail() {
    assert!(wind_from_readings(501, 0).is_err());
    assert!(wind_from_readings(20, 501).is_err());
}

fn day_with_hours(hours: &[u32]) -> WeatherDay {
    let hour = hours
        .iter()
        .map(|h| hour_at(&format!("2023-01-13 {:02}:00", h)))
        .collect();
    WeatherDay::try_from(ForecastDayApi { astro: None, hour }).unwrap()
}

fn kept_hours(day: &WeatherDay) -> Vec<u32> {
    day.hourly_weather.iter().map(|h| h.time.hour24()).collect()
}

#[test]
fn hourly_window_starts_at_local_hour() {
    let day = day_with_hours(&[12, 13, 14, 15, 22, 23]).filter_future_hours(14);
    assert_eq!(kept_hours(&day), vec![14, 15, 22, 23]);
}

#[test]
fn hourly_window_spans_at_most_twelve_hours() {
    let all: Vec<u32> = (0..24).collect();
    let day = day_with_hours(&all).filter_future_hours(2);
    assert_eq!(kept_hours(&day), (2..=13).collect::<Vec<u32>>());

    let late = day_with_hours(&all).filter_future_hours(30);
    assert!(kept_hours(&late).is_empty());
}

#[test]
fn local_hour_reads_time_part() {
    assert_eq!(local_hour_of("2023-01-13 14:30"), 14);
    assert_eq!(local_hour_of("2023-01-13 7:05"), 7);
    assert_eq!(local_hour_of("2023-01-13"), 0);
    assert_eq!(local_hour_of("2023-01-13 xx:30"), 0);
    assert_eq!(local_hour_of(""), 0);
}

#[test]
fn forecast_day_fails_on_any_bad_hour() {
    let mut bad = hour_at("2023-01-13 13:00");
    bad.wind_dir = "North".to_string();
    let day = ForecastDayApi { astro: None, hour: vec![hour_at("2023-01-13 12:00"), bad] };
    let err = WeatherDay::try_from(day).unwrap_err();
    assert_eq!(err.context, vec![Stage::HourlyWeather, Stage::WindDirection]);
    assert!(matches!(err.cause, Cause::InvalidCompass { .. }));
}

#[test]
fn hour_without_time_part_fails() {
    let err = HourlyWeather::try_from(hour_at("2023-01-13")).unwrap_err();
    assert!(matches!(err.cause, Cause::MissingTimeOfDay { .. }));
    assert_eq!(err.to_string(), "Invalid time format: 2023-01-13");
}

#[test]
fn missing_astronomy_gives_none() {
    let day = WeatherDay::try_from(ForecastDayApi { astro: None, hour: vec![] }).unwrap();
    assert!(day.astronomy.is_none());
}

#[test]
fn bad_sunrise_fails_the_day() {
    let day = ForecastDayApi {
        astro: Some(AstroApi { sunrise: "dawn".to_string(), sunset: "18:30".to_string() }),
        hour: vec![],
    };
    let err = WeatherDay::try_from(day).unwrap_err();
    assert_eq!(err.context, vec![Stage::Astronomy, Stage::Sunrise]);
    assert_eq!(
        err.to_string(),
        "Failed to parse astronomy data: Failed to parse sunrise: Unable to parse time: dawn"
    );
}

#[test]
fn unreadable_epoch_falls_back_to_text() {
    let mut current = current_api();
    current.last_updated_epoch = i64::MAX;
    let converted = CurrentWeather::try_from(current).unwrap();
    assert_eq!(converted.last_updated.to_string(), "2023-01-13 14:30Z");

    let mut broken = current_api();
    broken.last_updated_epoch = i64::MAX;
    broken.last_updated = "yesterday".to_string();
    let err = CurrentWeather::try_from(broken).unwrap_err();
    assert_eq!(err.context, vec![Stage::LastUpdated]);
}

#[test]
fn current_errors_name_their_field() {
    let mut low_pressure = current_api();
    low_pressure.pressure_mb = 700;
    let err = CurrentWeather::try_from(low_pressure).unwrap_err();
    assert_eq!(err.context, vec![Stage::Pressure]);
    assert_eq!(
        err.to_string(),
        "Pressure out of range: Value 700 hPa is outside valid range (800 to 1100)"
    );

    let mut humid = current_api();
    humid.humidity = 101;
    let err = CurrentWeather::try_from(humid).unwrap_err();
    assert_eq!(err.context, vec![Stage::Humidity]);
}

#[test]
fn response_without_forecast_has_no_day() {
    let response = WeatherApiResponse {
        location: LocationApi { name: "  ".to_string(), localtime: "bad".to_string() },
        current: current_api(),
        forecast: Some(ForecastApi { forecastday: vec![] }),
    };
    let data = WeatherData::try_from(response).unwrap();
    assert!(data.weather_day.is_none());
    assert_eq!(data.location.to_string(), "Unknown");
}

#[test]
fn response_with_bad_current_fails_with_context() {
    let mut current = current_api();
    current.temp_c = -60;
    let response = WeatherApiResponse {
        location: LocationApi {
            name: "Wellington".to_string(),
            localtime: "2023-01-13 14:30".to_string(),
        },
        current,
        forecast: None,
    };
    let err = WeatherData::try_from(response).unwrap_err();
    assert_eq!(err.context, vec![Stage::CurrentConditions, Stage::Temperature]);
    assert_eq!(
        err.to_string(),
        "Failed to parse current conditions: Temperature out of range: Value -60 °C is outside valid range (-40 to 55)"
    );
}
