use weather_waybar::types::{
    compass_index,
    Astronomy, Duration, Humidity, LastUpdated, Location, Pressure, Temperature, WeatherCondition,
    WeatherTime, WindDirection, WindSpeed, WindSpeedBuilder, WindSpeedCategory,
};

#[test]
fn test_temperature_creation_and_conversion() {
    let temp = Temperature::new(25).expect("Valid temperature");
    assert_eq!(temp.as_celsius(), 25);
    assert_eq!(temp.to_string(), "25°C");

    let temp_cold = Temperature::new(-10).expect("Valid temperature");
    assert_eq!(temp_cold.as_celsius(), -10);
}

#[test]
fn test_temperature_validation() {
    assert!(Temperature::new(-500).is_err());
    assert!(Temperature::new(200).is_err());

    assert!(Temperature::new(-40).is_ok());
    assert!(Temperature::new(55).is_ok());

    assert!(Temperature::new(-41).is_err());
    assert!(Temperature::new(56).is_err());
}

#[test]
fn test_wind_speed_creation() {
    let wind = WindSpeed::new(15).expect("Valid wind speed");
    assert_eq!(wind.to_string(), "15 km/h");
}

#[test]
fn mod_test_wind_speed_with_gusts() {
    let wind = WindSpeed::with_gusts(20, Some(35)).expect("Valid wind with gusts");
    assert_eq!(wind.to_string(), "20 km/h (Gusts: 35 km/h)");
}

#[test]
fn test_wind_speed_gust_validation() {
    assert!(WindSpeed::with_gusts(30, Some(25)).is_err());
    assert!(WindSpeed::with_gusts(25, Some(25)).is_ok());
    assert!(WindSpeed::with_gusts(25, Some(40)).is_ok());
    assert!(WindSpeed::with_gusts(600, Some(700)).is_err());
    assert!(WindSpeed::new(600).is_err());
}

#[test]
fn test_wind_speed_builder_pattern() {
    let wind = WindSpeed::builder()
        .sustained(25)
        .with_gusts(40)
        .build()
        .expect("Valid wind with builder");

    assert_eq!(wind.to_string(), "25 km/h (Gusts: 40 km/h)");
}

#[test]
fn test_wind_speed_builder_sustained_only() {
    let wind = WindSpeed::builder()
        .sustained(15)
        .build()
        .expect("Valid wind with builder");

    assert_eq!(wind.to_string(), "15 km/h");
}

#[test]
fn test_wind_speed_builder_requires_sustained() {
    let result = WindSpeed::builder().with_gusts(30).build();

    assert!(result.is_err());
    assert!(result
        .unwrap_err()
        .to_string()
        .contains("Sustained wind speed is required"));
}

#[test]
fn test_validated_trait_clean_interface() {
    let wind = WindSpeed::new(25).expect("Valid sustained wind");
    assert_eq!(wind.to_string(), "25 km/h");

    let complex_wind = WindSpeed::with_gusts(20, Some(35)).expect("Valid wind with gusts");
    assert_eq!(complex_wind.to_string(), "20 km/h (Gusts: 35 km/h)");

    let builder_wind = WindSpeed::builder()
        .sustained(30)
        .with_gusts(45)
        .build()
        .expect("Valid wind from builder");
    assert_eq!(builder_wind.to_string(), "30 km/h (Gusts: 45 km/h)");
}

#[test]
fn test_pressure_creation() {
    let pressure = Pressure::new(1013).expect("Valid pressure");
    assert_eq!(pressure.to_string(), "1013 hPa");

    assert!(Pressure::new(500).is_err());
    assert!(Pressure::new(1200).is_err());
}

#[test]
fn test_location_creation() {
    let location = Location::new("Wellington".to_string());
    assert_eq!(location.to_string(), "Wellington");

    let empty_location = Location::new("".to_string());
    assert_eq!(empty_location.to_string(), "Unknown");
}

#[test]
fn test_weather_time_parsing() {
    let time = WeatherTime::parse("06:30 AM").expect("Valid time");
    assert_eq!(time.hour24(), 6);
    assert_eq!(time.minute(), 30);

    let time_pm = WeatherTime::parse("06:30 PM").expect("Valid time");
    assert_eq!(time_pm.hour24(), 18);
    assert_eq!(time_pm.minute(), 30);

    let time_24h = WeatherTime::parse("18:45").expect("Valid time");
    assert_eq!(time_24h.hour24(), 18);
    assert_eq!(time_24h.minute(), 45);
}

#[test]
fn test_weather_time_invalid() {
    assert!(WeatherTime::parse("invalid").is_err());
    assert!(WeatherTime::parse("25:00").is_err());
    assert!(WeatherTime::parse("12:60").is_err());
}

#[test]
fn test_weather_condition_icon() {
    let condition = WeatherCondition::new("Clear".to_string());
    assert_eq!(condition.icon(), "☀️");
    assert_eq!(condition.to_string(), "Clear");

    let cloudy = WeatherCondition::new("Partly cloudy".to_string());
    assert_eq!(cloudy.icon(), "⛅");

    let rainy = WeatherCondition::new("Light rain".to_string());
    assert_eq!(rainy.icon(), "🌧️");
}

#[test]
fn test_dew_point_calculation() {
    let temp = Temperature::new(20).unwrap();
    let humidity = Humidity::new(60).unwrap();

    let dew_point = humidity.dew_point(&temp);
    assert_eq!(dew_point.as_celsius(), 12);
}

#[test]
fn test_day_length_calculation() {
    let sunrise = WeatherTime::parse("06:30 AM").unwrap();
    let sunset = WeatherTime::parse("06:30 PM").unwrap();
    let astronomy = Astronomy::new(sunrise, sunset);

    let day_length = astronomy.day_length();
    assert_eq!(day_length.hours(), 12);
    assert_eq!(day_length.minutes(), 0);
}

#[test]
fn test_solar_noon_calculation() {
    let sunrise = WeatherTime::parse("06:30 AM").unwrap();
    let sunset = WeatherTime::parse("06:30 PM").unwrap();
    let astronomy = Astronomy::new(sunrise, sunset);

    let solar_noon = astronomy.solar_noon().unwrap();
    assert_eq!(solar_noon.hour24(), 12);
    assert_eq!(solar_noon.minute(), 30);
}

#[test]
fn test_astronomy_creation_and_calculations() {
    let sunrise = WeatherTime::parse("06:00 AM").unwrap();
    let sunset = WeatherTime::parse("07:00 PM").unwrap();
    let astronomy = Astronomy::new(sunrise, sunset);

    assert_eq!(astronomy.sunrise().hour24(), 6);
    assert_eq!(astronomy.sunset().hour24(), 19);

    assert_eq!(astronomy.day_length().hours(), 13);
    assert_eq!(astronomy.day_length().minutes(), 0);

    let solar_noon = astronomy.solar_noon().unwrap();
    assert_eq!(solar_noon.hour24(), 12);
    assert_eq!(solar_noon.minute(), 30);
}

#[test]
fn test_last_updated_from_epoch() {
    let last_updated = LastUpdated::from_epoch(1673620200).expect("Valid timestamp");
    assert_eq!(last_updated.format_display(), "2023-01-13 14:30Z");
    assert_eq!(last_updated.to_string(), "2023-01-13 14:30Z");
}

#[test]
fn test_last_updated_from_api_format() {
    let last_updated = LastUpdated::from_api_format("2023-01-13 14:30").expect("Valid format");
    assert_eq!(last_updated.format_display(), "2023-01-13 14:30Z");
}

#[test]
fn test_last_updated_invalid_epoch() {
    assert!(LastUpdated::from_epoch(i64::MAX).is_err());
}

#[test]
fn test_last_updated_invalid_api_format() {
    assert!(LastUpdated::from_api_format("invalid").is_err());
    assert!(LastUpdated::from_api_format("2023-13-01 14:30").is_err());
    assert!(LastUpdated::from_api_format("2023-01-32 14:30").is_err());
    assert!(LastUpdated::from_api_format("2023-01-13 25:30").is_err());
    assert!(LastUpdated::from_api_format("2023-01-13 14:60").is_err());
}

#[test]
fn test_last_updated_consistency() {
    let epoch_version = LastUpdated::from_epoch(1673620200).expect("Valid timestamp");
    let api_version = LastUpdated::from_api_format("2023-01-13 14:30").expect("Valid format");

    assert_eq!(epoch_version.format_display(), api_version.format_display());
    assert_eq!(epoch_version.to_string(), api_version.to_string());
}

#[test]
fn test_wind_direction_creation_and_validation() {
    let north = WindDirection::from_compass("N").expect("Valid direction");
    assert_eq!(north.to_string(), "N");

    let east = WindDirection::from_compass("E").expect("Valid direction");
    assert_eq!(east.to_string(), "E");

    let south = WindDirection::from_compass("S").expect("Valid direction");
    assert_eq!(south.to_string(), "S");

    let west = WindDirection::from_compass("W").expect("Valid direction");
    assert_eq!(west.to_string(), "W");

    let nnw = WindDirection::from_compass("NNW").expect("Valid direction");
    assert_eq!(nnw.to_string(), "NNW");
}

#[test]
fn test_wind_direction_validation() {
    assert!(WindDirection::from_compass("INVALID").is_err());
    assert!(WindDirection::from_compass("X").is_err());
    assert!(WindDirection::from_compass("NORTH").is_err());

    assert!(WindDirection::from_compass("N").is_ok());
    assert!(WindDirection::from_compass("S").is_ok());
    assert!(WindDirection::from_compass("NNW").is_ok());
}

#[test]
fn test_wind_direction_all_compass_points() {
    let directions = [
        "N", "NNE", "NE", "ENE", "E", "ESE", "SE", "SSE", "S", "SSW", "SW", "WSW", "W", "WNW",
        "NW", "NNW",
    ];

    for direction in directions {
        let wind_dir = WindDirection::from_compass(direction).unwrap();
        assert_eq!(wind_dir.to_string(), direction);
    }
}

#[test]
fn test_wind_direction_from_compass() {
    let north = WindDirection::from_compass("N").expect("Valid compass");
    assert_eq!(north.to_string(), "N");

    let northeast = WindDirection::from_compass("NE").expect("Valid compass");
    assert_eq!(northeast.to_string(), "NE");

    let south = WindDirection::from_compass("S").expect("Valid compass");
    assert_eq!(south.to_string(), "S");

    let west = WindDirection::from_compass("w").expect("Valid compass");
    assert_eq!(west.to_string(), "W");
}

#[test]
fn test_wind_direction_from_compass_invalid() {
    assert!(WindDirection::from_compass("INVALID").is_err());
    assert!(WindDirection::from_compass("").is_err());
    assert!(WindDirection::from_compass("NORTH").is_err());
    assert!(WindDirection::from_compass("X").is_err());
}

#[test]
fn test_wind_direction_edge_cases() {
    assert!(WindDirection::from_compass("").is_err());
    assert!(WindDirection::from_compass("  ").is_err());
    assert!(WindDirection::from_compass("North").is_err());
}

#[test]
fn test_wind_speed_calm_category() {
    let calm_zero = WindSpeed::new(0).unwrap();
    assert_eq!(calm_zero.category(), WindSpeedCategory::Calm);
    assert_eq!(calm_zero.color(), "#FFFFFF");

    let calm_mid = WindSpeed::new(10).unwrap();
    assert_eq!(calm_mid.category(), WindSpeedCategory::Calm);
    assert_eq!(calm_mid.color(), "#FFFFFF");

    let calm_max = WindSpeed::new(19).unwrap();
    assert_eq!(calm_max.category(), WindSpeedCategory::Calm);
    assert_eq!(calm_max.color(), "#FFFFFF");
}

#[test]
fn test_wind_speed_moderate_breezes_category() {
    let moderate_min = WindSpeed::new(20).unwrap();
    assert_eq!(moderate_min.category(), WindSpeedCategory::ModerateBreezes);
    assert_eq!(moderate_min.color(), "#00AA00");

    let moderate_mid = WindSpeed::new(35).unwrap();
    assert_eq!(moderate_mid.category(), WindSpeedCategory::ModerateBreezes);
    assert_eq!(moderate_mid.color(), "#00AA00");

    let moderate_max = WindSpeed::new(50).unwrap();
    assert_eq!(moderate_max.category(), WindSpeedCategory::ModerateBreezes);
    assert_eq!(moderate_max.color(), "#00AA00");
}

#[test]
fn test_wind_speed_gales_category() {
    let gale_min = WindSpeed::new(51).unwrap();
    assert_eq!(gale_min.category(), WindSpeedCategory::Gales);
    assert_eq!(gale_min.color(), "#FFA500");

    let gale_mid = WindSpeed::new(70).unwrap();
    assert_eq!(gale_mid.category(), WindSpeedCategory::Gales);
    assert_eq!(gale_mid.color(), "#FFA500");

    let gale_max = WindSpeed::new(88).unwrap();
    assert_eq!(gale_max.category(), WindSpeedCategory::Gales);
    assert_eq!(gale_max.color(), "#FFA500");
}

#[test]
fn test_wind_speed_storms_category() {
    let storm_min = WindSpeed::new(89).unwrap();
    assert_eq!(storm_min.category(), WindSpeedCategory::Storms);
    assert_eq!(storm_min.color(), "#FF0000");

    let storm_mid = WindSpeed::new(100).unwrap();
    assert_eq!(storm_mid.category(), WindSpeedCategory::Storms);
    assert_eq!(storm_mid.color(), "#FF0000");

    let storm_max = WindSpeed::new(117).unwrap();
    assert_eq!(storm_max.category(), WindSpeedCategory::Storms);
    assert_eq!(storm_max.color(), "#FF0000");
}

#[test]
fn test_wind_speed_hurricane_category() {
    let hurricane_min = WindSpeed::new(118).unwrap();
    assert_eq!(hurricane_min.category(), WindSpeedCategory::Hurricane);
    assert_eq!(hurricane_min.color(), "#9B30FF");

    let hurricane_mid = WindSpeed::new(150).unwrap();
    assert_eq!(hurricane_mid.category(), WindSpeedCategory::Hurricane);
    assert_eq!(hurricane_mid.color(), "#9B30FF");

    let hurricane_max = WindSpeed::new(200).unwrap();
    assert_eq!(hurricane_max.category(), WindSpeedCategory::Hurricane);
    assert_eq!(hurricane_max.color(), "#9B30FF");
}

#[test]
fn test_wind_speed_category_boundaries() {
    assert_eq!(WindSpeed::new(19).unwrap().category(), WindSpeedCategory::Calm);
    assert_eq!(WindSpeed::new(20).unwrap().category(), WindSpeedCategory::ModerateBreezes);
    assert_eq!(WindSpeed::new(50).unwrap().category(), WindSpeedCategory::ModerateBreezes);
    assert_eq!(WindSpeed::new(51).unwrap().category(), WindSpeedCategory::Gales);
    assert_eq!(WindSpeed::new(88).unwrap().category(), WindSpeedCategory::Gales);
    assert_eq!(WindSpeed::new(89).unwrap().category(), WindSpeedCategory::Storms);
    assert_eq!(WindSpeed::new(117).unwrap().category(), WindSpeedCategory::Storms);
    assert_eq!(WindSpeed::new(118).unwrap().category(), WindSpeedCategory::Hurricane);
}

#[test]
fn test_wind_speed_format_colored() {
    let calm = WindSpeed::new(10).unwrap();
    assert_eq!(
        calm.format_colored(),
        "<span foreground=\"#FFFFFF\">10</span> km/h"
    );

    let moderate = WindSpeed::new(30).unwrap();
    assert_eq!(
        moderate.format_colored(),
        "<span foreground=\"#00AA00\">30</span> km/h"
    );

    let gale = WindSpeed::new(60).unwrap();
    assert_eq!(
        gale.format_colored(),
        "<span foreground=\"#FFA500\">60</span> km/h"
    );

    let storm = WindSpeed::new(100).unwrap();
    assert_eq!(
        storm.format_colored(),
        "<span foreground=\"#FF0000\">100</span> km/h"
    );

    let hurricane = WindSpeed::new(150).unwrap();
    assert_eq!(
        hurricane.format_colored(),
        "<span foreground=\"#9B30FF\">150</span> km/h"
    );
}

#[test]
fn test_wind_speed_format_colored_with_gusts() {
    let calm_with_moderate_gusts = WindSpeed::with_gusts(15, Some(45)).unwrap();
    assert_eq!(calm_with_moderate_gusts.category(), WindSpeedCategory::Calm);
    assert_eq!(
        calm_with_moderate_gusts.format_colored(),
        "<span foreground=\"#FFFFFF\">15</span> km/h (Gusts: <span foreground=\"#00AA00\">45</span> km/h)"
    );

    let moderate_with_gale_gusts = WindSpeed::with_gusts(25, Some(60)).unwrap();
    assert_eq!(moderate_with_gale_gusts.category(), WindSpeedCategory::ModerateBreezes);
    assert_eq!(
        moderate_with_gale_gusts.format_colored(),
        "<span foreground=\"#00AA00\">25</span> km/h (Gusts: <span foreground=\"#FFA500\">60</span> km/h)"
    );
}

#[test]
fn duration_renders_hours_and_padded_minutes() {
    let d = Duration::from_minutes(725);
    assert_eq!(d.hours(), 12);
    assert_eq!(d.minutes(), 5);
    assert_eq!(d.to_string(), "12:05");
}

#[test]
fn builder_default_has_no_speeds() {
    let result = WindSpeedBuilder::default().build();
    assert!(result.is_err());
}

#[test]
fn compass_index_counts_clockwise_from_north() {
    assert_eq!(compass_index("N"), Some(0));
    assert_eq!(compass_index("E"), Some(4));
    assert_eq!(compass_index("NNW"), Some(15));
    assert_eq!(compass_index("n"), None);
    assert_eq!(compass_index("NORTH"), None);
}

#[test]
fn gusts_equal_to_sustained_still_show_the_clause() {
    let equal = WindSpeed::with_gusts(25, Some(25)).unwrap();
    let plain = WindSpeed::with_gusts(25, None).unwrap();
    assert_eq!(equal.to_string(), "25 km/h (Gusts: 25 km/h)");
    assert_eq!(plain.to_string(), "25 km/h");
}

#[test]
fn wind_errors_name_both_values() {
    let err = WindSpeed::with_gusts(30, Some(25)).unwrap_err();
    assert_eq!(
        err.to_string(),
        "Wind gusts 25 km/h cannot be less than sustained wind 30 km/h"
    );
    let err = WindSpeed::with_gusts(20, Some(501)).unwrap_err();
    assert_eq!(err.to_string(), "Value 501 km/h is outside valid range (0 to 500)");
}

#[test]
fn humidity_bounds_and_whole_percent() {
    assert!(Humidity::new(0).is_ok());
    assert!(Humidity::new(100).is_ok());
    assert!(Humidity::new(-1).is_err());
    assert!(Humidity::new(101).is_err());
    assert_eq!(Humidity::new(60).unwrap().as_int(), 60);
    assert_eq!(Humidity::new(60).unwrap().to_string(), "60%");
}

#[test]
fn temperature_shows_negative_values() {
    assert_eq!(Temperature::new(-40).unwrap().to_string(), "-40°C");
    assert_eq!(Temperature::new(0).unwrap().to_string(), "0°C");
}

#[test]
fn weather_time_total_seconds() {
    let t = WeatherTime::parse("06:30 PM").unwrap();
    assert_eq!(t.total_seconds(), 18 * 3600 + 30 * 60);
    assert_eq!(t.format_24h(), "18:30");
    assert!(WeatherTime::from_hour_minute(24, 0).is_none());
    assert_eq!(WeatherTime::from_hour_minute(23, 59).unwrap().to_string(), "23:59");
}

#[test]
fn blank_location_is_unknown() {
    assert_eq!(Location::new(" \t ".to_string()).to_string(), "Unknown");
    assert_eq!(Location::new(" Bern ".to_string()).to_string(), " Bern ");
}
