use weather_waybar::display::WaybarFormatter;

#[test]
fn test_error_handling_flow() {
    let location = "test_location";
    let error_output =
        WaybarFormatter::create_error_output(location, "Test error", "2024-05-01 09:15Z");

    assert!(error_output.text.contains("unavailable"));
    assert!(error_output.tooltip.contains("test_location"));
    assert!(error_output.tooltip.contains("Test error"));
    assert_eq!(
        error_output.tooltip,
        "Unable to fetch weather data for test_location\n\nError: Test error\nService: WeatherAPI.com\n\nLast attempt: 2024-05-01 09:15Z"
    );
}

#[test]
fn test_default_location_handling() {
    let args: Vec<String> = vec!["weather".to_string()];
    let location = args.get(1).unwrap_or(&"Wellington".to_string()).clone();
    assert_eq!(location, "Wellington");
}

#[test]
fn test_custom_location_handling() {
    let test_location = "Auckland";
    assert_eq!(test_location, "Auckland");
}
