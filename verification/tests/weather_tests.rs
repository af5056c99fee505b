use assistant_rs::weather::{
    condition_from_weather_code, weather_location, WeatherHourSlot, WeatherProviderStatus, WeatherSample,
    WeatherState, WeatherUnits,
};

fn slot(hour: &str, temp: &str, code: i32) -> WeatherHourSlot {
    WeatherHourSlot { hour_label: hour.to_string(), temp_label: temp.to_string(), weather_code: code }
}

#[test]
fn new_weather_state_is_local_jersey_city_fahrenheit() {
    let w = WeatherState::new();
    assert_eq!(w.location_label(), "JERSEY CITY");
    assert_eq!(w.temperature_label(), "--");
    assert_eq!(w.condition_label(), "LOCAL ONLY");
    assert_eq!(w.status_label(), "LOCAL");
    assert_eq!(w.last_error_label(), "NONE");
    assert_eq!(w.units, WeatherUnits::Fahrenheit);
    assert_eq!(w.hourly_summary(), "NONE");
}

#[test]
fn units_toggle_twice_is_identity() {
    for u in [WeatherUnits::Fahrenheit, WeatherUnits::Celsius] {
        assert_eq!(u.toggled().toggled(), u);
    }
    assert_eq!(WeatherUnits::Fahrenheit.label(), "UNITS F");
    assert_eq!(WeatherUnits::Celsius.api_value(), "celsius");
}

#[test]
fn units_from_label_reads_celsius_in_any_case() {
    assert_eq!(WeatherUnits::from_label(" c "), WeatherUnits::Celsius);
    assert_eq!(WeatherUnits::from_label("Celsius"), WeatherUnits::Celsius);
    assert_eq!(WeatherUnits::from_label("F"), WeatherUnits::Fahrenheit);
    assert_eq!(WeatherUnits::from_label("kelvin"), WeatherUnits::Fahrenheit);
}

#[test]
fn cycling_locations_wraps_after_mumbai() {
    let mut w = WeatherState::new();
    let labels = ["NEW YORK", "EDISON", "MUMBAI", "JERSEY CITY"];
    for expected in labels {
        w.cycle_location();
        assert_eq!(w.location_label(), expected);
    }
    assert_eq!(w.last_error_label(), "LOCATION");
    assert_eq!(w.condition_label(), "TAP FETCH");
}

#[test]
fn previous_location_undoes_cycle() {
    let mut w = WeatherState::new();
    w.cycle_location();
    w.previous_location();
    assert_eq!(w.location_index, 0);
    w.previous_location();
    assert_eq!(w.location_label(), "MUMBAI");
}

#[test]
fn request_fetch_marks_fetching() {
    let mut w = WeatherState::new();
    w.request_fetch();
    assert_eq!(w.status_label(), "FETCHING");
    assert_eq!(w.last_error_label(), "FETCH");
    assert_eq!(w.refresh_attempts, 1);
}

#[test]
fn failure_without_live_data_is_failed_and_clipped() {
    let mut w = WeatherState::new();
    w.apply_failed("HTTP STATUS 503 SERVICE");
    assert_eq!(w.provider_status, WeatherProviderStatus::Failed);
    assert_eq!(w.last_error_label(), "HTTP STATUS 50");
    assert_eq!(w.condition_label(), "LOCAL ONLY");
}

#[test]
fn live_weather_then_failure_is_stale() {
    let mut w = WeatherState::new();
    let sample = WeatherSample { temp_value: 72, weather_code: 61, hourly_slots: vec![slot("2P", "72", 61)] };
    w.apply_live_weather(sample, 1_700_000_000);
    assert_eq!(w.temperature_label(), "72F");
    assert_eq!(w.condition_label(), "RAIN");
    assert_eq!(w.status_label(), "LIVE");
    assert_eq!(w.hourly_summary(), "2P:72");
    w.apply_failed("TIMEOUT");
    assert_eq!(w.status_label(), "STALE");
}

#[test]
fn weather_codes_map_to_conditions() {
    assert_eq!(condition_from_weather_code(0), "CLEAR");
    assert_eq!(condition_from_weather_code(2), "SUNNY");
    assert_eq!(condition_from_weather_code(48), "CLOUDY");
    assert_eq!(condition_from_weather_code(81), "RAIN");
    assert_eq!(condition_from_weather_code(86), "SNOW");
    assert_eq!(condition_from_weather_code(96), "STORM");
    assert_eq!(condition_from_weather_code(100), "BREEZY");
}

#[test]
fn provider_url_names_location_and_units() {
    let mut w = WeatherState::new();
    w.toggle_units();
    let url = w.provider_url();
    assert_eq!(
        url,
        "http://api.open-meteo.com/v1/forecast?latitude=40.7282&longitude=-74.0776&current=temperature_2m,weather_code&hourly=temperature_2m,weather_code&forecast_days=1&temperature_unit=celsius&timezone=America%2FNew_York"
    );
    assert_eq!(w.footer_label(), "JERSEY CITY C LOCAL");
}

#[test]
fn weather_location_table() {
    let m = weather_location(3);
    assert_eq!(m.label, "MUMBAI");
    assert_eq!(m.timezone_url, "Asia%2FKolkata");
    assert_eq!(weather_location(9).label, "MUMBAI");
}

#[test]
fn hourly_summary_joins_first_four() {
    let mut w = WeatherState::new();
    let slots = vec![slot("1P", "70", 0), slot("2P", "71", 1), slot("3P", "72", 2), slot("4P", "73", 3), slot("5P", "74", 3)];
    w.apply_live_weather(WeatherSample { temp_value: 70, weather_code: 0, hourly_slots: slots }, 5);
    assert_eq!(w.hourly_summary(), "1P:70,2P:71,3P:72,4P:73");
}

#[test]
fn cache_text_lists_fields_and_hours() {
    let mut w = WeatherState::new();
    w.apply_live_weather(WeatherSample { temp_value: 68, weather_code: 3, hourly_slots: vec![slot("9A", "66", 3)] }, 42);
    assert_eq!(
        w.cache_text(),
        "location_index=0\nlocation=JERSEY CITY\nunits=F\ntemp=68F\ncondition=CLOUDY\nlast_live_epoch=42\nh0=9A|66|3\n"
    );
}

#[test]
fn cache_text_round_trips_through_apply_cache_text() {
    let mut src = WeatherState::new();
    src.cycle_location();
    src.cycle_location();
    src.toggle_units();
    src.apply_live_weather(
        WeatherSample { temp_value: -3, weather_code: 71, hourly_slots: vec![slot("11P", "-3", 71), slot("12A", "-4", 73)] },
        1234,
    );
    let text = src.cache_text();
    let mut dst = WeatherState::new();
    assert!(dst.apply_cache_text(&text));
    assert_eq!(dst.location_index, 2);
    assert_eq!(dst.location_label(), "EDISON");
    assert_eq!(dst.units, WeatherUnits::Celsius);
    assert_eq!(dst.temperature_label(), "-3C");
    assert_eq!(dst.condition_label(), "SNOW");
    assert_eq!(dst.last_live_epoch, 1234);
    assert_eq!(dst.hourly_summary(), "11P:-3,12A:-4");
    assert_eq!(dst.status_label(), "STALE");
}

#[test]
fn cache_round_trip_ignores_the_location_label() {
    let mut src = WeatherState::new();
    src.cycle_location();
    src.location_label = "NEW YORK \r".to_string();
    let text = src.cache_text();
    let mut dst = WeatherState::new();
    assert!(dst.apply_cache_text(&text));
    assert_eq!(dst.location_index, 1);
    assert_eq!(dst.location_label(), "NEW YORK");
    assert_eq!(dst.temperature_label(), "--");
}

#[test]
fn apply_cache_text_ignores_comments_and_clamps_index() {
    let mut w = WeatherState::new();
    let loaded = w.apply_cache_text("# header\nlocation_index=9\nunknown=1\n");
    assert!(loaded);
    assert_eq!(w.location_index, 3);
    assert_eq!(w.status_label(), "LOCAL");
    let mut e = WeatherState::new();
    assert!(!e.apply_cache_text("last_live_epoch=x\nh0=bad\n"));
    assert_eq!(e.last_live_epoch, 0);
}
