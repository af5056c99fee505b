use assistant_rs::open_meteo::{parse_hourly_slots, open_meteo_tokens};
use assistant_rs::weather::WeatherUnits;

const REPLY: &str = r#"{"latitude":40.7,"current":{"time":"2024-05-01T14:15","temperature_2m":71.6,"weather_code":3},"hourly":{"time":["2024-05-01T13:00","2024-05-01T14:00","2024-05-01T15:00","2024-05-01T16:00","2024-05-01T17:00","2024-05-01T18:00"],"temperature_2m":[70.1,71.0,72.5,null,73.9,74.0],"weather_code":[3,3,61,61,2,0]}}"#;

#[test]
fn reads_current_and_hourly_tokens() {
    let t = open_meteo_tokens(REPLY).unwrap();
    assert_eq!(t.temperature, "71.6");
    assert_eq!(t.weather_code, "3");
    assert_eq!(t.current_time.as_deref(), Some("2024-05-01T14:15"));
    assert_eq!(t.hourly_times.len(), 6);
    assert_eq!(t.hourly_temperatures, vec!["70.1", "71.0", "72.5", "73.9", "74.0"]);
    assert_eq!(t.hourly_codes, vec!["3", "3", "61", "61", "2", "0"]);
}

#[test]
fn falls_back_to_current_weather_keys() {
    let t = open_meteo_tokens(r#"{"current_weather":{"temperature":-2.5,"weathercode":71}}"#).unwrap();
    assert_eq!(t.temperature, "-2.5");
    assert_eq!(t.weather_code, "71");
    assert!(t.current_time.is_none());
    assert!(t.hourly_times.is_empty());
}

#[test]
fn reports_each_missing_part() {
    assert_eq!(open_meteo_tokens("{}").unwrap_err(), "NO CURRENT");
    assert_eq!(open_meteo_tokens(r#"{"current":{"weather_code":1}}"#).unwrap_err(), "NO TEMP");
    assert_eq!(open_meteo_tokens(r#"{"current":{"temperature_2m":1.0}}"#).unwrap_err(), "NO CODE");
    assert_eq!(open_meteo_tokens(r#"{"current":{"temperature_2m":"x","weather_code":1}}"#).unwrap_err(), "NO TEMP");
}

#[test]
fn brackets_inside_strings_do_not_end_objects() {
    let t = open_meteo_tokens(r#"{"current":{"note":"a } b","temperature_2m":5,"weather_code":0}}"#).unwrap();
    assert_eq!(t.temperature, "5");
}

#[test]
fn spoilt_number_array_is_dropped() {
    let t = open_meteo_tokens(r#"{"current":{"temperature_2m":5,"weather_code":0},"hourly":{"time":["a"],"temperature_2m":[1,oops],"weather_code":[1e2]}}"#).unwrap();
    assert!(t.hourly_temperatures.is_empty());
    assert_eq!(t.hourly_codes, vec!["1e2"]);
}

#[test]
fn escaped_quotes_in_strings_are_unescaped() {
    let t = open_meteo_tokens(r#"{"current":{"time":"a\"b\\c","temperature_2m":1,"weather_code":2}}"#).unwrap();
    assert_eq!(t.current_time.as_deref(), Some("a\"b\\c"));
}

fn strings(v: &[&str]) -> Vec<String> {
    v.iter().map(|s| s.to_string()).collect()
}

#[test]
fn timeline_starts_at_current_hour() {
    let times = strings(&["2024-05-01T13:00", "2024-05-01T14:00", "2024-05-01T15:00", "2024-05-01T16:00", "2024-05-01T17:00", "2024-05-01T18:00"]);
    let temps = vec![70, 71, 73, 74, 74, 74];
    let codes = vec![3, 3, 61, 61, 2, 0];
    let slots = parse_hourly_slots(&times, &temps, &codes, &Some("2024-05-01T14:15".to_string()), WeatherUnits::Fahrenheit);
    let labels: Vec<(String, String, i32)> =
        slots.iter().map(|s| (s.hour_label.clone(), s.temp_label.clone(), s.weather_code)).collect();
    assert_eq!(
        labels,
        vec![
            ("2P".to_string(), "71".to_string(), 3),
            ("3P".to_string(), "73".to_string(), 61),
            ("4P".to_string(), "74".to_string(), 61),
            ("5P".to_string(), "74".to_string(), 2),
        ]
    );
}

#[test]
fn timeline_past_the_data_falls_back_with_suffix() {
    let times = strings(&["2024-05-01T00:00", "2024-05-01T12:00", "2024-05-02T09:00"]);
    let slots = parse_hourly_slots(&times, &vec![-1, 5], &vec![0, 1], &Some("2024-05-02T09:30".to_string()), WeatherUnits::Celsius);
    assert_eq!(slots.len(), 2);
    assert_eq!(slots[0].hour_label, "12A");
    assert_eq!(slots[0].temp_label, "-1C");
    assert_eq!(slots[1].hour_label, "12P");
}

#[test]
fn timeline_is_empty_without_data_and_tolerates_bad_times() {
    assert!(parse_hourly_slots(&vec![], &vec![1], &vec![1], &None, WeatherUnits::Fahrenheit).is_empty());
    let slots = parse_hourly_slots(&strings(&["noon"]), &vec![1], &vec![2], &None, WeatherUnits::Fahrenheit);
    assert_eq!(slots[0].hour_label, "12A");
}
