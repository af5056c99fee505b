use assistant_rs::battery::{battery_cal_apply, battery_cal_check, battery_cal_line, battery_cal_lines, BatteryCalLine, CalEntry};

#[test]
fn calibration_lines_are_read_by_key() {
    assert!(matches!(battery_cal_line("  Empty_MV = 3100 "), BatteryCalLine::EmptyMv(Ok(3100))));
    assert!(matches!(battery_cal_line("full_mv=+4150"), BatteryCalLine::FullMv(Ok(4150))));
    assert!(matches!(battery_cal_line("FULL_MV = 70000"), BatteryCalLine::FullMv(Err("BAD_FULL"))));
    assert!(matches!(battery_cal_line("empty_mv = 3.1"), BatteryCalLine::EmptyMv(Err("BAD_EMPTY"))));
    match battery_cal_line(" Multiplier = 3.02 ") {
        BatteryCalLine::Multiplier(v) => assert_eq!(v, "3.02"),
        other => panic!("{:?}", other),
    }
    match battery_cal_line("ADC_MULTIPLIER=2.5=x") {
        BatteryCalLine::Multiplier(v) => assert_eq!(v, "2.5=x"),
        other => panic!("{:?}", other),
    }
    assert!(matches!(battery_cal_line(""), BatteryCalLine::Skip));
    assert!(matches!(battery_cal_line("  # empty_mv = 3000"), BatteryCalLine::Skip));
    assert!(matches!(battery_cal_line("empty_mv 3000"), BatteryCalLine::Skip));
    assert!(matches!(battery_cal_line("volts = 3"), BatteryCalLine::Skip));
}

#[test]
fn calibration_text_is_read_line_by_line() {
    let lines = battery_cal_lines("# cal\r\nempty_mv=3100\r\n\nfull_mv = 4150\n");
    assert_eq!(lines.len(), 4);
    assert!(matches!(lines[0], BatteryCalLine::Skip));
    assert!(matches!(lines[1], BatteryCalLine::EmptyMv(Ok(3100))));
    assert!(matches!(lines[2], BatteryCalLine::Skip));
    assert!(matches!(lines[3], BatteryCalLine::FullMv(Ok(4150))));
    assert!(battery_cal_lines("").is_empty());
}

#[test]
fn calibration_checks_keys_and_thresholds() {
    assert_eq!(battery_cal_check(false, 3000, 4200), Err("NO_KEYS"));
    assert_eq!(battery_cal_check(true, 4200, 4200), Err("BAD_THRESHOLDS"));
    assert_eq!(battery_cal_check(true, 2400, 4200), Err("THRESHOLD_RANGE"));
    assert_eq!(battery_cal_check(true, 3000, 4700), Err("THRESHOLD_RANGE"));
    assert_eq!(battery_cal_check(true, 2500, 4600), Ok(()));
}

#[test]
fn calibration_fold_keeps_the_last_value_and_stops_at_the_first_error() {
    let ok = vec![CalEntry::EmptyMv(Ok(3100)), CalEntry::Skip, CalEntry::EmptyMv(Ok(3200)), CalEntry::FullMv(Ok(4100))];
    assert_eq!(battery_cal_apply(&ok, 3000, 4200), Ok((3200, 4100)));
    let bad = vec![CalEntry::Multiplier(Err("MULTIPLIER_RANGE")), CalEntry::EmptyMv(Err("BAD_EMPTY"))];
    assert_eq!(battery_cal_apply(&bad, 3000, 4200), Err("MULTIPLIER_RANGE"));
    assert_eq!(battery_cal_apply(&vec![CalEntry::Skip], 3000, 4200), Err("NO_KEYS"));
    assert_eq!(battery_cal_apply(&vec![CalEntry::Multiplier(Ok(()))], 3000, 4200), Ok((3000, 4200)));
    assert_eq!(battery_cal_apply(&vec![CalEntry::FullMv(Ok(4700))], 3000, 4200), Err("THRESHOLD_RANGE"));
}
