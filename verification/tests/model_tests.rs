use assistant_rs::drivers::pcf85063::DateTime;
use assistant_rs::intents::UiIntent;
use assistant_rs::model::{ButtonName, ButtonPressKind, OnboardModel};
use assistant_rs::pages::AssistantPage;

fn dt(year: u8, month: u8, day: u8, hour: u8, minute: u8, second: u8) -> DateTime {
    DateTime { second, minute, hour, day, month, year }
}

#[test]
fn new_model_defaults() {
    let m = OnboardModel::new();
    assert_eq!(m.current_page, AssistantPage::Home);
    assert_eq!(m.rtc_hms(), "--:--");
    assert_eq!(m.rtc_hms_full(), "--:--:--");
    assert_eq!(m.rtc_ymd(), "---- -- --");
    assert_eq!(m.rtc_day_date(), "--- --");
    assert_eq!(m.rtc_home_date_text(), "--- -- ---");
    assert_eq!(m.battery_text(), "--");
    assert_eq!(m.wifi_home_text(), "OFF");
    assert_eq!(m.wifi_status_label(), "SCAN ERR");
    assert_eq!(m.sd_text(), "NO");
    assert_eq!(m.flash_text(), "16M");
    assert_eq!(m.psram_text(), "8M");
    assert_eq!(m.backlight_text(), "100%");
    assert_eq!(m.home_weather_temp(), "72F");
}

#[test]
fn clock_texts() {
    let mut m = OnboardModel::new();
    m.update_rtc(dt(24, 5, 1, 9, 5, 7));
    assert_eq!(m.rtc_hms(), "09:05");
    assert_eq!(m.rtc_hms_full(), "09:05:07");
    assert_eq!(m.rtc_ymd(), "2024-05-01");
    assert_eq!(m.rtc_day_date(), "WED 01");
    assert_eq!(m.rtc_home_date_text(), "WED 01 MAY");
    m.update_rtc(dt(26, 1, 1, 0, 0, 0));
    assert_eq!(m.rtc_home_date_text(), "THU 01 JAN");
}

#[test]
fn page_navigation_counts() {
    let mut m = OnboardModel::new();
    m.next_page();
    assert_eq!(m.current_page, AssistantPage::Weather);
    m.previous_page();
    m.previous_page();
    assert_eq!(m.current_page, AssistantPage::Settings);
    m.set_page(AssistantPage::Settings);
    assert_eq!(m.nav_count_text(), "3");
}

#[test]
fn inputs_are_counted_and_labelled() {
    let mut m = OnboardModel::new();
    m.note_touch(10, 20, 1, 0);
    m.note_button(ButtonName::Power, ButtonPressKind::Long);
    assert_eq!(m.touch_count_text(), "1");
    assert_eq!(m.button_count_text(), "1");
    assert_eq!(m.last_action, "POWER MENU");
    m.note_intent(UiIntent::SettingsPreviousDetail);
    assert_eq!(m.last_action, "SETTINGS PREV");
}

#[test]
fn battery_percent_from_curve() {
    let mut m = OnboardModel::new();
    m.note_battery_sample(1800, 1900, 3600);
    assert_eq!(m.battery_percent_value(), Some(50));
    assert_eq!(m.battery_home_text(), "50%");
    assert_eq!(m.battery_percent_detail_text(), "50% EST");
    assert_eq!(m.battery_adc_text(), "1800/1900mV");
    assert_eq!(m.battery_adc_status_text(), "ADC OK");
    m.note_battery_sample(1, 1, 2900);
    assert_eq!(m.battery_percent_value(), Some(0));
    m.note_battery_sample(1, 1, 4300);
    assert_eq!(m.battery_percent_value(), Some(100));
    m.set_battery_curve(4000, 3000, "BAD");
    assert_eq!(m.battery_percent_value(), None);
    assert_eq!(m.note_battery_zero_sample(), 1);
    assert_eq!(m.note_battery_zero_sample(), 2);
}

#[test]
fn wifi_texts() {
    let mut m = OnboardModel::new();
    m.update_wifi_status(Some(120), false, None);
    assert_eq!(m.wifi_home_text(), "AP99");
    assert_eq!(m.wifi_ap_count_label(), "120 AP");
    assert_eq!(m.wifi_status_label(), "STA READY");
    m.update_wifi_status(Some(3), true, Some("my_home-net.5G".to_string()));
    assert_eq!(m.wifi_home_text(), "MYHOME-N");
    assert_eq!(m.wifi_ssid_label(), "MYHOME-NET.5");
    assert_eq!(m.wifi_connected_label(), "YES");
    m.update_wifi_status(None, true, Some("!!!".to_string()));
    assert_eq!(m.wifi_home_text(), "WIFI");
    assert_eq!(m.wifi_ssid_label(), "CONNECTED");
}

#[test]
fn sd_texts() {
    let mut m = OnboardModel::new();
    m.sd_present = true;
    m.sd_capacity_mb = Some(30_000);
    m.sd_free_mb = Some(512);
    assert_eq!(m.sd_text(), "OK");
    assert_eq!(m.sd_free_total_text(), "512M/29G");
}
