use assistant_rs::dispatch::{
    update_wifi_connect_progress, weather_http_error_label, weather_sd_error_label, wifi_connect_started,
    wifi_import_begin, wifi_import_parse,
};
use assistant_rs::drivers::pcf85063::DateTime;
use assistant_rs::model::OnboardModel;
use assistant_rs::pages::AssistantPage;
use assistant_rs::runtime::{
    elapsed_ms, poll_due, rtc_redraw_needed, wifi_poll_due, wifi_visible, ScreenState, SleepPoll, SleepSource,
};
use assistant_rs::touch::TouchTracker;
use assistant_rs::wifi::WifiProvisioningStep;

#[test]
fn timing_helpers() {
    assert_eq!(elapsed_ms(10, 20), 0);
    assert_eq!(elapsed_ms(25, 20), 5);
    assert!(poll_due(1000, 0, 1000));
    assert!(!poll_due(999, 0, 1000));
    assert!(wifi_poll_due(1000, 0, true));
    assert!(!wifi_poll_due(1000, 0, false));
    assert!(wifi_poll_due(30_000, 0, false));
}

#[test]
fn clock_redraws_on_new_minute_on_home_only() {
    let a = DateTime { second: 0, minute: 1, hour: 2, day: 3, month: 4, year: 25 };
    let b = DateTime { second: 30, ..a };
    let c = DateTime { minute: 2, ..a };
    assert!(rtc_redraw_needed(AssistantPage::Home, None, a));
    assert!(!rtc_redraw_needed(AssistantPage::Home, Some(a), b));
    assert!(rtc_redraw_needed(AssistantPage::Home, Some(a), c));
    assert!(!rtc_redraw_needed(AssistantPage::Music, Some(a), c));
}

#[test]
fn wifi_visible_on_home_and_network_panel() {
    let mut m = OnboardModel::new();
    assert!(wifi_visible(&m));
    m.set_page(AssistantPage::Settings);
    assert!(wifi_visible(&m));
    m.settings.next_detail_panel();
    assert!(!wifi_visible(&m));
}

#[test]
fn screen_sleeps_after_idle_and_wakes_on_touch() {
    let mut screen = ScreenState::new(0);
    let mut model = OnboardModel::new();
    let mut tracker = TouchTracker::new();
    assert!(!screen.idle_sleep_due(119_999, false));
    assert!(screen.idle_sleep_due(120_000, false));
    assert!(!screen.idle_sleep_due(120_000, true));
    screen.sleep(SleepSource::Idle, 120_000, &mut model, &mut tracker);
    assert!(screen.sleeping);
    assert_eq!(model.last_action, "SCREEN SLEEP");
    assert_eq!(screen.poll_while_sleeping(120_100, false, &mut model, &mut tracker), SleepPoll::Asleep);
    assert_eq!(screen.poll_while_sleeping(120_200, true, &mut model, &mut tracker), SleepPoll::Woke);
    assert!(!screen.sleeping);
    assert_eq!(screen.wake_guard_until, Some(120_900));
    assert!(!screen.release_guard_if_due(120_899));
    assert!(screen.release_guard_if_due(120_900));
}

#[test]
fn touch_made_sleep_waits_for_release() {
    let mut screen = ScreenState::new(0);
    let mut model = OnboardModel::new();
    let mut tracker = TouchTracker::new();
    screen.sleep(SleepSource::CornerHold, 5_000, &mut model, &mut tracker);
    assert!(screen.wait_touch_release);
    assert_eq!(screen.poll_while_sleeping(5_100, true, &mut model, &mut tracker), SleepPoll::Asleep);
    assert_eq!(screen.poll_while_sleeping(5_200, false, &mut model, &mut tracker), SleepPoll::ReleaseSeen);
    assert_eq!(screen.poll_while_sleeping(5_300, true, &mut model, &mut tracker), SleepPoll::Woke);
}

#[test]
fn wifi_import_and_connect_flow() {
    let mut m = OnboardModel::new();
    let mut deadline: Option<u64> = None;
    wifi_import_begin(&mut m);
    assert_eq!(m.settings.wifi_provisioning, WifiProvisioningStep::ImportSd);
    let creds = wifi_import_parse(&mut m, &mut deadline, "ssid=Lab\npassword=pw\n").unwrap();
    assert_eq!(creds.ssid, "Lab");
    wifi_connect_started(&mut m, &mut deadline, 1_000);
    assert_eq!(deadline, Some(16_000));
    assert_eq!(m.settings.wifi_provisioning, WifiProvisioningStep::Connecting);
    update_wifi_connect_progress(&mut m, &mut deadline, 10_000);
    assert_eq!(deadline, Some(16_000));
    update_wifi_connect_progress(&mut m, &mut deadline, 16_000);
    assert_eq!(deadline, None);
    assert_eq!(m.settings.wifi_last_error, "TIMEOUT");
    assert_eq!(m.settings.wifi_provisioning, WifiProvisioningStep::Failed);
}

#[test]
fn wifi_connect_success_and_bad_file() {
    let mut m = OnboardModel::new();
    let mut deadline: Option<u64> = None;
    assert!(wifi_import_parse(&mut m, &mut deadline, "password=pw").is_none());
    assert_eq!(m.settings.wifi_last_error, "NO SSID");
    wifi_connect_started(&mut m, &mut deadline, 0);
    m.wifi_connected = true;
    update_wifi_connect_progress(&mut m, &mut deadline, 100);
    assert_eq!(deadline, None);
    assert_eq!(m.settings.wifi_provisioning, WifiProvisioningStep::Connected);
    assert_eq!(m.settings.wifi_last_error, "NVS");
}

#[test]
fn error_labels() {
    assert_eq!(weather_sd_error_label(-3), "NO FILE");
    assert_eq!(weather_sd_error_label(7), "SD FAIL");
    assert_eq!(weather_http_error_label(-1250), "HTTP 2XX?");
    assert_eq!(weather_http_error_label(-1404), "HTTP 404");
    assert_eq!(weather_http_error_label(-1503), "HTTP FAIL");
    assert_eq!(weather_http_error_label(-1100), "HTTP STATUS");
}
