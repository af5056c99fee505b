use assistant_rs::settings::{SettingsPanel, SettingsState};
use assistant_rs::wifi::WifiProvisioningStep;

const PANELS: [SettingsPanel; 8] = [
    SettingsPanel::Network,
    SettingsPanel::Weather,
    SettingsPanel::Time,
    SettingsPanel::Display,
    SettingsPanel::Sound,
    SettingsPanel::Storage,
    SettingsPanel::Device,
    SettingsPanel::Diagnostics,
];

#[test]
fn panel_next_and_previous_are_inverse() {
    for p in PANELS {
        assert_eq!(p.next().previous(), p);
        assert_eq!(p.previous().next(), p);
    }
    let mut p = SettingsPanel::Sound;
    for _ in 0..8 {
        p = p.next();
    }
    assert_eq!(p, SettingsPanel::Sound);
    assert_eq!(SettingsPanel::Diagnostics.row_label(), "DIAG");
    assert_eq!(SettingsPanel::Diagnostics.log_label(), "diagnostics");
}

#[test]
fn touch_rows_pick_panels_per_overview_page() {
    let mut s = SettingsState::new();
    assert_eq!(s.panel_for_touch_y(100), SettingsPanel::Network);
    assert_eq!(s.panel_for_touch_y(236), SettingsPanel::Display);
    assert_eq!(s.panel_for_touch_y(10), SettingsPanel::Network);
    s.next_overview_page();
    assert_eq!(s.overview_page_label(), "2/2");
    assert_eq!(s.selected, SettingsPanel::Sound);
    assert_eq!(s.panel_for_touch_y(150), SettingsPanel::Storage);
    assert_eq!(s.panel_for_touch_y(300), SettingsPanel::Diagnostics);
    assert_eq!(s.panel_for_touch_y(301), SettingsPanel::Sound);
    assert!(s.is_overview_page_tap(306));
    assert!(!s.is_overview_page_tap(305));
}

#[test]
fn toggling_sound_cycles_volume() {
    let mut s = SettingsState::new();
    s.enter_detail_for(SettingsPanel::Sound);
    assert_eq!(s.volume_label(), "60%");
    let mut seen = Vec::new();
    for _ in 0..4 {
        s.toggle_current();
        seen.push(s.volume_percent);
    }
    assert_eq!(seen, vec![90, 30, 50, 70]);
    assert_eq!(s.current_value_label(), "VOL 70%");
    assert_eq!(s.toggle_count, 4);
}

#[test]
fn toggling_network_requests_import_once() {
    let mut s = SettingsState::new();
    s.toggle_current();
    assert_eq!(s.wifi_provisioning, WifiProvisioningStep::ImportSd);
    assert_eq!(s.current_value_label(), "IMPORT SD TRY 1");
    assert!(s.take_wifi_connect_request());
    assert!(!s.take_wifi_connect_request());
    assert_eq!(s.wifi_scan_label(), "SCAN 1");
}

#[test]
fn display_toggle_requests_sleep_and_device_pages_flip() {
    let mut s = SettingsState::new();
    s.enter_detail_for(SettingsPanel::Display);
    s.toggle_current();
    assert!(s.take_software_sleep_request());
    assert!(!s.take_software_sleep_request());
    s.next_detail_panel();
    s.next_detail_panel();
    s.next_detail_panel();
    assert_eq!(s.selected, SettingsPanel::Device);
    s.toggle_current();
    assert_eq!(s.current_value_label(), "PAGE 2");
    s.toggle_current();
    assert_eq!(s.current_value_label(), "PAGE 1");
    s.previous_detail_panel();
    assert_eq!(s.current_panel_label(), "storage");
    s.close_detail();
    assert!(!s.detail_open);
}

#[test]
fn wifi_stage_sets_connected_flag() {
    let mut s = SettingsState::new();
    s.set_wifi_stage(WifiProvisioningStep::Connected, "NONE");
    assert!(s.wifi_mock_connected);
    assert_eq!(s.wifi_status_label(), "CONNECTED");
    s.set_wifi_stage(WifiProvisioningStep::Failed, "AUTH");
    assert!(!s.wifi_mock_connected);
    assert_eq!(s.wifi_error_label(), "AUTH");
    assert_eq!(s.touch_trace_label(), "TRACE ON");
    assert_eq!(s.quiet_render_label(), "QUIET ON");
    assert_eq!(s.brightness_label(), "70%");
}
