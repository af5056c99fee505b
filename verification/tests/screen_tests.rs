use assistant_rs::pages::AssistantPage;
use assistant_rs::render::accent_for_page;
use assistant_rs::screen_text::{
    asset_sd_error_label, compact_condition, display_name, fallback_timeline_entries, mini_icon_from_weather_code,
    mjpeg_decode_status_label, mjpeg_status_label, mock_music_progress, settings_clip, ui_asset_name,
    weather_body_sample, yes_no, WeatherMiniIcon,
};
use assistant_rs::state::RenderSnapshot;
use assistant_rs::model::OnboardModel;

#[test]
fn condition_words() {
    assert_eq!(compact_condition("PARTLY CLOUDY"), "CLOUDY");
    assert_eq!(compact_condition("SNOW"), "CLOUDY");
    assert_eq!(compact_condition("TAP FETCH"), "LOCAL");
    assert_eq!(mini_icon_from_weather_code(0), WeatherMiniIcon::Sun);
    assert_eq!(mini_icon_from_weather_code(75), WeatherMiniIcon::Cloud);
    assert_eq!(mini_icon_from_weather_code(97), WeatherMiniIcon::Storm);
    assert_eq!(mini_icon_from_weather_code(200), WeatherMiniIcon::Wind);
}

#[test]
fn placeholder_timeline() {
    let t = fallback_timeline_entries("BREEZY");
    assert_eq!(t.len(), 4);
    assert_eq!(t[3].temp, "68");
    assert_eq!(t[3].icon, WeatherMiniIcon::Storm);
    assert_eq!(fallback_timeline_entries("LOCAL")[1].hour, "12P");
    assert_eq!(mock_music_progress(6), 60);
}

#[test]
fn clipping_replaces_controls() {
    assert_eq!(settings_clip("a\tb\u{85}c", 10), "a b c");
    assert_eq!(weather_body_sample("{\n\"x\":1}", 4), "{ \"x");
    assert_eq!(display_name("a-very-long-file-name-for-a-song.mp3"), "a-very-long-file-name-fo");
}

#[test]
fn labels_and_assets() {
    assert_eq!(yes_no(true), "YES");
    assert_eq!(ui_asset_name(AssistantPage::InternetRadio), "MUSIC.RGB");
    assert_eq!(asset_sd_error_label(-4), "SHORT_READ");
    assert_eq!(mjpeg_status_label(-3, true), "NO-DIR");
    assert_eq!(mjpeg_status_label(0, false), "PROBE-FAIL");
    assert_eq!(mjpeg_decode_status_label(-6, true), "NO-FRAME");
    assert_eq!(mjpeg_decode_status_label(7, true), "NOT-READY");
    assert_eq!(accent_for_page(AssistantPage::Weather), 0xFDE0);
}

#[test]
fn render_snapshot_takes_page_and_quiet_flag() {
    let mut m = OnboardModel::new();
    m.next_page();
    let s = RenderSnapshot::from_state(&m);
    assert_eq!(s.page, AssistantPage::Weather);
    assert!(s.quiet_render_enabled);
}
