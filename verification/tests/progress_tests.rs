use assistant_rs::audio::{
    current_music_duration_label, publish_audio_progress, reset_audio_progress_state, volume_percent, AudioKind,
    AudioProgress, ProgressFlags, WavProbe,
};
use assistant_rs::drivers::st77916::{map_exio, Error};
use assistant_rs::drivers::tca9554;
use assistant_rs::pages::AssistantPage;
use assistant_rs::radio::{station_list_diagnostics, station_load_from_text, stations};
use assistant_rs::screen_text::{UiAssetCache, UiAssetSource, RGB565_ASSET_BYTES};

fn wav() -> WavProbe {
    WavProbe { channels: 1, sample_rate: 8000, bits_per_sample: 16, audio_format: 1, data_bytes: 32_000, data_offset: 44 }
}

#[test]
fn publishing_progress_moves_the_counter_only_on_change() {
    let mut p = AudioProgress { tick: 0, percent: 0, elapsed_seconds: 0, duration_seconds: 2 };
    let mut flags = ProgressFlags::new();
    publish_audio_progress(&mut p, &mut flags, 16_000, &wav());
    assert_eq!(p.percent, 50);
    assert_eq!(p.elapsed_seconds, 1);
    assert_eq!(flags.sequence, 1);
    publish_audio_progress(&mut p, &mut flags, 16_001, &wav());
    assert_eq!(flags.sequence, 1);
    publish_audio_progress(&mut p, &mut flags, 64_000, &wav());
    assert_eq!(p.percent, 100);
    assert_eq!(p.elapsed_seconds, 2);
    assert_eq!(flags.sequence, 2);
    assert_eq!(p.duration_seconds, 2);
}

#[test]
fn resetting_progress_clears_it_and_moves_the_counter() {
    let mut p = AudioProgress { tick: 5, percent: 40, elapsed_seconds: 9, duration_seconds: 30 };
    let mut flags = ProgressFlags { playing: true, thread_active: true, sequence: u32::MAX };
    reset_audio_progress_state(&mut p, &mut flags);
    assert_eq!(p, AudioProgress { tick: 0, percent: 0, elapsed_seconds: 0, duration_seconds: 0 });
    assert_eq!(flags.sequence, 0);
    assert!(flags.playing);
}

#[test]
fn mp3_duration_overrides_the_fallback_while_playing() {
    assert_eq!(current_music_duration_label(AudioKind::Mp3, true, 75, "MP3".to_string()), "1:15");
    assert_eq!(current_music_duration_label(AudioKind::Mp3, false, 75, "MP3".to_string()), "MP3");
    assert_eq!(current_music_duration_label(AudioKind::Mp3, true, 0, "MP3".to_string()), "MP3");
    assert_eq!(current_music_duration_label(AudioKind::Wav, true, 75, "0:10".to_string()), "0:10");
}

#[test]
fn volumes_are_capped_at_100() {
    assert_eq!(volume_percent(60), 60);
    assert_eq!(volume_percent(250), 100);
    assert_eq!(assistant_rs::radio::volume_percent(100), 100);
    assert_eq!(assistant_rs::radio::volume_percent(7), 7);
}

#[test]
fn station_list_diagnostics_report_each_state() {
    let missing = station_list_diagnostics(&None);
    assert_eq!(missing.status, "MISSING");
    assert_eq!(missing.path, "/AUDIO/RADIO.TXT");
    assert_eq!(missing.bytes, 0);
    let empty = station_load_from_text("/sdcard/RADIO.TXT", "nothing here\n");
    let d = station_list_diagnostics(&Some(empty));
    assert_eq!(d.status, "PARSE_EMPTY");
    assert_eq!(d.path, "/RADIO.TXT");
    assert_eq!(d.bytes, 13);
    assert_eq!(d.skipped, 1);
    let ok = station_load_from_text("/sdcard/AUDIO/RADIO.TXT", "http://a.example/s\n");
    assert_eq!(station_list_diagnostics(&Some(ok)).status, "READY");
    let ok2 = station_load_from_text("/sdcard/AUDIO/RADIO.TXT", "http://a.example/s\n");
    assert_eq!(stations(Some(ok2)).len(), 1);
    assert!(stations(None).is_empty());
}

#[test]
fn expander_errors_map_to_display_errors() {
    assert!(matches!(map_exio::<u8>(tca9554::Error::Bus(3)), Error::Bus(3)));
    assert!(matches!(map_exio::<u8>(tca9554::Error::InvalidPin), Error::Pin));
}

#[test]
fn asset_cache_reads_each_page_once() {
    let mut cache = UiAssetCache::new();
    assert!(cache.needs_read(AssistantPage::Home));
    cache.note_read(AssistantPage::Home, RGB565_ASSET_BYTES);
    assert_eq!(cache.source, UiAssetSource::Sd);
    assert!(!cache.needs_read(AssistantPage::Home));
    assert!(cache.needs_read(AssistantPage::Settings));
    cache.note_read(AssistantPage::Settings, -3);
    assert_eq!(cache.source, UiAssetSource::Fallback);
    cache.note_read(AssistantPage::Weather, 100);
    assert_eq!(cache.source, UiAssetSource::Fallback);
}
