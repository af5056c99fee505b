use assistant_rs::audio::ProgressFlags;
use assistant_rs::radio::{
    is_station_list_candidate, is_supported_stream_url, parse_stations_text, progress_active, progress_sequence,
    radio_display_path, radio_r32_preserve_raw_station_name, radio_selected_index, seconds_to_hhmmss,
    station_load_from_text, StationSearch,
};

#[test]
fn parses_plain_m3u_and_separated_lines() {
    let text = "#EXTM3U\n#EXTINF:-1,Jazz FM\nhttp://jazz.example/stream\nhttps://news.example.org/live.mp3\nRock=http://rock.example/a\nnot a station\n";
    let (stations, skipped) = parse_stations_text(text);
    assert_eq!(stations.len(), 3);
    assert_eq!(stations[0].name, "Jazz FM");
    assert_eq!(stations[0].url, "http://jazz.example/stream");
    assert_eq!(stations[1].name, "news.example.org");
    assert_eq!(stations[2].name, "Rock");
    assert_eq!(stations[2].url, "http://rock.example/a");
    assert_eq!(skipped, 1);
}

#[test]
fn url_first_lines_and_quotes() {
    let (stations, skipped) = parse_stations_text("Alpha | \"http://a.example/x\"\n");
    assert_eq!(skipped, 0);
    assert_eq!(stations[0].name, "Alpha");
    assert_eq!(stations[0].url, "http://a.example/x");
}

#[test]
fn long_hosts_are_clipped_to_eighteen_chars() {
    let (stations, _) = parse_stations_text("http://very-long-hostname.example.com/stream\n");
    assert_eq!(stations[0].name, "very-long-hostname");
}

#[test]
fn station_list_candidates() {
    assert!(is_station_list_candidate("radio.txt"));
    assert!(is_station_list_candidate("STATIONS-2.m3u8"));
    assert!(is_station_list_candidate("RADIO"));
    assert!(!is_station_list_candidate("music.mp3"));
    assert!(!is_station_list_candidate("radio.mp3"));
}

#[test]
fn stream_urls_and_paths() {
    assert!(is_supported_stream_url("https://x.example/live"));
    assert!(!is_supported_stream_url("ftp://x.example/live"));
    assert_eq!(radio_display_path("/sdcard/AUDIO/RADIO.TXT"), "/AUDIO/RADIO.TXT");
    assert_eq!(radio_display_path("/other"), "/other");
}

#[test]
fn raw_station_names_keep_case_and_clip() {
    assert_eq!(radio_r32_preserve_raw_station_name("  NonStopHindi "), "NonStopHindi");
    assert_eq!(radio_r32_preserve_raw_station_name("   "), "Radio");
    assert_eq!(radio_r32_preserve_raw_station_name("abcdefghijklmnopqrstuvwxyz"), "abcdefghijklmnopqrstuvwx");
}

#[test]
fn elapsed_time_labels() {
    assert_eq!(seconds_to_hhmmss(59), "0:59");
    assert_eq!(seconds_to_hhmmss(61), "1:01");
    assert_eq!(seconds_to_hhmmss(3725), "1:02:05");
}

#[test]
fn selected_index_wraps() {
    assert_eq!(radio_selected_index(7, 3), 1);
    assert_eq!(radio_selected_index(7, 0), 0);
}

#[test]
fn search_prefers_first_list_with_stations() {
    let empty = station_load_from_text("/sdcard/RADIO.TXT", "# nothing\n");
    let full = station_load_from_text("/sdcard/AUDIO/STATIONS.TXT", "http://a.example/\n");
    let later = station_load_from_text("/sdcard/RADIO.M3U", "http://b.example/\n");
    assert_eq!(empty.bytes, 10);
    let mut search = StationSearch::new();
    search.offer(None);
    search.offer(Some(empty));
    assert!(!search.is_done());
    search.offer(Some(full));
    assert!(search.is_done());
    search.offer(Some(later));
    let picked = search.result().unwrap();
    assert_eq!(picked.path, "/sdcard/AUDIO/STATIONS.TXT");
    assert_eq!(picked.stations.len(), 1);
}

#[test]
fn search_falls_back_to_first_readable_list() {
    let mut search = StationSearch::new();
    search.offer(Some(station_load_from_text("/a", "junk\n")));
    search.offer(Some(station_load_from_text("/b", "")));
    let picked = search.result().unwrap();
    assert_eq!(picked.path, "/a");
    assert_eq!(picked.skipped, 1);
    assert!(StationSearch::new().result().is_none());
}

#[test]
fn radio_progress_flags() {
    let mut flags = ProgressFlags::new();
    assert!(!progress_active(&flags));
    flags.thread_active = true;
    assert!(progress_active(&flags));
    flags.sequence = u32::MAX;
    flags.bump_sequence();
    assert_eq!(progress_sequence(&flags), 0);
}
