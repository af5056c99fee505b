use assistant_rs::radio::{parse_stations_text, press_label, radio_snapshot, RadioControl, RadioPress};

fn two_stations() -> Vec<assistant_rs::radio::RadioStation> {
    parse_stations_text("Jazz=http://jazz.example/s\nRock=http://rock.example/s\n").0
}

#[test]
fn play_then_stop_then_play_again() {
    let st = two_stations();
    let mut c = RadioControl::new();
    let p = c.toggle_play_stop(&st);
    assert_eq!(p, RadioPress::Start(0));
    assert_eq!(press_label(p), "RadioPlay");
    assert!(c.playing && c.thread_active && !c.ui_idle_override);
    let p = c.toggle_play_stop(&st);
    assert_eq!(p, RadioPress::Stop);
    assert!(!c.playing && c.ui_idle_override);
    let view = c.screen_view(st.len(), 5, 3);
    assert!(!radio_snapshot(&st, &view).playing);
    let p = c.toggle_play_stop(&st);
    assert_eq!(p, RadioPress::Stopping);
    assert_eq!(press_label(p), "RadioStopping");
    c.stream_finished();
    assert_eq!(c.toggle_play_stop(&st), RadioPress::Start(0));
}

#[test]
fn next_and_prev_leave_the_station_ready_to_play() {
    let st = two_stations();
    let mut c = RadioControl::new();
    c.toggle_play_stop(&st);
    assert_eq!(c.next_station(st.len()), "RadioNext");
    assert_eq!(c.selected, 1);
    assert!(c.ui_idle_override && !c.playing);
    let view = c.screen_view(st.len(), 0, 3);
    let snap = radio_snapshot(&st, &view);
    assert!(!snap.playing);
    assert_eq!(snap.source_label, "Rock");
    assert_eq!(c.toggle_play_stop(&st), RadioPress::Stopping);
    c.stream_finished();
    assert_eq!(c.toggle_play_stop(&st), RadioPress::Start(1));
    assert_eq!(c.previous_station(st.len()), "RadioPrev");
    assert_eq!(c.selected, 0);
    assert_eq!(c.previous_station(st.len()), "RadioPrev");
    assert_eq!(c.selected, 1);
}

#[test]
fn no_stations_and_refused_urls() {
    let mut c = RadioControl::new();
    assert_eq!(c.next_station(0), "RadioNoStations");
    assert_eq!(c.toggle_play_stop(&vec![]), RadioPress::NoStations);
    let view = c.screen_view(0, 0, 0);
    assert!(!view.rust_playing);
    let bad = vec![assistant_rs::radio::RadioStation { name: "X".to_string(), url: "ftp://x".to_string() }];
    let mut d = RadioControl::new();
    let p = d.toggle_play_stop(&bad);
    assert_eq!(p, RadioPress::Refused);
    assert_eq!(press_label(p), "RadioError");
    assert!(!d.playing && !d.thread_active);
}

#[test]
fn a_failed_thread_start_clears_playback() {
    let st = two_stations();
    let mut c = RadioControl::new();
    c.toggle_play_stop(&st);
    c.spawn_failed();
    assert!(!c.playing && !c.thread_active);
}
