use assistant_rs::assistant::AssistantState;
use assistant_rs::home::HomeState;
use assistant_rs::intents::UiIntent;
use assistant_rs::music::MusicState;

#[test]
fn assistant_listening_toggles_labels() {
    let mut a = AssistantState::new();
    assert_eq!(a.state_label(), "TAP TO TALK");
    assert_eq!(a.title_label(), "AI ASSISTANT");
    a.toggle_listening();
    assert_eq!(a.state_label(), "LISTENING");
    assert_eq!(a.card_label(), "HOW CAN I HELP?");
    assert_eq!(a.card_aux_label(), "LOCAL MOCK");
    a.toggle_listening();
    assert!(!a.listening);
    assert_eq!(a.toggle_count, 2);
}

#[test]
fn music_mock_cycles_tracks() {
    let mut m = MusicState::new();
    assert_eq!(m.state_label(), "PAUSED");
    assert_eq!(m.progress_percent(), 55);
    m.toggle_play_pause();
    assert_eq!(m.state_label(), "PLAYING");
    assert_eq!(m.track_label, "MIDNIGHT");
    assert_eq!(m.subtitle_label, "CHILLWAVE");
    assert_eq!(m.elapsed_label(), "1:28");
    m.toggle_play_pause();
    assert_eq!(m.track_label, "NEON DRIVE");
    assert_eq!(m.duration_label(), "2:58");
    m.toggle_play_pause();
    assert_eq!(m.track_label, "LOFI BEATS");
    assert_eq!(m.progress_percent(), 55);
}

#[test]
fn home_glance_and_intents() {
    let mut h = HomeState::new();
    h.status_detail_open = true;
    h.refresh_glance();
    assert!(!h.status_detail_open);
    assert_eq!(h.select_count, 1);
    assert_eq!(h.detail_label(), "GLANCE");
    assert_eq!(UiIntent::SettingsBackToOverview.log_label(), "intent: SettingsBackToOverview");
    assert!(UiIntent::NextPage.is_navigation());
    assert!(UiIntent::BackHome.is_navigation());
    assert!(!UiIntent::Select.is_navigation());
}
