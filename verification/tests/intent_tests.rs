use assistant_rs::audio::MusicControl;
use assistant_rs::dispatch::{handle_intent, intent_can_run};
use assistant_rs::intents::UiIntent;
use assistant_rs::model::OnboardModel;
use assistant_rs::pages::AssistantPage;
use assistant_rs::providers::LocalProviders;

#[test]
fn page_swipes_and_home_count_navigation() {
    let p = LocalProviders::new();
    let mut m = OnboardModel::new();
    handle_intent(&mut m, &p, UiIntent::NextPage);
    assert_eq!(m.nav_events, 1);
    handle_intent(&mut m, &p, UiIntent::PreviousPage);
    assert_eq!(m.nav_events, 2);
    assert_eq!(m.current_page, AssistantPage::Home);
    handle_intent(&mut m, &p, UiIntent::BackHome);
    assert_eq!(m.nav_events, 2);
    m.nav_events = u32::MAX;
    handle_intent(&mut m, &p, UiIntent::NextPage);
    assert_eq!(m.nav_events, u32::MAX);
}

#[test]
fn select_is_refused_only_where_a_counter_would_overflow() {
    let mut m = OnboardModel::new();
    assert!(intent_can_run(&m, UiIntent::Select));
    m.current_page = AssistantPage::Weather;
    m.weather.location_index = usize::MAX;
    assert!(!intent_can_run(&m, UiIntent::Select));
    assert!(intent_can_run(&m, UiIntent::NextPage));
    m.current_page = AssistantPage::Music;
    assert!(intent_can_run(&m, UiIntent::Select));
}

#[test]
fn no_files_marks_music_stopped() {
    let mut c = MusicControl::new();
    c.flags.playing = true;
    c.selected = 3;
    c.note_no_files();
    assert!(!c.flags.playing);
    assert_eq!(c.selected, 3);
}
