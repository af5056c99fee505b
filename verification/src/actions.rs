//! The select action of each page.

use vstd::prelude::*;
use crate::assistant::listening_toggled;
use crate::home::glance_refreshed;
use crate::model::OnboardModel;
use crate::music::play_pause_toggled;
use crate::pages::AssistantPage;
use crate::providers::LocalProviders;
use crate::settings::{current_toggled, settings_row_spec, SettingsPanel, SettingsState};
use crate::weather::{fetch_requested, location_cycled, units_toggled, WeatherState};

verus! {

/// What a select did.
#[derive(Debug, Clone, Copy, PartialEq, Eq, Structural)]
pub enum AppAction {
    HomeStatus,
    WeatherRefresh,
    WeatherLocation,
    WeatherUnits,
    MusicTogglePlayPause,
    InternetRadioToggle,
    AssistantListenToggle,
    SettingsEnter,
    SettingsToggle,
}

impl AppAction {
    pub open spec fn status_label_spec(self) -> Seq<char> {
        match self {
            AppAction::HomeStatus => "HOME REFRESH"@,
            AppAction::WeatherRefresh => "WEATHER FETCH"@,
            AppAction::WeatherLocation => "WX LOCATION"@,
            AppAction::WeatherUnits => "WX UNITS"@,
            AppAction::MusicTogglePlayPause => "MUSIC TOGGLE"@,
            AppAction::InternetRadioToggle => "RADIO TOGGLE"@,
            AppAction::AssistantListenToggle => "ASSISTANT"@,
            AppAction::SettingsEnter => "SETTINGS OPEN"@,
            AppAction::SettingsToggle => "SETTINGS APPLY"@,
        }
    }

    /// Monitor log line for the action.
    pub fn log_marker(self) -> (r: &'static str)
        ensures
            r@ == (match self {
                AppAction::HomeStatus => "action: HomeStatus"@,
                AppAction::WeatherRefresh => "action: WeatherRefresh"@,
                AppAction::WeatherLocation => "action: WeatherLocation"@,
                AppAction::WeatherUnits => "action: WeatherUnits"@,
                AppAction::MusicTogglePlayPause => "action: MusicTogglePlayPause"@,
                AppAction::InternetRadioToggle => "action: InternetRadioToggle"@,
                AppAction::AssistantListenToggle => "action: AssistantListenToggle"@,
                AppAction::SettingsEnter => "action: SettingsEnter"@,
                AppAction::SettingsToggle => "action: SettingsToggle"@,
            }),
    {
        match self {
            AppAction::HomeStatus => "action: HomeStatus",
            AppAction::WeatherRefresh => "action: WeatherRefresh",
            AppAction::WeatherLocation => "action: WeatherLocation",
            AppAction::WeatherUnits => "action: WeatherUnits",
            AppAction::MusicTogglePlayPause => "action: MusicTogglePlayPause",
            AppAction::InternetRadioToggle => "action: InternetRadioToggle",
            AppAction::AssistantListenToggle => "action: AssistantListenToggle",
            AppAction::SettingsEnter => "action: SettingsEnter",
            AppAction::SettingsToggle => "action: SettingsToggle",
        }
    }

    /// Short status text for the action.
    pub fn status_label(self) -> (r: &'static str)
        ensures
            r@ == self.status_label_spec(),
    {
        match self {
            AppAction::HomeStatus => "HOME REFRESH",
            AppAction::WeatherRefresh => "WEATHER FETCH",
            AppAction::WeatherLocation => "WX LOCATION",
            AppAction::WeatherUnits => "WX UNITS",
            AppAction::MusicTogglePlayPause => "MUSIC TOGGLE",
            AppAction::InternetRadioToggle => "RADIO TOGGLE",
            AppAction::AssistantListenToggle => "ASSISTANT",
            AppAction::SettingsEnter => "SETTINGS OPEN",
            AppAction::SettingsToggle => "SETTINGS APPLY",
        }
    }
}

/// The height of the last touch, or the screen middle without one.
pub open spec fn touch_y_or_center(m: OnboardModel) -> u16 {
    match m.last_touch {
        Some(t) => t.y,
        None => 180,
    }
}

/// Whether a select on the current page can run: the steps it takes must not
/// overflow their counters.
pub open spec fn select_allowed(m: OnboardModel) -> bool {
    match m.current_page {
        AssistantPage::Weather => m.weather.location_index < usize::MAX,
        AssistantPage::Settings => if m.settings.detail_open {
            if m.settings.selected == SettingsPanel::Weather {
                m.weather.location_index < usize::MAX
            } else {
                (m.settings.selected == SettingsPanel::Device || m.settings.selected
                    == SettingsPanel::Diagnostics) ==> m.settings.about_page < 255
            }
        } else {
            !(touch_y_or_center(m) >= 306) || m.settings.overview_page < 255
        },
        _ => true,
    }
}

/// Whether a select on the current page can run (`select_allowed`).
pub fn select_can_run(model: &OnboardModel) -> (r: bool)
    ensures
        r == select_allowed(*model),
{
    match model.current_page {
        AssistantPage::Weather => model.weather.location_index < usize::MAX,
        AssistantPage::Settings => if model.settings.detail_open {
            if model.settings.selected == SettingsPanel::Weather {
                model.weather.location_index < usize::MAX
            } else if model.settings.selected == SettingsPanel::Device || model.settings.selected
                == SettingsPanel::Diagnostics {
                model.settings.about_page < 255
            } else {
                true
            }
        } else {
            let y: u16 = match model.last_touch {
                Some(t) => t.y,
                None => 180,
            };
            y < 306 || model.settings.overview_page < 255
        },
        _ => true,
    }
}

/// The overview panel under a touch at height `y` (see
/// `SettingsState::panel_for_touch_y`).
pub open spec fn panel_at_y(s: SettingsState, y: u16) -> SettingsPanel {
    match settings_row_spec(y) {
        None => s.selected,
        Some(row) => SettingsPanel::at_spec(
            row + if s.overview_page % 2 == 0 {
                0int
            } else {
                4int
            },
        ),
    }
}

/// The outcome of a select on the page shown in `m`: the action taken and
/// how the page states change. Only the states named change.
#[verifier::opaque]
pub open spec fn select_outcome(m: OnboardModel, n: OnboardModel, a: AppAction) -> bool {
    let y = touch_y_or_center(m);
    &&& n.last_action@ == a.status_label_spec()
    &&& match m.current_page {
        AssistantPage::Home => {
            &&& a == AppAction::HomeStatus
            &&& glance_refreshed(m.home, n.home)
            &&& fetch_requested(m.weather, n.weather)
            &&& n == OnboardModel {
                home: n.home,
                weather: n.weather,
                last_action: n.last_action,
                ..m
            }
        },
        AssistantPage::Weather => {
            &&& if y >= 300 {
                a == AppAction::WeatherUnits && units_toggled(m.weather, n.weather)
            } else {
                a == AppAction::WeatherLocation && location_cycled(m.weather, n.weather)
            }
            &&& n == OnboardModel { weather: n.weather, last_action: n.last_action, ..m }
        },
        AssistantPage::Music => {
            &&& a == AppAction::MusicTogglePlayPause
            &&& play_pause_toggled(m.music, n.music)
            &&& n == OnboardModel { music: n.music, last_action: n.last_action, ..m }
        },
        AssistantPage::InternetRadio => {
            &&& a == AppAction::InternetRadioToggle
            &&& n == OnboardModel { last_action: n.last_action, ..m }
        },
        AssistantPage::Assistant => {
            &&& a == AppAction::AssistantListenToggle
            &&& listening_toggled(m.assistant, n.assistant)
            &&& n == OnboardModel { assistant: n.assistant, last_action: n.last_action, ..m }
        },
        AssistantPage::Settings => if m.settings.detail_open {
            &&& a == AppAction::SettingsToggle
            &&& if m.settings.selected == SettingsPanel::Weather {
                exists|w: WeatherState|
                    location_cycled(m.weather, w) && #[trigger] fetch_requested(w, n.weather)
                        && n == OnboardModel {
                        weather: n.weather,
                        last_action: n.last_action,
                        ..m
                    }
            } else {
                current_toggled(m.settings, n.settings) && n == OnboardModel {
                    settings: n.settings,
                    last_action: n.last_action,
                    ..m
                }
            }
        } else if y >= 306 {
            &&& a == AppAction::SettingsToggle
            &&& n.settings.overview_page == (m.settings.overview_page + 1) % 2
            &&& n.settings == SettingsState {
                overview_page: n.settings.overview_page,
                selected: if n.settings.overview_page == 0 {
                    SettingsPanel::Network
                } else {
                    SettingsPanel::Sound
                },
                ..m.settings
            }
            &&& n == OnboardModel { settings: n.settings, last_action: n.last_action, ..m }
        } else {
            &&& a == AppAction::SettingsEnter
            &&& n.settings == SettingsState {
                selected: panel_at_y(m.settings, y),
                detail_open: true,
                ..m.settings
            }
            &&& n == OnboardModel { settings: n.settings, last_action: n.last_action, ..m }
        },
    }
}

fn select_home(model: &mut OnboardModel, providers: &LocalProviders) -> (r: AppAction)
    requires
        old(model).current_page == AssistantPage::Home,
    ensures
        select_outcome(*old(model), *final(model), r),
{
    reveal(select_outcome);
    providers.toggle_home_status(&mut model.home);
    providers.refresh_weather(&mut model.weather);
    model.last_action = AppAction::HomeStatus.status_label();
    AppAction::HomeStatus
}

fn select_weather(model: &mut OnboardModel, providers: &LocalProviders) -> (r: AppAction)
    requires
        old(model).current_page == AssistantPage::Weather,
        select_allowed(*old(model)),
    ensures
        select_outcome(*old(model), *final(model), r),
{
    reveal(select_outcome);
    let y = match model.last_touch {
        Some(t) => t.y,
        None => 180,
    };
    let action = if y >= 300 {
        providers.toggle_weather_units(&mut model.weather);
        AppAction::WeatherUnits
    } else {
        providers.cycle_weather_location(&mut model.weather);
        AppAction::WeatherLocation
    };
    model.last_action = action.status_label();
    action
}

fn select_settings_detail(model: &mut OnboardModel, providers: &LocalProviders) -> (r: AppAction)
    requires
        old(model).current_page == AssistantPage::Settings,
        old(model).settings.detail_open,
        select_allowed(*old(model)),
    ensures
        select_outcome(*old(model), *final(model), r),
{
    reveal(select_outcome);
    if model.settings.selected == SettingsPanel::Weather {
        let ghost w0 = model.weather;
        providers.cycle_weather_location(&mut model.weather);
        let ghost w1 = model.weather;
        providers.refresh_weather(&mut model.weather);
        assert(location_cycled(w0, w1) && fetch_requested(w1, model.weather));
    } else {
        providers.toggle_settings_current(&mut model.settings);
    }
    model.last_action = AppAction::SettingsToggle.status_label();
    AppAction::SettingsToggle
}

fn select_settings_overview(model: &mut OnboardModel, providers: &LocalProviders) -> (r: AppAction)
    requires
        old(model).current_page == AssistantPage::Settings,
        !old(model).settings.detail_open,
        select_allowed(*old(model)),
    ensures
        select_outcome(*old(model), *final(model), r),
{
    reveal(select_outcome);
    let touch_y = match model.last_touch {
        Some(t) => t.y,
        None => 180,
    };
    let action = if model.settings.is_overview_page_tap(touch_y) {
        providers.next_settings_overview_page(&mut model.settings);
        AppAction::SettingsToggle
    } else {
        let selected = model.settings.panel_for_touch_y(touch_y);
        providers.enter_settings_detail(&mut model.settings, selected);
        AppAction::SettingsEnter
    };
    model.last_action = action.status_label();
    action
}

/// Runs the select action of the current page and records its status text.
/// For `InternetRadioToggle` the caller starts or stops the radio stream.
pub fn handle_select_action(model: &mut OnboardModel, providers: &LocalProviders) -> (r: AppAction)
    requires
        select_allowed(*old(model)),
    ensures
        select_outcome(*old(model), *final(model), r),
{
    reveal(select_outcome);
    match model.current_page {
        AssistantPage::Home => select_home(model, providers),
        AssistantPage::Weather => select_weather(model, providers),
        AssistantPage::Music => {
            providers.toggle_music_play_pause(&mut model.music);
            model.last_action = AppAction::MusicTogglePlayPause.status_label();
            AppAction::MusicTogglePlayPause
        },
        AssistantPage::InternetRadio => {
            model.last_action = AppAction::InternetRadioToggle.status_label();
            AppAction::InternetRadioToggle
        },
        AssistantPage::Assistant => {
            providers.toggle_assistant_listening(&mut model.assistant);
            model.last_action = AppAction::AssistantListenToggle.status_label();
            AppAction::AssistantListenToggle
        },
        AssistantPage::Settings => {
            if model.settings.detail_open {
                select_settings_detail(model, providers)
            } else {
                select_settings_overview(model, providers)
            }
        },
    }
}

} // verus!

verus! {

/// A select's outcome does not depend on the status text shown before it.
pub proof fn lemma_select_outcome_ignores_last_action(
    m: OnboardModel,
    m2: OnboardModel,
    n: OnboardModel,
    a: AppAction,
)
    requires
        m2 == (OnboardModel { last_action: m2.last_action, ..m }),
        select_outcome(m2, n, a),
    ensures
        select_outcome(m, n, a),
{
    reveal(select_outcome);
}

} // verus!
