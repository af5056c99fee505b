//! What the firmware loop does with an intent or a finished touch. Each
//! function updates the model and returns the outside work the loop still
//! has to do (audio, Wi-Fi, HTTP).

use vstd::prelude::*;
use crate::actions::{handle_select_action, select_allowed, select_outcome, AppAction};
use crate::intents::UiIntent;
use crate::media::{media_press, media_press_spec, MediaControlAction, MediaTarget};
use crate::model::OnboardModel;
use crate::pages::AssistantPage;
use crate::providers::LocalProviders;
use crate::settings::{SettingsPanel, SettingsState};
use crate::touch::{
    intent_from_touch_summary, settings_detail_intent_from_touch_summary,
    settings_detail_intent_spec, touch_intent_spec, TouchSummary,
};
use crate::weather::{
    fetch_failed, live_applied, location_cycled, location_stepped_back, WeatherSample,
    WeatherState, WeatherUnits,
};
use crate::wifi::{parse_credentials_spec, WifiCredentials, WifiProvisioningStep};

verus! {

/// Outside work an intent leaves to the loop.
#[derive(Debug, Clone, Copy)]
pub struct IntentEffects {
    /// Start or stop the radio stream, then record the result with
    /// `audio_r33_radio_center_action`.
    pub radio_toggle: bool,
    /// Start or stop music playback, then record the result with
    /// `audio_r33_music_center_action`.
    pub music_toggle: bool,
    /// The select action taken, if a page select ran.
    pub action: Option<AppAction>,
    /// Import `WIFI.TXT` and connect.
    pub start_wifi_import: bool,
    /// Apply this output volume.
    pub set_volume: Option<u8>,
    /// Fetch the weather now.
    pub refresh_weather: bool,
}

/// No outside work.
pub open spec fn no_effects(e: IntentEffects) -> bool {
    !e.radio_toggle && !e.music_toggle && e.action is None && !e.start_wifi_import
        && e.set_volume is None && !e.refresh_weather
}

/// Whether an intent can run: a page select must not overflow counters.
pub open spec fn intent_allowed(m: OnboardModel, intent: UiIntent) -> bool {
    intent == UiIntent::Select && m.current_page != AssistantPage::InternetRadio
        && m.current_page != AssistantPage::Music ==> select_allowed(m)
}

/// Whether an intent can run (`intent_allowed`).
pub fn intent_can_run(model: &OnboardModel, intent: UiIntent) -> (r: bool)
    ensures
        r == intent_allowed(*model, intent),
{
    if intent == UiIntent::Select && model.current_page != AssistantPage::InternetRadio
        && model.current_page != AssistantPage::Music {
        crate::actions::select_can_run(model)
    } else {
        true
    }
}

/// Loop work that follows a page select's action.
pub open spec fn select_effects(n: OnboardModel, a: AppAction, wifi_requested: bool) -> IntentEffects {
    IntentEffects {
        radio_toggle: false,
        music_toggle: false,
        action: Some(a),
        start_wifi_import: a == AppAction::SettingsToggle && n.current_page
            == AssistantPage::Settings && n.settings.selected == SettingsPanel::Network
            && wifi_requested,
        set_volume: if a == AppAction::SettingsToggle && n.current_page == AssistantPage::Settings
            && n.settings.detail_open && n.settings.selected == SettingsPanel::Sound {
            Some(n.settings.volume_percent)
        } else {
            None
        },
        refresh_weather: a == AppAction::HomeStatus || a == AppAction::WeatherRefresh || a
            == AppAction::WeatherLocation || a == AppAction::WeatherUnits || (a
            == AppAction::SettingsToggle && n.current_page == AssistantPage::Settings
            && n.settings.detail_open && n.settings.selected == SettingsPanel::Weather),
    }
}

/// Runs an intent on the model.
pub fn handle_intent(model: &mut OnboardModel, providers: &LocalProviders, intent: UiIntent) -> (r:
    IntentEffects)
    requires
        intent_allowed(*old(model), intent),
    ensures
        intent_handled(*old(model), *final(model), intent, r),
{
    match intent {
        UiIntent::NextPage | UiIntent::PreviousPage => page_step_intent(model, intent),
        UiIntent::Select => select_intent(model, providers),
        UiIntent::SettingsBackToOverview | UiIntent::SettingsNextDetail
        | UiIntent::SettingsPreviousDetail => settings_detail_intent(model, providers, intent),
        UiIntent::BackHome => {
            model.set_page(AssistantPage::Home);
            model.note_intent(UiIntent::BackHome);
            proof {
                reveal(intent_handled);
            }
            no_work()
        },
        UiIntent::AssistantHold | UiIntent::BootReserved | UiIntent::PowerMenu => {
            model.note_intent(intent);
            proof {
                reveal(intent_handled);
            }
            no_work()
        },
    }
}

fn page_step_intent(model: &mut OnboardModel, intent: UiIntent) -> (r: IntentEffects)
    requires
        intent == UiIntent::NextPage || intent == UiIntent::PreviousPage,
    ensures
        intent_handled(*old(model), *final(model), intent, r),
{
    reveal(intent_handled);
    let ghost before = *model;
    if intent == UiIntent::NextPage {
        model.next_page();
    } else {
        model.previous_page();
    }
    proof {
        assert(before.current_page.next_spec() != before.current_page);
        assert(before.current_page.previous_spec() != before.current_page);
    }
    no_work()
}

fn settings_detail_intent(model: &mut OnboardModel, providers: &LocalProviders, intent: UiIntent) -> (r:
    IntentEffects)
    requires
        intent == UiIntent::SettingsBackToOverview || intent == UiIntent::SettingsNextDetail
            || intent == UiIntent::SettingsPreviousDetail,
    ensures
        intent_handled(*old(model), *final(model), intent, r),
{
    reveal(intent_handled);
    model.note_intent(intent);
    if intent == UiIntent::SettingsBackToOverview {
        providers.close_settings_detail(&mut model.settings);
    } else if intent == UiIntent::SettingsNextDetail {
        providers.next_settings_detail(&mut model.settings);
    } else {
        providers.previous_settings_detail(&mut model.settings);
    }
    no_work()
}

/// A select: center selects on the media pages toggle playback; on other
/// pages the page's select action runs.
fn select_intent(model: &mut OnboardModel, providers: &LocalProviders) -> (r: IntentEffects)
    requires
        intent_allowed(*old(model), UiIntent::Select),
    ensures
        intent_handled(*old(model), *final(model), UiIntent::Select, r),
{
    reveal(intent_handled);
    model.note_intent(UiIntent::Select);
    if model.current_page == AssistantPage::InternetRadio {
        return IntentEffects {
            radio_toggle: true,
            music_toggle: false,
            action: None,
            start_wifi_import: false,
            set_volume: None,
            refresh_weather: false,
        };
    }
    if model.current_page == AssistantPage::Music {
        return IntentEffects {
            radio_toggle: false,
            music_toggle: true,
            action: None,
            start_wifi_import: false,
            set_volume: None,
            refresh_weather: false,
        };
    }
    let ghost noted = *model;
    let action = handle_select_action(model, providers);
    let ghost selected = *model;
    let wifi_requested = if action == AppAction::SettingsToggle && model.current_page
        == AssistantPage::Settings && model.settings.selected == SettingsPanel::Network {
        model.settings.take_wifi_connect_request()
    } else {
        false
    };
    proof {
        crate::actions::lemma_select_outcome_ignores_last_action(
            *old(model),
            noted,
            selected,
            action,
        );
    }
    let set_volume = if action == AppAction::SettingsToggle && model.current_page
        == AssistantPage::Settings && model.settings.detail_open && model.settings.selected
        == SettingsPanel::Sound {
        Some(model.settings.volume_percent)
    } else {
        None
    };
    let refresh_weather = match action {
        AppAction::HomeStatus | AppAction::WeatherRefresh | AppAction::WeatherLocation
        | AppAction::WeatherUnits => true,
        AppAction::SettingsToggle => model.current_page == AssistantPage::Settings
            && model.settings.detail_open && model.settings.selected
            == SettingsPanel::Weather,
        _ => false,
    };
    let e = IntentEffects {
        radio_toggle: false,
        music_toggle: false,
        action: Some(action),
        start_wifi_import: action == AppAction::SettingsToggle && model.current_page
            == AssistantPage::Settings && model.settings.selected == SettingsPanel::Network
            && wifi_requested,
        set_volume,
        refresh_weather,
    };
    assert(e == select_effects(*model, action, wifi_requested));
    e
}

fn no_work() -> (r: IntentEffects)
    ensures
        no_effects(r),
{
    IntentEffects {
        radio_toggle: false,
        music_toggle: false,
        action: None,
        start_wifi_import: false,
        set_volume: None,
        refresh_weather: false,
    }
}

/// The navigation count after showing `page`: one more (saturating) when
/// the page changes.
pub open spec fn nav_counted(m: OnboardModel, page: AssistantPage) -> u32 {
    if m.current_page != page {
        crate::assistant::sat_inc(m.nav_events)
    } else {
        m.nav_events
    }
}

/// How an intent changes the model, and the loop work it leaves.
#[verifier::opaque]
pub open spec fn intent_handled(m: OnboardModel, n: OnboardModel, intent: UiIntent, e: IntentEffects) -> bool {
    match intent {
        UiIntent::NextPage => {
            &&& n.current_page == m.current_page.next_spec()
            &&& n.last_action@ == "NEXT PAGE"@
            &&& n == OnboardModel {
                current_page: n.current_page,
                nav_events: nav_counted(m, n.current_page),
                last_action: n.last_action,
                ..m
            }
            &&& no_effects(e)
        },
        UiIntent::PreviousPage => {
            &&& n.current_page == m.current_page.previous_spec()
            &&& n.last_action@ == "PREV PAGE"@
            &&& n == OnboardModel {
                current_page: n.current_page,
                nav_events: nav_counted(m, n.current_page),
                last_action: n.last_action,
                ..m
            }
            &&& no_effects(e)
        },
        UiIntent::Select => if m.current_page == AssistantPage::InternetRadio {
            &&& n.last_action@ == "SELECT"@
            &&& n == OnboardModel { last_action: n.last_action, ..m }
            &&& e.radio_toggle && !e.music_toggle && e.action is None
            &&& !e.start_wifi_import && e.set_volume is None && !e.refresh_weather
        } else if m.current_page == AssistantPage::Music {
            &&& n.last_action@ == "SELECT"@
            &&& n == OnboardModel { last_action: n.last_action, ..m }
            &&& !e.radio_toggle && e.music_toggle && e.action is None
            &&& !e.start_wifi_import && e.set_volume is None && !e.refresh_weather
        } else {
            exists|sel: OnboardModel, a: AppAction, wifi_requested: bool|
                #![trigger select_outcome(m, sel, a), select_effects(n, a, wifi_requested)]
                {
                    &&& select_outcome(m, sel, a)
                    &&& e == select_effects(n, a, wifi_requested)
                    &&& if a == AppAction::SettingsToggle && sel.current_page
                        == AssistantPage::Settings && sel.settings.selected
                        == SettingsPanel::Network {
                        wifi_requested == sel.settings.wifi_connect_requested && n
                            == OnboardModel {
                            settings: SettingsState {
                                wifi_connect_requested: false,
                                ..sel.settings
                            },
                            ..sel
                        }
                    } else {
                        !wifi_requested && n == sel
                    }
                }
        },
        UiIntent::SettingsBackToOverview => {
            &&& n.last_action@ == "SETTINGS BACK"@
            &&& n == OnboardModel {
                last_action: n.last_action,
                settings: SettingsState { detail_open: false, ..m.settings },
                ..m
            }
            &&& no_effects(e)
        },
        UiIntent::SettingsNextDetail => {
            &&& n.last_action@ == "SETTINGS NEXT"@
            &&& n == OnboardModel {
                last_action: n.last_action,
                settings: SettingsState {
                    selected: m.settings.selected.next_spec(),
                    detail_open: true,
                    ..m.settings
                },
                ..m
            }
            &&& no_effects(e)
        },
        UiIntent::SettingsPreviousDetail => {
            &&& n.last_action@ == "SETTINGS PREV"@
            &&& n == OnboardModel {
                last_action: n.last_action,
                settings: SettingsState {
                    selected: m.settings.selected.previous_spec(),
                    detail_open: true,
                    ..m.settings
                },
                ..m
            }
            &&& no_effects(e)
        },
        UiIntent::BackHome => {
            &&& n.current_page == AssistantPage::Home
            &&& n.last_action@ == "HOME"@
            &&& n == OnboardModel {
                current_page: n.current_page,
                nav_events: nav_counted(m, n.current_page),
                last_action: n.last_action,
                ..m
            }
            &&& no_effects(e)
        },
        UiIntent::AssistantHold => {
            &&& n.last_action@ == "ASSIST HOLD"@
            &&& n == OnboardModel { last_action: n.last_action, ..m }
            &&& no_effects(e)
        },
        UiIntent::BootReserved => {
            &&& n.last_action@ == "BOOT RSV"@
            &&& n == OnboardModel { last_action: n.last_action, ..m }
            &&& no_effects(e)
        },
        UiIntent::PowerMenu => {
            &&& n.last_action@ == "POWER MENU"@
            &&& n == OnboardModel { last_action: n.last_action, ..m }
            &&& no_effects(e)
        },
    }
}

/// Weather nav row: the band of the previous/next buttons.
pub const WEATHER_NAV_BUTTON_Y_MIN: i16 = 300;
pub const WEATHER_NAV_BUTTON_Y_MAX: i16 = 344;
pub const WEATHER_NAV_PREV_X_MAX: i16 = 140;
pub const WEATHER_NAV_NEXT_X_MIN: i16 = 220;
pub const WEATHER_UNITS_TAP_Y_MIN: i16 = 300;

/// The last touch's x, or the screen middle, read as `i16`.
pub open spec fn touch_x16(m: OnboardModel) -> i16 {
    match m.last_touch {
        Some(t) => t.x as i16,
        None => 180,
    }
}

/// The last touch's y, or the screen middle, read as `i16`.
pub open spec fn touch_y16(m: OnboardModel) -> i16 {
    match m.last_touch {
        Some(t) => t.y as i16,
        None => 180,
    }
}

/// The weather state with Fahrenheit forced.
pub open spec fn fahrenheit(w: WeatherState) -> WeatherState {
    WeatherState { units: WeatherUnits::Fahrenheit, ..w }
}

/// Forces Fahrenheit: the firmware shows Fahrenheit only.
pub fn force_weather_fahrenheit(model: &mut OnboardModel)
    ensures
        *final(model) == (OnboardModel { weather: fahrenheit(old(model).weather), ..*old(model) }),
{
    if model.weather.units != WeatherUnits::Fahrenheit {
        model.weather.units = WeatherUnits::Fahrenheit;
    }
}

/// What a Weather-page select does: on the nav row, the left button steps
/// back, the right one forward and the middle only refreshes; below the row
/// a tap refreshes; above it the location steps forward. Units stay
/// Fahrenheit.
pub open spec fn weather_select_outcome(m: OnboardModel, n: OnboardModel, a: AppAction) -> bool {
    let x = touch_x16(m);
    let y = touch_y16(m);
    if WEATHER_NAV_BUTTON_Y_MIN <= y <= WEATHER_NAV_BUTTON_Y_MAX && x <= WEATHER_NAV_PREV_X_MAX {
        &&& a == AppAction::WeatherLocation
        &&& location_stepped_back(fahrenheit(m.weather), n.weather)
        &&& n == OnboardModel { weather: fahrenheit(n.weather), ..m }
    } else if WEATHER_NAV_BUTTON_Y_MIN <= y <= WEATHER_NAV_BUTTON_Y_MAX && x
        >= WEATHER_NAV_NEXT_X_MIN {
        &&& a == AppAction::WeatherLocation
        &&& location_cycled(fahrenheit(m.weather), n.weather)
        &&& n == OnboardModel { weather: fahrenheit(n.weather), ..m }
    } else if y >= WEATHER_UNITS_TAP_Y_MIN {
        &&& a == AppAction::WeatherRefresh
        &&& n == OnboardModel { weather: fahrenheit(m.weather), ..m }
    } else {
        &&& a == AppAction::WeatherLocation
        &&& location_cycled(fahrenheit(m.weather), n.weather)
        &&& n == OnboardModel { weather: fahrenheit(n.weather), ..m }
    }
}

/// The Weather page's select.
pub fn handle_weather_select_action(model: &mut OnboardModel, providers: &LocalProviders) -> (r:
    AppAction)
    requires
        old(model).weather.location_index < usize::MAX,
    ensures
        weather_select_outcome(*old(model), *final(model), r),
{
    force_weather_fahrenheit(model);
    let (x, y): (i16, i16) = match model.last_touch {
        Some(t) => (t.x as i16, t.y as i16),
        None => (180, 180),
    };
    if WEATHER_NAV_BUTTON_Y_MIN <= y && y <= WEATHER_NAV_BUTTON_Y_MAX {
        if x <= WEATHER_NAV_PREV_X_MAX {
            providers.previous_weather_location(&mut model.weather);
            force_weather_fahrenheit(model);
            return AppAction::WeatherLocation;
        }
        if x >= WEATHER_NAV_NEXT_X_MIN {
            providers.cycle_weather_location(&mut model.weather);
            force_weather_fahrenheit(model);
            return AppAction::WeatherLocation;
        }
        force_weather_fahrenheit(model);
        return AppAction::WeatherRefresh;
    }
    if y >= WEATHER_UNITS_TAP_Y_MIN {
        force_weather_fahrenheit(model);
        AppAction::WeatherRefresh
    } else {
        providers.cycle_weather_location(&mut model.weather);
        force_weather_fahrenheit(model);
        AppAction::WeatherLocation
    }
}

/// Whether an action changed what the weather page should show, so that a
/// fetch is due.
pub open spec fn weather_refresh_due(m: OnboardModel, a: AppAction) -> bool {
    ||| a == AppAction::HomeStatus
    ||| a == AppAction::WeatherRefresh
    ||| a == AppAction::WeatherLocation
    ||| a == AppAction::WeatherUnits
    ||| (a == AppAction::SettingsToggle && m.current_page == AssistantPage::Settings
        && m.settings.detail_open && m.settings.selected == SettingsPanel::Weather)
}

/// Forces Fahrenheit and tells whether the action calls for a fetch.
pub fn handle_weather_action(model: &mut OnboardModel, action: AppAction) -> (r: bool)
    ensures
        *final(model) == (OnboardModel { weather: fahrenheit(old(model).weather), ..*old(model) }),
        r == weather_refresh_due(*old(model), action),
{
    force_weather_fahrenheit(model);
    match action {
        AppAction::HomeStatus | AppAction::WeatherRefresh | AppAction::WeatherLocation
        | AppAction::WeatherUnits => true,
        AppAction::SettingsToggle => model.current_page == AssistantPage::Settings
            && model.settings.detail_open && model.settings.selected == SettingsPanel::Weather,
        _ => false,
    }
}

/// A touch on the Weather page's nav row.
pub open spec fn on_weather_nav_row(m: OnboardModel) -> bool {
    m.current_page == AssistantPage::Weather && m.last_touch is Some && WEATHER_NAV_BUTTON_Y_MIN
        <= touch_y16(m) <= WEATHER_NAV_BUTTON_Y_MAX
}

/// Handles a touch on the Weather nav row: runs the select and tells the
/// action and whether a fetch is due; `None` (and no change) elsewhere.
pub fn maybe_handle_weather_nav_row_touch(model: &mut OnboardModel, providers: &LocalProviders) -> (r:
    Option<(AppAction, bool)>)
    requires
        old(model).weather.location_index < usize::MAX,
    ensures
        !on_weather_nav_row(*old(model)) ==> r is None && *final(model) == *old(model),
        on_weather_nav_row(*old(model)) ==> (r matches Some((a, refresh)) && (exists|mid: OnboardModel|
            #[trigger] weather_select_outcome(*old(model), mid, a) && *final(model)
                == (OnboardModel { weather: fahrenheit(mid.weather), ..mid })
                && refresh == weather_refresh_due(mid, a))),
{
    if model.current_page != AssistantPage::Weather {
        return None;
    }
    let touch = match model.last_touch {
        Some(t) => t,
        None => {
            return None;
        },
    };
    let y = touch.y as i16;
    if !(WEATHER_NAV_BUTTON_Y_MIN <= y && y <= WEATHER_NAV_BUTTON_Y_MAX) {
        return None;
    }
    let action = handle_weather_select_action(model, providers);
    let ghost mid = *model;
    let refresh = handle_weather_action(model, action);
    Some((action, refresh))
}

/// Where a finished contact goes.
#[derive(Debug, Clone, Copy, PartialEq, Eq, Structural)]
pub enum TouchRoute {
    /// The Weather nav row: run `maybe_handle_weather_nav_row_touch`.
    WeatherNavRow,
    /// A settings-detail intent.
    SettingsDetail(UiIntent),
    /// A media control press.
    Media(MediaTarget, MediaControlAction),
    /// A page-level intent.
    Intent(UiIntent),
    /// A page swipe inside the navigation cooldown.
    Cooldown,
    /// Nothing to do.
    Ignored,
}

/// Page swipes closer together than this are ignored.
pub const TOUCH_NAV_COOLDOWN_MS: u64 = 300;

/// Where a finished contact goes, in order of precedence: the Weather nav
/// row, a settings-detail gesture, a media control, then page navigation
/// (swipes within the cooldown are dropped) or select.
pub open spec fn touch_route_spec(m: OnboardModel, s: TouchSummary, now: u64, last_nav: u64) -> TouchRoute {
    if on_weather_nav_row(m) {
        TouchRoute::WeatherNavRow
    } else {
        match settings_detail_intent_spec(m, s) {
            Some(i) => TouchRoute::SettingsDetail(i),
            None => match media_press_spec(m, s) {
                Some((t, c)) => TouchRoute::Media(t, c),
                None => match touch_intent_spec(s) {
                    Some(i) => if (i == UiIntent::NextPage || i == UiIntent::PreviousPage) && (
                    if now >= last_nav {
                        now - last_nav
                    } else {
                        0
                    }) < TOUCH_NAV_COOLDOWN_MS {
                        TouchRoute::Cooldown
                    } else {
                        TouchRoute::Intent(i)
                    },
                    None => TouchRoute::Ignored,
                },
            },
        }
    }
}

/// Routes a finished contact; a page swipe that goes through restarts the
/// navigation cooldown at `now`.
pub fn route_touch(model: &OnboardModel, summary: &TouchSummary, now: u64, last_navigation: &mut u64) -> (r:
    TouchRoute)
    ensures
        r == touch_route_spec(*model, *summary, now, *old(last_navigation)),
        *final(last_navigation) == (match r {
            TouchRoute::Intent(i) => if i == UiIntent::NextPage || i == UiIntent::PreviousPage {
                now
            } else {
                *old(last_navigation)
            },
            _ => *old(last_navigation),
        }),
{
    if model.current_page == AssistantPage::Weather {
        match model.last_touch {
            Some(t) => {
                let y = t.y as i16;
                if WEATHER_NAV_BUTTON_Y_MIN <= y && y <= WEATHER_NAV_BUTTON_Y_MAX {
                    return TouchRoute::WeatherNavRow;
                }
            },
            None => {},
        }
    }
    match settings_detail_intent_from_touch_summary(model, summary) {
        Some(i) => {
            return TouchRoute::SettingsDetail(i);
        },
        None => {},
    }
    match media_press(model, summary) {
        Some((t, c)) => {
            return TouchRoute::Media(t, c);
        },
        None => {},
    }
    match intent_from_touch_summary(summary) {
        Some(i) => {
            if i == UiIntent::NextPage || i == UiIntent::PreviousPage {
                let since = if now >= *last_navigation {
                    now - *last_navigation
                } else {
                    0
                };
                if since < TOUCH_NAV_COOLDOWN_MS {
                    return TouchRoute::Cooldown;
                }
                *last_navigation = now;
            }
            TouchRoute::Intent(i)
        },
        None => TouchRoute::Ignored,
    }
}

/// How long a station connect may take.
pub const WIFI_CONNECT_TIMEOUT_MS: u64 = 15_000;

/// Starts a `WIFI.TXT` import: the settings show the SD import stage.
pub fn wifi_import_begin(model: &mut OnboardModel)
    ensures
        final(model).settings.wifi_provisioning == WifiProvisioningStep::ImportSd,
        final(model).settings.wifi_last_error@ == "IMPORT"@,
        *final(model) == (OnboardModel {
            settings: SettingsState {
                wifi_provisioning: WifiProvisioningStep::ImportSd,
                wifi_last_error: final(model).settings.wifi_last_error,
                wifi_mock_connected: false,
                ..old(model).settings
            },
            ..*old(model)
        }),
{
    model.settings.set_wifi_stage(WifiProvisioningStep::ImportSd, "IMPORT");
}

/// Marks the import or connect as failed for `reason` and clears the
/// connect deadline.
pub fn wifi_import_failed(model: &mut OnboardModel, deadline: &mut Option<u64>, reason: &'static str)
    ensures
        *final(deadline) == None::<u64>,
        *final(model) == (OnboardModel {
            settings: SettingsState {
                wifi_provisioning: WifiProvisioningStep::Failed,
                wifi_last_error: reason,
                wifi_mock_connected: false,
                ..old(model).settings
            },
            ..*old(model)
        }),
{
    model.settings.set_wifi_stage(WifiProvisioningStep::Failed, reason);
    *deadline = None;
}

/// Parses an imported credential text; on a parse error the import fails
/// with the error's label.
pub fn wifi_import_parse(model: &mut OnboardModel, deadline: &mut Option<u64>, text: &str) -> (r:
    Option<WifiCredentials>)
    ensures
        match parse_credentials_spec(text@) {
            Ok((ssid, pass)) => (r matches Some(c) && c.ssid@ == ssid && c.password@ == pass)
                && *final(model) == *old(model) && *final(deadline) == *old(deadline),
            Err(e) => r is None && *final(deadline) == None::<u64> && final(model).settings.wifi_provisioning
                == WifiProvisioningStep::Failed && *final(model) == (OnboardModel {
                settings: SettingsState {
                    wifi_provisioning: WifiProvisioningStep::Failed,
                    wifi_last_error: final(model).settings.wifi_last_error,
                    wifi_mock_connected: false,
                    ..old(model).settings
                },
                ..*old(model)
            }),
        },
{
    match WifiCredentials::parse(text) {
        Ok(c) => Some(c),
        Err(e) => {
            wifi_import_failed(model, deadline, e.label());
            None
        },
    }
}

/// The connect was started: the settings show connecting and the connect
/// must finish within the timeout.
pub fn wifi_connect_started(model: &mut OnboardModel, deadline: &mut Option<u64>, now: u64)
    requires
        now + WIFI_CONNECT_TIMEOUT_MS <= u64::MAX,
    ensures
        *final(deadline) == Some((now + WIFI_CONNECT_TIMEOUT_MS) as u64),
        final(model).settings.wifi_last_error@ == "WIFI.TXT"@,
        *final(model) == (OnboardModel {
            settings: SettingsState {
                wifi_provisioning: WifiProvisioningStep::Connecting,
                wifi_last_error: final(model).settings.wifi_last_error,
                wifi_mock_connected: false,
                ..old(model).settings
            },
            ..*old(model)
        }),
{
    model.settings.set_wifi_stage(WifiProvisioningStep::Connecting, "WIFI.TXT");
    *deadline = Some(now + WIFI_CONNECT_TIMEOUT_MS);
}

/// Follows a pending connect: connected ends it, a passed deadline fails
/// it with `TIMEOUT`; without a pending connect nothing changes.
pub fn update_wifi_connect_progress(model: &mut OnboardModel, deadline: &mut Option<u64>, now: u64)
    ensures
        match *old(deadline) {
            None => *final(model) == *old(model) && *final(deadline) == None::<u64>,
            Some(d) => if old(model).wifi_connected {
                *final(deadline) == None::<u64> && final(model).settings.wifi_last_error@ == "NVS"@
                    && *final(model) == (OnboardModel {
                    settings: SettingsState {
                        wifi_provisioning: WifiProvisioningStep::Connected,
                        wifi_last_error: final(model).settings.wifi_last_error,
                        wifi_mock_connected: true,
                        ..old(model).settings
                    },
                    ..*old(model)
                })
            } else if now >= d {
                *final(deadline) == None::<u64> && final(model).settings.wifi_last_error@
                    == "TIMEOUT"@ && *final(model) == (OnboardModel {
                    settings: SettingsState {
                        wifi_provisioning: WifiProvisioningStep::Failed,
                        wifi_last_error: final(model).settings.wifi_last_error,
                        wifi_mock_connected: false,
                        ..old(model).settings
                    },
                    ..*old(model)
                })
            } else {
                *final(model) == *old(model) && *final(deadline) == *old(deadline)
            },
        },
{
    let d = match *deadline {
        None => {
            return;
        },
        Some(d) => d,
    };
    if model.wifi_connected {
        model.settings.set_wifi_stage(WifiProvisioningStep::Connected, "NVS");
        *deadline = None;
        return;
    }
    if now >= d {
        model.settings.set_wifi_stage(WifiProvisioningStep::Failed, "TIMEOUT");
        *deadline = None;
    }
}

/// Records an SD space probe: sizes are kept only when the probe worked,
/// a card is present and the size is non-zero.
pub fn apply_sd_probe(model: &mut OnboardModel, ok: bool, present: bool, capacity_mb: u32, free_mb: u32)
    ensures
        *final(model) == (OnboardModel {
            sd_present: ok && present,
            sd_capacity_mb: if ok && present && capacity_mb > 0 {
                Some(capacity_mb)
            } else {
                None
            },
            sd_free_mb: if ok && present && free_mb > 0 {
                Some(free_mb)
            } else {
                None
            },
            ..*old(model)
        }),
{
    model.sd_present = ok && present;
    model.sd_capacity_mb = if ok && present && capacity_mb > 0 {
        Some(capacity_mb)
    } else {
        None
    };
    model.sd_free_mb = if ok && present && free_mb > 0 {
        Some(free_mb)
    } else {
        None
    };
}

/// Records a Wi-Fi status poll: the access-point count is replaced only by
/// a scan that ran and succeeded.
pub fn apply_wifi_refresh(model: &mut OnboardModel, connected: bool, ssid: Option<String>, scanned: Option<u16>)
    ensures
        *final(model) == (OnboardModel {
            wifi_count: match scanned {
                Some(c) => Some(c),
                None => old(model).wifi_count,
            },
            wifi_connected: connected,
            wifi_ssid: ssid,
            ..*old(model)
        }),
{
    let count = match scanned {
        Some(c) => Some(c),
        None => model.wifi_count,
    };
    model.update_wifi_status(count, connected, ssid);
}

/// Monitor text for an SD read result code.
pub fn weather_sd_error_label(code: i32) -> (r: &'static str)
    ensures
        r@ == (if code == -1 {
            "BAD ARG"@
        } else if code == -2 {
            "SD MOUNT"@
        } else if code == -3 {
            "NO FILE"@
        } else if code == -4 {
            "SD IO"@
        } else {
            "SD FAIL"@
        }),
{
    if code == -1 {
        "BAD ARG"
    } else if code == -2 {
        "SD MOUNT"
    } else if code == -3 {
        "NO FILE"
    } else if code == -4 {
        "SD IO"
    } else {
        "SD FAIL"
    }
}

/// Error text for an HTTP result code.
pub open spec fn http_error_spec(code: i32) -> Seq<char> {
    if code == -1 {
        "BAD ARG"@
    } else if code == -2 {
        "NO CLIENT"@
    } else if code == -3 {
        "HTTP OPEN"@
    } else if code == -4 {
        "HTTP READ"@
    } else if -1300 <= code <= -1200 {
        "HTTP 2XX?"@
    } else if code == -1404 {
        "HTTP 404"@
    } else if -1500 <= code <= -1000 {
        "HTTP STATUS"@
    } else {
        "HTTP FAIL"@
    }
}

/// Error text for an HTTP result code.
pub fn weather_http_error_label(code: i32) -> (r: &'static str)
    ensures
        r@ == http_error_spec(code),
{
    if code == -1 {
        "BAD ARG"
    } else if code == -2 {
        "NO CLIENT"
    } else if code == -3 {
        "HTTP OPEN"
    } else if code == -4 {
        "HTTP READ"
    } else if -1300 <= code && code <= -1200 {
        "HTTP 2XX?"
    } else if code == -1404 {
        "HTTP 404"
    } else if -1500 <= code && code <= -1000 {
        "HTTP STATUS"
    } else {
        "HTTP FAIL"
    }
}

/// Before a fetch: without Wi-Fi the fetch fails with `NO WIFI` and is not
/// attempted. Returns whether to fetch.
pub fn weather_fetch_precheck(model: &mut OnboardModel) -> (r: bool)
    ensures
        r == old(model).wifi_connected,
        r ==> *final(model) == *old(model),
        !r ==> fetch_failed(old(model).weather, final(model).weather, "NO WIFI"@) && *final(model)
            == (OnboardModel { weather: final(model).weather, ..*old(model) }),
{
    if !model.wifi_connected {
        model.weather.apply_failed("NO WIFI");
        return false;
    }
    true
}

/// Applies the result of a fetch: a parsed sample goes live at `epoch`; an
/// error fails the fetch with its reason. Returns whether the cache should
/// be written.
pub fn finish_weather_fetch(model: &mut OnboardModel, result: Result<WeatherSample, &str>, epoch: i64) -> (r:
    bool)
    ensures
        r == result is Ok,
        match result {
            Ok(sample) => live_applied(old(model).weather, final(model).weather, sample, epoch),
            Err(reason) => fetch_failed(old(model).weather, final(model).weather, reason@),
        },
        *final(model) == (OnboardModel { weather: final(model).weather, ..*old(model) }),
{
    match result {
        Ok(sample) => {
            model.weather.apply_live_weather(sample, epoch);
            true
        },
        Err(reason) => {
            model.weather.apply_failed(reason);
            false
        },
    }
}

} // verus!
