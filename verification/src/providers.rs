//! Local provider boundary: every page action goes through here.

use vstd::prelude::*;
use crate::assistant::{listening_toggled, AssistantState};
use crate::home::{glance_refreshed, HomeState};
use crate::music::{play_pause_toggled, MusicState};
use crate::settings::{current_toggled, SettingsPanel, SettingsState};
use crate::weather::{
    fetch_requested, location_cycled, location_stepped_back, units_toggled, WeatherState,
};

verus! {

/// The local (mock) providers.
#[derive(Debug, Clone, Copy, Default)]
pub struct LocalProviders;

impl LocalProviders {
    pub fn new() -> (r: Self) {
        LocalProviders
    }

    pub fn toggle_home_status(&self, state: &mut HomeState)
        ensures
            glance_refreshed(*old(state), *final(state)),
    {
        state.refresh_glance();
    }

    pub fn refresh_weather(&self, state: &mut WeatherState)
        ensures
            fetch_requested(*old(state), *final(state)),
    {
        state.request_fetch();
    }

    pub fn cycle_weather_location(&self, state: &mut WeatherState)
        requires
            old(state).location_index < usize::MAX,
        ensures
            location_cycled(*old(state), *final(state)),
    {
        state.cycle_location();
    }

    pub fn previous_weather_location(&self, state: &mut WeatherState)
        ensures
            location_stepped_back(*old(state), *final(state)),
    {
        state.previous_location();
    }

    pub fn toggle_weather_units(&self, state: &mut WeatherState)
        ensures
            units_toggled(*old(state), *final(state)),
    {
        state.toggle_units();
    }

    pub fn toggle_music_play_pause(&self, state: &mut MusicState)
        ensures
            play_pause_toggled(*old(state), *final(state)),
    {
        state.toggle_play_pause();
    }

    pub fn toggle_assistant_listening(&self, state: &mut AssistantState)
        ensures
            listening_toggled(*old(state), *final(state)),
    {
        state.toggle_listening();
    }

    pub fn enter_settings_detail(&self, state: &mut SettingsState, panel: SettingsPanel)
        ensures
            *final(state) == (SettingsState { selected: panel, detail_open: true, ..*old(state) }),
    {
        state.enter_detail_for(panel);
    }

    pub fn next_settings_overview_page(&self, state: &mut SettingsState)
        requires
            old(state).overview_page < 255,
        ensures
            final(state).overview_page == (old(state).overview_page + 1) % 2,
            final(state).selected == (if final(state).overview_page == 0 {
                SettingsPanel::Network
            } else {
                SettingsPanel::Sound
            }),
            *final(state) == (SettingsState {
                overview_page: final(state).overview_page,
                selected: final(state).selected,
                ..*old(state)
            }),
    {
        state.next_overview_page();
    }

    pub fn close_settings_detail(&self, state: &mut SettingsState)
        ensures
            *final(state) == (SettingsState { detail_open: false, ..*old(state) }),
    {
        state.close_detail();
    }

    pub fn next_settings_detail(&self, state: &mut SettingsState)
        ensures
            *final(state) == (SettingsState {
                selected: old(state).selected.next_spec(),
                detail_open: true,
                ..*old(state)
            }),
    {
        state.next_detail_panel();
    }

    pub fn previous_settings_detail(&self, state: &mut SettingsState)
        ensures
            *final(state) == (SettingsState {
                selected: old(state).selected.previous_spec(),
                detail_open: true,
                ..*old(state)
            }),
    {
        state.previous_detail_panel();
    }

    pub fn toggle_settings_current(&self, state: &mut SettingsState)
        requires
            (old(state).selected == SettingsPanel::Device || old(state).selected
                == SettingsPanel::Diagnostics) ==> old(state).about_page < 255,
        ensures
            current_toggled(*old(state), *final(state)),
    {
        state.toggle_current();
    }
}

} // verus!
