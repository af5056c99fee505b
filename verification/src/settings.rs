//! Settings hub: overview rows on two pages and one detail panel per row.

use vstd::prelude::*;
use crate::assistant::sat_inc;
use crate::text::{dec, push_dec, push_str};
use crate::wifi::WifiProvisioningStep;

verus! {

/// One row of the settings overview, and the detail panel it opens.
#[derive(Debug, Clone, Copy, PartialEq, Eq, Structural)]
pub enum SettingsPanel {
    Network,
    Weather,
    Time,
    Display,
    Sound,
    Storage,
    Device,
    Diagnostics,
}

/// Number of settings panels.
pub const SETTINGS_PANEL_COUNT: usize = 8;

impl SettingsPanel {
    /// Position of the panel in the overview order.
    pub open spec fn index_spec(self) -> int {
        match self {
            SettingsPanel::Network => 0,
            SettingsPanel::Weather => 1,
            SettingsPanel::Time => 2,
            SettingsPanel::Display => 3,
            SettingsPanel::Sound => 4,
            SettingsPanel::Storage => 5,
            SettingsPanel::Device => 6,
            SettingsPanel::Diagnostics => 7,
        }
    }

    /// The panel at position `i` (taken modulo the panel count).
    pub open spec fn at_spec(i: int) -> SettingsPanel {
        let k = i % 8;
        if k == 0 {
            SettingsPanel::Network
        } else if k == 1 {
            SettingsPanel::Weather
        } else if k == 2 {
            SettingsPanel::Time
        } else if k == 3 {
            SettingsPanel::Display
        } else if k == 4 {
            SettingsPanel::Sound
        } else if k == 5 {
            SettingsPanel::Storage
        } else if k == 6 {
            SettingsPanel::Device
        } else {
            SettingsPanel::Diagnostics
        }
    }

    pub open spec fn next_spec(self) -> SettingsPanel {
        SettingsPanel::at_spec(self.index_spec() + 1)
    }

    pub open spec fn previous_spec(self) -> SettingsPanel {
        SettingsPanel::at_spec(self.index_spec() + 7)
    }

    pub open spec fn row_label_spec(self) -> Seq<char> {
        match self {
            SettingsPanel::Network => "NETWORK"@,
            SettingsPanel::Weather => "WEATHER"@,
            SettingsPanel::Time => "TIME"@,
            SettingsPanel::Display => "DISPLAY"@,
            SettingsPanel::Sound => "SOUND"@,
            SettingsPanel::Storage => "STORAGE"@,
            SettingsPanel::Device => "DEVICE"@,
            SettingsPanel::Diagnostics => "DIAG"@,
        }
    }

    pub open spec fn log_label_spec(self) -> Seq<char> {
        match self {
            SettingsPanel::Network => "network"@,
            SettingsPanel::Weather => "weather"@,
            SettingsPanel::Time => "time"@,
            SettingsPanel::Display => "display"@,
            SettingsPanel::Sound => "sound"@,
            SettingsPanel::Storage => "storage"@,
            SettingsPanel::Device => "device"@,
            SettingsPanel::Diagnostics => "diagnostics"@,
        }
    }

    pub fn row_label(self) -> (r: &'static str)
        ensures
            r@ == self.row_label_spec(),
    {
        match self {
            SettingsPanel::Network => "NETWORK",
            SettingsPanel::Weather => "WEATHER",
            SettingsPanel::Time => "TIME",
            SettingsPanel::Display => "DISPLAY",
            SettingsPanel::Sound => "SOUND",
            SettingsPanel::Storage => "STORAGE",
            SettingsPanel::Device => "DEVICE",
            SettingsPanel::Diagnostics => "DIAG",
        }
    }

    /// The detail screen's title is the row label.
    pub fn detail_title(self) -> (r: &'static str)
        ensures
            r@ == self.row_label_spec(),
    {
        self.row_label()
    }

    pub fn log_label(self) -> (r: &'static str)
        ensures
            r@ == self.log_label_spec(),
    {
        match self {
            SettingsPanel::Network => "network",
            SettingsPanel::Weather => "weather",
            SettingsPanel::Time => "time",
            SettingsPanel::Display => "display",
            SettingsPanel::Sound => "sound",
            SettingsPanel::Storage => "storage",
            SettingsPanel::Device => "device",
            SettingsPanel::Diagnostics => "diagnostics",
        }
    }

    /// The following panel, wrapping from the last to the first.
    pub fn next(self) -> (r: SettingsPanel)
        ensures
            r == self.next_spec(),
    {
        match self {
            SettingsPanel::Network => SettingsPanel::Weather,
            SettingsPanel::Weather => SettingsPanel::Time,
            SettingsPanel::Time => SettingsPanel::Display,
            SettingsPanel::Display => SettingsPanel::Sound,
            SettingsPanel::Sound => SettingsPanel::Storage,
            SettingsPanel::Storage => SettingsPanel::Device,
            SettingsPanel::Device => SettingsPanel::Diagnostics,
            SettingsPanel::Diagnostics => SettingsPanel::Network,
        }
    }

    /// The preceding panel, wrapping from the first to the last.
    pub fn previous(self) -> (r: SettingsPanel)
        ensures
            r == self.previous_spec(),
    {
        match self {
            SettingsPanel::Network => SettingsPanel::Diagnostics,
            SettingsPanel::Weather => SettingsPanel::Network,
            SettingsPanel::Time => SettingsPanel::Weather,
            SettingsPanel::Display => SettingsPanel::Time,
            SettingsPanel::Sound => SettingsPanel::Display,
            SettingsPanel::Storage => SettingsPanel::Sound,
            SettingsPanel::Device => SettingsPanel::Storage,
            SettingsPanel::Diagnostics => SettingsPanel::Device,
        }
    }
}

/// `previous` undoes `next` and `next` undoes `previous`.
pub proof fn lemma_panel_next_previous_inverse(p: SettingsPanel)
    ensures
        p.next_spec().previous_spec() == p,
        p.previous_spec().next_spec() == p,
{
}

/// Stepping `next` eight times returns to the starting panel, and the
/// panels visited on the way are the panels at the following positions.
pub proof fn lemma_panel_next_cycles(p: SettingsPanel)
    ensures
        p.next_spec().next_spec().next_spec().next_spec().next_spec().next_spec().next_spec().next_spec()
            == p,
        p.next_spec().index_spec() == (p.index_spec() + 1) % 8,
{
}

/// The settings page state.
#[derive(Debug, Clone)]
pub struct SettingsState {
    pub detail_open: bool,
    pub selected: SettingsPanel,
    pub overview_page: u8,
    pub toggle_count: u32,
    pub touch_trace_enabled: bool,
    pub quiet_render_enabled: bool,
    pub brightness_percent: u8,
    pub volume_percent: u8,
    pub wifi_mock_connected: bool,
    pub wifi_scan_count: u32,
    pub wifi_provisioning: WifiProvisioningStep,
    pub wifi_provision_attempts: u32,
    pub wifi_connect_requested: bool,
    pub wifi_last_error: &'static str,
    pub about_page: u8,
    pub software_sleep_requested: bool,
}

/// The overview row (0..=3) under a touch at height `y`, if any.
pub open spec fn settings_row_spec(y: u16) -> Option<int> {
    if 82 <= y <= 135 {
        Some(0)
    } else if 136 <= y <= 185 {
        Some(1)
    } else if 186 <= y <= 235 {
        Some(2)
    } else if 236 <= y <= 300 {
        Some(3)
    } else {
        None
    }
}

/// The next volume step of the sound panel's toggle.
pub open spec fn volume_step_spec(v: u8) -> u8 {
    if v <= 39 {
        50
    } else if v <= 59 {
        70
    } else if v <= 79 {
        90
    } else {
        30
    }
}

/// What toggling the selected panel does: Network queues an SD import and
/// connect, Display requests sleep, Sound steps the volume, Device and
/// Diagnostics flip the about page; every toggle is counted.
pub open spec fn current_toggled(old_s: SettingsState, new_s: SettingsState) -> bool {
    &&& new_s.toggle_count == sat_inc(old_s.toggle_count)
    &&& new_s == (match old_s.selected {
        SettingsPanel::Network => SettingsState {
            wifi_scan_count: sat_inc(old_s.wifi_scan_count),
            wifi_provision_attempts: sat_inc(old_s.wifi_provision_attempts),
            wifi_provisioning: WifiProvisioningStep::ImportSd,
            wifi_connect_requested: true,
            wifi_last_error: new_s.wifi_last_error,
            toggle_count: new_s.toggle_count,
            ..old_s
        },
        SettingsPanel::Display => SettingsState {
            software_sleep_requested: true,
            toggle_count: new_s.toggle_count,
            ..old_s
        },
        SettingsPanel::Sound => SettingsState {
            volume_percent: volume_step_spec(old_s.volume_percent),
            toggle_count: new_s.toggle_count,
            ..old_s
        },
        SettingsPanel::Device | SettingsPanel::Diagnostics => SettingsState {
            about_page: ((old_s.about_page + 1) % 2) as u8,
            toggle_count: new_s.toggle_count,
            ..old_s
        },
        _ => SettingsState { toggle_count: new_s.toggle_count, ..old_s },
    })
    &&& old_s.selected == SettingsPanel::Network ==> new_s.wifi_last_error@ == "IMPORT"@
}

impl SettingsState {
    /// The state at boot: overview of the first page, Network selected, default levels.
    pub open spec fn is_boot(self) -> bool {
        &&& !self.detail_open
        &&& self.selected == SettingsPanel::Network
        &&& self.overview_page == 0
        &&& self.toggle_count == 0
        &&& self.touch_trace_enabled
        &&& self.quiet_render_enabled
        &&& self.brightness_percent == 70
        &&& self.volume_percent == 60
        &&& !self.wifi_mock_connected
        &&& self.wifi_scan_count == 0
        &&& self.wifi_provisioning == WifiProvisioningStep::Idle
        &&& self.wifi_provision_attempts == 0
        &&& !self.wifi_connect_requested
        &&& self.wifi_last_error@ == "NONE"@
        &&& self.about_page == 0
        &&& !self.software_sleep_requested
    }

    pub fn new() -> (r: Self)
        ensures
            r.is_boot(),
    {
        SettingsState {
            detail_open: false,
            selected: SettingsPanel::Network,
            overview_page: 0,
            toggle_count: 0,
            touch_trace_enabled: true,
            quiet_render_enabled: true,
            brightness_percent: 70,
            volume_percent: 60,
            wifi_mock_connected: false,
            wifi_scan_count: 0,
            wifi_provisioning: WifiProvisioningStep::Idle,
            wifi_provision_attempts: 0,
            wifi_connect_requested: false,
            wifi_last_error: "NONE",
            about_page: 0,
            software_sleep_requested: false,
        }
    }

    /// The panel under a touch at height `y`: the overview page selects the
    /// first or second group of four rows; outside the rows, the current
    /// selection.
    pub fn panel_for_touch_y(&self, y: u16) -> (r: SettingsPanel)
        ensures
            r == (match settings_row_spec(y) {
                None => self.selected,
                Some(row) => SettingsPanel::at_spec(
                    row + if self.overview_page % 2 == 0 {
                        0int
                    } else {
                        4int
                    },
                ),
            }),
    {
        let row: u8 = if 82 <= y && y <= 135 {
            0
        } else if 136 <= y && y <= 185 {
            1
        } else if 186 <= y && y <= 235 {
            2
        } else if 236 <= y && y <= 300 {
            3
        } else {
            return self.selected;
        };
        if self.overview_page % 2 == 0 {
            if row == 0 {
                SettingsPanel::Network
            } else if row == 1 {
                SettingsPanel::Weather
            } else if row == 2 {
                SettingsPanel::Time
            } else {
                SettingsPanel::Display
            }
        } else {
            if row == 0 {
                SettingsPanel::Sound
            } else if row == 1 {
                SettingsPanel::Storage
            } else if row == 2 {
                SettingsPanel::Device
            } else {
                SettingsPanel::Diagnostics
            }
        }
    }

    /// A tap at the bottom of the overview flips the overview page.
    pub fn is_overview_page_tap(&self, y: u16) -> (r: bool)
        ensures
            r == (!self.detail_open && y >= 306),
    {
        !self.detail_open && y >= 306
    }

    /// Moves to the other overview page and selects its first row.
    pub fn next_overview_page(&mut self)
        requires
            old(self).overview_page < 255,
        ensures
            final(self).overview_page == (old(self).overview_page + 1) % 2,
            final(self).selected == (if final(self).overview_page == 0 {
                SettingsPanel::Network
            } else {
                SettingsPanel::Sound
            }),
            *final(self) == (SettingsState {
                overview_page: final(self).overview_page,
                selected: final(self).selected,
                ..*old(self)
            }),
    {
        self.overview_page = (self.overview_page + 1) % 2;
        self.selected = if self.overview_page == 0 {
            SettingsPanel::Network
        } else {
            SettingsPanel::Sound
        };
    }

    pub fn overview_page_label(&self) -> (r: &'static str)
        ensures
            r@ == (if self.overview_page == 0 {
                "1/2"@
            } else {
                "2/2"@
            }),
    {
        if self.overview_page == 0 {
            "1/2"
        } else {
            "2/2"
        }
    }

    pub fn enter_detail_for(&mut self, panel: SettingsPanel)
        ensures
            *final(self) == (SettingsState { selected: panel, detail_open: true, ..*old(self) }),
    {
        self.selected = panel;
        self.detail_open = true;
    }

    pub fn enter_detail(&mut self)
        ensures
            *final(self) == (SettingsState { detail_open: true, ..*old(self) }),
    {
        self.detail_open = true;
    }

    pub fn close_detail(&mut self)
        ensures
            *final(self) == (SettingsState { detail_open: false, ..*old(self) }),
    {
        self.detail_open = false;
    }

    /// Returns and clears the pending Wi-Fi connect request.
    pub fn take_wifi_connect_request(&mut self) -> (r: bool)
        ensures
            r == old(self).wifi_connect_requested,
            *final(self) == (SettingsState { wifi_connect_requested: false, ..*old(self) }),
    {
        let requested = self.wifi_connect_requested;
        self.wifi_connect_requested = false;
        requested
    }

    /// Returns and clears the pending software-sleep request.
    pub fn take_software_sleep_request(&mut self) -> (r: bool)
        ensures
            r == old(self).software_sleep_requested,
            *final(self) == (SettingsState { software_sleep_requested: false, ..*old(self) }),
    {
        let requested = self.software_sleep_requested;
        self.software_sleep_requested = false;
        requested
    }

    /// Records a provisioning stage and its error text; connected exactly
    /// when the stage is `Connected`.
    pub fn set_wifi_stage(&mut self, stage: WifiProvisioningStep, error: &'static str)
        ensures
            *final(self) == (SettingsState {
                wifi_provisioning: stage,
                wifi_last_error: error,
                wifi_mock_connected: stage == WifiProvisioningStep::Connected,
                ..*old(self)
            }),
    {
        self.wifi_provisioning = stage;
        self.wifi_last_error = error;
        self.wifi_mock_connected = match stage {
            WifiProvisioningStep::Connected => true,
            _ => false,
        };
    }

    pub fn next_detail_panel(&mut self)
        ensures
            *final(self) == (SettingsState {
                selected: old(self).selected.next_spec(),
                detail_open: true,
                ..*old(self)
            }),
    {
        self.selected = self.selected.next();
        self.detail_open = true;
    }

    pub fn previous_detail_panel(&mut self)
        ensures
            *final(self) == (SettingsState {
                selected: old(self).selected.previous_spec(),
                detail_open: true,
                ..*old(self)
            }),
    {
        self.selected = self.selected.previous();
        self.detail_open = true;
    }

    /// The selected panel's action: Network queues an SD import and connect,
    /// Display requests sleep, Sound steps the volume, Device and Diagnostics
    /// flip the about page; every toggle is counted.
    pub fn toggle_current(&mut self)
        requires
            (old(self).selected == SettingsPanel::Device || old(self).selected
                == SettingsPanel::Diagnostics) ==> old(self).about_page < 255,
        ensures
            current_toggled(*old(self), *final(self)),
    {
        match self.selected {
            SettingsPanel::Network => {
                self.wifi_scan_count = self.wifi_scan_count.saturating_add(1);
                self.wifi_provision_attempts = self.wifi_provision_attempts.saturating_add(1);
                self.wifi_provisioning = WifiProvisioningStep::ImportSd;
                self.wifi_connect_requested = true;
                self.wifi_last_error = "IMPORT";
            },
            SettingsPanel::Display => {
                self.software_sleep_requested = true;
            },
            SettingsPanel::Sound => {
                let v = self.volume_percent;
                self.volume_percent = if v <= 39 {
                    50
                } else if v <= 59 {
                    70
                } else if v <= 79 {
                    90
                } else {
                    30
                };
            },
            SettingsPanel::Device | SettingsPanel::Diagnostics => {
                self.about_page = (self.about_page + 1) % 2;
            },
            SettingsPanel::Weather | SettingsPanel::Time | SettingsPanel::Storage => {},
        }
        self.toggle_count = self.toggle_count.saturating_add(1);
    }

    pub fn touch_trace_label(&self) -> (r: &'static str)
        ensures
            r@ == (if self.touch_trace_enabled {
                "TRACE ON"@
            } else {
                "TRACE OFF"@
            }),
    {
        if self.touch_trace_enabled {
            "TRACE ON"
        } else {
            "TRACE OFF"
        }
    }

    pub fn quiet_render_label(&self) -> (r: &'static str)
        ensures
            r@ == (if self.quiet_render_enabled {
                "QUIET ON"@
            } else {
                "QUIET OFF"@
            }),
    {
        if self.quiet_render_enabled {
            "QUIET ON"
        } else {
            "QUIET OFF"
        }
    }

    pub fn wifi_status_label(&self) -> (r: &'static str)
        ensures
            r@ == self.wifi_provisioning.label_spec(),
    {
        self.wifi_provisioning.label()
    }

    pub fn wifi_provisioning_label(&self) -> (r: &'static str)
        ensures
            r@ == self.wifi_provisioning.label_spec(),
    {
        self.wifi_provisioning.label()
    }

    pub fn wifi_error_label(&self) -> (r: &'static str)
        ensures
            r == self.wifi_last_error,
    {
        self.wifi_last_error
    }

    /// `{brightness}%`.
    pub fn brightness_label(&self) -> (r: String)
        ensures
            r@ == dec(self.brightness_percent as nat) + "%"@,
    {
        let mut s = String::new();
        push_dec(&mut s, self.brightness_percent as u64);
        push_str(&mut s, "%");
        s
    }

    /// `{volume}%`.
    pub fn volume_label(&self) -> (r: String)
        ensures
            r@ == dec(self.volume_percent as nat) + "%"@,
    {
        let mut s = String::new();
        push_dec(&mut s, self.volume_percent as u64);
        push_str(&mut s, "%");
        s
    }

    /// `SCAN {count}`.
    pub fn wifi_scan_label(&self) -> (r: String)
        ensures
            r@ == "SCAN "@ + dec(self.wifi_scan_count as nat),
    {
        let mut s = String::new();
        push_str(&mut s, "SCAN ");
        push_dec(&mut s, self.wifi_scan_count as u64);
        s
    }

    /// `TRY {attempts}`.
    pub fn wifi_provision_attempt_label(&self) -> (r: String)
        ensures
            r@ == "TRY "@ + dec(self.wifi_provision_attempts as nat),
    {
        let mut s = String::new();
        push_str(&mut s, "TRY ");
        push_dec(&mut s, self.wifi_provision_attempts as u64);
        s
    }

    pub fn current_panel_label(&self) -> (r: &'static str)
        ensures
            r@ == self.selected.log_label_spec(),
    {
        self.selected.log_label()
    }

    /// The value shown on the selected row.
    pub fn current_value_label(&self) -> (r: String)
        requires
            (self.selected == SettingsPanel::Device || self.selected == SettingsPanel::Diagnostics)
                ==> self.about_page < 255,
        ensures
            r@ == (match self.selected {
                SettingsPanel::Network => self.wifi_provisioning.label_spec() + " "@ + "TRY "@
                    + dec(self.wifi_provision_attempts as nat),
                SettingsPanel::Weather => "CYCLE+FETCH"@,
                SettingsPanel::Time => "SYNC STATUS"@,
                SettingsPanel::Display => "SLEEP NOW"@,
                SettingsPanel::Sound => "VOL "@ + dec(self.volume_percent as nat) + "%"@,
                SettingsPanel::Storage => "CACHE"@,
                SettingsPanel::Device | SettingsPanel::Diagnostics => "PAGE "@ + dec(
                    (self.about_page + 1) as nat,
                ),
            }),
    {
        match self.selected {
            SettingsPanel::Network => {
                let mut s = String::new();
                push_str(&mut s, self.wifi_provisioning_label());
                push_str(&mut s, " ");
                let t = self.wifi_provision_attempt_label();
                push_str(&mut s, t.as_str());
                s
            },
            SettingsPanel::Weather => "CYCLE+FETCH".to_owned(),
            SettingsPanel::Time => "SYNC STATUS".to_owned(),
            SettingsPanel::Display => "SLEEP NOW".to_owned(),
            SettingsPanel::Sound => {
                let mut s = String::new();
                push_str(&mut s, "VOL ");
                let t = self.volume_label();
                push_str(&mut s, t.as_str());
                s
            },
            SettingsPanel::Storage => "CACHE".to_owned(),
            SettingsPanel::Device | SettingsPanel::Diagnostics => {
                let mut s = String::new();
                push_str(&mut s, "PAGE ");
                push_dec(&mut s, (self.about_page + 1) as u64);
                s
            },
        }
    }
}

} // verus!
