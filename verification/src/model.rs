//! The on-board UI model: current page, input counters, board telemetry and
//! the per-page states.

use vstd::prelude::*;
use crate::assistant::{sat_inc, AssistantState};
use crate::board::{
    BATTERY_ADC_CONFIRMED_TEXT, BATTERY_ADC_MISSING_TEXT, BATTERY_ADC_PATH_TEXT,
    BATTERY_SOURCE_RUST_DIAG, BATTERY_SOURCE_UNAVAILABLE, BOARD_FLASH_MIB, BOARD_PSRAM_MIB,
};
use crate::drivers::pcf85063::DateTime;
use crate::home::HomeState;
use crate::intents::UiIntent;
use crate::music::MusicState;
use crate::pages::AssistantPage;
use crate::settings::SettingsState;
use crate::text::{
    clip_upper_ascii, clipped_upper_ascii, contains_seq, dec, dec2, dec4, dec_string, push_dec,
    push_dec2, push_dec4, push_str, str_contains, str_eq,
};
use crate::time::{TimeSource, TimeSyncPhase, TimeSyncState};
use crate::weather::WeatherState;

verus! {

/// The last touch report.
#[derive(Debug, Clone, Copy)]
pub struct TouchSnapshot {
    pub x: u16,
    pub y: u16,
    pub fingers: u8,
    pub gesture: u8,
}

/// A physical button.
#[derive(Debug, Clone, Copy, PartialEq, Eq, Structural)]
pub enum ButtonName {
    Boot,
    Power,
}

/// How long a button was held.
#[derive(Debug, Clone, Copy, PartialEq, Eq, Structural)]
pub enum ButtonPressKind {
    Short,
    Long,
}

/// The whole UI model. The battery ADC multiplier, a floating-point
/// calibration factor, is kept beside the model by the firmware loop.
#[derive(Debug, Clone)]
pub struct OnboardModel {
    pub current_page: AssistantPage,
    pub rtc: Option<DateTime>,
    pub touch_events: u32,
    pub button_events: u32,
    pub nav_events: u32,
    pub last_touch: Option<TouchSnapshot>,
    pub last_action: &'static str,
    pub battery_mv: Option<u16>,
    pub battery_adc_raw: Option<u16>,
    pub battery_adc_mv: Option<u16>,
    pub battery_adc_zero_count: u8,
    pub battery_empty_mv: u16,
    pub battery_full_mv: u16,
    pub battery_cal_status: &'static str,
    pub battery_source_label: &'static str,
    pub sd_present: bool,
    pub sd_capacity_mb: Option<u32>,
    pub sd_free_mb: Option<u32>,
    pub wifi_count: Option<u16>,
    pub wifi_connected: bool,
    pub wifi_ssid: Option<String>,
    pub flash_mib: u32,
    pub psram_mib: u32,
    pub backlight_percent: u8,
    pub i2c_ok: bool,
    pub touch_ready: bool,
    pub rtc_ready: bool,
    pub home: HomeState,
    pub weather: WeatherState,
    pub music: MusicState,
    pub assistant: AssistantState,
    pub settings: SettingsState,
    pub time: TimeSyncState,
}

/// `month` clamped to 1..=12.
pub open spec fn clamp_month(month: u8) -> int {
    if month < 1 {
        1
    } else if month > 12 {
        12
    } else {
        month as int
    }
}

/// Month term of Sakamoto's weekday formula.
pub open spec fn month_offset(m: int) -> int {
    if m == 1 {
        0
    } else if m == 2 {
        3
    } else if m == 3 {
        2
    } else if m == 4 {
        5
    } else if m == 5 {
        0
    } else if m == 6 {
        3
    } else if m == 7 {
        5
    } else if m == 8 {
        1
    } else if m == 9 {
        4
    } else if m == 10 {
        6
    } else if m == 11 {
        2
    } else {
        4
    }
}

/// Integer division rounding toward zero, as Rust's `/` does.
pub open spec fn trunc_div(a: int, b: int) -> int {
    if a >= 0 {
        a / b
    } else {
        -((-a) / b)
    }
}

/// Day of the week (0 = Sunday) by Sakamoto's method.
pub open spec fn weekday_spec(year: int, month: u8, day: u8) -> int {
    let m = clamp_month(month);
    let y = if m < 3 {
        year - 1
    } else {
        year
    };
    (y + trunc_div(y, 4) - trunc_div(y, 100) + trunc_div(y, 400) + month_offset(m) + day) % 7
}

/// Three-letter weekday name.
pub open spec fn weekday_name(w: int) -> Seq<char> {
    if w == 0 {
        "SUN"@
    } else if w == 1 {
        "MON"@
    } else if w == 2 {
        "TUE"@
    } else if w == 3 {
        "WED"@
    } else if w == 4 {
        "THU"@
    } else if w == 5 {
        "FRI"@
    } else {
        "SAT"@
    }
}

/// Three-letter month name (month clamped to 1..=12).
pub open spec fn month_name(month: u8) -> Seq<char> {
    let m = clamp_month(month);
    if m == 1 {
        "JAN"@
    } else if m == 2 {
        "FEB"@
    } else if m == 3 {
        "MAR"@
    } else if m == 4 {
        "APR"@
    } else if m == 5 {
        "MAY"@
    } else if m == 6 {
        "JUN"@
    } else if m == 7 {
        "JUL"@
    } else if m == 8 {
        "AUG"@
    } else if m == 9 {
        "SEP"@
    } else if m == 10 {
        "OCT"@
    } else if m == 11 {
        "NOV"@
    } else {
        "DEC"@
    }
}

/// The weekday name of a date.
fn weekday3(year: i32, month: u8, day: u8) -> (r: &'static str)
    ensures
        r@ == weekday_name(weekday_spec(year as int, month, day)),
{
    let m: u8 = if month < 1 {
        1
    } else if month > 12 {
        12
    } else {
        month
    };
    let offset: i64 = if m == 1 {
        0
    } else if m == 2 {
        3
    } else if m == 3 {
        2
    } else if m == 4 {
        5
    } else if m == 5 {
        0
    } else if m == 6 {
        3
    } else if m == 7 {
        5
    } else if m == 8 {
        1
    } else if m == 9 {
        4
    } else if m == 10 {
        6
    } else if m == 11 {
        2
    } else {
        4
    };
    let y: i64 = if m < 3 {
        year as i64 - 1
    } else {
        year as i64
    };
    let q4: i64 = match y.checked_div(4) {
        Some(q) => q,
        None => 0,
    };
    let q100: i64 = match y.checked_div(100) {
        Some(q) => q,
        None => 0,
    };
    let q400: i64 = match y.checked_div(400) {
        Some(q) => q,
        None => 0,
    };
    assert(q4 == trunc_div(y as int, 4));
    assert(q100 == trunc_div(y as int, 100));
    assert(q400 == trunc_div(y as int, 400));
    let sum: i64 = y + q4 - q100 + q400 + offset + day as i64;
    let w: i64 = match sum.checked_rem_euclid(7) {
        Some(w) => w,
        None => 0,
    };
    if w == 0 {
        "SUN"
    } else if w == 1 {
        "MON"
    } else if w == 2 {
        "TUE"
    } else if w == 3 {
        "WED"
    } else if w == 4 {
        "THU"
    } else if w == 5 {
        "FRI"
    } else {
        "SAT"
    }
}

/// The month name of a month number.
fn month3(month: u8) -> (r: &'static str)
    ensures
        r@ == month_name(month),
{
    let m: u8 = if month < 1 {
        1
    } else if month > 12 {
        12
    } else {
        month
    };
    if m == 1 {
        "JAN"
    } else if m == 2 {
        "FEB"
    } else if m == 3 {
        "MAR"
    } else if m == 4 {
        "APR"
    } else if m == 5 {
        "MAY"
    } else if m == 6 {
        "JUN"
    } else if m == 7 {
        "JUL"
    } else if m == 8 {
        "AUG"
    } else if m == 9 {
        "SEP"
    } else if m == 10 {
        "OCT"
    } else if m == 11 {
        "NOV"
    } else {
        "DEC"
    }
}

/// Battery charge estimated linearly between the empty and full voltages.
pub open spec fn battery_percent_spec(mv: Option<u16>, empty: u16, full: u16) -> Option<u8> {
    match mv {
        None => None,
        Some(v) => if full <= empty {
            None
        } else if v <= empty {
            Some(0)
        } else if v >= full {
            Some(100)
        } else {
            Some((((v - empty) * 100) / ((full - empty) as int)) as u8)
        },
    }
}

/// `{mb/1024}G` from 1024 MB up, else `{mb}M`; `--` when unknown.
pub open spec fn size_text_spec(mb: Option<u32>) -> Seq<char> {
    match mb {
        None => "--"@,
        Some(m) => if m >= 1024 {
            dec((m / 1024) as nat) + "G"@
        } else {
            dec(m as nat) + "M"@
        },
    }
}

/// The SSID shown on a line of `max` characters: connected with a usable
/// SSID shows it clipped, connected without one shows `fallback`.
pub open spec fn ssid_shown(ssid: Option<String>, max: nat, fallback: Seq<char>) -> Seq<char> {
    match ssid {
        Some(s) => if clip_upper_ascii(s@, max).len() > 0 {
            clip_upper_ascii(s@, max)
        } else {
            fallback
        },
        None => fallback,
    }
}

/// The text of a size in MB.
fn size_text(mb: Option<u32>) -> (r: String)
    ensures
        r@ == size_text_spec(mb),
{
    match mb {
        Some(m) => {
            let mut s = String::new();
            if m >= 1024 {
                push_dec(&mut s, (m / 1024) as u64);
                push_str(&mut s, "G");
            } else {
                push_dec(&mut s, m as u64);
                push_str(&mut s, "M");
            }
            s
        },
        None => "--".to_owned(),
    }
}

impl OnboardModel {
    /// Boot state: Home page, nothing probed, default battery curve, and
    /// every page in its boot state.
    pub fn new() -> (r: Self)
        ensures
            r.current_page == AssistantPage::Home,
            r.rtc is None,
            r.touch_events == 0,
            r.button_events == 0,
            r.nav_events == 0,
            r.last_touch is None,
            r.last_action@ == "READY"@,
            r.battery_mv is None,
            r.battery_adc_raw is None,
            r.battery_adc_mv is None,
            r.battery_adc_zero_count == 0,
            r.battery_empty_mv == 3000,
            r.battery_full_mv == 4200,
            r.battery_cal_status@ == "DEFAULT"@,
            r.battery_source_label == BATTERY_SOURCE_UNAVAILABLE,
            !r.sd_present,
            r.sd_capacity_mb is None,
            r.sd_free_mb is None,
            r.wifi_count is None,
            !r.wifi_connected,
            r.wifi_ssid is None,
            r.flash_mib == BOARD_FLASH_MIB,
            r.psram_mib == BOARD_PSRAM_MIB,
            r.backlight_percent == 100,
            !r.i2c_ok,
            !r.touch_ready,
            !r.rtc_ready,
            r.home.is_boot(),
            r.weather.is_boot(),
            r.music.is_boot(),
            r.assistant.is_boot(),
            r.settings.is_boot(),
            r.time.is_boot(),
    {
        OnboardModel {
            current_page: AssistantPage::Home,
            rtc: None,
            touch_events: 0,
            button_events: 0,
            nav_events: 0,
            last_touch: None,
            last_action: "READY",
            battery_mv: None,
            battery_adc_raw: None,
            battery_adc_mv: None,
            battery_adc_zero_count: 0,
            battery_empty_mv: 3000,
            battery_full_mv: 4200,
            battery_cal_status: "DEFAULT",
            battery_source_label: BATTERY_SOURCE_UNAVAILABLE,
            sd_present: false,
            sd_capacity_mb: None,
            sd_free_mb: None,
            wifi_count: None,
            wifi_connected: false,
            wifi_ssid: None,
            flash_mib: BOARD_FLASH_MIB,
            psram_mib: BOARD_PSRAM_MIB,
            backlight_percent: 100,
            i2c_ok: false,
            touch_ready: false,
            rtc_ready: false,
            home: HomeState::new(),
            weather: WeatherState::new(),
            music: MusicState::new(),
            assistant: AssistantState::new(),
            settings: SettingsState::new(),
            time: TimeSyncState::new(),
        }
    }

    /// Shows `page`, counting a navigation when it differs from the current
    /// page.
    pub fn set_page(&mut self, page: AssistantPage)
        ensures
            *final(self) == (OnboardModel {
                current_page: page,
                nav_events: if old(self).current_page != page {
                    sat_inc(old(self).nav_events)
                } else {
                    old(self).nav_events
                },
                ..*old(self)
            }),
    {
        if self.current_page != page {
            self.nav_events = self.nav_events.saturating_add(1);
        }
        self.current_page = page;
    }

    pub fn next_page(&mut self)
        ensures
            final(self).current_page == old(self).current_page.next_spec(),
            final(self).nav_events == sat_inc(old(self).nav_events),
            final(self).last_action@ == "NEXT PAGE"@,
            *final(self) == (OnboardModel {
                current_page: final(self).current_page,
                nav_events: final(self).nav_events,
                last_action: final(self).last_action,
                ..*old(self)
            }),
    {
        let next = self.current_page.next();
        proof {
            crate::pages::lemma_next_cycles(old(self).current_page);
        }
        self.set_page(next);
        self.last_action = "NEXT PAGE";
    }

    pub fn previous_page(&mut self)
        ensures
            final(self).current_page == old(self).current_page.previous_spec(),
            final(self).nav_events == sat_inc(old(self).nav_events),
            final(self).last_action@ == "PREV PAGE"@,
            *final(self) == (OnboardModel {
                current_page: final(self).current_page,
                nav_events: final(self).nav_events,
                last_action: final(self).last_action,
                ..*old(self)
            }),
    {
        let previous = self.current_page.previous();
        proof {
            crate::pages::lemma_next_previous_inverse(old(self).current_page);
            crate::pages::lemma_next_cycles(old(self).current_page.previous_spec());
        }
        self.set_page(previous);
        self.last_action = "PREV PAGE";
    }

    pub fn set_probe_status(&mut self, i2c_ok: bool, touch_ready: bool, rtc_ready: bool)
        ensures
            *final(self) == (OnboardModel { i2c_ok, touch_ready, rtc_ready, ..*old(self) }),
    {
        self.i2c_ok = i2c_ok;
        self.touch_ready = touch_ready;
        self.rtc_ready = rtc_ready;
    }

    pub fn update_rtc(&mut self, dt: DateTime)
        ensures
            *final(self) == (OnboardModel { rtc: Some(dt), rtc_ready: true, ..*old(self) }),
    {
        self.rtc = Some(dt);
        self.rtc_ready = true;
    }

    pub fn update_wifi_status(&mut self, count: Option<u16>, connected: bool, ssid: Option<String>)
        ensures
            *final(self) == (OnboardModel {
                wifi_count: count,
                wifi_connected: connected,
                wifi_ssid: ssid,
                ..*old(self)
            }),
    {
        self.wifi_count = count;
        self.wifi_connected = connected;
        self.wifi_ssid = ssid;
    }

    pub fn note_touch(&mut self, x: u16, y: u16, fingers: u8, gesture: u8)
        ensures
            *final(self) == (OnboardModel {
                touch_events: sat_inc(old(self).touch_events),
                last_touch: Some(TouchSnapshot { x, y, fingers, gesture }),
                ..*old(self)
            }),
    {
        self.touch_events = self.touch_events.saturating_add(1);
        self.last_touch = Some(TouchSnapshot { x, y, fingers, gesture });
    }

    pub fn note_button(&mut self, button: ButtonName, kind: ButtonPressKind)
        ensures
            final(self).button_events == sat_inc(old(self).button_events),
            final(self).last_action@ == (match (button, kind) {
                (ButtonName::Boot, _) => "BOOT RSV"@,
                (ButtonName::Power, ButtonPressKind::Short) => "POWER HOME"@,
                (ButtonName::Power, ButtonPressKind::Long) => "POWER MENU"@,
            }),
            *final(self) == (OnboardModel {
                button_events: final(self).button_events,
                last_action: final(self).last_action,
                ..*old(self)
            }),
    {
        self.button_events = self.button_events.saturating_add(1);
        self.last_action = match (button, kind) {
            (ButtonName::Boot, ButtonPressKind::Short) => "BOOT RSV",
            (ButtonName::Boot, ButtonPressKind::Long) => "BOOT RSV",
            (ButtonName::Power, ButtonPressKind::Short) => "POWER HOME",
            (ButtonName::Power, ButtonPressKind::Long) => "POWER MENU",
        };
    }

    pub fn note_intent(&mut self, intent: UiIntent)
        ensures
            final(self).last_action@ == (match intent {
                UiIntent::NextPage => "NEXT PAGE"@,
                UiIntent::PreviousPage => "PREV PAGE"@,
                UiIntent::Select => "SELECT"@,
                UiIntent::SettingsBackToOverview => "SETTINGS BACK"@,
                UiIntent::SettingsNextDetail => "SETTINGS NEXT"@,
                UiIntent::SettingsPreviousDetail => "SETTINGS PREV"@,
                UiIntent::BackHome => "HOME"@,
                UiIntent::AssistantHold => "ASSIST HOLD"@,
                UiIntent::PowerMenu => "POWER MENU"@,
                UiIntent::BootReserved => "BOOT RSV"@,
            }),
            *final(self) == (OnboardModel { last_action: final(self).last_action, ..*old(self) }),
    {
        self.last_action = match intent {
            UiIntent::NextPage => "NEXT PAGE",
            UiIntent::PreviousPage => "PREV PAGE",
            UiIntent::Select => "SELECT",
            UiIntent::SettingsBackToOverview => "SETTINGS BACK",
            UiIntent::SettingsNextDetail => "SETTINGS NEXT",
            UiIntent::SettingsPreviousDetail => "SETTINGS PREV",
            UiIntent::BackHome => "HOME",
            UiIntent::AssistantHold => "ASSIST HOLD",
            UiIntent::PowerMenu => "POWER MENU",
            UiIntent::BootReserved => "BOOT RSV",
        };
    }

    /// `HH:MM`, or `--:--` before the clock is read.
    pub fn rtc_hms(&self) -> (r: String)
        ensures
            r@ == (match self.rtc {
                Some(dt) => dec2(dt.hour as nat) + ":"@ + dec2(dt.minute as nat),
                None => "--:--"@,
            }),
    {
        match self.rtc {
            Some(dt) => {
                let mut s = String::new();
                push_dec2(&mut s, dt.hour as u64);
                push_str(&mut s, ":");
                push_dec2(&mut s, dt.minute as u64);
                s
            },
            None => "--:--".to_owned(),
        }
    }

    /// `HH:MM:SS`, or `--:--:--` before the clock is read.
    pub fn rtc_hms_full(&self) -> (r: String)
        ensures
            r@ == (match self.rtc {
                Some(dt) => dec2(dt.hour as nat) + ":"@ + dec2(dt.minute as nat) + ":"@ + dec2(
                    dt.second as nat,
                ),
                None => "--:--:--"@,
            }),
    {
        match self.rtc {
            Some(dt) => {
                let mut s = String::new();
                push_dec2(&mut s, dt.hour as u64);
                push_str(&mut s, ":");
                push_dec2(&mut s, dt.minute as u64);
                push_str(&mut s, ":");
                push_dec2(&mut s, dt.second as u64);
                s
            },
            None => "--:--:--".to_owned(),
        }
    }

    /// `YYYY-MM-DD`, or `---- -- --` before the clock is read.
    pub fn rtc_ymd(&self) -> (r: String)
        ensures
            r@ == (match self.rtc {
                Some(dt) => dec4((2000 + dt.year) as nat) + "-"@ + dec2(dt.month as nat) + "-"@
                    + dec2(dt.day as nat),
                None => "---- -- --"@,
            }),
    {
        match self.rtc {
            Some(dt) => {
                let mut s = String::new();
                push_dec4(&mut s, 2000 + dt.year as u64);
                push_str(&mut s, "-");
                push_dec2(&mut s, dt.month as u64);
                push_str(&mut s, "-");
                push_dec2(&mut s, dt.day as u64);
                s
            },
            None => "---- -- --".to_owned(),
        }
    }

    pub fn time_source_label(&self) -> (r: &'static str)
        ensures
            r@ == (match self.time.source {
                TimeSource::Unsynced => "UNSYNCED"@,
                TimeSource::Rtc => "RTC"@,
                TimeSource::Ntp => "NTP"@,
            }),
    {
        self.time.source_label()
    }

    pub fn time_sync_label(&self) -> (r: &'static str)
        ensures
            r@ == (match self.time.phase {
                TimeSyncPhase::Idle => "IDLE"@,
                TimeSyncPhase::Waiting => "WAIT"@,
                TimeSyncPhase::Synced => "SYNCED"@,
                TimeSyncPhase::Persisted => "RTC SAVE"@,
                TimeSyncPhase::Failed => "FAILED"@,
            }),
    {
        self.time.status_label()
    }

    pub fn time_error_label(&self) -> (r: &'static str)
        ensures
            r == self.time.last_error,
    {
        self.time.last_error
    }

    pub fn touch_count_text(&self) -> (r: String)
        ensures
            r@ == dec(self.touch_events as nat),
    {
        dec_string(self.touch_events as u64)
    }

    pub fn button_count_text(&self) -> (r: String)
        ensures
            r@ == dec(self.button_events as nat),
    {
        dec_string(self.button_events as u64)
    }

    pub fn nav_count_text(&self) -> (r: String)
        ensures
            r@ == dec(self.nav_events as nat),
    {
        dec_string(self.nav_events as u64)
    }

    /// Stores a battery calibration's voltage curve and status; the ADC
    /// multiplier itself is kept by the caller.
    pub fn set_battery_curve(&mut self, empty_mv: u16, full_mv: u16, status: &'static str)
        ensures
            *final(self) == (OnboardModel {
                battery_empty_mv: empty_mv,
                battery_full_mv: full_mv,
                battery_cal_status: status,
                ..*old(self)
            }),
    {
        self.battery_empty_mv = empty_mv;
        self.battery_full_mv = full_mv;
        self.battery_cal_status = status;
    }

    pub fn battery_cal_status_text(&self) -> (r: &'static str)
        ensures
            r == self.battery_cal_status,
    {
        self.battery_cal_status
    }

    pub fn note_battery_sample(&mut self, raw: u16, adc_mv: u16, battery_mv: u16)
        ensures
            *final(self) == (OnboardModel {
                battery_adc_zero_count: 0,
                battery_adc_raw: Some(raw),
                battery_adc_mv: Some(adc_mv),
                battery_mv: Some(battery_mv),
                battery_source_label: BATTERY_SOURCE_RUST_DIAG,
                ..*old(self)
            }),
    {
        self.note_battery_sample_with_source(raw, adc_mv, battery_mv, BATTERY_SOURCE_RUST_DIAG);
    }

    pub fn note_battery_sample_with_source(
        &mut self,
        raw: u16,
        adc_mv: u16,
        battery_mv: u16,
        source: &'static str,
    )
        ensures
            *final(self) == (OnboardModel {
                battery_adc_zero_count: 0,
                battery_adc_raw: Some(raw),
                battery_adc_mv: Some(adc_mv),
                battery_mv: Some(battery_mv),
                battery_source_label: source,
                ..*old(self)
            }),
    {
        self.battery_adc_zero_count = 0;
        self.battery_adc_raw = Some(raw);
        self.battery_adc_mv = Some(adc_mv);
        self.battery_mv = Some(battery_mv);
        self.battery_source_label = source;
    }

    /// Counts a zero ADC reading (saturating) and returns the count.
    pub fn note_battery_zero_sample(&mut self) -> (r: u8)
        ensures
            r == final(self).battery_adc_zero_count,
            r == (if old(self).battery_adc_zero_count == u8::MAX {
                u8::MAX as int
            } else {
                old(self).battery_adc_zero_count + 1
            }),
            *final(self) == (OnboardModel { battery_adc_zero_count: r, ..*old(self) }),
    {
        self.battery_adc_zero_count = self.battery_adc_zero_count.saturating_add(1);
        self.battery_adc_zero_count
    }

    /// Both the raw reading and its voltage are known and non-zero.
    pub fn battery_has_valid_sample(&self) -> (r: bool)
        ensures
            r == ((self.battery_adc_raw matches Some(raw) && raw > 0) && (
            self.battery_adc_mv matches Some(mv) && mv > 0)),
    {
        let raw = match self.battery_adc_raw {
            Some(v) => v,
            None => 0,
        };
        let mv = match self.battery_adc_mv {
            Some(v) => v,
            None => 0,
        };
        raw > 0 && mv > 0
    }

    pub fn battery_text(&self) -> (r: String)
        ensures
            r@ == (match battery_percent_spec(
                self.battery_mv,
                self.battery_empty_mv,
                self.battery_full_mv,
            ) {
                Some(p) => dec(p as nat) + "%"@,
                None => "--"@,
            }),
    {
        self.battery_home_text()
    }

    /// `{raw}/{mv}mV`, `{raw}/--` or `--`.
    pub fn battery_adc_text(&self) -> (r: String)
        ensures
            r@ == (match (self.battery_adc_raw, self.battery_adc_mv) {
                (Some(raw), Some(mv)) => dec(raw as nat) + "/"@ + dec(mv as nat) + "mV"@,
                (Some(raw), None) => dec(raw as nat) + "/--"@,
                _ => "--"@,
            }),
    {
        match (self.battery_adc_raw, self.battery_adc_mv) {
            (Some(raw), Some(adc_mv)) => {
                let mut s = String::new();
                push_dec(&mut s, raw as u64);
                push_str(&mut s, "/");
                push_dec(&mut s, adc_mv as u64);
                push_str(&mut s, "mV");
                s
            },
            (Some(raw), None) => {
                let mut s = String::new();
                push_dec(&mut s, raw as u64);
                push_str(&mut s, "/--");
                s
            },
            _ => "--".to_owned(),
        }
    }

    pub fn battery_adc_status_text(&self) -> (r: &'static str)
        ensures
            r == (if (self.battery_adc_raw matches Some(raw) && raw > 0) && (
            self.battery_adc_mv matches Some(mv) && mv > 0) {
                BATTERY_ADC_CONFIRMED_TEXT
            } else {
                BATTERY_ADC_MISSING_TEXT
            }),
    {
        if self.battery_has_valid_sample() {
            BATTERY_ADC_CONFIRMED_TEXT
        } else {
            BATTERY_ADC_MISSING_TEXT
        }
    }

    pub fn battery_adc_path_text(&self) -> (r: &'static str)
        ensures
            r == BATTERY_ADC_PATH_TEXT,
    {
        BATTERY_ADC_PATH_TEXT
    }

    pub fn battery_adc_source_text(&self) -> (r: &'static str)
        ensures
            r == self.battery_source_label,
    {
        self.battery_source_label
    }

    pub fn battery_adc_raw_label(&self) -> (r: String)
        ensures
            r@ == (match self.battery_adc_raw {
                Some(raw) => dec(raw as nat),
                None => "--"@,
            }),
    {
        match self.battery_adc_raw {
            Some(raw) => dec_string(raw as u64),
            None => "--".to_owned(),
        }
    }

    pub fn battery_adc_mv_label(&self) -> (r: String)
        ensures
            r@ == (match self.battery_adc_mv {
                Some(mv) => dec(mv as nat) + "mV"@,
                None => "--"@,
            }),
    {
        match self.battery_adc_mv {
            Some(mv) => {
                let mut s = String::new();
                push_dec(&mut s, mv as u64);
                push_str(&mut s, "mV");
                s
            },
            None => "--".to_owned(),
        }
    }

    /// Estimated charge in percent, linear between the empty and full
    /// voltages; `None` without a voltage or with an inverted curve.
    pub fn battery_percent_value(&self) -> (r: Option<u8>)
        ensures
            r == battery_percent_spec(self.battery_mv, self.battery_empty_mv, self.battery_full_mv),
            r matches Some(p) ==> p <= 100,
    {
        let mv = match self.battery_mv {
            Some(v) => v,
            None => {
                return None;
            },
        };
        let empty = self.battery_empty_mv;
        let full = self.battery_full_mv;
        if full <= empty {
            return None;
        }
        if mv <= empty {
            Some(0)
        } else if mv >= full {
            Some(100)
        } else {
            let span = (full - empty) as u32;
            let num = ((mv - empty) as u32) * 100;
            assert(num / span < 100) by (nonlinear_arith)
                requires
                    num == (mv - empty) * 100,
                    span == full - empty,
                    mv < full,
                    empty < mv,
            ;
            let pct = num / span;
            Some(pct as u8)
        }
    }

    /// `{pct}%`, or `--` without an estimate.
    pub fn battery_home_text(&self) -> (r: String)
        ensures
            r@ == (match battery_percent_spec(
                self.battery_mv,
                self.battery_empty_mv,
                self.battery_full_mv,
            ) {
                Some(p) => dec(p as nat) + "%"@,
                None => "--"@,
            }),
    {
        match self.battery_percent_value() {
            Some(pct) => {
                let mut s = String::new();
                push_dec(&mut s, pct as u64);
                push_str(&mut s, "%");
                s
            },
            None => "--".to_owned(),
        }
    }

    pub fn battery_estimate_text(&self) -> (r: &'static str)
        ensures
            r@ == "EST"@,
    {
        "EST"
    }

    /// `{pct}% EST`, or `-- EST`.
    pub fn battery_percent_detail_text(&self) -> (r: String)
        ensures
            r@ == (match battery_percent_spec(
                self.battery_mv,
                self.battery_empty_mv,
                self.battery_full_mv,
            ) {
                Some(p) => dec(p as nat) + "% "@ + "EST"@,
                None => "-- EST"@,
            }),
    {
        match self.battery_percent_value() {
            Some(pct) => {
                let mut s = String::new();
                push_dec(&mut s, pct as u64);
                push_str(&mut s, "% ");
                push_str(&mut s, self.battery_estimate_text());
                s
            },
            None => "-- EST".to_owned(),
        }
    }

    pub fn battery_power_text(&self) -> (r: &'static str)
        ensures
            r@ == "USB/UNKNOWN"@,
    {
        "USB/UNKNOWN"
    }

    pub fn battery_detail_text(&self) -> (r: String)
        ensures
            r@ == (match battery_percent_spec(
                self.battery_mv,
                self.battery_empty_mv,
                self.battery_full_mv,
            ) {
                Some(p) => dec(p as nat) + "% "@ + "EST"@,
                None => "-- EST"@,
            }),
    {
        self.battery_percent_detail_text()
    }

    pub fn wifi_text(&self) -> (r: String)
        ensures
            r@ == (match self.wifi_count {
                Some(c) => dec(c as nat),
                None => "--"@,
            }),
    {
        match self.wifi_count {
            Some(count) => dec_string(count as u64),
            None => "--".to_owned(),
        }
    }

    /// Home-screen Wi-Fi text: the SSID (8 characters), `WIFI`, `AP{n}` or
    /// `OFF`.
    pub fn wifi_home_text(&self) -> (r: String)
        ensures
            r@ == (if self.wifi_connected {
                ssid_shown(self.wifi_ssid, 8, "WIFI"@)
            } else {
                match self.wifi_count {
                    Some(c) => "AP"@ + dec(
                        if c < 99 {
                            c as nat
                        } else {
                            99
                        },
                    ),
                    None => "OFF"@,
                }
            }),
    {
        if self.wifi_connected {
            match &self.wifi_ssid {
                Some(ssid) => {
                    let clipped = clipped_upper_ascii(ssid.as_str(), 8);
                    if !clipped.as_str().is_empty() {
                        return clipped;
                    }
                },
                None => {},
            }
            "WIFI".to_owned()
        } else {
            match self.wifi_count {
                Some(count) => {
                    let mut s = String::new();
                    push_str(&mut s, "AP");
                    push_dec(
                        &mut s,
                        if count < 99 {
                            count as u64
                        } else {
                            99
                        },
                    );
                    s
                },
                None => "OFF".to_owned(),
            }
        }
    }

    pub fn wifi_status_label(&self) -> (r: &'static str)
        ensures
            r@ == (if self.wifi_connected {
                "CONNECTED"@
            } else if self.wifi_count is Some {
                "STA READY"@
            } else {
                "SCAN ERR"@
            }),
    {
        if self.wifi_connected {
            "CONNECTED"
        } else if self.wifi_count.is_some() {
            "STA READY"
        } else {
            "SCAN ERR"
        }
    }

    /// The SSID (12 characters) when connected, else `NOT SET`.
    pub fn wifi_ssid_label(&self) -> (r: String)
        ensures
            r@ == (if self.wifi_connected {
                ssid_shown(self.wifi_ssid, 12, "CONNECTED"@)
            } else {
                "NOT SET"@
            }),
    {
        if self.wifi_connected {
            match &self.wifi_ssid {
                Some(ssid) => {
                    let clipped = clipped_upper_ascii(ssid.as_str(), 12);
                    if !clipped.as_str().is_empty() {
                        return clipped;
                    }
                },
                None => {},
            }
            "CONNECTED".to_owned()
        } else {
            "NOT SET".to_owned()
        }
    }

    /// `{n} AP` (capped at 999), or `-- AP`.
    pub fn wifi_ap_count_label(&self) -> (r: String)
        ensures
            r@ == (match self.wifi_count {
                Some(c) => dec(
                    if c < 999 {
                        c as nat
                    } else {
                        999
                    },
                ) + " AP"@,
                None => "-- AP"@,
            }),
    {
        match self.wifi_count {
            Some(count) => {
                let mut s = String::new();
                push_dec(
                    &mut s,
                    if count < 999 {
                        count as u64
                    } else {
                        999
                    },
                );
                push_str(&mut s, " AP");
                s
            },
            None => "-- AP".to_owned(),
        }
    }

    pub fn wifi_connected_label(&self) -> (r: &'static str)
        ensures
            r@ == (if self.wifi_connected {
                "YES"@
            } else {
                "NO"@
            }),
    {
        if self.wifi_connected {
            "YES"
        } else {
            "NO"
        }
    }

    /// `{weekday} {DD}`, or `--- --`.
    pub fn rtc_day_date(&self) -> (r: String)
        ensures
            r@ == (match self.rtc {
                Some(dt) => weekday_name(weekday_spec(2000 + dt.year, dt.month, dt.day)) + " "@
                    + dec2(dt.day as nat),
                None => "--- --"@,
            }),
    {
        match self.rtc {
            Some(dt) => {
                let year = 2000 + dt.year as i32;
                let mut s = String::new();
                push_str(&mut s, weekday3(year, dt.month, dt.day));
                push_str(&mut s, " ");
                push_dec2(&mut s, dt.day as u64);
                s
            },
            None => "--- --".to_owned(),
        }
    }

    /// `{weekday} {DD} {month}`, or `--- -- ---`.
    pub fn rtc_home_date_text(&self) -> (r: String)
        ensures
            r@ == (match self.rtc {
                Some(dt) => weekday_name(weekday_spec(2000 + dt.year, dt.month, dt.day)) + " "@
                    + dec2(dt.day as nat) + " "@ + month_name(dt.month),
                None => "--- -- ---"@,
            }),
    {
        match self.rtc {
            Some(dt) => {
                let year = 2000 + dt.year as i32;
                let mut s = String::new();
                push_str(&mut s, weekday3(year, dt.month, dt.day));
                push_str(&mut s, " ");
                push_dec2(&mut s, dt.day as u64);
                push_str(&mut s, " ");
                push_str(&mut s, month3(dt.month));
                s
            },
            None => "--- -- ---".to_owned(),
        }
    }

    /// The first condition word found in the weather condition, else the
    /// location.
    pub fn home_weather_condition(&self) -> (r: &str)
        ensures
            r@ == (if contains_seq(self.weather.condition_label@, "CLOUDY"@) {
                "CLOUDY"@
            } else if contains_seq(self.weather.condition_label@, "SUNNY"@) {
                "SUNNY"@
            } else if contains_seq(self.weather.condition_label@, "BREEZY"@) {
                "BREEZY"@
            } else if contains_seq(self.weather.condition_label@, "CLEAR"@) {
                "CLEAR"@
            } else if contains_seq(self.weather.condition_label@, "RAIN"@) {
                "RAIN"@
            } else if contains_seq(self.weather.condition_label@, "STORM"@) {
                "STORM"@
            } else {
                self.weather.location_label@
            }),
    {
        let condition = self.weather.condition_label();
        if str_contains(condition, "CLOUDY") {
            "CLOUDY"
        } else if str_contains(condition, "SUNNY") {
            "SUNNY"
        } else if str_contains(condition, "BREEZY") {
            "BREEZY"
        } else if str_contains(condition, "CLEAR") {
            "CLEAR"
        } else if str_contains(condition, "RAIN") {
            "RAIN"
        } else if str_contains(condition, "STORM") {
            "STORM"
        } else {
            self.weather.location_label()
        }
    }

    /// The shown temperature, or `72F` as a placeholder before any reading.
    pub fn home_weather_temp(&self) -> (r: &str)
        ensures
            r@ == (if self.weather.temperature_label@ == "--"@ {
                "72F"@
            } else {
                self.weather.temperature_label@
            }),
    {
        if str_eq(self.weather.temperature_label(), "--") {
            "72F"
        } else {
            self.weather.temperature_label()
        }
    }

    pub fn sd_text(&self) -> (r: String)
        ensures
            r@ == (if self.sd_present {
                "OK"@
            } else {
                "NO"@
            }),
    {
        if self.sd_present {
            "OK".to_owned()
        } else {
            "NO".to_owned()
        }
    }

    pub fn sd_total_text(&self) -> (r: String)
        ensures
            r@ == size_text_spec(self.sd_capacity_mb),
    {
        size_text(self.sd_capacity_mb)
    }

    pub fn sd_free_text(&self) -> (r: String)
        ensures
            r@ == size_text_spec(self.sd_free_mb),
    {
        size_text(self.sd_free_mb)
    }

    /// `{free}/{total}`.
    pub fn sd_free_total_text(&self) -> (r: String)
        ensures
            r@ == size_text_spec(self.sd_free_mb) + "/"@ + size_text_spec(self.sd_capacity_mb),
    {
        let mut s = self.sd_free_text();
        push_str(&mut s, "/");
        let t = self.sd_total_text();
        push_str(&mut s, t.as_str());
        s
    }

    pub fn backlight_text(&self) -> (r: String)
        ensures
            r@ == dec(self.backlight_percent as nat) + "%"@,
    {
        let mut s = String::new();
        push_dec(&mut s, self.backlight_percent as u64);
        push_str(&mut s, "%");
        s
    }

    pub fn flash_text(&self) -> (r: String)
        ensures
            r@ == dec(self.flash_mib as nat) + "M"@,
    {
        let mut s = String::new();
        push_dec(&mut s, self.flash_mib as u64);
        push_str(&mut s, "M");
        s
    }

    pub fn psram_text(&self) -> (r: String)
        ensures
            r@ == dec(self.psram_mib as nat) + "M"@,
    {
        let mut s = String::new();
        push_dec(&mut s, self.psram_mib as u64);
        push_str(&mut s, "M");
        s
    }
}

} // verus!
