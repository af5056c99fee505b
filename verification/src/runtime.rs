//! Decisions of the firmware's event loop: screen sleep and wake, when the
//! periodic services run, when the screen must be redrawn, and the time
//! synchronisation steps. The loop itself, which talks to the hardware, runs
//! outside the library and feeds these functions the clock and the readings.

use vstd::prelude::*;
use crate::drivers::pcf85063::DateTime;
use crate::model::OnboardModel;
use crate::pages::AssistantPage;
use crate::settings::SettingsPanel;
use crate::time::{TimeSyncPhase, TimeSyncState};
use crate::touch::{tracker_cleared, TouchTracker};

verus! {

/// The screen sleeps after this long without input.
pub const SCREEN_SLEEP_IDLE_MS: u64 = 120_000;
/// After a wake, touches are ignored for this long.
pub const SCREEN_WAKE_GUARD_MS: u64 = 700;
/// Poll periods.
pub const TOUCH_POLL_MS: u64 = 8;
pub const BUTTON_POLL_MS: u64 = 25;
pub const RTC_REFRESH_MS: u64 = 1_000;
pub const BATTERY_REFRESH_MS: u64 = 5_000;
pub const WIFI_REFRESH_MS: u64 = 30_000;
pub const WIFI_CONNECT_POLL_MS: u64 = 1_000;
pub const TIME_SYNC_POLL_MS: u64 = 1_000;
pub const TIME_SYNC_TIMEOUT_MS: u64 = 45_000;
pub const RENDER_MIN_INTERVAL_MS: u64 = 80;

/// Milliseconds from `since` to `now`, zero if `now` is earlier.
pub open spec fn since_spec(now: u64, since: u64) -> u64 {
    if now >= since {
        (now - since) as u64
    } else {
        0
    }
}

/// Milliseconds from `since` to `now`, zero if `now` is earlier.
pub fn elapsed_ms(now: u64, since: u64) -> (r: u64)
    ensures
        r == since_spec(now, since),
{
    if now >= since {
        now - since
    } else {
        0
    }
}

/// Why the screen went to sleep.
#[derive(Debug, Clone, Copy, PartialEq, Eq, Structural)]
pub enum SleepSource {
    Idle,
    CornerHold,
    SettingsSleepNow,
}

/// What a touch-interrupt poll did while the screen sleeps.
#[derive(Debug, Clone, Copy, PartialEq, Eq, Structural)]
pub enum SleepPoll {
    /// Still asleep.
    Asleep,
    /// The finger that sent the screen to sleep was lifted; the next touch
    /// wakes.
    ReleaseSeen,
    /// Woken: turn the backlight on and redraw.
    Woke,
}

/// Sleep and wake state of the screen.
#[derive(Debug, Clone, Copy)]
pub struct ScreenState {
    pub sleeping: bool,
    pub wake_guard_until: Option<u64>,
    pub wait_touch_release: bool,
    pub last_user_activity: u64,
}

impl ScreenState {
    /// Awake, with input just seen at `now`.
    pub fn new(now: u64) -> (r: Self)
        ensures
            !r.sleeping,
            r.wake_guard_until is None,
            !r.wait_touch_release,
            r.last_user_activity == now,
    {
        ScreenState {
            sleeping: false,
            wake_guard_until: None,
            wait_touch_release: false,
            last_user_activity: now,
        }
    }

    /// Records user input at `now`.
    pub fn note_activity(&mut self, now: u64)
        ensures
            *final(self) == (ScreenState { last_user_activity: now, ..*old(self) }),
    {
        self.last_user_activity = now;
    }

    /// Ends the wake guard once its time has come; returns whether it ended.
    pub fn release_guard_if_due(&mut self, now: u64) -> (r: bool)
        ensures
            r == (old(self).wake_guard_until matches Some(d) && now >= d),
            *final(self) == (if r {
                ScreenState { wake_guard_until: None, ..*old(self) }
            } else {
                *old(self)
            }),
    {
        match self.wake_guard_until {
            Some(d) => {
                if now >= d {
                    self.wake_guard_until = None;
                    true
                } else {
                    false
                }
            },
            None => false,
        }
    }

    /// The screen is awake, no contact is in progress, and input has been
    /// missing for the idle time.
    pub fn idle_sleep_due(&self, now: u64, touch_active: bool) -> (r: bool)
        ensures
            r == (!self.sleeping && !touch_active && since_spec(now, self.last_user_activity)
                >= SCREEN_SLEEP_IDLE_MS),
    {
        !self.sleeping && !touch_active && elapsed_ms(now, self.last_user_activity)
            >= SCREEN_SLEEP_IDLE_MS
    }

    /// Puts the screen to sleep: the contact in progress is dropped and the
    /// status shows `SCREEN SLEEP`. A sleep from a touch (corner hold or
    /// Sleep Now) counts as input and waits for the finger to lift before a
    /// touch can wake the screen. The caller turns the backlight off and
    /// pauses rendering.
    pub fn sleep(
        &mut self,
        source: SleepSource,
        now: u64,
        model: &mut OnboardModel,
        tracker: &mut TouchTracker,
    )
        ensures
            final(self).sleeping,
            final(self).wake_guard_until is None,
            final(self).wait_touch_release == (source != SleepSource::Idle),
            final(self).last_user_activity == (if source == SleepSource::Idle {
                old(self).last_user_activity
            } else {
                now
            }),
            *final(tracker) == tracker_cleared(*old(tracker)),
            final(tracker).wf(),
            final(model).last_action@ == "SCREEN SLEEP"@,
            *final(model) == (OnboardModel { last_action: final(model).last_action, ..*old(model) }),
    {
        self.sleeping = true;
        self.wake_guard_until = None;
        self.wait_touch_release = match source {
            SleepSource::Idle => false,
            _ => true,
        };
        match source {
            SleepSource::Idle => {},
            _ => {
                self.last_user_activity = now;
            },
        }
        tracker.reset_fields();
        model.last_action = "SCREEN SLEEP";
    }

    /// A touch-interrupt poll while asleep (`touch_low` when a finger is
    /// down). After a touch-made sleep the finger must first lift; then a
    /// touch wakes the screen, opens the wake guard (touches are ignored
    /// until it ends) and counts as input.
    pub fn poll_while_sleeping(
        &mut self,
        now: u64,
        touch_low: bool,
        model: &mut OnboardModel,
        tracker: &mut TouchTracker,
    ) -> (r: SleepPoll)
        requires
            old(self).sleeping,
            now + SCREEN_WAKE_GUARD_MS <= u64::MAX,
        ensures
            old(self).wait_touch_release ==> (if !touch_low {
                r == SleepPoll::ReleaseSeen && *final(self) == ScreenState {
                    wait_touch_release: false,
                    ..*old(self)
                }
            } else {
                r == SleepPoll::Asleep && *final(self) == *old(self)
            }) && *final(model) == *old(model) && *final(tracker) == *old(tracker),
            !old(self).wait_touch_release ==> (if touch_low {
                &&& r == SleepPoll::Woke
                &&& !final(self).sleeping
                &&& final(self).wake_guard_until == Some((now + SCREEN_WAKE_GUARD_MS) as u64)
                &&& final(self).last_user_activity == now
                &&& !final(self).wait_touch_release
                &&& *final(tracker) == tracker_cleared(*old(tracker))
                &&& final(model).last_action@ == "SCREEN WAKE"@
                &&& *final(model) == (OnboardModel {
                    last_action: final(model).last_action,
                    ..*old(model)
                })
            } else {
                r == SleepPoll::Asleep && *final(self) == *old(self) && *final(model)
                    == *old(model) && *final(tracker) == *old(tracker)
            }),
    {
        if self.wait_touch_release {
            if !touch_low {
                self.wait_touch_release = false;
                return SleepPoll::ReleaseSeen;
            }
            return SleepPoll::Asleep;
        }
        if touch_low {
            self.sleeping = false;
            self.wake_guard_until = Some(now + SCREEN_WAKE_GUARD_MS);
            self.last_user_activity = now;
            tracker.reset_fields();
            model.last_action = "SCREEN WAKE";
            return SleepPoll::Woke;
        }
        SleepPoll::Asleep
    }

    /// A touch-interrupt poll during the wake guard: any contact in
    /// progress is dropped (no navigation), a finger counts as input.
    pub fn poll_during_guard(&mut self, now: u64, touch_low: bool, tracker: &mut TouchTracker)
        ensures
            *final(tracker) == (if old(tracker).active {
                tracker_cleared(*old(tracker))
            } else {
                *old(tracker)
            }),
            *final(self) == (if touch_low {
                ScreenState { last_user_activity: now, ..*old(self) }
            } else {
                *old(self)
            }),
    {
        if tracker.active {
            tracker.reset_fields();
        }
        if touch_low {
            self.last_user_activity = now;
        }
    }
}

/// Poll `last` is due `period` milliseconds after it ran.
pub fn poll_due(now: u64, last: u64, period: u64) -> (r: bool)
    ensures
        r == (since_spec(now, last) >= period),
{
    elapsed_ms(now, last) >= period
}

/// Wi-Fi is polled every second while a connect is pending, every 30 s
/// otherwise.
pub fn wifi_poll_due(now: u64, last_wifi: u64, connect_pending: bool) -> (r: bool)
    ensures
        r == (since_spec(now, last_wifi) >= (if connect_pending {
            WIFI_CONNECT_POLL_MS
        } else {
            WIFI_REFRESH_MS
        })),
{
    if connect_pending {
        elapsed_ms(now, last_wifi) >= WIFI_CONNECT_POLL_MS
    } else {
        elapsed_ms(now, last_wifi) >= WIFI_REFRESH_MS
    }
}

/// Renders only when something changed, rendering is allowed, and the last
/// frame is old enough.
pub fn render_due(dirty: bool, allow_render: bool, now: u64, last_render: u64) -> (r: bool)
    ensures
        r == (dirty && allow_render && since_spec(now, last_render) >= RENDER_MIN_INTERVAL_MS),
{
    dirty && allow_render && elapsed_ms(now, last_render) >= RENDER_MIN_INTERVAL_MS
}

/// A clock reading redraws the Home page when the minute changed.
pub fn rtc_redraw_needed(page: AssistantPage, previous: Option<DateTime>, dt: DateTime) -> (r: bool)
    ensures
        r == (page == AssistantPage::Home && (match previous {
            Some(p) => p.minute != dt.minute,
            None => true,
        })),
{
    page == AssistantPage::Home && match previous {
        Some(p) => p.minute != dt.minute,
        None => true,
    }
}

/// Wi-Fi status is on screen on Home and on the Network settings panel.
pub fn wifi_visible(model: &OnboardModel) -> (r: bool)
    ensures
        r == (model.current_page == AssistantPage::Home || (model.current_page
            == AssistantPage::Settings && model.settings.selected == SettingsPanel::Network)),
{
    model.current_page == AssistantPage::Home || (model.current_page == AssistantPage::Settings
        && model.settings.selected == SettingsPanel::Network)
}

/// The time sync step runs with no contact in progress, Wi-Fi connected,
/// the sync neither saved nor failed, and its poll due.
pub fn time_sync_due(model: &OnboardModel, touch_active: bool, now: u64, last_time_sync: u64) -> (r:
    bool)
    ensures
        r == (!touch_active && model.wifi_connected && model.time.phase != TimeSyncPhase::Persisted
            && model.time.phase != TimeSyncPhase::Failed && since_spec(now, last_time_sync)
            >= TIME_SYNC_POLL_MS),
{
    !touch_active && model.wifi_connected && model.time.phase != TimeSyncPhase::Persisted
        && model.time.phase != TimeSyncPhase::Failed && elapsed_ms(now, last_time_sync)
        >= TIME_SYNC_POLL_MS
}

/// Starts an SNTP wait if the sync state asks for one; returns whether the
/// caller must start SNTP. The sync must finish within the timeout.
pub fn time_sync_begin(time: &mut TimeSyncState, deadline: &mut Option<u64>, now: u64) -> (r: bool)
    requires
        now + TIME_SYNC_TIMEOUT_MS <= u64::MAX,
    ensures
        r == old(time).should_start_spec(),
        r ==> final(time).phase == TimeSyncPhase::Waiting && final(time).attempts
            == crate::assistant::sat_inc(old(time).attempts) && *final(deadline) == Some(
            (now + TIME_SYNC_TIMEOUT_MS) as u64,
        ),
        !r ==> *final(time) == *old(time) && *final(deadline) == *old(deadline),
{
    if time.should_start_after_wifi() {
        time.start_sntp_wait();
        *deadline = Some(now + TIME_SYNC_TIMEOUT_MS);
        true
    } else {
        false
    }
}

/// What the caller learned after SNTP reported synchronised.
#[derive(Debug, Clone, Copy)]
pub enum SyncedClock {
    /// The local time could not be read.
    NoLocalTime,
    /// Writing the RTC failed.
    RtcWriteFailed,
    /// The RTC now holds this time.
    Persisted(DateTime),
}

/// Applies an SNTP poll: when synchronised, the result of saving the
/// clock; otherwise a passed deadline fails the sync with `SNTP TIMEOUT`.
pub fn time_sync_poll(
    model: &mut OnboardModel,
    deadline: &mut Option<u64>,
    now: u64,
    synced: Option<SyncedClock>,
)
    ensures
        match synced {
            Some(SyncedClock::Persisted(dt)) => final(model).rtc == Some(dt) && final(model).rtc_ready
                && final(model).time.phase == TimeSyncPhase::Persisted && final(model).time.rtc_persisted
                && *final(deadline) == None::<u64>,
            Some(SyncedClock::RtcWriteFailed) => final(model).time.phase == TimeSyncPhase::Failed
                && final(model).time.last_error@ == "RTC WRITE"@ && *final(deadline) == None::<u64>,
            Some(SyncedClock::NoLocalTime) => final(model).time.phase == TimeSyncPhase::Failed
                && final(model).time.last_error@ == "LOCALTIME"@ && *final(deadline) == None::<u64>,
            None => match *old(deadline) {
                Some(d) => if now >= d {
                    final(model).time.phase == TimeSyncPhase::Failed && final(model).time.last_error@
                        == "SNTP TIMEOUT"@ && *final(deadline) == None::<u64>
                } else {
                    *final(model) == *old(model) && *final(deadline) == *old(deadline)
                },
                None => *final(model) == *old(model) && *final(deadline) == *old(deadline),
            },
        },
        final(model).current_page == old(model).current_page,
        final(model).settings == old(model).settings,
{
    match synced {
        Some(result) => {
            model.time.note_sntp_synced();
            match result {
                SyncedClock::Persisted(dt) => {
                    model.update_rtc(dt);
                    model.time.note_rtc_persisted();
                },
                SyncedClock::RtcWriteFailed => {
                    model.time.note_failed("RTC WRITE");
                },
                SyncedClock::NoLocalTime => {
                    model.time.note_failed("LOCALTIME");
                },
            }
            *deadline = None;
        },
        None => {
            match *deadline {
                Some(d) => {
                    if now >= d {
                        model.time.note_failed("SNTP TIMEOUT");
                        *deadline = None;
                    }
                },
                None => {},
            }
        },
    }
}

/// A time sync step redraws Home, an open settings detail, or any page when
/// the sync phase changed.
pub fn time_sync_redraw_needed(model: &OnboardModel, previous_phase: TimeSyncPhase) -> (r: bool)
    ensures
        r == (model.current_page == AssistantPage::Home || (model.current_page
            == AssistantPage::Settings && model.settings.detail_open) || previous_phase
            != model.time.phase),
{
    model.current_page == AssistantPage::Home || (model.current_page == AssistantPage::Settings
        && model.settings.detail_open) || previous_phase != model.time.phase
}

} // verus!
