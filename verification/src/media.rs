//! Music and Internet Radio on-screen controls: touch zones, volume steps
//! and the status texts of transport results.

use vstd::prelude::*;
use crate::model::OnboardModel;
use crate::pages::AssistantPage;
use crate::text::str_eq;
use crate::touch::{abs16, TouchSummary};

verus! {

/// A media control.
#[derive(Clone, Copy, Debug, Eq, PartialEq, Structural)]
pub enum MediaControlAction {
    VolumeDown,
    Previous,
    PlayStop,
    Next,
    VolumeUp,
}

/// The parts of a contact the media zones look at.
#[derive(Clone, Copy, Debug)]
pub struct MediaTouch {
    pub end_x: u16,
    pub end_y: u16,
    pub span_x: i16,
    pub span_y: i16,
    pub dx: i16,
    pub dy: i16,
    pub duration_ms: u64,
    pub gesture: u8,
}

/// Row of the side control centres.
pub const CONTROL_Y: i32 = 214;
/// Row of the play button centre.
pub const CENTER_CONTROL_Y: i32 = 216;
/// Radius of a side control.
pub const SIDE_BUTTON_R: i32 = 23;
/// Radius of the play button.
pub const CENTER_BUTTON_R: i32 = 40;
/// Column of the VOL- control.
pub const VOL_DOWN_X: i32 = 35;
/// Column of the previous-track control.
pub const PREV_X: i32 = 92;
/// Column of the play button.
pub const PLAY_X: i32 = 180;
/// Column of the next-track control.
pub const NEXT_X: i32 = 268;
/// Column of the VOL+ control.
pub const VOL_UP_X: i32 = 325;

/// Longest media tap.
pub const TAP_MAX_MS: u64 = 650;
/// Largest movement of a media tap.
pub const TAP_MAX_SPAN_PX: i16 = 28;
/// Horizontal travel that makes a clear swipe.
pub const CLEAR_SWIPE_DX_PX: i16 = 38;
/// Vertical band of the Music controls.
pub const CONTROL_Y_MIN: u16 = 172;
pub const CONTROL_Y_MAX: u16 = 266;

/// `i16::saturating_mul(v, 2)`.
pub open spec fn sat_double16(v: i16) -> int {
    if v * 2 > i16::MAX {
        i16::MAX as int
    } else if v * 2 < i16::MIN {
        i16::MIN as int
    } else {
        v * 2
    }
}

/// A contact short and still enough to press a media control, and not a
/// swipe.
pub open spec fn media_tap_spec(t: MediaTouch) -> bool {
    let adx = abs16(t.dx);
    let ady = abs16(t.dy);
    &&& t.duration_ms <= TAP_MAX_MS
    &&& abs16(t.span_x) <= TAP_MAX_SPAN_PX
    &&& abs16(t.span_y) <= TAP_MAX_SPAN_PX
    &&& !(adx >= CLEAR_SWIPE_DX_PX && adx > sat_double16(ady))
    &&& !((t.gesture == 0x03 || t.gesture == 0x04) && adx >= 20)
}

/// The Music control under a tap, by horizontal band.
pub open spec fn music_control_spec(t: MediaTouch) -> Option<MediaControlAction> {
    if !media_tap_spec(t) || !(CONTROL_Y_MIN <= t.end_y <= CONTROL_Y_MAX) {
        None
    } else if t.end_x <= 64 {
        Some(MediaControlAction::VolumeDown)
    } else if 66 <= t.end_x <= 126 {
        Some(MediaControlAction::Previous)
    } else if 136 <= t.end_x <= 224 {
        Some(MediaControlAction::PlayStop)
    } else if 234 <= t.end_x <= 294 {
        Some(MediaControlAction::Next)
    } else if 296 <= t.end_x <= 359 {
        Some(MediaControlAction::VolumeUp)
    } else {
        None
    }
}

fn abs16_of(v: i16) -> (r: i16)
    ensures
        r == abs16(v),
{
    if v < 0 {
        (-(v as i32)) as i16
    } else {
        v
    }
}

/// Whether a contact is a media tap.
pub fn is_media_control_tap(touch: MediaTouch) -> (r: bool)
    ensures
        r == media_tap_spec(touch),
{
    if touch.duration_ms > TAP_MAX_MS {
        return false;
    }
    if abs16_of(touch.span_x) > TAP_MAX_SPAN_PX || abs16_of(touch.span_y) > TAP_MAX_SPAN_PX {
        return false;
    }
    let abs_dx = abs16_of(touch.dx);
    let abs_dy = abs16_of(touch.dy);
    let doubled: i32 = abs_dy as i32 * 2;
    let sat: i16 = if doubled > i16::MAX as i32 {
        i16::MAX
    } else if doubled < i16::MIN as i32 {
        i16::MIN
    } else {
        doubled as i16
    };
    let clear_horizontal_swipe = abs_dx >= CLEAR_SWIPE_DX_PX && abs_dx > sat;
    if clear_horizontal_swipe {
        return false;
    }
    if (touch.gesture == 0x03 || touch.gesture == 0x04) && abs_dx >= 20 {
        return false;
    }
    true
}

/// The Music control a contact presses, if any.
pub fn action_from_touch(touch: MediaTouch) -> (r: Option<MediaControlAction>)
    ensures
        r == music_control_spec(touch),
{
    if !is_media_control_tap(touch) || !(CONTROL_Y_MIN <= touch.end_y && touch.end_y
        <= CONTROL_Y_MAX) {
        return None;
    }
    let x = touch.end_x;
    if x <= 64 {
        Some(MediaControlAction::VolumeDown)
    } else if 66 <= x && x <= 126 {
        Some(MediaControlAction::Previous)
    } else if 136 <= x && x <= 224 {
        Some(MediaControlAction::PlayStop)
    } else if 234 <= x && x <= 294 {
        Some(MediaControlAction::Next)
    } else if 296 <= x && x <= 359 {
        Some(MediaControlAction::VolumeUp)
    } else {
        None
    }
}

/// Monitor name of a control.
pub fn action_label(action: MediaControlAction) -> (r: &'static str)
    ensures
        r@ == (match action {
            MediaControlAction::VolumeDown => "VOL_DOWN"@,
            MediaControlAction::Previous => "PREV"@,
            MediaControlAction::PlayStop => "PLAY_STOP"@,
            MediaControlAction::Next => "NEXT"@,
            MediaControlAction::VolumeUp => "VOL_UP"@,
        }),
{
    match action {
        MediaControlAction::VolumeDown => "VOL_DOWN",
        MediaControlAction::Previous => "PREV",
        MediaControlAction::PlayStop => "PLAY_STOP",
        MediaControlAction::Next => "NEXT",
        MediaControlAction::VolumeUp => "VOL_UP",
    }
}

/// The media view of a contact summary.
pub fn media_touch_from_summary(summary: &TouchSummary) -> (r: MediaTouch)
    ensures
        r.end_x == summary.end_x,
        r.end_y == summary.end_y,
        r.span_x == summary.span_x,
        r.span_y == summary.span_y,
        r.dx == summary.dx,
        r.dy == summary.dy,
        r.duration_ms == summary.duration_ms,
        r.gesture == summary.gesture,
{
    MediaTouch {
        end_x: summary.end_x,
        end_y: summary.end_y,
        span_x: summary.span_x,
        span_y: summary.span_y,
        dx: summary.dx,
        dy: summary.dy,
        duration_ms: summary.duration_ms,
        gesture: summary.gesture,
    }
}

/// The Internet Radio control under a contact's end point: a volume row
/// above a transport row.
pub open spec fn radio_control_spec(x: u16, y: u16) -> Option<MediaControlAction> {
    if x < 30 || x > 360 {
        None
    } else if 164 <= y <= 216 {
        if 54 <= x <= 150 {
            Some(MediaControlAction::VolumeDown)
        } else if 230 <= x <= 336 {
            Some(MediaControlAction::VolumeUp)
        } else {
            None
        }
    } else if 224 <= y <= 286 {
        if 44 <= x <= 128 {
            Some(MediaControlAction::Previous)
        } else if 134 <= x <= 246 {
            Some(MediaControlAction::PlayStop)
        } else if 252 <= x <= 346 {
            Some(MediaControlAction::Next)
        } else {
            None
        }
    } else {
        None
    }
}

/// The Internet Radio control a contact presses, if any.
pub fn radio_r7_center_layout_action_from_touch(summary: &TouchSummary) -> (r: Option<
    MediaControlAction,
>)
    ensures
        r == radio_control_spec(summary.end_x, summary.end_y),
{
    let x = summary.end_x;
    let y = summary.end_y;
    if x < 30 || x > 360 {
        return None;
    }
    if 164 <= y && y <= 216 {
        if 54 <= x && x <= 150 {
            return Some(MediaControlAction::VolumeDown);
        }
        if 230 <= x && x <= 336 {
            return Some(MediaControlAction::VolumeUp);
        }
        return None;
    }
    if 224 <= y && y <= 286 {
        if 44 <= x && x <= 128 {
            return Some(MediaControlAction::Previous);
        }
        if 134 <= x && x <= 246 {
            return Some(MediaControlAction::PlayStop);
        }
        if 252 <= x && x <= 346 {
            return Some(MediaControlAction::Next);
        }
    }
    None
}

/// Which player a media contact drives.
#[derive(Clone, Copy, Debug, Eq, PartialEq, Structural)]
pub enum MediaTarget {
    Radio,
    Music,
}

/// The player and control a contact presses on the current page.
pub open spec fn media_press_spec(m: OnboardModel, s: TouchSummary) -> Option<(MediaTarget, MediaControlAction)> {
    if m.current_page == AssistantPage::InternetRadio {
        match radio_control_spec(s.end_x, s.end_y) {
            Some(c) => Some((MediaTarget::Radio, c)),
            None => None,
        }
    } else if m.current_page == AssistantPage::Music {
        match music_control_spec(
            MediaTouch {
                end_x: s.end_x,
                end_y: s.end_y,
                span_x: s.span_x,
                span_y: s.span_y,
                dx: s.dx,
                dy: s.dy,
                duration_ms: s.duration_ms,
                gesture: s.gesture,
            },
        ) {
            Some(c) => Some((MediaTarget::Music, c)),
            None => None,
        }
    } else {
        None
    }
}

/// The player and control a contact presses on the current page, if any.
pub fn media_press(model: &OnboardModel, summary: &TouchSummary) -> (r: Option<
    (MediaTarget, MediaControlAction),
>)
    ensures
        r == media_press_spec(*model, *summary),
{
    if model.current_page == AssistantPage::InternetRadio {
        match radio_r7_center_layout_action_from_touch(summary) {
            Some(c) => Some((MediaTarget::Radio, c)),
            None => None,
        }
    } else if model.current_page == AssistantPage::Music {
        match action_from_touch(media_touch_from_summary(summary)) {
            Some(c) => Some((MediaTarget::Music, c)),
            None => None,
        }
    } else {
        None
    }
}

/// One volume step down: five points, not below zero.
pub open spec fn volume_down_spec(v: u8) -> u8 {
    if v < 5 {
        0
    } else {
        (v - 5) as u8
    }
}

/// One volume step up: five points, at most 100.
pub open spec fn volume_up_spec(v: u8) -> u8 {
    if v + 5 > 100 {
        100
    } else {
        (v + 5) as u8
    }
}

/// Lowers the settings volume by one step and returns it.
pub fn volume_step_down(model: &mut OnboardModel) -> (r: u8)
    ensures
        r == volume_down_spec(old(model).settings.volume_percent),
        final(model).settings.volume_percent == r,
        final(model).settings == (crate::settings::SettingsState {
            volume_percent: r,
            ..old(model).settings
        }),
        *final(model) == (OnboardModel { settings: final(model).settings, ..*old(model) }),
{
    model.settings.volume_percent = model.settings.volume_percent.saturating_sub(5);
    model.settings.volume_percent
}

/// Raises the settings volume by one step (capped at 100) and returns it.
pub fn volume_step_up(model: &mut OnboardModel) -> (r: u8)
    ensures
        r == volume_up_spec(old(model).settings.volume_percent),
        final(model).settings == (crate::settings::SettingsState {
            volume_percent: r,
            ..old(model).settings
        }),
        *final(model) == (OnboardModel { settings: final(model).settings, ..*old(model) }),
{
    let raised = model.settings.volume_percent.saturating_add(5);
    model.settings.volume_percent = if raised > 100 {
        100
    } else {
        raised
    };
    model.settings.volume_percent
}

/// Volume steps stay within 0..=100 from any level within it, a step up
/// never lowers and a step down never raises the volume, and a step down
/// undoes a step up from at most 95.
pub proof fn lemma_volume_steps(v: u8)
    requires
        v <= 100,
    ensures
        volume_up_spec(v) <= 100,
        volume_down_spec(v) <= 100,
        volume_up_spec(v) >= v,
        volume_down_spec(v) <= v,
        v <= 95 ==> volume_down_spec(volume_up_spec(v)) == v,
        v >= 5 ==> volume_up_spec(volume_down_spec(v)) == v,
{
}

/// Status text shown for a radio transport result.
pub open spec fn radio_status_spec(action: Seq<char>) -> Seq<char> {
    if action == "RadioPlay"@ {
        "RADIO PLAY"@
    } else if action == "RadioStop"@ {
        "RADIO STOP"@
    } else if action == "RadioStopping"@ {
        "RADIO STOPPING"@
    } else if action == "RadioNext"@ {
        "RADIO NEXT"@
    } else if action == "RadioPrev"@ {
        "RADIO PREV"@
    } else if action == "RadioVolDown"@ {
        "RADIO VOL -"@
    } else if action == "RadioVolUp"@ {
        "RADIO VOL +"@
    } else if action == "RadioNoStations"@ {
        "RADIO NO STATIONS"@
    } else {
        "RADIO"@
    }
}

/// Status text shown for a music transport result.
pub open spec fn audio_status_spec(action: Seq<char>) -> Seq<char> {
    if action == "AudioPlay"@ {
        "AUDIO PLAY"@
    } else if action == "AudioStop"@ {
        "AUDIO STOP"@
    } else if action == "AudioNext"@ {
        "AUDIO NEXT"@
    } else if action == "AudioPrev"@ {
        "AUDIO PREV"@
    } else if action == "AudioVolDown"@ {
        "AUDIO VOL -"@
    } else if action == "AudioVolUp"@ {
        "AUDIO VOL +"@
    } else if action == "AudioMp3ProbeOnly"@ {
        "AUDIO MP3 PROBE"@
    } else {
        "AUDIO"@
    }
}

/// Status text for a radio transport result.
pub fn radio_action_status(action: &str) -> (r: &'static str)
    ensures
        r@ == radio_status_spec(action@),
{
    if str_eq(action, "RadioPlay") {
        "RADIO PLAY"
    } else if str_eq(action, "RadioStop") {
        "RADIO STOP"
    } else if str_eq(action, "RadioStopping") {
        "RADIO STOPPING"
    } else if str_eq(action, "RadioNext") {
        "RADIO NEXT"
    } else if str_eq(action, "RadioPrev") {
        "RADIO PREV"
    } else if str_eq(action, "RadioVolDown") {
        "RADIO VOL -"
    } else if str_eq(action, "RadioVolUp") {
        "RADIO VOL +"
    } else if str_eq(action, "RadioNoStations") {
        "RADIO NO STATIONS"
    } else {
        "RADIO"
    }
}

/// Status text for a music transport result.
pub fn audio_action_status(action: &str) -> (r: &'static str)
    ensures
        r@ == audio_status_spec(action@),
{
    if str_eq(action, "AudioPlay") {
        "AUDIO PLAY"
    } else if str_eq(action, "AudioStop") {
        "AUDIO STOP"
    } else if str_eq(action, "AudioNext") {
        "AUDIO NEXT"
    } else if str_eq(action, "AudioPrev") {
        "AUDIO PREV"
    } else if str_eq(action, "AudioVolDown") {
        "AUDIO VOL -"
    } else if str_eq(action, "AudioVolUp") {
        "AUDIO VOL +"
    } else if str_eq(action, "AudioMp3ProbeOnly") {
        "AUDIO MP3 PROBE"
    } else {
        "AUDIO"
    }
}

/// Status text for the center select of the radio page (play, stop or no
/// stations).
pub open spec fn radio_center_status_spec(action: Seq<char>) -> Seq<char> {
    if action == "RadioPlay"@ {
        "RADIO PLAY"@
    } else if action == "RadioStop"@ {
        "RADIO STOP"@
    } else if action == "RadioNoStations"@ {
        "RADIO NO STATIONS"@
    } else {
        "RADIO"@
    }
}

/// Status text for the center select of the music page.
pub open spec fn music_center_status_spec(action: Seq<char>) -> Seq<char> {
    if action == "AudioPlay"@ {
        "AUDIO PLAY"@
    } else if action == "AudioStop"@ {
        "AUDIO STOP"@
    } else if action == "AudioMp3ProbeOnly"@ {
        "AUDIO MP3 PROBE"@
    } else {
        "AUDIO"@
    }
}

/// Records the result of the radio page's center select.
pub fn audio_r33_radio_center_action(model: &mut OnboardModel, action: &str)
    ensures
        final(model).last_action@ == radio_center_status_spec(action@),
        *final(model) == (OnboardModel { last_action: final(model).last_action, ..*old(model) }),
{
    model.last_action = if str_eq(action, "RadioPlay") {
        "RADIO PLAY"
    } else if str_eq(action, "RadioStop") {
        "RADIO STOP"
    } else if str_eq(action, "RadioNoStations") {
        "RADIO NO STATIONS"
    } else {
        "RADIO"
    };
}

/// Records the result of the music page's center select.
pub fn audio_r33_music_center_action(model: &mut OnboardModel, action: &str)
    ensures
        final(model).last_action@ == music_center_status_spec(action@),
        *final(model) == (OnboardModel { last_action: final(model).last_action, ..*old(model) }),
{
    model.last_action = if str_eq(action, "AudioPlay") {
        "AUDIO PLAY"
    } else if str_eq(action, "AudioStop") {
        "AUDIO STOP"
    } else if str_eq(action, "AudioMp3ProbeOnly") {
        "AUDIO MP3 PROBE"
    } else {
        "AUDIO"
    };
}

} // verus!
