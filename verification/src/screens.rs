//! Parts of the page screens: the assistant badges and the music
//! transport and progress rows.

use vstd::prelude::*;
use crate::render::{
    centered_text_painted, circle_painted, draw_text_centered_at, fill_circle, fill_rect,
    rect_painted, stroke_circle, PIXELS, ACCENT_ASSISTANT, ACCENT_MUSIC_BLUE, ACCENT_WEATHER,
    BG, BG_DARK, RING_DIM, SOFT, WHITE,
};
use crate::shapes::{
    draw_line, fill_play_triangle, fill_rounded_rect, line_painted, rounded_rect_painted,
    stroke_rect, stroke_rect_painted, triangle_painted,
};
use crate::widgets::{
    at_ok, draw_skip_icon, draw_timeline_cloud_icon, draw_timeline_partly_cloudy_icon,
    draw_timeline_rain_icon, draw_timeline_storm_icon, draw_timeline_sun_icon,
    draw_timeline_wind_icon, skip_icon_painted, timeline_cloud_painted,
    timeline_partly_cloudy_painted, timeline_rain_painted, timeline_storm_painted,
    timeline_sun_painted, timeline_wind_painted,
};
use crate::screen_text::{
    fallback_timeline_entries, fallback_timeline_spec, mini_icon_from_weather_code,
    mini_icon_spec, renders_view, WeatherHourRender, WeatherMiniIcon,
};
use crate::weather::WeatherHourSlot;
use crate::media::{
    CENTER_BUTTON_R, CENTER_CONTROL_Y, CONTROL_Y, NEXT_X, PLAY_X, PREV_X, SIDE_BUTTON_R,
    VOL_DOWN_X, VOL_UP_X,
};

verus! {

/// The assistant's robot badge: a ringed disc (accent ring while
/// listening), a rounded face with an outline, two eyes and an antenna.
pub open spec fn robot_badge_painted(f: Seq<u16>, cx: int, cy: int, listening: bool) -> Seq<u16> {
    let outer = if listening { ACCENT_ASSISTANT } else { RING_DIM };
    let a = circle_painted(f, cx, cy, 25, false, 0x192A);
    let b = circle_painted(a, cx, cy, 25, true, outer);
    let c = rounded_rect_painted(b, cx - 15, cy - 11, 30, 22, 8, BG_DARK);
    let d = stroke_rect_painted(c, cx - 15, cy - 11, 30, 22, WHITE);
    let e = circle_painted(d, cx - 7, cy, 3, false, ACCENT_ASSISTANT);
    let g = circle_painted(e, cx + 7, cy, 3, false, ACCENT_ASSISTANT);
    let h = line_painted(g, cx, cy - 16, cx, cy - 12, WHITE);
    circle_painted(h, cx, cy - 18, 2, false, WHITE)
}

/// Draws the assistant's robot badge around `(cx, cy)`.
pub fn draw_assistant_robot_badge(frame: &mut Vec<u16>, cx: i32, cy: i32, listening: bool)
    requires
        old(frame)@.len() == PIXELS,
        at_ok(cx as int, cy as int),
    ensures
        final(frame)@ == robot_badge_painted(old(frame)@, cx as int, cy as int, listening),
        final(frame)@.len() == PIXELS,
{
    let outer = if listening { ACCENT_ASSISTANT } else { RING_DIM };
    fill_circle(frame, cx, cy, 25, 0x192A);
    stroke_circle(frame, cx, cy, 25, outer);
    fill_rounded_rect(frame, cx - 15, cy - 11, 30, 22, 8, BG_DARK);
    stroke_rect(frame, cx - 15, cy - 11, 30, 22, WHITE);
    fill_circle(frame, cx - 7, cy, 3, ACCENT_ASSISTANT);
    fill_circle(frame, cx + 7, cy, 3, ACCENT_ASSISTANT);
    draw_line(frame, cx, cy - 16, cx, cy - 12, WHITE);
    fill_circle(frame, cx, cy - 18, 2, WHITE);
}

/// The assistant orb: a dark disc with an outer ring in `color`, an inner
/// grey ring eight pixels in, and a centre dot.
pub open spec fn orb_painted(f: Seq<u16>, cx: int, cy: int, r: int, color: u16) -> Seq<u16> {
    let a = circle_painted(f, cx, cy, r, false, BG_DARK);
    let b = circle_painted(a, cx, cy, r, true, color);
    let c = circle_painted(b, cx, cy, r - 8, true, SOFT);
    circle_painted(c, cx, cy, 4, false, color)
}

/// Draws the assistant orb of radius `r` around `(cx, cy)`.
pub fn draw_assistant_orb(frame: &mut Vec<u16>, cx: i32, cy: i32, r: i32, color: u16)
    requires
        old(frame)@.len() == PIXELS,
        i32::MIN + 8 <= r,
    ensures
        final(frame)@ == orb_painted(old(frame)@, cx as int, cy as int, r as int, color),
        final(frame)@.len() == PIXELS,
{
    fill_circle(frame, cx, cy, r, BG_DARK);
    stroke_circle(frame, cx, cy, r, color);
    stroke_circle(frame, cx, cy, r - 8, SOFT);
    fill_circle(frame, cx, cy, 4, color);
}

/// A side control of the transport row: a dark disc ringed in the music
/// blue.
pub open spec fn side_button_painted(f: Seq<u16>, cx: int) -> Seq<u16> {
    let a = circle_painted(f, cx, 214, 23, false, BG_DARK);
    circle_painted(a, cx, 214, 23, true, ACCENT_MUSIC_BLUE)
}

/// The transport row: VOL-, previous, next and VOL+ side buttons, and the
/// large centre button with a pause sign while playing or a play triangle.
pub open spec fn transport_controls_painted(f: Seq<u16>, playing: bool) -> Seq<u16> {
    let a = side_button_painted(f, 35);
    let b = centered_text_painted(a, 35, 217, "VOL-"@, WHITE, 1);
    let c = side_button_painted(b, 92);
    let d = skip_icon_painted(c, 92, 214, false, WHITE);
    let e = side_button_painted(d, 268);
    let g = skip_icon_painted(e, 268, 214, true, WHITE);
    let h = side_button_painted(g, 325);
    let i = centered_text_painted(h, 325, 217, "VOL+"@, WHITE, 1);
    let j = circle_painted(i, 180, 216, 40, false, BG_DARK);
    let k = circle_painted(j, 180, 216, 41, true, ACCENT_MUSIC_BLUE);
    let l = circle_painted(k, 180, 216, 35, true, RING_DIM);
    if playing {
        let m = rounded_rect_painted(l, 170, 195, 8, 42, 4, WHITE);
        rounded_rect_painted(m, 186, 195, 8, 42, 4, WHITE)
    } else {
        triangle_painted(l, 183, 216, 40, false, WHITE)
    }
}

fn draw_side_button(frame: &mut Vec<u16>, cx: i32)
    requires
        old(frame)@.len() == PIXELS,
    ensures
        final(frame)@ == side_button_painted(old(frame)@, cx as int),
        final(frame)@.len() == PIXELS,
{
    fill_circle(frame, cx, CONTROL_Y, SIDE_BUTTON_R, BG_DARK);
    stroke_circle(frame, cx, CONTROL_Y, SIDE_BUTTON_R, ACCENT_MUSIC_BLUE);
}

/// Draws the five music controls; their centres match the touch zones.
pub fn draw_music_transport_controls(frame: &mut Vec<u16>, playing: bool)
    requires
        old(frame)@.len() == PIXELS,
    ensures
        final(frame)@ == transport_controls_painted(old(frame)@, playing),
        final(frame)@.len() == PIXELS,
{
    proof {
        reveal_strlit("VOL-");
        reveal_strlit("VOL+");
    }
    draw_side_button(frame, VOL_DOWN_X);
    draw_text_centered_at(frame, VOL_DOWN_X, CONTROL_Y + 3, "VOL-", WHITE, 1);
    draw_side_button(frame, PREV_X);
    draw_skip_icon(frame, PREV_X, CONTROL_Y, false, WHITE);
    draw_side_button(frame, NEXT_X);
    draw_skip_icon(frame, NEXT_X, CONTROL_Y, true, WHITE);
    draw_side_button(frame, VOL_UP_X);
    draw_text_centered_at(frame, VOL_UP_X, CONTROL_Y + 3, "VOL+", WHITE, 1);
    fill_circle(frame, PLAY_X, CENTER_CONTROL_Y, CENTER_BUTTON_R, BG_DARK);
    stroke_circle(frame, PLAY_X, CENTER_CONTROL_Y, CENTER_BUTTON_R + 1, ACCENT_MUSIC_BLUE);
    stroke_circle(frame, PLAY_X, CENTER_CONTROL_Y, CENTER_BUTTON_R - 5, RING_DIM);
    if playing {
        fill_rounded_rect(frame, PLAY_X - 10, CENTER_CONTROL_Y - 21, 8, 42, 4, WHITE);
        fill_rounded_rect(frame, PLAY_X + 6, CENTER_CONTROL_Y - 21, 8, 42, 4, WHITE);
    } else {
        fill_play_triangle(frame, PLAY_X + 3, CENTER_CONTROL_Y, 40, WHITE);
    }
}

/// Width of the progress fill: the played share of the 136-pixel track.
pub open spec fn progress_fill_width(progress: u8) -> int {
    let p: int = if progress < 100 { progress as int } else { 100 };
    136 * p / 100
}

/// The progress row: elapsed time on the left, duration on the right, the
/// dim track, its filled part (at least 6 pixels) and the knob at its end.
pub open spec fn progress_row_painted(f: Seq<u16>, progress: u8, elapsed: Seq<char>, duration: Seq<char>) -> Seq<u16> {
    let fill = progress_fill_width(progress);
    let w = if fill > 6 { fill } else { 6 };
    let a = centered_text_painted(f, 77, 288, elapsed, ACCENT_MUSIC_BLUE, 2);
    let b = centered_text_painted(a, 285, 288, duration, WHITE, 2);
    let c = rounded_rect_painted(b, 112, 281, 136, 7, 3, RING_DIM);
    let d = rounded_rect_painted(c, 112, 281, w, 7, 3, ACCENT_MUSIC_BLUE);
    circle_painted(d, 112 + w, 284, 7, false, ACCENT_MUSIC_BLUE)
}

/// Draws the progress row of the music and radio screens.
pub fn draw_music_progress_row(frame: &mut Vec<u16>, progress: u8, elapsed: &str, duration: &str)
    requires
        old(frame)@.len() == PIXELS,
    ensures
        final(frame)@ == progress_row_painted(old(frame)@, progress, elapsed@, duration@),
        final(frame)@.len() == PIXELS,
{
    draw_text_centered_at(frame, 77, 288, elapsed, ACCENT_MUSIC_BLUE, 2);
    draw_text_centered_at(frame, 285, 288, duration, WHITE, 2);
    let track_x: i32 = 112;
    let track_y: i32 = 281;
    let track_w: i32 = 136;
    fill_rounded_rect(frame, track_x, track_y, track_w, 7, 3, RING_DIM);
    let p: u16 = if progress < 100 { progress as u16 } else { 100 };
    let fill_w: i32 = ((136u16 * p) / 100) as i32;
    let w: i32 = if fill_w > 6 { fill_w } else { 6 };
    fill_rounded_rect(frame, track_x, track_y, w, 7, 3, ACCENT_MUSIC_BLUE);
    fill_circle(frame, track_x + w, track_y + 3, 7, ACCENT_MUSIC_BLUE);
}

/// The clean base of a Settings detail page: the card and row areas of
/// the baked background cleared to the background colour.
pub open spec fn detail_clean_base_painted(f: Seq<u16>) -> Seq<u16> {
    let a = rounded_rect_painted(f, 62, 88, 236, 66, 24, BG);
    let b = rounded_rect_painted(a, 48, 150, 264, 42, 18, BG);
    let c = rounded_rect_painted(b, 48, 184, 264, 42, 18, BG);
    let d = rounded_rect_painted(c, 48, 218, 264, 42, 18, BG);
    let e = rounded_rect_painted(d, 48, 252, 264, 42, 18, BG);
    rounded_rect_painted(e, 76, 300, 208, 34, 14, BG)
}

/// Clears the card and row areas of a Settings detail page.
pub fn draw_settings_detail_clean_base(frame: &mut Vec<u16>)
    requires
        old(frame)@.len() == PIXELS,
    ensures
        final(frame)@ == detail_clean_base_painted(old(frame)@),
        final(frame)@.len() == PIXELS,
{
    fill_rounded_rect(frame, 62, 88, 236, 66, 24, BG);
    fill_rounded_rect(frame, 48, 150, 264, 42, 18, BG);
    fill_rounded_rect(frame, 48, 184, 264, 42, 18, BG);
    fill_rounded_rect(frame, 48, 218, 264, 42, 18, BG);
    fill_rounded_rect(frame, 48, 252, 264, 42, 18, BG);
    fill_rounded_rect(frame, 76, 300, 208, 34, 14, BG);
}

/// Width of the filled part of a `w`-pixel percent bar.
pub open spec fn percent_fill_width(w: int, percent: u8) -> int {
    let p: int = if percent < 100 { percent as int } else { 100 };
    w * p / 100
}

/// A percent bar: the dim track, its filled part in `accent` and a white
/// knob at the end of the fill.
pub open spec fn percent_bar_painted(f: Seq<u16>, x: int, y: int, w: int, percent: u8, accent: u16) -> Seq<u16> {
    let fill = percent_fill_width(w, percent);
    let a = rounded_rect_painted(f, x, y, w, 8, 4, RING_DIM);
    let b = rounded_rect_painted(a, x, y, fill, 8, 4, accent);
    circle_painted(b, x + fill, y + 4, 8, false, WHITE)
}

/// Draws a percent bar of width `w` at `(x, y)`.
pub fn draw_settings_percent_bar(frame: &mut Vec<u16>, x: i32, y: i32, w: i32, percent: u8, accent: u16)
    requires
        old(frame)@.len() == PIXELS,
        at_ok(x as int, y as int),
        0 <= w <= 21_000_000,
    ensures
        final(frame)@ == percent_bar_painted(old(frame)@, x as int, y as int, w as int, percent, accent),
        final(frame)@.len() == PIXELS,
{
    let pct: i32 = if percent < 100 { percent as i32 } else { 100 };
    assert(0 <= w * pct <= 2_100_000_000) by (nonlinear_arith)
        requires
            0 <= w <= 21_000_000,
            0 <= pct <= 100,
    ;
    let fill_w = (w * pct) / 100;
    assert(fill_w <= w) by (nonlinear_arith)
        requires
            fill_w == (w * pct) / 100,
            0 <= w,
            0 <= pct <= 100,
    ;
    fill_rounded_rect(frame, x, y, w, 8, 4, RING_DIM);
    fill_rounded_rect(frame, x, y, fill_w, 8, 4, accent);
    fill_circle(frame, x + fill_w, y + 4, 8, WHITE);
}

/// The row chevron: two strokes meeting at a point on the right.
pub open spec fn chevron_painted(f: Seq<u16>, cx: int, cy: int, color: u16) -> Seq<u16> {
    let a = line_painted(f, cx - 5, cy - 8, cx + 5, cy, color);
    line_painted(a, cx + 5, cy, cx - 5, cy + 8, color)
}

/// Draws the row chevron around `(cx, cy)`.
pub fn draw_settings_chevron(frame: &mut Vec<u16>, cx: i32, cy: i32, color: u16)
    requires
        old(frame)@.len() == PIXELS,
        at_ok(cx as int, cy as int),
    ensures
        final(frame)@ == chevron_painted(old(frame)@, cx as int, cy as int, color),
        final(frame)@.len() == PIXELS,
{
    draw_line(frame, cx - 5, cy - 8, cx + 5, cy, color);
    draw_line(frame, cx + 5, cy, cx - 5, cy + 8, color);
}

/// The display (brightness) icon: a ring and eight rays.
pub open spec fn settings_sun_painted(f: Seq<u16>, cx: int, cy: int, color: u16) -> Seq<u16> {
    let a = circle_painted(f, cx, cy, 9, true, color);
    let b = line_painted(a, cx, cy - 16, cx, cy - 12, color);
    let c = line_painted(b, cx, cy + 12, cx, cy + 16, color);
    let d = line_painted(c, cx - 16, cy, cx - 12, cy, color);
    let e = line_painted(d, cx + 12, cy, cx + 16, cy, color);
    let g = line_painted(e, cx - 11, cy - 11, cx - 8, cy - 8, color);
    let h = line_painted(g, cx + 8, cy + 8, cx + 11, cy + 11, color);
    let i = line_painted(h, cx + 8, cy - 8, cx + 11, cy - 11, color);
    line_painted(i, cx - 11, cy + 11, cx - 8, cy + 8, color)
}

/// Draws the display icon around `(cx, cy)`.
pub fn draw_settings_sun_icon(frame: &mut Vec<u16>, cx: i32, cy: i32, color: u16)
    requires
        old(frame)@.len() == PIXELS,
        at_ok(cx as int, cy as int),
    ensures
        final(frame)@ == settings_sun_painted(old(frame)@, cx as int, cy as int, color),
        final(frame)@.len() == PIXELS,
{
    stroke_circle(frame, cx, cy, 9, color);
    draw_line(frame, cx, cy - 16, cx, cy - 12, color);
    draw_line(frame, cx, cy + 12, cx, cy + 16, color);
    draw_line(frame, cx - 16, cy, cx - 12, cy, color);
    draw_line(frame, cx + 12, cy, cx + 16, cy, color);
    draw_line(frame, cx - 11, cy - 11, cx - 8, cy - 8, color);
    draw_line(frame, cx + 8, cy + 8, cx + 11, cy + 11, color);
    draw_line(frame, cx + 8, cy - 8, cx + 11, cy - 11, color);
    draw_line(frame, cx - 11, cy + 11, cx - 8, cy + 8, color);
}

/// The device (info) icon: a ring, a dot and an "i" stem with its foot.
pub open spec fn settings_info_painted(f: Seq<u16>, cx: int, cy: int, color: u16) -> Seq<u16> {
    let a = circle_painted(f, cx, cy, 14, true, color);
    let b = circle_painted(a, cx, cy - 7, 2, false, color);
    let c = rect_painted(b, cx - 1, cy - 2, 2, 11, color);
    rect_painted(c, cx - 3, cy + 8, 6, 2, color)
}

/// Draws the device icon around `(cx, cy)`.
pub fn draw_settings_info_icon(frame: &mut Vec<u16>, cx: i32, cy: i32, color: u16)
    requires
        old(frame)@.len() == PIXELS,
        at_ok(cx as int, cy as int),
    ensures
        final(frame)@ == settings_info_painted(old(frame)@, cx as int, cy as int, color),
        final(frame)@.len() == PIXELS,
{
    stroke_circle(frame, cx, cy, 14, color);
    fill_circle(frame, cx, cy - 7, 2, color);
    fill_rect(frame, cx - 1, cy - 2, 2, 11, color);
    fill_rect(frame, cx - 3, cy + 8, 6, 2, color);
}

/// The time icon: a clock face with two hands.
pub open spec fn settings_time_painted(f: Seq<u16>, cx: int, cy: int, color: u16) -> Seq<u16> {
    let a = circle_painted(f, cx, cy, 15, true, color);
    let b = line_painted(a, cx, cy, cx, cy - 9, color);
    line_painted(b, cx, cy, cx + 8, cy + 5, color)
}

/// Draws the time icon around `(cx, cy)`.
pub fn draw_settings_time_icon(frame: &mut Vec<u16>, cx: i32, cy: i32, color: u16)
    requires
        old(frame)@.len() == PIXELS,
        at_ok(cx as int, cy as int),
    ensures
        final(frame)@ == settings_time_painted(old(frame)@, cx as int, cy as int, color),
        final(frame)@.len() == PIXELS,
{
    stroke_circle(frame, cx, cy, 15, color);
    draw_line(frame, cx, cy, cx, cy - 9, color);
    draw_line(frame, cx, cy, cx + 8, cy + 5, color);
}

/// The storage icon: a card outline with two contacts and a label line.
pub open spec fn settings_storage_painted(f: Seq<u16>, cx: int, cy: int, color: u16) -> Seq<u16> {
    let a = stroke_rect_painted(f, cx - 8, cy - 11, 16, 22, color);
    let b = rect_painted(a, cx - 5, cy - 7, 3, 4, color);
    let c = rect_painted(b, cx, cy - 7, 3, 4, color);
    line_painted(c, cx - 5, cy + 6, cx + 5, cy + 6, color)
}

/// Draws the storage icon around `(cx, cy)`.
pub fn draw_settings_storage_icon(frame: &mut Vec<u16>, cx: i32, cy: i32, color: u16)
    requires
        old(frame)@.len() == PIXELS,
        at_ok(cx as int, cy as int),
    ensures
        final(frame)@ == settings_storage_painted(old(frame)@, cx as int, cy as int, color),
        final(frame)@.len() == PIXELS,
{
    stroke_rect(frame, cx - 8, cy - 11, 16, 22, color);
    fill_rect(frame, cx - 5, cy - 7, 3, 4, color);
    fill_rect(frame, cx, cy - 7, 3, 4, color);
    draw_line(frame, cx - 5, cy + 6, cx + 5, cy + 6, color);
}

/// The diagnostics icon: a box with a tick inside.
pub open spec fn settings_diag_painted(f: Seq<u16>, cx: int, cy: int, color: u16) -> Seq<u16> {
    let a = stroke_rect_painted(f, cx - 10, cy - 10, 20, 20, color);
    let b = line_painted(a, cx - 6, cy - 3, cx - 1, cy + 4, color);
    line_painted(b, cx - 1, cy + 4, cx + 8, cy - 6, color)
}

/// Draws the diagnostics icon around `(cx, cy)`.
pub fn draw_settings_diag_icon(frame: &mut Vec<u16>, cx: i32, cy: i32, color: u16)
    requires
        old(frame)@.len() == PIXELS,
        at_ok(cx as int, cy as int),
    ensures
        final(frame)@ == settings_diag_painted(old(frame)@, cx as int, cy as int, color),
        final(frame)@.len() == PIXELS,
{
    stroke_rect(frame, cx - 10, cy - 10, 20, 20, color);
    draw_line(frame, cx - 6, cy - 3, cx - 1, cy + 4, color);
    draw_line(frame, cx - 1, cy + 4, cx + 8, cy - 6, color);
}

/// The timeline icon of a kind of weather.
pub open spec fn timeline_icon_painted(f: Seq<u16>, cx: int, cy: int, icon: WeatherMiniIcon) -> Seq<u16> {
    match icon {
        WeatherMiniIcon::Sun => timeline_sun_painted(f, cx, cy, ACCENT_WEATHER),
        WeatherMiniIcon::PartlyCloudy => timeline_partly_cloudy_painted(f, cx, cy),
        WeatherMiniIcon::Cloud => timeline_cloud_painted(f, cx, cy, WHITE),
        WeatherMiniIcon::Rain => timeline_rain_painted(f, cx, cy),
        WeatherMiniIcon::Storm => timeline_storm_painted(f, cx, cy),
        WeatherMiniIcon::Wind => timeline_wind_painted(f, cx, cy, WHITE),
    }
}

/// Draws the timeline icon of `icon` around `(cx, cy)`.
pub fn draw_weather_timeline_icon(frame: &mut Vec<u16>, cx: i32, cy: i32, icon: WeatherMiniIcon)
    requires
        old(frame)@.len() == PIXELS,
        at_ok(cx as int, cy as int),
    ensures
        final(frame)@ == timeline_icon_painted(old(frame)@, cx as int, cy as int, icon),
        final(frame)@.len() == PIXELS,
{
    match icon {
        WeatherMiniIcon::Sun => draw_timeline_sun_icon(frame, cx, cy, ACCENT_WEATHER),
        WeatherMiniIcon::PartlyCloudy => draw_timeline_partly_cloudy_icon(frame, cx, cy),
        WeatherMiniIcon::Cloud => draw_timeline_cloud_icon(frame, cx, cy, WHITE),
        WeatherMiniIcon::Rain => draw_timeline_rain_icon(frame, cx, cy),
        WeatherMiniIcon::Storm => draw_timeline_storm_icon(frame, cx, cy),
        WeatherMiniIcon::Wind => draw_timeline_wind_icon(frame, cx, cy, WHITE),
    }
}

/// One slot of the weather timeline: the hour (in the weather accent when
/// highlighted), the icon and the temperature, stacked on column `cx`.
pub open spec fn timeline_slot_painted(
    f: Seq<u16>,
    cx: int,
    entry: (Seq<char>, Seq<char>, WeatherMiniIcon),
    highlighted: bool,
) -> Seq<u16> {
    let a = centered_text_painted(f, cx, 190, entry.0, if highlighted { ACCENT_WEATHER } else { WHITE }, 2);
    let b = timeline_icon_painted(a, cx, 226, entry.2);
    centered_text_painted(b, cx, 262, entry.1, WHITE, 2)
}

/// Draws one slot of the weather timeline on column `cx`.
pub fn draw_weather_timeline_slot(frame: &mut Vec<u16>, cx: i32, entry: &WeatherHourRender, highlighted: bool)
    requires
        old(frame)@.len() == PIXELS,
        at_ok(cx as int, 226),
    ensures
        final(frame)@ == timeline_slot_painted(old(frame)@, cx as int, (entry.hour@, entry.temp@, entry.icon), highlighted),
        final(frame)@.len() == PIXELS,
{
    let hour_color = if highlighted { ACCENT_WEATHER } else { WHITE };
    draw_text_centered_at(frame, cx, 190, entry.hour.as_str(), hour_color, 2);
    draw_weather_timeline_icon(frame, cx, 226, entry.icon);
    draw_text_centered_at(frame, cx, 262, entry.temp.as_str(), WHITE, 2);
}

/// The column of timeline slot `k` of four.
pub open spec fn slot_center(k: int) -> int {
    if k == 0 {
        74
    } else if k == 1 {
        145
    } else if k == 2 {
        216
    } else {
        287
    }
}

/// The hours the timeline shows: the first four forecast slots when there
/// are four, else the placeholder hours for the condition word.
pub open spec fn timeline_entries(slots: Seq<WeatherHourSlot>, condition: Seq<char>) -> Seq<(Seq<char>, Seq<char>, WeatherMiniIcon)> {
    if slots.len() >= 4 {
        Seq::new(4, |k: int| (slots[k].hour_label@, slots[k].temp_label@, mini_icon_spec(slots[k].weather_code)))
    } else {
        fallback_timeline_spec(condition)
    }
}

/// `f` with the first `n` timeline slots of `entries` drawn, the first one
/// highlighted.
pub open spec fn timeline_slots_painted(f: Seq<u16>, entries: Seq<(Seq<char>, Seq<char>, WeatherMiniIcon)>, n: nat) -> Seq<u16>
    decreases n,
{
    if n == 0 {
        f
    } else {
        let k = n - 1;
        timeline_slot_painted(timeline_slots_painted(f, entries, (n - 1) as nat), slot_center(k), entries[k], k == 0)
    }
}

proof fn lemma_fallback_labels_short(condition: Seq<char>)
    ensures
        fallback_timeline_spec(condition).len() == 4,
        forall|k: int| 0 <= k < 4 ==> (#[trigger] fallback_timeline_spec(condition)[k]).0.len() <= 3
            && fallback_timeline_spec(condition)[k].1.len() <= 3,
{
    reveal_strlit("11A");
    reveal_strlit("12P");
    reveal_strlit("1P");
    reveal_strlit("2P");
    reveal_strlit("75");
    reveal_strlit("77");
    reveal_strlit("79");
    reveal_strlit("76");
    reveal_strlit("68");
    reveal_strlit("70");
    reveal_strlit("67");
    reveal_strlit("71");
    reveal_strlit("69");
    reveal_strlit("72");
    reveal_strlit("73");
}

/// Draws the four hours of the weather timeline: the forecast's first four
/// hours when it has four, else the placeholder hours for `condition`.
pub fn draw_weather_hour_values(frame: &mut Vec<u16>, hourly_slots: &Vec<WeatherHourSlot>, condition: &str)
    requires
        old(frame)@.len() == PIXELS,
    ensures
        final(frame)@ == timeline_slots_painted(old(frame)@, timeline_entries(hourly_slots@, condition@), 4),
        final(frame)@.len() == PIXELS,
{
    let ghost f0 = frame@;
    let ghost want = timeline_entries(hourly_slots@, condition@);
    let mut entries: Vec<WeatherHourRender> = Vec::new();
    if hourly_slots.len() >= 4 {
        let mut k: usize = 0;
        while k < 4
            invariant
                k <= 4,
                hourly_slots@.len() >= 4,
                entries@.len() == k,
                forall|m: int| 0 <= m < k ==> (#[trigger] entries@[m]).hour@ == hourly_slots@[m].hour_label@
                    && entries@[m].temp@ == hourly_slots@[m].temp_label@
                    && entries@[m].icon == mini_icon_spec(hourly_slots@[m].weather_code),
            decreases 4 - k,
        {
            let slot = &hourly_slots[k];
            let hour = slot.hour_label.clone();
            let temp = slot.temp_label.clone();
            entries.push(WeatherHourRender { hour, temp, icon: mini_icon_from_weather_code(slot.weather_code) });
            k = k + 1;
        }
    } else {
        entries = fallback_timeline_entries(condition);
        proof {
            lemma_fallback_labels_short(condition@);
        }
    }
    assert(renders_view(entries@) =~= want);
    let mut i: usize = 0;
    while i < 4
        invariant
            i <= 4,
            frame@.len() == PIXELS,
            renders_view(entries@) == want,
            want.len() == 4,
            frame@ == timeline_slots_painted(f0, want, i as nat),
        decreases 4 - i,
    {
        let cx: i32 = if i == 0 {
            74
        } else if i == 1 {
            145
        } else if i == 2 {
            216
        } else {
            287
        };
        assert(want[i as int] == (entries@[i as int].hour@, entries@[i as int].temp@, entries@[i as int].icon));
        draw_weather_timeline_slot(frame, cx, &entries[i], i == 0);
        i = i + 1;
    }
}

/// Draws the location arrows under the weather timeline.
pub fn draw_weather_location_nav_buttons(frame: &mut Vec<u16>)
    requires
        old(frame)@.len() == PIXELS,
    ensures
        final(frame)@ == centered_text_painted(old(frame)@, 180, 318, "< LOC        LOC >"@, WHITE, 1),
        final(frame)@.len() == PIXELS,
{
    proof {
        reveal_strlit("< LOC        LOC >");
    }
    crate::render::draw_text_centered(frame, 318, "< LOC        LOC >", WHITE, 1);
}

} // verus!
