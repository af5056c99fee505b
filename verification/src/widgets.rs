//! Icons and small widgets of the screens, each the fixed composition of
//! shapes that its `*_painted` specification spells out.

use vstd::prelude::*;
use crate::render::{
    accent_for_page, circle_painted, draw_text_centered, draw_text_centered_at, fill_circle,
    fill_rect, half_toward_zero, rect_painted, stroke_circle, text_painted, PIXELS, ACCENT_HOME,
    ACCENT_HOME_BLUE, ACCENT_MUSIC, ACCENT_MUSIC_BLUE, ACCENT_WEATHER, ACCENT_WEATHER_BLUE,
    BG_DARK, SOFT, WHITE,
};
use crate::shapes::{
    draw_line, fill_left_triangle, fill_play_triangle, fill_rounded_rect, line_painted,
    rounded_rect_painted, stroke_rect, stroke_rect_painted, triangle_painted, tz_div,
};
use crate::pages::{page_at, page_at_spec, AssistantPage};

verus! {

/// Whether a widget centre lies far enough from the ends of the `i32`
/// range for the widget's offsets from it to fit.
pub open spec fn at_ok(cx: int, cy: int) -> bool {
    -1_000_000_000 <= cx <= 1_000_000_000 && -1_000_000_000 <= cy <= 1_000_000_000
}

/// The calendar icon: a 14-pixel box with a header line, two binding
/// posts and two day marks.
pub open spec fn calendar_icon_painted(f: Seq<u16>, cx: int, cy: int, color: u16) -> Seq<u16> {
    let a = stroke_rect_painted(f, cx - 7, cy - 7, 14, 14, color);
    let b = line_painted(a, cx - 7, cy - 3, cx + 7, cy - 3, color);
    let c = line_painted(b, cx - 4, cy - 10, cx - 4, cy - 6, color);
    let d = line_painted(c, cx + 4, cy - 10, cx + 4, cy - 6, color);
    let e = rect_painted(d, cx - 3, cy + 1, 2, 2, color);
    rect_painted(e, cx + 2, cy + 1, 2, 2, color)
}

/// Draws the calendar icon around `(cx, cy)`.
pub fn draw_calendar_icon(frame: &mut Vec<u16>, cx: i32, cy: i32, color: u16)
    requires
        old(frame)@.len() == PIXELS,
        at_ok(cx as int, cy as int),
    ensures
        final(frame)@ == calendar_icon_painted(old(frame)@, cx as int, cy as int, color),
        final(frame)@.len() == PIXELS,
{
    stroke_rect(frame, cx - 7, cy - 7, 14, 14, color);
    draw_line(frame, cx - 7, cy - 3, cx + 7, cy - 3, color);
    draw_line(frame, cx - 4, cy - 10, cx - 4, cy - 6, color);
    draw_line(frame, cx + 4, cy - 10, cx + 4, cy - 6, color);
    fill_rect(frame, cx - 3, cy + 1, 2, 2, color);
    fill_rect(frame, cx + 2, cy + 1, 2, 2, color);
}

/// The complication disc: a dark disc of radius 18 ringed in `color`.
pub open spec fn complication_disc_painted(f: Seq<u16>, cx: int, cy: int, color: u16) -> Seq<u16> {
    let a = circle_painted(f, cx, cy, 18, false, BG_DARK);
    circle_painted(a, cx, cy, 18, true, color)
}

/// The battery complication: the disc with a battery outline, its tip and
/// a charge bar.
pub open spec fn complication_battery_painted(f: Seq<u16>, cx: int, cy: int, color: u16) -> Seq<u16> {
    let a = complication_disc_painted(f, cx, cy, color);
    let b = stroke_rect_painted(a, cx - 8, cy - 5, 15, 10, WHITE);
    let c = rect_painted(b, cx + 8, cy - 2, 2, 4, WHITE);
    rect_painted(c, cx - 6, cy - 3, 9, 6, color)
}

/// Draws the battery complication around `(cx, cy)`.
pub fn draw_complication_battery(frame: &mut Vec<u16>, cx: i32, cy: i32, color: u16)
    requires
        old(frame)@.len() == PIXELS,
        at_ok(cx as int, cy as int),
    ensures
        final(frame)@ == complication_battery_painted(old(frame)@, cx as int, cy as int, color),
        final(frame)@.len() == PIXELS,
{
    fill_circle(frame, cx, cy, 18, BG_DARK);
    stroke_circle(frame, cx, cy, 18, color);
    stroke_rect(frame, cx - 8, cy - 5, 15, 10, WHITE);
    fill_rect(frame, cx + 8, cy - 2, 2, 4, WHITE);
    fill_rect(frame, cx - 6, cy - 3, 9, 6, color);
}

/// The SD complication: the disc with a card outline and its cut corner.
pub open spec fn complication_sd_painted(f: Seq<u16>, cx: int, cy: int, color: u16) -> Seq<u16> {
    let a = complication_disc_painted(f, cx, cy, color);
    let b = stroke_rect_painted(a, cx - 7, cy - 10, 14, 18, WHITE);
    rect_painted(b, cx + 3, cy - 10, 4, 5, BG_DARK)
}

/// Draws the SD complication around `(cx, cy)`.
pub fn draw_complication_sd(frame: &mut Vec<u16>, cx: i32, cy: i32, color: u16)
    requires
        old(frame)@.len() == PIXELS,
        at_ok(cx as int, cy as int),
    ensures
        final(frame)@ == complication_sd_painted(old(frame)@, cx as int, cy as int, color),
        final(frame)@.len() == PIXELS,
{
    fill_circle(frame, cx, cy, 18, BG_DARK);
    stroke_circle(frame, cx, cy, 18, color);
    stroke_rect(frame, cx - 7, cy - 10, 14, 18, WHITE);
    fill_rect(frame, cx + 3, cy - 10, 4, 5, BG_DARK);
}

/// A cloud: three discs (left, top, right, of the given radii and offsets)
/// over a rounded base.
pub open spec fn cloud_painted(
    f: Seq<u16>,
    cx: int,
    cy: int,
    color: u16,
    left: (int, int, int),
    top: (int, int, int),
    right: (int, int, int),
    base: (int, int, int, int, int),
) -> Seq<u16> {
    let a = circle_painted(f, cx + left.0, cy + left.1, left.2, false, color);
    let b = circle_painted(a, cx + top.0, cy + top.1, top.2, false, color);
    let c = circle_painted(b, cx + right.0, cy + right.1, right.2, false, color);
    rounded_rect_painted(c, cx + base.0, cy + base.1, base.2, base.3, base.4, color)
}

/// The large cloud icon.
pub open spec fn cloud_icon_painted(f: Seq<u16>, cx: int, cy: int, color: u16) -> Seq<u16> {
    cloud_painted(f, cx, cy, color, (-22, 4, 16), (0, -5, 21), (22, 6, 15), (-40, 3, 80, 24, 12))
}

/// Draws the large cloud icon around `(cx, cy)`.
pub fn draw_cloud_icon(frame: &mut Vec<u16>, cx: i32, cy: i32, color: u16)
    requires
        old(frame)@.len() == PIXELS,
        at_ok(cx as int, cy as int),
    ensures
        final(frame)@ == cloud_icon_painted(old(frame)@, cx as int, cy as int, color),
        final(frame)@.len() == PIXELS,
{
    fill_circle(frame, cx - 22, cy + 4, 16, color);
    fill_circle(frame, cx, cy - 5, 21, color);
    fill_circle(frame, cx + 22, cy + 6, 15, color);
    fill_rounded_rect(frame, cx - 40, cy + 3, 80, 24, 12, color);
}

/// The medium cloud icon.
pub open spec fn cloud_icon_medium_painted(f: Seq<u16>, cx: int, cy: int, color: u16) -> Seq<u16> {
    cloud_painted(f, cx, cy, color, (-18, 4, 13), (0, -4, 17), (18, 5, 12), (-33, 3, 66, 20, 10))
}

/// Draws the medium cloud icon around `(cx, cy)`.
pub fn draw_cloud_icon_medium(frame: &mut Vec<u16>, cx: i32, cy: i32, color: u16)
    requires
        old(frame)@.len() == PIXELS,
        at_ok(cx as int, cy as int),
    ensures
        final(frame)@ == cloud_icon_medium_painted(old(frame)@, cx as int, cy as int, color),
        final(frame)@.len() == PIXELS,
{
    fill_circle(frame, cx - 18, cy + 4, 13, color);
    fill_circle(frame, cx, cy - 4, 17, color);
    fill_circle(frame, cx + 18, cy + 5, 12, color);
    fill_rounded_rect(frame, cx - 33, cy + 3, 66, 20, 10, color);
}

/// The small timeline cloud icon.
pub open spec fn timeline_cloud_painted(f: Seq<u16>, cx: int, cy: int, color: u16) -> Seq<u16> {
    cloud_painted(f, cx, cy, color, (-9, 3, 7), (0, -4, 9), (9, 3, 7), (-16, 3, 32, 10, 5))
}

/// Draws the small timeline cloud icon around `(cx, cy)`.
pub fn draw_timeline_cloud_icon(frame: &mut Vec<u16>, cx: i32, cy: i32, color: u16)
    requires
        old(frame)@.len() == PIXELS,
        -1_000_000_100 <= cx <= 1_000_000_100,
        -1_000_000_100 <= cy <= 1_000_000_100,
    ensures
        final(frame)@ == timeline_cloud_painted(old(frame)@, cx as int, cy as int, color),
        final(frame)@.len() == PIXELS,
{
    fill_circle(frame, cx - 9, cy + 3, 7, color);
    fill_circle(frame, cx, cy - 4, 9, color);
    fill_circle(frame, cx + 9, cy + 3, 7, color);
    fill_rounded_rect(frame, cx - 16, cy + 3, 32, 10, 5, color);
}

/// The wind icon: three long strokes.
pub open spec fn wind_icon_painted(f: Seq<u16>, cx: int, cy: int, color: u16) -> Seq<u16> {
    let a = line_painted(f, cx - 54, cy - 16, cx + 54, cy - 16, color);
    let b = line_painted(a, cx - 36, cy, cx + 42, cy, color);
    line_painted(b, cx - 50, cy + 16, cx + 30, cy + 16, color)
}

/// Draws the wind icon around `(cx, cy)`.
pub fn draw_wind_icon(frame: &mut Vec<u16>, cx: i32, cy: i32, color: u16)
    requires
        old(frame)@.len() == PIXELS,
        at_ok(cx as int, cy as int),
    ensures
        final(frame)@ == wind_icon_painted(old(frame)@, cx as int, cy as int, color),
        final(frame)@.len() == PIXELS,
{
    draw_line(frame, cx - 54, cy - 16, cx + 54, cy - 16, color);
    draw_line(frame, cx - 36, cy, cx + 42, cy, color);
    draw_line(frame, cx - 50, cy + 16, cx + 30, cy + 16, color);
}

/// The compact wind icon: three shorter strokes.
pub open spec fn wind_icon_compact_painted(f: Seq<u16>, cx: int, cy: int, color: u16) -> Seq<u16> {
    let a = line_painted(f, cx - 34, cy - 10, cx + 34, cy - 10, color);
    let b = line_painted(a, cx - 26, cy, cx + 28, cy, color);
    line_painted(b, cx - 32, cy + 10, cx + 22, cy + 10, color)
}

/// Draws the compact wind icon around `(cx, cy)`.
pub fn draw_wind_icon_compact(frame: &mut Vec<u16>, cx: i32, cy: i32, color: u16)
    requires
        old(frame)@.len() == PIXELS,
        at_ok(cx as int, cy as int),
    ensures
        final(frame)@ == wind_icon_compact_painted(old(frame)@, cx as int, cy as int, color),
        final(frame)@.len() == PIXELS,
{
    draw_line(frame, cx - 34, cy - 10, cx + 34, cy - 10, color);
    draw_line(frame, cx - 26, cy, cx + 28, cy, color);
    draw_line(frame, cx - 32, cy + 10, cx + 22, cy + 10, color);
}

/// The timeline wind icon: three small strokes.
pub open spec fn timeline_wind_painted(f: Seq<u16>, cx: int, cy: int, color: u16) -> Seq<u16> {
    let a = line_painted(f, cx - 15, cy - 8, cx + 15, cy - 8, color);
    let b = line_painted(a, cx - 12, cy, cx + 13, cy, color);
    line_painted(b, cx - 14, cy + 8, cx + 10, cy + 8, color)
}

/// Draws the timeline wind icon around `(cx, cy)`.
pub fn draw_timeline_wind_icon(frame: &mut Vec<u16>, cx: i32, cy: i32, color: u16)
    requires
        old(frame)@.len() == PIXELS,
        at_ok(cx as int, cy as int),
    ensures
        final(frame)@ == timeline_wind_painted(old(frame)@, cx as int, cy as int, color),
        final(frame)@.len() == PIXELS,
{
    draw_line(frame, cx - 15, cy - 8, cx + 15, cy - 8, color);
    draw_line(frame, cx - 12, cy, cx + 13, cy, color);
    draw_line(frame, cx - 14, cy + 8, cx + 10, cy + 8, color);
}

/// The timeline sun icon: a disc of radius 8 and eight short rays.
pub open spec fn timeline_sun_painted(f: Seq<u16>, cx: int, cy: int, color: u16) -> Seq<u16> {
    let a = circle_painted(f, cx, cy, 8, false, color);
    let b = line_painted(a, cx, cy - 13, cx, cy - 11, color);
    let c = line_painted(b, cx, cy + 11, cx, cy + 13, color);
    let d = line_painted(c, cx - 13, cy, cx - 11, cy, color);
    let e = line_painted(d, cx + 11, cy, cx + 13, cy, color);
    let g = line_painted(e, cx - 9, cy - 9, cx - 8, cy - 8, color);
    let h = line_painted(g, cx + 8, cy - 8, cx + 9, cy - 9, color);
    let i = line_painted(h, cx - 9, cy + 9, cx - 8, cy + 8, color);
    line_painted(i, cx + 8, cy + 8, cx + 9, cy + 9, color)
}

/// Draws the timeline sun icon around `(cx, cy)`.
pub fn draw_timeline_sun_icon(frame: &mut Vec<u16>, cx: i32, cy: i32, color: u16)
    requires
        old(frame)@.len() == PIXELS,
        at_ok(cx as int, cy as int),
    ensures
        final(frame)@ == timeline_sun_painted(old(frame)@, cx as int, cy as int, color),
        final(frame)@.len() == PIXELS,
{
    fill_circle(frame, cx, cy, 8, color);
    draw_line(frame, cx, cy - 13, cx, cy - 11, color);
    draw_line(frame, cx, cy + 11, cx, cy + 13, color);
    draw_line(frame, cx - 13, cy, cx - 11, cy, color);
    draw_line(frame, cx + 11, cy, cx + 13, cy, color);
    draw_line(frame, cx - 9, cy - 9, cx - 8, cy - 8, color);
    draw_line(frame, cx + 8, cy - 8, cx + 9, cy - 9, color);
    draw_line(frame, cx - 9, cy + 9, cx - 8, cy + 8, color);
    draw_line(frame, cx + 8, cy + 8, cx + 9, cy + 9, color);
}

/// The timeline partly-cloudy icon: a small sun with three rays behind a
/// white cloud.
pub open spec fn timeline_partly_cloudy_painted(f: Seq<u16>, cx: int, cy: int) -> Seq<u16> {
    let a = circle_painted(f, cx - 8, cy - 6, 6, false, ACCENT_WEATHER);
    let b = line_painted(a, cx - 8, cy - 15, cx - 8, cy - 13, ACCENT_WEATHER);
    let c = line_painted(b, cx - 17, cy - 6, cx - 15, cy - 6, ACCENT_WEATHER);
    let d = line_painted(c, cx + 1, cy - 6, cx + 3, cy - 6, ACCENT_WEATHER);
    timeline_cloud_painted(d, cx + 5, cy + 2, WHITE)
}

/// Draws the timeline partly-cloudy icon around `(cx, cy)`.
pub fn draw_timeline_partly_cloudy_icon(frame: &mut Vec<u16>, cx: i32, cy: i32)
    requires
        old(frame)@.len() == PIXELS,
        at_ok(cx as int, cy as int),
    ensures
        final(frame)@ == timeline_partly_cloudy_painted(old(frame)@, cx as int, cy as int),
        final(frame)@.len() == PIXELS,
{
    fill_circle(frame, cx - 8, cy - 6, 6, ACCENT_WEATHER);
    draw_line(frame, cx - 8, cy - 15, cx - 8, cy - 13, ACCENT_WEATHER);
    draw_line(frame, cx - 17, cy - 6, cx - 15, cy - 6, ACCENT_WEATHER);
    draw_line(frame, cx + 1, cy - 6, cx + 3, cy - 6, ACCENT_WEATHER);
    draw_timeline_cloud_icon(frame, cx + 5, cy + 2, WHITE);
}

/// The timeline rain icon: a white cloud and three slanted drops.
pub open spec fn timeline_rain_painted(f: Seq<u16>, cx: int, cy: int) -> Seq<u16> {
    let a = timeline_cloud_painted(f, cx, cy - 5, WHITE);
    let b = line_painted(a, cx - 8, cy + 9, cx - 9, cy + 13, ACCENT_WEATHER_BLUE);
    let c = line_painted(b, cx, cy + 9, cx - 1, cy + 13, ACCENT_WEATHER_BLUE);
    line_painted(c, cx + 8, cy + 9, cx + 7, cy + 13, ACCENT_WEATHER_BLUE)
}

/// Draws the timeline rain icon around `(cx, cy)`.
pub fn draw_timeline_rain_icon(frame: &mut Vec<u16>, cx: i32, cy: i32)
    requires
        old(frame)@.len() == PIXELS,
        at_ok(cx as int, cy as int),
    ensures
        final(frame)@ == timeline_rain_painted(old(frame)@, cx as int, cy as int),
        final(frame)@.len() == PIXELS,
{
    draw_timeline_cloud_icon(frame, cx, cy - 5, WHITE);
    draw_line(frame, cx - 8, cy + 9, cx - 9, cy + 13, ACCENT_WEATHER_BLUE);
    draw_line(frame, cx, cy + 9, cx - 1, cy + 13, ACCENT_WEATHER_BLUE);
    draw_line(frame, cx + 8, cy + 9, cx + 7, cy + 13, ACCENT_WEATHER_BLUE);
}

/// The timeline storm icon: a white cloud and a three-stroke bolt.
pub open spec fn timeline_storm_painted(f: Seq<u16>, cx: int, cy: int) -> Seq<u16> {
    let a = timeline_cloud_painted(f, cx, cy - 5, WHITE);
    let b = line_painted(a, cx + 3, cy + 8, cx - 2, cy + 12, ACCENT_WEATHER);
    let c = line_painted(b, cx - 2, cy + 12, cx + 2, cy + 12, ACCENT_WEATHER);
    line_painted(c, cx + 2, cy + 12, cx - 1, cy + 17, ACCENT_WEATHER)
}

/// Draws the timeline storm icon around `(cx, cy)`.
pub fn draw_timeline_storm_icon(frame: &mut Vec<u16>, cx: i32, cy: i32)
    requires
        old(frame)@.len() == PIXELS,
        at_ok(cx as int, cy as int),
    ensures
        final(frame)@ == timeline_storm_painted(old(frame)@, cx as int, cy as int),
        final(frame)@.len() == PIXELS,
{
    draw_timeline_cloud_icon(frame, cx, cy - 5, WHITE);
    draw_line(frame, cx + 3, cy + 8, cx - 2, cy + 12, ACCENT_WEATHER);
    draw_line(frame, cx - 2, cy + 12, cx + 2, cy + 12, ACCENT_WEATHER);
    draw_line(frame, cx + 2, cy + 12, cx - 1, cy + 17, ACCENT_WEATHER);
}

/// Draws a temperature in scale-2 text centred on column `cx`.
pub fn draw_tiny_temp_value(frame: &mut Vec<u16>, cx: i32, y: i32, text: &str, color: u16)
    requires
        old(frame)@.len() == PIXELS,
    ensures
        final(frame)@ == text_painted(old(frame)@, cx - half_toward_zero((text@.len() * 6 * 2) as int), y as int, text@, color, 2),
{
    draw_text_centered_at(frame, cx, y, text, color, 2);
}

/// Draws a track name in one line of scale-2 text centred on the screen.
pub fn draw_track_label(frame: &mut Vec<u16>, y: i32, label: &str)
    requires
        old(frame)@.len() == PIXELS,
    ensures
        final(frame)@ == text_painted(old(frame)@, 180 - half_toward_zero((label@.len() * 6 * 2) as int), y as int, label@, WHITE, 2),
{
    draw_text_centered(frame, y, label, WHITE, 2);
}

/// The album tile: a dark rounded square with three colour bands and
/// "AI" across it.
pub open spec fn album_tile_painted(f: Seq<u16>, cx: int, cy: int) -> Seq<u16> {
    let a = rounded_rect_painted(f, cx - 25, cy - 25, 50, 50, 7, 0x2108);
    let b = rect_painted(a, cx - 21, cy - 21, 42, 17, ACCENT_MUSIC);
    let c = rect_painted(b, cx - 21, cy - 4, 42, 22, ACCENT_MUSIC_BLUE);
    let d = rect_painted(c, cx - 21, cy + 18, 42, 3, ACCENT_WEATHER);
    text_painted(d, cx - 12, cy + 3, "AI"@, WHITE, 2)
}

/// Draws the album tile around `(cx, cy)`.
pub fn draw_album_tile(frame: &mut Vec<u16>, cx: i32, cy: i32)
    requires
        old(frame)@.len() == PIXELS,
        at_ok(cx as int, cy as int),
    ensures
        final(frame)@ == album_tile_painted(old(frame)@, cx as int, cy as int),
{
    fill_rounded_rect(frame, cx - 25, cy - 25, 50, 50, 7, 0x2108);
    fill_rect(frame, cx - 21, cy - 21, 42, 17, ACCENT_MUSIC);
    fill_rect(frame, cx - 21, cy - 4, 42, 22, ACCENT_MUSIC_BLUE);
    fill_rect(frame, cx - 21, cy + 18, 42, 3, ACCENT_WEATHER);
    proof {
        reveal_strlit("AI");
    }
    draw_text_centered_at(frame, cx, cy + 3, "AI", WHITE, 2);
}

/// The round media button: a dark disc ringed in the music accent, with a
/// pause sign while playing and a play triangle otherwise.
pub open spec fn media_button_painted(f: Seq<u16>, cx: int, cy: int, playing: bool) -> Seq<u16> {
    let a = circle_painted(f, cx, cy, 42, false, BG_DARK);
    let b = circle_painted(a, cx, cy, 44, true, ACCENT_MUSIC);
    if playing {
        let c = rounded_rect_painted(b, cx - 13, cy - 21, 8, 42, 4, WHITE);
        rounded_rect_painted(c, cx + 5, cy - 21, 8, 42, 4, WHITE)
    } else {
        triangle_painted(b, cx + 2, cy, 44, false, WHITE)
    }
}

/// Draws the round media button around `(cx, cy)`.
pub fn draw_media_button(frame: &mut Vec<u16>, cx: i32, cy: i32, playing: bool)
    requires
        old(frame)@.len() == PIXELS,
        at_ok(cx as int, cy as int),
    ensures
        final(frame)@ == media_button_painted(old(frame)@, cx as int, cy as int, playing),
        final(frame)@.len() == PIXELS,
{
    fill_circle(frame, cx, cy, 42, BG_DARK);
    stroke_circle(frame, cx, cy, 44, ACCENT_MUSIC);
    if playing {
        fill_rounded_rect(frame, cx - 13, cy - 21, 8, 42, 4, WHITE);
        fill_rounded_rect(frame, cx + 5, cy - 21, 8, 42, 4, WHITE);
    } else {
        fill_play_triangle(frame, cx + 2, cy, 44, WHITE);
    }
}

/// The skip icon: a triangle and a bar, pointing forward for `next`.
pub open spec fn skip_icon_painted(f: Seq<u16>, cx: int, cy: int, next: bool, color: u16) -> Seq<u16> {
    if next {
        let a = triangle_painted(f, cx + 5, cy, 18, false, color);
        rect_painted(a, cx + 12, cy - 10, 2, 20, color)
    } else {
        let a = triangle_painted(f, cx - 5, cy, 18, true, color);
        rect_painted(a, cx - 14, cy - 10, 2, 20, color)
    }
}

/// Draws the skip icon around `(cx, cy)`.
pub fn draw_skip_icon(frame: &mut Vec<u16>, cx: i32, cy: i32, next: bool, color: u16)
    requires
        old(frame)@.len() == PIXELS,
        at_ok(cx as int, cy as int),
    ensures
        final(frame)@ == skip_icon_painted(old(frame)@, cx as int, cy as int, next, color),
        final(frame)@.len() == PIXELS,
{
    if next {
        fill_play_triangle(frame, cx + 5, cy, 18, color);
        fill_rect(frame, cx + 12, cy - 10, 2, 20, color);
    } else {
        fill_left_triangle(frame, cx - 5, cy, 18, color);
        fill_rect(frame, cx - 14, cy - 10, 2, 20, color);
    }
}

/// The cancel glyph: two crossing diagonals.
pub open spec fn cancel_glyph_painted(f: Seq<u16>, cx: int, cy: int, color: u16) -> Seq<u16> {
    let a = line_painted(f, cx - 7, cy - 7, cx + 7, cy + 7, color);
    line_painted(a, cx - 7, cy + 7, cx + 7, cy - 7, color)
}

/// Draws the cancel glyph around `(cx, cy)`.
pub fn draw_cancel_glyph(frame: &mut Vec<u16>, cx: i32, cy: i32, color: u16)
    requires
        old(frame)@.len() == PIXELS,
        at_ok(cx as int, cy as int),
    ensures
        final(frame)@ == cancel_glyph_painted(old(frame)@, cx as int, cy as int, color),
        final(frame)@.len() == PIXELS,
{
    draw_line(frame, cx - 7, cy - 7, cx + 7, cy + 7, color);
    draw_line(frame, cx - 7, cy + 7, cx + 7, cy - 7, color);
}

/// The bell icon: a ring, a base bar and a clapper.
pub open spec fn bell_icon_painted(f: Seq<u16>, cx: int, cy: int, color: u16) -> Seq<u16> {
    let a = circle_painted(f, cx, cy, 9, true, color);
    let b = rect_painted(a, cx - 7, cy + 6, 14, 3, color);
    circle_painted(b, cx, cy + 12, 2, false, color)
}

/// Draws the bell icon around `(cx, cy)`.
pub fn draw_bell_icon(frame: &mut Vec<u16>, cx: i32, cy: i32, color: u16)
    requires
        old(frame)@.len() == PIXELS,
        at_ok(cx as int, cy as int),
    ensures
        final(frame)@ == bell_icon_painted(old(frame)@, cx as int, cy as int, color),
        final(frame)@.len() == PIXELS,
{
    stroke_circle(frame, cx, cy, 9, color);
    fill_rect(frame, cx - 7, cy + 6, 14, 3, color);
    fill_circle(frame, cx, cy + 12, 2, color);
}

/// The column offset of waveform point `k` (0 to 9) from the centre.
pub open spec fn wave_x(k: int) -> int {
    if k == 0 { -70 } else if k == 1 { -54 } else if k == 2 { -38 } else if k == 3 { -22 } else if k == 4 { -8 }
    else if k == 5 { 8 } else if k == 6 { 22 } else if k == 7 { 38 } else if k == 8 { 54 } else { 70 }
}

/// The height of waveform point `k`; the two middle points take `amp`.
pub open spec fn wave_h(k: int, amp: int) -> int {
    if k == 0 || k == 9 { 6 } else if k == 1 || k == 8 { 16 } else if k == 2 || k == 7 { 28 }
    else if k == 3 || k == 6 { 14 } else { amp }
}

/// The row offset of waveform point `k`: half its height, above the centre
/// line for even points and below it for odd ones.
pub open spec fn wave_y(k: int, amp: int) -> int {
    if k % 2 == 0 {
        tz_div(-wave_h(k, amp), 2)
    } else {
        tz_div(wave_h(k, amp), 2)
    }
}

/// `f` with the first `n` segments of the waveform drawn.
pub open spec fn wave_segments_painted(f: Seq<u16>, cx: int, cy: int, amp: int, color: u16, n: nat) -> Seq<u16>
    decreases n,
{
    if n == 0 {
        f
    } else {
        let k = n - 1;
        line_painted(
            wave_segments_painted(f, cx, cy, amp, color, (n - 1) as nat),
            cx + wave_x(k),
            cy + wave_y(k, amp),
            cx + wave_x(k + 1),
            cy + wave_y(k + 1, amp),
            color,
        )
    }
}

/// The waveform: nine segments zig-zagging through ten points, and a white
/// dot at the centre.
pub open spec fn waveform_painted(f: Seq<u16>, cx: int, cy: int, amp: int, color: u16) -> Seq<u16> {
    circle_painted(wave_segments_painted(f, cx, cy, amp, color, 9), cx, cy, 4, false, WHITE)
}

fn wave_point(k: usize, amp: i32) -> (r: (i32, i32))
    requires
        k < 10,
        i32::MIN < amp,
    ensures
        r.0 == wave_x(k as int),
        r.1 == wave_y(k as int, amp as int),
{
    let xs: [i32; 10] = [-70, -54, -38, -22, -8, 8, 22, 38, 54, 70];
    let heights: [i32; 10] = [6, 16, 28, 14, amp, amp, 14, 28, 16, 6];
    let h = heights[k];
    let y = if k % 2 == 0 {
        if h <= 0 { (-h) / 2 } else { -(h / 2) }
    } else {
        if h >= 0 { h / 2 } else { -((-h) / 2) }
    };
    (xs[k], y)
}

/// Draws the waveform around `(cx, cy)` with middle height `amp`.
pub fn draw_waveform(frame: &mut Vec<u16>, cx: i32, cy: i32, amp: i32, color: u16)
    requires
        old(frame)@.len() == PIXELS,
        at_ok(cx as int, cy as int),
        i32::MIN < amp,
    ensures
        final(frame)@ == waveform_painted(old(frame)@, cx as int, cy as int, amp as int, color),
        final(frame)@.len() == PIXELS,
{
    let ghost f0 = frame@;
    let mut i: usize = 0;
    while i < 9
        invariant
            i <= 9,
            frame@.len() == PIXELS,
            at_ok(cx as int, cy as int),
            i32::MIN < amp,
            frame@ == wave_segments_painted(f0, cx as int, cy as int, amp as int, color, i as nat),
        decreases 9 - i,
    {
        let (x0, y0) = wave_point(i, amp);
        let (x1, y1) = wave_point(i + 1, amp);
        draw_line(frame, cx + x0, cy + y0, cx + x1, cy + y1, color);
        i = i + 1;
    }
    fill_circle(frame, cx, cy, 4, WHITE);
}

/// The column of page dot `k` of the six: 12 pixels apart, centred.
pub open spec fn page_dot_x(k: int) -> int {
    150 + k * 12
}

/// `f` with the first `n` page dots drawn: the current page's dot larger,
/// in its accent colour, the others small and grey.
pub open spec fn page_dots_painted(f: Seq<u16>, current: AssistantPage, n: nat) -> Seq<u16>
    decreases n,
{
    if n == 0 {
        f
    } else {
        let k = n - 1;
        let page = page_at_spec(k);
        let selected = page == current;
        circle_painted(
            page_dots_painted(f, current, (n - 1) as nat),
            page_dot_x(k),
            324,
            if selected { 3 } else { 2 },
            false,
            if selected { crate::render::accent_spec(page) } else { SOFT },
        )
    }
}

/// Draws the six page dots along the bottom of the screen.
pub fn draw_page_dots(model: &crate::model::OnboardModel, frame: &mut Vec<u16>)
    requires
        old(frame)@.len() == PIXELS,
    ensures
        final(frame)@ == page_dots_painted(old(frame)@, model.current_page, 6),
        final(frame)@.len() == PIXELS,
{
    let ghost f0 = frame@;
    let mut idx: usize = 0;
    while idx < 6
        invariant
            idx <= 6,
            frame@.len() == PIXELS,
            frame@ == page_dots_painted(f0, model.current_page, idx as nat),
        decreases 6 - idx,
    {
        let page = page_at(idx);
        let selected = page == model.current_page;
        let r: i32 = if selected { 3 } else { 2 };
        let color = if selected { accent_for_page(page) } else { SOFT };
        fill_circle(frame, 150 + idx as i32 * 12, 324, r, color);
        idx = idx + 1;
    }
}

/// The Home battery complication: a small battery outline with its tip,
/// filled in proportion to the charge (at least two pixels), or a
/// half-filled blue bar when the charge is unknown.
pub open spec fn home_battery_painted(f: Seq<u16>, cx: int, cy: int, percent: Option<u8>) -> Seq<u16> {
    let x = cx - 10;
    let y = cy - 6;
    let a = stroke_rect_painted(f, x, y, 20, 12, WHITE);
    let b = rect_painted(a, x + 21, y + 4, 3, 4, WHITE);
    match percent {
        Some(pct) => {
            let p: int = if pct < 100 { pct as int } else { 100 };
            let fill_w = p * 16 / 100;
            rect_painted(b, x + 2, y + 2, if fill_w > 2 { fill_w } else { 2 }, 8, ACCENT_HOME)
        },
        None => rect_painted(b, x + 2, y + 2, 8, 8, ACCENT_HOME_BLUE),
    }
}

/// Draws the Home battery complication around `(cx, cy)`.
pub fn draw_home_battery_complication(frame: &mut Vec<u16>, cx: i32, cy: i32, percent: Option<u8>)
    requires
        old(frame)@.len() == PIXELS,
        at_ok(cx as int, cy as int),
    ensures
        final(frame)@ == home_battery_painted(old(frame)@, cx as int, cy as int, percent),
        final(frame)@.len() == PIXELS,
{
    let x = cx - 10;
    let y = cy - 6;
    stroke_rect(frame, x, y, 20, 12, WHITE);
    fill_rect(frame, x + 21, y + 4, 3, 4, WHITE);
    match percent {
        Some(pct) => {
            let p: i32 = if pct < 100 { pct as i32 } else { 100 };
            let fill_w = p * 16 / 100;
            fill_rect(frame, x + 2, y + 2, if fill_w > 2 { fill_w } else { 2 }, 8, ACCENT_HOME);
        },
        None => {
            fill_rect(frame, x + 2, y + 2, 8, 8, ACCENT_HOME_BLUE);
        },
    }
}

/// The Home weather icon for a compact condition: sun for clear or sunny,
/// rain, storm, wind for breezy, and a cloud otherwise.
pub open spec fn home_weather_icon_painted(f: Seq<u16>, cx: int, cy: int, condition: Seq<char>) -> Seq<u16> {
    if condition == "CLEAR"@ || condition == "SUNNY"@ {
        timeline_sun_painted(f, cx, cy, ACCENT_WEATHER)
    } else if condition == "RAIN"@ {
        timeline_rain_painted(f, cx, cy)
    } else if condition == "STORM"@ {
        timeline_storm_painted(f, cx, cy)
    } else if condition == "BREEZY"@ {
        timeline_wind_painted(f, cx, cy, WHITE)
    } else {
        timeline_cloud_painted(f, cx, cy, WHITE)
    }
}

/// Draws the Home weather icon for `condition` around `(cx, cy)`.
pub fn draw_home_weather_icon(frame: &mut Vec<u16>, cx: i32, cy: i32, condition: &str)
    requires
        old(frame)@.len() == PIXELS,
        at_ok(cx as int, cy as int),
    ensures
        final(frame)@ == home_weather_icon_painted(old(frame)@, cx as int, cy as int, condition@),
        final(frame)@.len() == PIXELS,
{
    if crate::text::str_eq(condition, "CLEAR") || crate::text::str_eq(condition, "SUNNY") {
        draw_timeline_sun_icon(frame, cx, cy, ACCENT_WEATHER);
    } else if crate::text::str_eq(condition, "RAIN") {
        draw_timeline_rain_icon(frame, cx, cy);
    } else if crate::text::str_eq(condition, "STORM") {
        draw_timeline_storm_icon(frame, cx, cy);
    } else if crate::text::str_eq(condition, "BREEZY") {
        draw_timeline_wind_icon(frame, cx, cy, WHITE);
    } else {
        draw_timeline_cloud_icon(frame, cx, cy, WHITE);
    }
}

} // verus!
