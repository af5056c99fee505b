//! Choices and texts the screens derive from the model: condition words and
//! icons, placeholder timelines, clipped labels and asset names.

use vstd::prelude::*;
use crate::pages::AssistantPage;
use crate::text::{contains_seq, str_chars, str_contains};
use crate::weather::condition_spec;

verus! {

/// The small weather icons of the timeline.
#[derive(Debug, Clone, Copy, PartialEq, Eq, Structural)]
pub enum WeatherMiniIcon {
    Sun,
    PartlyCloudy,
    Cloud,
    Rain,
    Storm,
    Wind,
}

/// One hour of a drawn timeline.
#[derive(Debug, Clone)]
pub struct WeatherHourRender {
    pub hour: String,
    pub temp: String,
    pub icon: WeatherMiniIcon,
}

/// The condition word a screen shows for a condition label: the first of
/// CLOUDY, SUNNY, BREEZY, CLEAR, RAIN, STORM that the label contains, SNOW
/// shown as CLOUDY, else LOCAL.
pub open spec fn compact_condition_spec(c: Seq<char>) -> Seq<char> {
    if contains_seq(c, "CLOUDY"@) {
        "CLOUDY"@
    } else if contains_seq(c, "SUNNY"@) {
        "SUNNY"@
    } else if contains_seq(c, "BREEZY"@) {
        "BREEZY"@
    } else if contains_seq(c, "CLEAR"@) {
        "CLEAR"@
    } else if contains_seq(c, "RAIN"@) {
        "RAIN"@
    } else if contains_seq(c, "STORM"@) {
        "STORM"@
    } else if contains_seq(c, "SNOW"@) {
        "CLOUDY"@
    } else {
        "LOCAL"@
    }
}

/// The condition word a screen shows for `condition`.
pub fn compact_condition(condition: &str) -> (r: &'static str)
    ensures
        r@ == compact_condition_spec(condition@),
{
    if str_contains(condition, "CLOUDY") {
        "CLOUDY"
    } else if str_contains(condition, "SUNNY") {
        "SUNNY"
    } else if str_contains(condition, "BREEZY") {
        "BREEZY"
    } else if str_contains(condition, "CLEAR") {
        "CLEAR"
    } else if str_contains(condition, "RAIN") {
        "RAIN"
    } else if str_contains(condition, "STORM") {
        "STORM"
    } else if str_contains(condition, "SNOW") {
        "CLOUDY"
    } else {
        "LOCAL"
    }
}

/// The icon of a WMO weather code, by its condition word.
pub open spec fn mini_icon_spec(code: i32) -> WeatherMiniIcon {
    let c = condition_spec(code);
    if c == "CLEAR"@ || c == "SUNNY"@ {
        WeatherMiniIcon::Sun
    } else if c == "CLOUDY"@ || c == "SNOW"@ {
        WeatherMiniIcon::Cloud
    } else if c == "RAIN"@ {
        WeatherMiniIcon::Rain
    } else if c == "STORM"@ {
        WeatherMiniIcon::Storm
    } else if c == "BREEZY"@ {
        WeatherMiniIcon::Wind
    } else {
        WeatherMiniIcon::PartlyCloudy
    }
}

/// A thunderstorm code (95 to 99) shows the storm icon, and no other code
/// does; rain codes show the rain icon.
pub proof fn lemma_storm_icon(code: i32)
    ensures
        95 <= code <= 99 ==> mini_icon_spec(code) == WeatherMiniIcon::Storm,
        mini_icon_spec(code) == WeatherMiniIcon::Storm ==> 95 <= code <= 99,
        (51 <= code <= 67 || 80 <= code <= 82) ==> mini_icon_spec(code) == WeatherMiniIcon::Rain,
{
    crate::weather::lemma_wmo_groups(code);
    crate::weather::lemma_condition_words_distinct();
    reveal_strlit("STORM");
    reveal_strlit("RAIN");
    reveal_strlit("SNOW");
    reveal_strlit("CLEAR");
    reveal_strlit("SUNNY");
    reveal_strlit("CLOUDY");
    reveal_strlit("BREEZY");
}

/// The icon of a WMO weather code.
pub fn mini_icon_from_weather_code(code: i32) -> (r: WeatherMiniIcon)
    ensures
        r == mini_icon_spec(code),
{
    let c = crate::weather::condition_from_weather_code(code);
    if crate::text::str_eq(c, "CLEAR") || crate::text::str_eq(c, "SUNNY") {
        WeatherMiniIcon::Sun
    } else if crate::text::str_eq(c, "CLOUDY") || crate::text::str_eq(c, "SNOW") {
        WeatherMiniIcon::Cloud
    } else if crate::text::str_eq(c, "RAIN") {
        WeatherMiniIcon::Rain
    } else if crate::text::str_eq(c, "STORM") {
        WeatherMiniIcon::Storm
    } else if crate::text::str_eq(c, "BREEZY") {
        WeatherMiniIcon::Wind
    } else {
        WeatherMiniIcon::PartlyCloudy
    }
}

/// The placeholder music progress for a toggle count.
pub fn mock_music_progress(toggle_count: u32) -> (r: u8)
    ensures
        r == (if toggle_count % 4 == 0 {
            15u8
        } else if toggle_count % 4 == 1 {
            35u8
        } else if toggle_count % 4 == 2 {
            60u8
        } else {
            85u8
        }),
{
    let k = toggle_count % 4;
    if k == 0 {
        15
    } else if k == 1 {
        35
    } else if k == 2 {
        60
    } else {
        85
    }
}

/// The four placeholder hours shown for a condition word when no forecast
/// is loaded.
pub open spec fn fallback_timeline_spec(condition: Seq<char>) -> Seq<(Seq<char>, Seq<char>, WeatherMiniIcon)> {
    if condition == "SUNNY"@ {
        seq![
            ("11A"@, "75"@, WeatherMiniIcon::Sun),
            ("12P"@, "77"@, WeatherMiniIcon::Sun),
            ("1P"@, "79"@, WeatherMiniIcon::PartlyCloudy),
            ("2P"@, "76"@, WeatherMiniIcon::Wind),
        ]
    } else if condition == "CLOUDY"@ {
        seq![
            ("11A"@, "68"@, WeatherMiniIcon::Cloud),
            ("12P"@, "68"@, WeatherMiniIcon::Cloud),
            ("1P"@, "70"@, WeatherMiniIcon::PartlyCloudy),
            ("2P"@, "67"@, WeatherMiniIcon::Rain),
        ]
    } else if condition == "BREEZY"@ {
        seq![
            ("11A"@, "70"@, WeatherMiniIcon::Wind),
            ("12P"@, "71"@, WeatherMiniIcon::PartlyCloudy),
            ("1P"@, "69"@, WeatherMiniIcon::Wind),
            ("2P"@, "68"@, WeatherMiniIcon::Storm),
        ]
    } else {
        seq![
            ("11A"@, "72"@, WeatherMiniIcon::PartlyCloudy),
            ("12P"@, "73"@, WeatherMiniIcon::Sun),
            ("1P"@, "72"@, WeatherMiniIcon::Cloud),
            ("2P"@, "70"@, WeatherMiniIcon::Wind),
        ]
    }
}

/// The contents of drawn timeline hours.
pub open spec fn renders_view(v: Seq<WeatherHourRender>) -> Seq<(Seq<char>, Seq<char>, WeatherMiniIcon)> {
    v.map_values(|h: WeatherHourRender| (h.hour@, h.temp@, h.icon))
}

fn hour_render(hour: &str, temp: &str, icon: WeatherMiniIcon) -> (r: WeatherHourRender)
    ensures
        r.hour@ == hour@,
        r.temp@ == temp@,
        r.icon == icon,
{
    WeatherHourRender { hour: hour.to_owned(), temp: temp.to_owned(), icon }
}

/// The placeholder timeline for a condition word.
pub fn fallback_timeline_entries(condition: &str) -> (r: Vec<WeatherHourRender>)
    ensures
        renders_view(r@) == fallback_timeline_spec(condition@),
{
    let mut v: Vec<WeatherHourRender> = Vec::new();
    if crate::text::str_eq(condition, "SUNNY") {
        v.push(hour_render("11A", "75", WeatherMiniIcon::Sun));
        v.push(hour_render("12P", "77", WeatherMiniIcon::Sun));
        v.push(hour_render("1P", "79", WeatherMiniIcon::PartlyCloudy));
        v.push(hour_render("2P", "76", WeatherMiniIcon::Wind));
    } else if crate::text::str_eq(condition, "CLOUDY") {
        v.push(hour_render("11A", "68", WeatherMiniIcon::Cloud));
        v.push(hour_render("12P", "68", WeatherMiniIcon::Cloud));
        v.push(hour_render("1P", "70", WeatherMiniIcon::PartlyCloudy));
        v.push(hour_render("2P", "67", WeatherMiniIcon::Rain));
    } else if crate::text::str_eq(condition, "BREEZY") {
        v.push(hour_render("11A", "70", WeatherMiniIcon::Wind));
        v.push(hour_render("12P", "71", WeatherMiniIcon::PartlyCloudy));
        v.push(hour_render("1P", "69", WeatherMiniIcon::Wind));
        v.push(hour_render("2P", "68", WeatherMiniIcon::Storm));
    } else {
        v.push(hour_render("11A", "72", WeatherMiniIcon::PartlyCloudy));
        v.push(hour_render("12P", "73", WeatherMiniIcon::Sun));
        v.push(hour_render("1P", "72", WeatherMiniIcon::Cloud));
        v.push(hour_render("2P", "70", WeatherMiniIcon::Wind));
    }
    assert(renders_view(v@) =~= fallback_timeline_spec(condition@));
    v
}

/// `char::is_control`: the Unicode control characters.
pub open spec fn is_control(c: char) -> bool {
    (c as u32) <= 0x1F || (0x7F <= (c as u32) && (c as u32) <= 0x9F)
}

/// The first `max` characters of `s`, control characters shown as spaces.
pub open spec fn clip_controls(s: Seq<char>, max: nat) -> Seq<char> {
    s.take(if s.len() < max { s.len() as int } else { max as int }).map_values(
        |c: char| if is_control(c) { ' ' } else { c },
    )
}

/// The first `max_chars` characters of `value`, control characters shown as
/// spaces.
pub fn settings_clip(value: &str, max_chars: usize) -> (r: String)
    ensures
        r@ == clip_controls(value@, max_chars as nat),
{
    let v = str_chars(value);
    let n: usize = if v.len() < max_chars { v.len() } else { max_chars };
    let mut out = String::new();
    let mut i: usize = 0;
    while i < n
        invariant
            i <= n <= v@.len(),
            n == (if v@.len() < max_chars { v@.len() as int } else { max_chars as int }),
            v@ == value@,
            out@ == clip_controls(v@.take(i as int), i as nat),
        decreases n - i,
    {
        let c = v[i];
        let u = c as u32;
        let shown = if u <= 0x1F || (0x7F <= u && u <= 0x9F) { ' ' } else { c };
        crate::text::push_char(&mut out, shown);
        assert(clip_controls(v@.take(i + 1), (i + 1) as nat) =~= clip_controls(v@.take(i as int), i as nat).push(shown));
        i = i + 1;
    }
    assert(clip_controls(v@.take(n as int), n as nat) =~= clip_controls(value@, max_chars as nat));
    out
}

/// A sample of a reply body for the monitor: its first `max_chars`
/// characters, control characters shown as spaces.
pub fn weather_body_sample(body: &str, max_chars: usize) -> (r: String)
    ensures
        r@ == clip_controls(body@, max_chars as nat),
{
    settings_clip(body, max_chars)
}

/// Where the background of the cached page came from.
#[derive(Debug, Clone, Copy, PartialEq, Eq, Structural)]
pub enum UiAssetSource {
    Sd,
    Fallback,
}

/// Bytes of a full-screen RGB565 background image.
pub const RGB565_ASSET_BYTES: i32 = 259200;

/// Which page's background image is held, and where it came from; the
/// pixels themselves are kept by the caller.
#[derive(Debug, Clone, Copy, PartialEq, Eq, Structural)]
pub struct UiAssetCache {
    pub page: Option<AssistantPage>,
    pub source: UiAssetSource,
}

impl UiAssetCache {
    /// Nothing held yet.
    pub fn new() -> (r: Self)
        ensures
            r == (UiAssetCache { page: None, source: UiAssetSource::Fallback }),
    {
        UiAssetCache { page: None, source: UiAssetSource::Fallback }
    }

    /// Whether the background of `page` must be read: it is not the one
    /// held.
    pub fn needs_read(&self, page: AssistantPage) -> (r: bool)
        ensures
            r == (self.page != Some(page)),
    {
        match self.page {
            Some(p) => p != page,
            None => true,
        }
    }

    /// Records a read of the background of `page` that returned `read`
    /// (bytes, or a negative error): the image is used only when it came
    /// whole.
    pub fn note_read(&mut self, page: AssistantPage, read: i32)
        ensures
            final(self).page == Some(page),
            final(self).source == (if read == RGB565_ASSET_BYTES {
                UiAssetSource::Sd
            } else {
                UiAssetSource::Fallback
            }),
    {
        self.page = Some(page);
        self.source = if read == RGB565_ASSET_BYTES {
            UiAssetSource::Sd
        } else {
            UiAssetSource::Fallback
        };
    }
}

/// The SD card file of a page's background image.
pub fn ui_asset_name(page: AssistantPage) -> (r: &'static str)
    ensures
        r@ == (match page {
            AssistantPage::Home => "HOME.RGB"@,
            AssistantPage::Weather => "WEATHER.RGB"@,
            AssistantPage::Music => "MUSIC.RGB"@,
            AssistantPage::InternetRadio => "MUSIC.RGB"@,
            AssistantPage::Assistant => "AI.RGB"@,
            AssistantPage::Settings => "SETTINGS.RGB"@,
        }),
{
    match page {
        AssistantPage::Home => "HOME.RGB",
        AssistantPage::Weather => "WEATHER.RGB",
        AssistantPage::Music => "MUSIC.RGB",
        AssistantPage::InternetRadio => "MUSIC.RGB",
        AssistantPage::Assistant => "AI.RGB",
        AssistantPage::Settings => "SETTINGS.RGB",
    }
}

/// Monitor text for the result code of an asset read.
pub fn asset_sd_error_label(code: i32) -> (r: &'static str)
    ensures
        r@ == (if code == -1 {
            "BAD_ARG"@
        } else if code == -2 {
            "SD_MOUNT"@
        } else if code == -3 {
            "NO_FILE"@
        } else if code == -4 {
            "SHORT_READ"@
        } else if code == -5 {
            "BAD_PATH"@
        } else {
            "SD_FAIL"@
        }),
{
    if code == -1 {
        "BAD_ARG"
    } else if code == -2 {
        "SD_MOUNT"
    } else if code == -3 {
        "NO_FILE"
    } else if code == -4 {
        "SHORT_READ"
    } else if code == -5 {
        "BAD_PATH"
    } else {
        "SD_FAIL"
    }
}

/// `YES` or `NO`.
pub fn yes_no(value: bool) -> (r: &'static str)
    ensures
        r@ == (if value { "YES"@ } else { "NO"@ }),
{
    if value {
        "YES"
    } else {
        "NO"
    }
}

/// The shown name of a file: the first 24 characters of its name.
pub fn display_name(file_name: &str) -> (r: String)
    ensures
        r@ == file_name@.take(if file_name@.len() < 24 { file_name@.len() as int } else { 24 }),
{
    crate::text::clip_chars(file_name, 24)
}

/// Monitor text for the result of a video folder probe.
pub fn mjpeg_status_label(status: i32, ok: bool) -> (r: &'static str)
    ensures
        r@ == (if !ok {
            "PROBE-FAIL"@
        } else if status == 0 {
            "READY"@
        } else if status == -2 {
            "SD-MOUNT"@
        } else if status == -3 {
            "NO-DIR"@
        } else if status == -4 {
            "NO-FILES"@
        } else if status == -5 {
            "OPEN-FAIL"@
        } else if status == -6 {
            "NO-FRAME"@
        } else {
            "UNKNOWN"@
        }),
{
    if !ok {
        return "PROBE-FAIL";
    }
    if status == 0 {
        "READY"
    } else if status == -2 {
        "SD-MOUNT"
    } else if status == -3 {
        "NO-DIR"
    } else if status == -4 {
        "NO-FILES"
    } else if status == -5 {
        "OPEN-FAIL"
    } else if status == -6 {
        "NO-FRAME"
    } else {
        "UNKNOWN"
    }
}

/// Monitor text for the result of a video frame decode.
pub fn mjpeg_decode_status_label(status: i32, ok: bool) -> (r: &'static str)
    ensures
        r@ == (if !ok {
            "DECODE-FAIL"@
        } else if status == 0 {
            "DECODED"@
        } else if status == -2 {
            "SD-MOUNT"@
        } else if status == -4 {
            "SHORT-READ"@
        } else if status == -5 {
            "OPEN-FAIL"@
        } else if status == -7 {
            "BAD-PATH"@
        } else if status == -8 {
            "NO-MEM"@
        } else if status == -9 {
            "SEEK-FAIL"@
        } else if status == -10 {
            "BAD-JPEG"@
        } else if status == -11 {
            "JPEG-FAIL"@
        } else if status == -12 {
            "LOOP"@
        } else if status == -6 {
            "NO-FRAME"@
        } else {
            "NOT-READY"@
        }),
{
    if !ok {
        return "DECODE-FAIL";
    }
    if status == 0 {
        "DECODED"
    } else if status == -2 {
        "SD-MOUNT"
    } else if status == -4 {
        "SHORT-READ"
    } else if status == -5 {
        "OPEN-FAIL"
    } else if status == -7 {
        "BAD-PATH"
    } else if status == -8 {
        "NO-MEM"
    } else if status == -9 {
        "SEEK-FAIL"
    } else if status == -10 {
        "BAD-JPEG"
    } else if status == -11 {
        "JPEG-FAIL"
    } else if status == -12 {
        "LOOP"
    } else if status == -6 {
        "NO-FRAME"
    } else {
        "NOT-READY"
    }
}

} // verus!
