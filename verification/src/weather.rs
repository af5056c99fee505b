//! Weather page state: location and unit choice, provider status, hourly
//! timeline, and the last-known-good cache text.

use vstd::prelude::*;
use crate::assistant::sat_inc;
use crate::text::{
    ascii_lower, clip_chars, dec, dec_int, find_char, fold_lines, index_of, lower_range,
    after_first_line, first_line, next_line, parse_i32_range, parse_i32_spec, parse_i64_range,
    parse_i64_spec, parse_usize_range, parse_usize_spec, range_view, push_dec, push_dec_i64,
    push_str, range_eq_str, str_chars, str_eq, string_from_range, trim, trim_range,
};

verus! {

/// Where the shown weather came from.
#[derive(Debug, Clone, Copy, PartialEq, Eq, Structural)]
pub enum WeatherProviderStatus {
    Local,
    Fetching,
    Live,
    Stale,
    Failed,
}

impl WeatherProviderStatus {
    pub open spec fn label_spec(self) -> Seq<char> {
        match self {
            WeatherProviderStatus::Local => "LOCAL"@,
            WeatherProviderStatus::Fetching => "FETCHING"@,
            WeatherProviderStatus::Live => "LIVE"@,
            WeatherProviderStatus::Stale => "STALE"@,
            WeatherProviderStatus::Failed => "FAILED"@,
        }
    }

    pub fn label(self) -> (r: &'static str)
        ensures
            r@ == self.label_spec(),
    {
        match self {
            WeatherProviderStatus::Local => "LOCAL",
            WeatherProviderStatus::Fetching => "FETCHING",
            WeatherProviderStatus::Live => "LIVE",
            WeatherProviderStatus::Stale => "STALE",
            WeatherProviderStatus::Failed => "FAILED",
        }
    }
}

/// Temperature unit.
#[derive(Debug, Clone, Copy, PartialEq, Eq, Structural)]
pub enum WeatherUnits {
    Fahrenheit,
    Celsius,
}

impl WeatherUnits {
    pub open spec fn suffix_spec(self) -> Seq<char> {
        match self {
            WeatherUnits::Fahrenheit => "F"@,
            WeatherUnits::Celsius => "C"@,
        }
    }

    pub open spec fn api_value_spec(self) -> Seq<char> {
        match self {
            WeatherUnits::Fahrenheit => "fahrenheit"@,
            WeatherUnits::Celsius => "celsius"@,
        }
    }

    pub open spec fn label_spec(self) -> Seq<char> {
        match self {
            WeatherUnits::Fahrenheit => "UNITS F"@,
            WeatherUnits::Celsius => "UNITS C"@,
        }
    }

    pub open spec fn toggled_spec(self) -> WeatherUnits {
        match self {
            WeatherUnits::Fahrenheit => WeatherUnits::Celsius,
            WeatherUnits::Celsius => WeatherUnits::Fahrenheit,
        }
    }

    /// Celsius for `C` or `CELSIUS` in any case, surrounding white space
    /// ignored; Fahrenheit for anything else.
    pub open spec fn from_label_spec(value: Seq<char>) -> WeatherUnits {
        let l = ascii_lower(trim(value));
        if l == "c"@ || l == "celsius"@ {
            WeatherUnits::Celsius
        } else {
            WeatherUnits::Fahrenheit
        }
    }

    pub fn suffix(self) -> (r: &'static str)
        ensures
            r@ == self.suffix_spec(),
    {
        match self {
            WeatherUnits::Fahrenheit => "F",
            WeatherUnits::Celsius => "C",
        }
    }

    pub fn api_value(self) -> (r: &'static str)
        ensures
            r@ == self.api_value_spec(),
    {
        match self {
            WeatherUnits::Fahrenheit => "fahrenheit",
            WeatherUnits::Celsius => "celsius",
        }
    }

    pub fn label(self) -> (r: &'static str)
        ensures
            r@ == self.label_spec(),
    {
        match self {
            WeatherUnits::Fahrenheit => "UNITS F",
            WeatherUnits::Celsius => "UNITS C",
        }
    }

    pub fn toggled(self) -> (r: WeatherUnits)
        ensures
            r == self.toggled_spec(),
    {
        match self {
            WeatherUnits::Fahrenheit => WeatherUnits::Celsius,
            WeatherUnits::Celsius => WeatherUnits::Fahrenheit,
        }
    }

    /// The unit named by `v[a..b]`.
    pub fn from_label_range(v: &Vec<char>, a: usize, b: usize) -> (r: WeatherUnits)
        requires
            a <= b <= v.len(),
        ensures
            r == WeatherUnits::from_label_spec(v@.subrange(a as int, b as int)),
    {
        let (t0, t1) = trim_range(v, a, b);
        let l = lower_range(v, t0, t1);
        let n = l.len();
        assert(l@.subrange(0, n as int) =~= l@);
        if range_eq_str(&l, 0, n, "c") || range_eq_str(&l, 0, n, "celsius") {
            WeatherUnits::Celsius
        } else {
            WeatherUnits::Fahrenheit
        }
    }

    /// The unit named by a label text.
    pub fn from_label(value: &str) -> (r: WeatherUnits)
        ensures
            r == WeatherUnits::from_label_spec(value@),
    {
        let v = str_chars(value);
        assert(v@.subrange(0, v.len() as int) =~= v@);
        WeatherUnits::from_label_range(&v, 0, v.len())
    }
}

/// Toggling the units twice restores them.
pub proof fn lemma_units_toggle_involution(u: WeatherUnits)
    ensures
        u.toggled_spec().toggled_spec() == u,
        u.toggled_spec() != u,
{
}

/// A selectable forecast location.
#[derive(Debug, Clone, Copy)]
pub struct WeatherLocation {
    pub label: &'static str,
    pub latitude: &'static str,
    pub longitude: &'static str,
    pub timezone_url: &'static str,
}

/// Number of selectable locations.
pub const WEATHER_LOCATION_COUNT: usize = 4;

/// Label of location `i` (0..=3).
pub open spec fn location_label_spec(i: int) -> Seq<char> {
    if i == 0 {
        "JERSEY CITY"@
    } else if i == 1 {
        "NEW YORK"@
    } else if i == 2 {
        "EDISON"@
    } else {
        "MUMBAI"@
    }
}

/// Latitude text of location `i` (0..=3).
pub open spec fn location_latitude_spec(i: int) -> Seq<char> {
    if i == 0 {
        "40.7282"@
    } else if i == 1 {
        "40.7128"@
    } else if i == 2 {
        "40.5187"@
    } else {
        "19.0760"@
    }
}

/// Longitude text of location `i` (0..=3).
pub open spec fn location_longitude_spec(i: int) -> Seq<char> {
    if i == 0 {
        "-74.0776"@
    } else if i == 1 {
        "-74.0060"@
    } else if i == 2 {
        "-74.4121"@
    } else {
        "72.8777"@
    }
}

/// URL-encoded time zone of location `i` (0..=3).
pub open spec fn location_timezone_spec(i: int) -> Seq<char> {
    if i == 3 {
        "Asia%2FKolkata"@
    } else {
        "America%2FNew_York"@
    }
}

/// `min(i, 3)`: indices past the end select the last location.
pub open spec fn clamp_location(i: int) -> int {
    if i < 3 {
        i
    } else {
        3
    }
}

/// The location at `index` (indices past the end select the last one).
pub fn weather_location(index: usize) -> (r: WeatherLocation)
    ensures
        r.label@ == location_label_spec(clamp_location(index as int)),
        r.latitude@ == location_latitude_spec(clamp_location(index as int)),
        r.longitude@ == location_longitude_spec(clamp_location(index as int)),
        r.timezone_url@ == location_timezone_spec(clamp_location(index as int)),
{
    if index == 0 {
        WeatherLocation {
            label: "JERSEY CITY",
            latitude: "40.7282",
            longitude: "-74.0776",
            timezone_url: "America%2FNew_York",
        }
    } else if index == 1 {
        WeatherLocation {
            label: "NEW YORK",
            latitude: "40.7128",
            longitude: "-74.0060",
            timezone_url: "America%2FNew_York",
        }
    } else if index == 2 {
        WeatherLocation {
            label: "EDISON",
            latitude: "40.5187",
            longitude: "-74.4121",
            timezone_url: "America%2FNew_York",
        }
    } else {
        WeatherLocation {
            label: "MUMBAI",
            latitude: "19.0760",
            longitude: "72.8777",
            timezone_url: "Asia%2FKolkata",
        }
    }
}

/// One hour of the forecast timeline.
#[derive(Debug, Clone)]
pub struct WeatherHourSlot {
    pub hour_label: String,
    pub temp_label: String,
    pub weather_code: i32,
}

/// The contents of an hour slot.
pub open spec fn slot_view(s: WeatherHourSlot) -> (Seq<char>, Seq<char>, i32) {
    (s.hour_label@, s.temp_label@, s.weather_code)
}

/// The contents of a list of hour slots.
pub open spec fn slots_view(v: Seq<WeatherHourSlot>) -> Seq<(Seq<char>, Seq<char>, i32)> {
    v.map_values(|s: WeatherHourSlot| slot_view(s))
}

/// The weather page state.
#[derive(Debug, Clone)]
pub struct WeatherState {
    pub refresh_attempts: u32,
    pub status: String,
    pub temperature_label: String,
    pub condition_label: String,
    pub location_label: String,
    pub provider_status: WeatherProviderStatus,
    pub last_error: String,
    pub last_live_epoch: i64,
    pub location_index: usize,
    pub units: WeatherUnits,
    pub hourly_slots: Vec<WeatherHourSlot>,
    pub config_generation: u32,
}

/// A parsed forecast: current temperature and code, and the hourly slots.
#[derive(Debug, Clone)]
pub struct WeatherSample {
    pub temp_value: i32,
    pub weather_code: i32,
    pub hourly_slots: Vec<WeatherHourSlot>,
}

/// The condition word for a WMO weather code.
pub open spec fn condition_spec(code: i32) -> Seq<char> {
    if code == 0 {
        "CLEAR"@
    } else if code == 1 || code == 2 {
        "SUNNY"@
    } else if code == 3 || code == 45 || code == 48 {
        "CLOUDY"@
    } else if (51 <= code <= 67) || (80 <= code <= 82) {
        "RAIN"@
    } else if (71 <= code <= 77) || (85 <= code <= 86) {
        "SNOW"@
    } else if 95 <= code <= 99 {
        "STORM"@
    } else {
        "BREEZY"@
    }
}

/// The WMO weather-code groups: a thunderstorm (95 to 99) is a storm and
/// only a thunderstorm is; drizzle, rain and rain showers (51 to 67, 80 to
/// 82) are rain; snow and snow showers (71 to 77, 85, 86) are snow; 0 is a
/// clear sky, 1 and 2 mainly clear or partly cloudy skies, 3 an overcast
/// sky and 45, 48 fog; precipitation never reads as clear or sunny.
/// The condition words are pairwise different.
pub proof fn lemma_condition_words_distinct()
    ensures
        "STORM"@ != "RAIN"@ && "STORM"@ != "SNOW"@ && "STORM"@ != "CLEAR"@ && "STORM"@ != "SUNNY"@
            && "STORM"@ != "CLOUDY"@ && "STORM"@ != "BREEZY"@,
        "RAIN"@ != "SNOW"@ && "RAIN"@ != "CLEAR"@ && "RAIN"@ != "SUNNY"@ && "RAIN"@ != "CLOUDY"@
            && "RAIN"@ != "BREEZY"@,
        "SNOW"@ != "CLEAR"@ && "SNOW"@ != "SUNNY"@ && "SNOW"@ != "CLOUDY"@ && "SNOW"@ != "BREEZY"@,
        "CLEAR"@ != "SUNNY"@ && "CLEAR"@ != "CLOUDY"@ && "CLEAR"@ != "BREEZY"@,
        "SUNNY"@ != "CLOUDY"@ && "SUNNY"@ != "BREEZY"@,
        "CLOUDY"@ != "BREEZY"@,
{
    reveal_strlit("STORM");
    reveal_strlit("RAIN");
    reveal_strlit("SNOW");
    reveal_strlit("CLEAR");
    reveal_strlit("SUNNY");
    reveal_strlit("CLOUDY");
    reveal_strlit("BREEZY");
    assert("STORM"@[0] != "CLEAR"@[0]);
    assert("STORM"@[1] != "SUNNY"@[1]);
    assert("STORM"@[0] != "RAIN"@[0]);
    assert("STORM"@[1] != "SNOW"@[1]);
    assert("RAIN"@[0] != "SNOW"@[0]);
    assert("CLEAR"@[0] != "SUNNY"@[0]);
    assert("CLOUDY"@[0] != "BREEZY"@[0]);
    assert("CLEAR"@.len() != "CLOUDY"@.len());
    assert("CLEAR"@.len() != "BREEZY"@.len());
    assert("SUNNY"@.len() != "CLOUDY"@.len());
    assert("SUNNY"@.len() != "BREEZY"@.len());
}

pub proof fn lemma_wmo_groups(code: i32)
    ensures
        95 <= code <= 99 ==> condition_spec(code) == "STORM"@,
        condition_spec(code) == "STORM"@ ==> 95 <= code <= 99,
        (51 <= code <= 67 || 80 <= code <= 82) ==> condition_spec(code) == "RAIN"@,
        (71 <= code <= 77 || 85 <= code <= 86) ==> condition_spec(code) == "SNOW"@,
        code == 0 ==> condition_spec(code) == "CLEAR"@,
        (code == 1 || code == 2) ==> condition_spec(code) == "SUNNY"@,
        (code == 3 || code == 45 || code == 48) ==> condition_spec(code) == "CLOUDY"@,
        (51 <= code <= 99) ==> condition_spec(code) != "CLEAR"@ && condition_spec(code) != "SUNNY"@,
{
    lemma_condition_words_distinct();
    reveal_strlit("STORM");
    reveal_strlit("RAIN");
    reveal_strlit("SNOW");
    reveal_strlit("CLEAR");
    reveal_strlit("SUNNY");
    reveal_strlit("CLOUDY");
    reveal_strlit("BREEZY");
}

/// The condition word for a WMO weather code.
pub fn condition_from_weather_code(code: i32) -> (r: &'static str)
    ensures
        r@ == condition_spec(code),
{
    if code == 0 {
        "CLEAR"
    } else if code == 1 || code == 2 {
        "SUNNY"
    } else if code == 3 || code == 45 || code == 48 {
        "CLOUDY"
    } else if (51 <= code && code <= 67) || (80 <= code && code <= 82) {
        "RAIN"
    } else if (71 <= code && code <= 77) || (85 <= code && code <= 86) {
        "SNOW"
    } else if 95 <= code && code <= 99 {
        "STORM"
    } else {
        "BREEZY"
    }
}

/// The `max` first characters of an error text.
pub open spec fn clipped_spec(s: Seq<char>, max: nat) -> Seq<char> {
    s.take(if s.len() < max { s.len() as int } else { max as int })
}

/// Fields of a state that a configuration change resets.
pub open spec fn config_cleared(old_s: WeatherState, new_s: WeatherState, reason: Seq<char>) -> bool {
    &&& new_s.config_generation == sat_inc(old_s.config_generation)
    &&& new_s.temperature_label@ == "--"@
    &&& new_s.condition_label@ == "TAP FETCH"@
    &&& new_s.hourly_slots@.len() == 0
    &&& new_s.provider_status == WeatherProviderStatus::Local
    &&& new_s.status@ == "LOCAL"@
    &&& new_s.last_error@ == reason
    &&& new_s.last_live_epoch == 0
    &&& new_s.refresh_attempts == old_s.refresh_attempts
}

/// A fetch was requested: the attempt is counted and the state shows
/// fetching; nothing else changes.
pub open spec fn fetch_requested(old_s: WeatherState, new_s: WeatherState) -> bool {
    &&& new_s.refresh_attempts == sat_inc(old_s.refresh_attempts)
    &&& new_s.provider_status == WeatherProviderStatus::Fetching
    &&& new_s.status@ == "FETCHING"@
    &&& new_s.last_error@ == "FETCH"@
    &&& new_s == WeatherState {
        refresh_attempts: new_s.refresh_attempts,
        provider_status: new_s.provider_status,
        status: new_s.status,
        last_error: new_s.last_error,
        ..old_s
    }
}

/// The next location (wrapping) is selected and the shown weather cleared.
pub open spec fn location_cycled(old_s: WeatherState, new_s: WeatherState) -> bool {
    &&& new_s.location_index == (old_s.location_index + 1) % 4
    &&& new_s.location_label@ == location_label_spec(new_s.location_index as int)
    &&& new_s.units == old_s.units
    &&& config_cleared(old_s, new_s, "LOCATION"@)
}

/// The previous location (wrapping) is selected and the shown weather
/// cleared.
pub open spec fn location_stepped_back(old_s: WeatherState, new_s: WeatherState) -> bool {
    &&& new_s.location_index == (if old_s.location_index % 4 == 0 {
        3
    } else {
        old_s.location_index % 4 - 1
    })
    &&& new_s.location_label@ == location_label_spec(new_s.location_index as int)
    &&& new_s.units == old_s.units
    &&& config_cleared(old_s, new_s, "LOCATION"@)
}

/// The other unit is selected and the shown weather cleared.
pub open spec fn units_toggled(old_s: WeatherState, new_s: WeatherState) -> bool {
    &&& new_s.units == old_s.units.toggled_spec()
    &&& new_s.location_index == old_s.location_index
    &&& new_s.location_label == old_s.location_label
    &&& config_cleared(old_s, new_s, new_s.units.label_spec())
}

/// A fetch failed for `reason`: the error shows its first 14 characters;
/// the state is stale if live weather was shown before, failed otherwise
/// (a failed state without a temperature shows `LOCAL ONLY`).
pub open spec fn fetch_failed(old_s: WeatherState, new_s: WeatherState, reason: Seq<char>) -> bool {
    &&& new_s.last_error@ == clipped_spec(reason, 14)
    &&& old_s.last_live_epoch > 0 ==> new_s.provider_status == WeatherProviderStatus::Stale
        && new_s.status@ == "STALE"@ && new_s.condition_label == old_s.condition_label
    &&& old_s.last_live_epoch <= 0 ==> new_s.provider_status == WeatherProviderStatus::Failed
        && new_s.status@ == "FAILED"@ && new_s.condition_label@ == (if old_s.temperature_label@
        == "--"@ {
        "LOCAL ONLY"@
    } else {
        old_s.condition_label@
    })
    &&& new_s == WeatherState {
        last_error: new_s.last_error,
        provider_status: new_s.provider_status,
        status: new_s.status,
        condition_label: new_s.condition_label,
        ..old_s
    }
}

/// A fetched sample is shown live: temperature with the unit suffix, the
/// code's condition word, the sample's hour slots, recorded at `epoch`.
pub open spec fn live_applied(old_s: WeatherState, new_s: WeatherState, sample: WeatherSample, epoch: i64) -> bool {
    &&& new_s.temperature_label@ == dec_int(sample.temp_value as int) + old_s.units.suffix_spec()
    &&& new_s.condition_label@ == condition_spec(sample.weather_code)
    &&& new_s.hourly_slots == sample.hourly_slots
    &&& new_s.provider_status == WeatherProviderStatus::Live
    &&& new_s.status@ == "LIVE"@
    &&& new_s.last_error@ == "NONE"@
    &&& new_s.last_live_epoch == epoch
    &&& new_s == WeatherState {
        temperature_label: new_s.temperature_label,
        condition_label: new_s.condition_label,
        hourly_slots: new_s.hourly_slots,
        provider_status: new_s.provider_status,
        status: new_s.status,
        last_error: new_s.last_error,
        last_live_epoch: epoch,
        ..old_s
    }
}

impl WeatherState {
    /// The state at boot: local placeholder at the first location, in Fahrenheit, no forecast.
    pub open spec fn is_boot(self) -> bool {
        &&& self.refresh_attempts == 0
        &&& self.status@ == "LOCAL"@
        &&& self.temperature_label@ == "--"@
        &&& self.condition_label@ == "LOCAL ONLY"@
        &&& self.location_label@ == "JERSEY CITY"@
        &&& self.provider_status == WeatherProviderStatus::Local
        &&& self.last_error@ == "NONE"@
        &&& self.last_live_epoch == 0
        &&& self.location_index == 0
        &&& self.units == WeatherUnits::Fahrenheit
        &&& self.hourly_slots@.len() == 0
        &&& self.config_generation == 0
    }

    /// Local placeholder state at the first location, in Fahrenheit.
    pub fn new() -> (r: Self)
        ensures
            r.is_boot(),
    {
        let location = weather_location(0);
        WeatherState {
            refresh_attempts: 0,
            status: WeatherProviderStatus::Local.label().to_owned(),
            temperature_label: "--".to_owned(),
            condition_label: "LOCAL ONLY".to_owned(),
            location_label: location.label.to_owned(),
            provider_status: WeatherProviderStatus::Local,
            last_error: "NONE".to_owned(),
            last_live_epoch: 0,
            location_index: 0,
            units: WeatherUnits::Fahrenheit,
            hourly_slots: Vec::new(),
            config_generation: 0,
        }
    }

    /// Marks a fetch as started.
    pub fn request_fetch(&mut self)
        ensures
            fetch_requested(*old(self), *final(self)),
    {
        self.refresh_attempts = self.refresh_attempts.saturating_add(1);
        self.provider_status = WeatherProviderStatus::Fetching;
        self.status = WeatherProviderStatus::Fetching.label().to_owned();
        self.last_error = "FETCH".to_owned();
    }

    /// Sets the location label from the location index.
    fn sync_location_label(&mut self)
        ensures
            final(self).location_label@ == location_label_spec(
                clamp_location(old(self).location_index as int),
            ),
            *final(self) == (WeatherState {
                location_label: final(self).location_label,
                ..*old(self)
            }),
    {
        self.location_label = weather_location(self.location_index).label.to_owned();
    }

    /// Resets the shown weather after a location or unit change.
    fn clear_for_config_change(&mut self, reason: &str)
        ensures
            config_cleared(*old(self), *final(self), reason@),
            final(self).location_index == old(self).location_index,
            final(self).location_label == old(self).location_label,
            final(self).units == old(self).units,
    {
        self.config_generation = self.config_generation.saturating_add(1);
        self.temperature_label = "--".to_owned();
        self.condition_label = "TAP FETCH".to_owned();
        self.hourly_slots.clear();
        self.provider_status = WeatherProviderStatus::Local;
        self.status = WeatherProviderStatus::Local.label().to_owned();
        self.last_error = reason.to_owned();
        self.last_live_epoch = 0;
    }

    /// Moves to the next location (wrapping) and clears the shown weather.
    pub fn cycle_location(&mut self)
        requires
            old(self).location_index < usize::MAX,
        ensures
            location_cycled(*old(self), *final(self)),
    {
        self.location_index = (self.location_index + 1) % WEATHER_LOCATION_COUNT;
        self.sync_location_label();
        self.clear_for_config_change("LOCATION");
    }

    /// Moves to the previous location (wrapping) and clears the shown weather.
    pub fn previous_location(&mut self)
        ensures
            location_stepped_back(*old(self), *final(self)),
    {
        let i = self.location_index % WEATHER_LOCATION_COUNT;
        self.location_index = if i == 0 {
            3
        } else {
            i - 1
        };
        self.sync_location_label();
        self.clear_for_config_change("LOCATION");
    }

    /// Switches between Fahrenheit and Celsius and clears the shown weather.
    pub fn toggle_units(&mut self)
        ensures
            units_toggled(*old(self), *final(self)),
    {
        self.units = self.units.toggled();
        let reason = self.units.label();
        self.clear_for_config_change(reason);
    }

    /// Shows a freshly fetched sample.
    pub fn apply_live_weather(&mut self, sample: WeatherSample, epoch: i64)
        ensures
            live_applied(*old(self), *final(self), sample, epoch),
    {
        let mut t = String::new();
        push_dec_i64(&mut t, sample.temp_value as i64);
        push_str(&mut t, self.units.suffix());
        self.temperature_label = t;
        self.condition_label = condition_from_weather_code(sample.weather_code).to_owned();
        self.hourly_slots = sample.hourly_slots;
        self.provider_status = WeatherProviderStatus::Live;
        self.status = WeatherProviderStatus::Live.label().to_owned();
        self.last_error = "NONE".to_owned();
        self.last_live_epoch = epoch;
    }

    /// Records a failed fetch: stale if live weather was shown before,
    /// failed otherwise.
    pub fn apply_failed(&mut self, reason: &str)
        ensures
            fetch_failed(*old(self), *final(self), reason@),
    {
        self.last_error = clip_chars(reason, 14);
        if self.last_live_epoch > 0 {
            self.provider_status = WeatherProviderStatus::Stale;
            self.status = WeatherProviderStatus::Stale.label().to_owned();
        } else {
            self.provider_status = WeatherProviderStatus::Failed;
            self.status = WeatherProviderStatus::Failed.label().to_owned();
            if str_eq(self.temperature_label.as_str(), "--") {
                self.condition_label = "LOCAL ONLY".to_owned();
            }
        }
    }

    /// The Open-Meteo forecast URL for the current location and units.
    pub fn provider_url(&self) -> (r: String)
        ensures
            r@ == "http://api.open-meteo.com/v1/forecast?latitude="@ + location_latitude_spec(
                clamp_location(self.location_index as int),
            ) + "&longitude="@ + location_longitude_spec(
                clamp_location(self.location_index as int),
            )
                + "&current=temperature_2m,weather_code&hourly=temperature_2m,weather_code&forecast_days=1&temperature_unit="@
                + self.units.api_value_spec() + "&timezone="@ + location_timezone_spec(
                clamp_location(self.location_index as int),
            ),
    {
        let location = weather_location(self.location_index);
        let mut s = String::new();
        push_str(&mut s, "http://api.open-meteo.com/v1/forecast?latitude=");
        push_str(&mut s, location.latitude);
        push_str(&mut s, "&longitude=");
        push_str(&mut s, location.longitude);
        push_str(
            &mut s,
            "&current=temperature_2m,weather_code&hourly=temperature_2m,weather_code&forecast_days=1&temperature_unit=",
        );
        push_str(&mut s, self.units.api_value());
        push_str(&mut s, "&timezone=");
        push_str(&mut s, location.timezone_url);
        s
    }

    /// `{location} {units} {provider status}`.
    pub fn footer_label(&self) -> (r: String)
        ensures
            r@ == self.location_label@ + " "@ + self.units.suffix_spec() + " "@
                + self.provider_status.label_spec(),
    {
        let mut s = String::new();

        push_str(&mut s, self.location_label.as_str());
        push_str(&mut s, " ");
        push_str(&mut s, self.units.suffix());
        push_str(&mut s, " ");
        push_str(&mut s, self.provider_status.label());
        s
    }

    pub fn location_label(&self) -> (r: &str)
        ensures
            r@ == self.location_label@,
    {
        self.location_label.as_str()
    }

    pub fn status_label(&self) -> (r: &str)
        ensures
            r@ == self.status@,
    {
        self.status.as_str()
    }

    pub fn temperature_label(&self) -> (r: &str)
        ensures
            r@ == self.temperature_label@,
    {
        self.temperature_label.as_str()
    }

    pub fn condition_label(&self) -> (r: &str)
        ensures
            r@ == self.condition_label@,
    {
        self.condition_label.as_str()
    }

    pub fn last_error_label(&self) -> (r: &str)
        ensures
            r@ == self.last_error@,
    {
        self.last_error.as_str()
    }

    /// `hour:temp` of the first four slots joined by commas, or `NONE`.
    pub fn hourly_summary(&self) -> (r: String)
        ensures
            r@ == hourly_summary_spec(slots_view(self.hourly_slots@)),
    {
        if self.hourly_slots.len() == 0 {
            return "NONE".to_owned();
        }
        let n = if self.hourly_slots.len() < 4 {
            self.hourly_slots.len()
        } else {
            4
        };
        let ghost all = slots_view(self.hourly_slots@);
        let mut s = String::new();
        let mut i: usize = 0;
        while i < n
            invariant
                0 < n <= 4,
                n <= self.hourly_slots.len(),
                i <= n,
                all == slots_view(self.hourly_slots@),
                n == (if all.len() < 4 {
                    all.len()
                } else {
                    4
                }),
                s@ == summary_join(all.take(i as int)),
            decreases n - i,
        {
            let slot = &self.hourly_slots[i];
            if i > 0 {
                push_str(&mut s, ",");
            }
            push_str(&mut s, slot.hour_label.as_str());
            push_str(&mut s, ":");
            push_str(&mut s, slot.temp_label.as_str());
            proof {
                let t = all.take(i + 1);
                assert(t.drop_last() =~= all.take(i as int));
                assert(t.last() == all[i as int]);
            }
            i += 1;
        }
        s
    }
}

/// `hour:temp` entries joined by commas.
pub open spec fn summary_join(slots: Seq<(Seq<char>, Seq<char>, i32)>) -> Seq<char>
    decreases slots.len(),
{
    if slots.len() == 0 {
        Seq::empty()
    } else {
        let prev = summary_join(slots.drop_last());
        let entry = slots.last().0 + ":"@ + slots.last().1;
        if slots.len() == 1 {
            entry
        } else {
            prev + ","@ + entry
        }
    }
}

/// The hourly summary text: `NONE` when there are no slots.
pub open spec fn hourly_summary_spec(slots: Seq<(Seq<char>, Seq<char>, i32)>) -> Seq<char> {
    if slots.len() == 0 {
        "NONE"@
    } else {
        summary_join(slots.take(if slots.len() < 4 { slots.len() as int } else { 4 }))
    }
}

/// What a cache text sets, line by line; `None` for a field no line set.
pub struct CacheRead {
    pub loaded_any: bool,
    pub location_index: Option<usize>,
    pub units: Option<WeatherUnits>,
    pub temp: Option<Seq<char>>,
    pub condition: Option<Seq<char>>,
    pub last_live_epoch: Option<i64>,
    pub hours: Seq<(Seq<char>, Seq<char>, i32)>,
}

/// Nothing read yet.
pub open spec fn cache_read_empty() -> CacheRead {
    CacheRead {
        loaded_any: false,
        location_index: None,
        units: None,
        temp: None,
        condition: None,
        last_live_epoch: None,
        hours: Seq::empty(),
    }
}

/// The trimmed `key` and `value` of a cache line that is neither blank nor a
/// `#` comment and holds a `=`.
pub open spec fn cache_line_split(line: Seq<char>) -> Option<(Seq<char>, Seq<char>)> {
    let l = trim(line);
    if l.len() == 0 || l[0] == '#' {
        None
    } else {
        let i = index_of(l, '=');
        if i < 0 {
            None
        } else {
            Some((trim(l.subrange(0, i)), trim(l.subrange(i + 1, l.len() as int))))
        }
    }
}

/// An `hour|temp|code` cache entry: hour and temperature trimmed, the code
/// an integer; fields past the third are ignored.
pub open spec fn cache_hour_spec(value: Seq<char>) -> Option<(Seq<char>, Seq<char>, i32)> {
    let i = index_of(value, '|');
    if i < 0 {
        None
    } else {
        let r1 = value.subrange(i + 1, value.len() as int);
        let j = index_of(r1, '|');
        if j < 0 {
            None
        } else {
            let r2 = r1.subrange(j + 1, r1.len() as int);
            let k = index_of(r2, '|');
            let p2 = if k < 0 {
                r2
            } else {
                r2.subrange(0, k)
            };
            match parse_i32_spec(trim(p2)) {
                Some(code) => Some((trim(value.subrange(0, i)), trim(r1.subrange(0, j)), code)),
                None => None,
            }
        }
    }
}

/// Effect of one cache line on what has been read so far.
pub open spec fn cache_step(line: Seq<char>, acc: CacheRead) -> CacheRead {
    match cache_line_split(line) {
        None => acc,
        Some((key, value)) => if key == "location_index"@ {
            match parse_usize_spec(value) {
                Some(n) => CacheRead {
                    location_index: Some(if n < 3 { n } else { 3 }),
                    loaded_any: true,
                    ..acc
                },
                None => acc,
            }
        } else if key == "units"@ {
            CacheRead { units: Some(WeatherUnits::from_label_spec(value)), loaded_any: true, ..acc }
        } else if key == "temp"@ {
            CacheRead { temp: Some(value), loaded_any: true, ..acc }
        } else if key == "condition"@ {
            CacheRead { condition: Some(value), loaded_any: true, ..acc }
        } else if key == "last_live_epoch"@ {
            CacheRead {
                last_live_epoch: Some(
                    match parse_i64_spec(value) {
                        Some(e) => e,
                        None => 0,
                    },
                ),
                ..acc
            }
        } else if key.len() > 0 && key[0] == 'h' {
            match cache_hour_spec(value) {
                Some(h) => CacheRead { hours: acc.hours.push(h), ..acc },
                None => acc,
            }
        } else {
            acc
        },
    }
}

/// `cache_step` as a value, for folding over lines.
pub open spec fn cache_stepper() -> spec_fn(Seq<char>, CacheRead) -> CacheRead {
    |line: Seq<char>, acc: CacheRead| cache_step(line, acc)
}

/// Everything a cache text sets.
pub open spec fn cache_read(input: Seq<char>) -> CacheRead {
    fold_lines(input, cache_read_empty(), cache_stepper())
}

/// `h{index}={hour}|{temp}|{code}` lines for the given slots.
pub open spec fn cache_hour_lines(slots: Seq<(Seq<char>, Seq<char>, i32)>) -> Seq<char>
    decreases slots.len(),
{
    if slots.len() == 0 {
        Seq::empty()
    } else {
        let h = slots.last();
        cache_hour_lines(slots.drop_last()) + "h"@ + dec((slots.len() - 1) as nat) + "="@ + h.0
            + "|"@ + h.1 + "|"@ + dec_int(h.2 as int) + "\n"@
    }
}

/// The cache text written for a state.
pub open spec fn cache_text_spec(s: WeatherState) -> Seq<char> {
    let slots = slots_view(s.hourly_slots@);
    "location_index="@ + dec(s.location_index as nat) + "\n"@ + "location="@ + s.location_label@
        + "\n"@ + "units="@ + s.units.suffix_spec() + "\n"@ + "temp="@ + s.temperature_label@
        + "\n"@ + "condition="@ + s.condition_label@ + "\n"@ + "last_live_epoch="@ + dec_int(
        s.last_live_epoch as int,
    ) + "\n"@ + cache_hour_lines(
        slots.take(if slots.len() < 4 { slots.len() as int } else { 4 }),
    )
}

/// Bounds of the trimmed key and value of cache line `v[a..b]`.
fn cache_line_exec(v: &Vec<char>, a: usize, b: usize) -> (r: Option<(usize, usize, usize, usize)>)
    requires
        a <= b <= v.len(),
    ensures
        match cache_line_split(v@.subrange(a as int, b as int)) {
            None => r is None,
            Some((key, value)) => r matches Some((k0, k1, w0, w1)) && k0 <= k1 <= v.len() && w0
                <= w1 <= v.len() && v@.subrange(k0 as int, k1 as int) == key && v@.subrange(
                w0 as int,
                w1 as int,
            ) == value,
        },
{
    let (t0, t1) = trim_range(v, a, b);
    let ghost l = v@.subrange(t0 as int, t1 as int);
    if t0 == t1 || v[t0] == '#' {
        return None;
    }
    match find_char(v, t0, t1, '=') {
        None => None,
        Some(i) => {
            let (k0, k1) = trim_range(v, t0, i);
            let (w0, w1) = trim_range(v, i + 1, t1);
            proof {
                assert(l.subrange(0, i - t0) =~= v@.subrange(t0 as int, i as int));
                assert(l.subrange(i - t0 + 1, l.len() as int) =~= v@.subrange(i + 1, t1 as int));
            }
            Some((k0, k1, w0, w1))
        },
    }
}

/// Reads an `hour|temp|code` entry from `v[a..b]`.
fn parse_cache_hour(v: &Vec<char>, a: usize, b: usize) -> (r: Option<WeatherHourSlot>)
    requires
        a <= b <= v.len(),
    ensures
        match cache_hour_spec(v@.subrange(a as int, b as int)) {
            None => r is None,
            Some(h) => r matches Some(slot) && slot_view(slot) == h,
        },
{
    let ghost value = v@.subrange(a as int, b as int);
    let i = match find_char(v, a, b, '|') {
        None => {
            return None;
        },
        Some(i) => i,
    };
    let ghost r1 = value.subrange(i - a + 1, value.len() as int);
    assert(r1 =~= v@.subrange(i + 1, b as int));
    let j = match find_char(v, i + 1, b, '|') {
        None => {
            return None;
        },
        Some(j) => j,
    };
    let ghost r2 = r1.subrange(j - i, r1.len() as int);
    assert(r2 =~= v@.subrange(j + 1, b as int));
    let end = match find_char(v, j + 1, b, '|') {
        None => b,
        Some(k) => {
            assert(r2.subrange(0, k - j - 1) =~= v@.subrange(j + 1, k as int));
            k
        },
    };
    let (c0, c1) = trim_range(v, j + 1, end);
    let code = match parse_i32_range(v, c0, c1) {
        None => {
            return None;
        },
        Some(c) => c,
    };
    let (h0, h1) = trim_range(v, a, i);
    let (p0, p1) = trim_range(v, i + 1, j);
    assert(value.subrange(0, i - a) =~= v@.subrange(a as int, i as int));
    assert(r1.subrange(0, j - i - 1) =~= v@.subrange(i + 1, j as int));
    Some(
        WeatherHourSlot {
            hour_label: string_from_range(v, h0, h1),
            temp_label: string_from_range(v, p0, p1),
            weather_code: code,
        },
    )
}

impl WeatherState {
    /// The last-known-good cache text: configuration, shown weather and up to
    /// four hour slots, one `key=value` line each.
    #[verifier::rlimit(40)]
    pub fn cache_text(&self) -> (r: String)
        ensures
            r@ == cache_text_spec(*self),
    {
        let mut s = String::new();
        push_str(&mut s, "location_index=");
        push_dec(&mut s, self.location_index as u64);
        push_str(&mut s, "\n");
        push_str(&mut s, "location=");
        push_str(&mut s, self.location_label());
        push_str(&mut s, "\n");
        push_str(&mut s, "units=");
        push_str(&mut s, self.units.suffix());
        push_str(&mut s, "\n");
        push_str(&mut s, "temp=");
        push_str(&mut s, self.temperature_label());
        push_str(&mut s, "\n");
        push_str(&mut s, "condition=");
        push_str(&mut s, self.condition_label());
        push_str(&mut s, "\n");
        push_str(&mut s, "last_live_epoch=");
        push_dec_i64(&mut s, self.last_live_epoch);
        push_str(&mut s, "\n");
        let ghost head = s@;
        let ghost all = slots_view(self.hourly_slots@);
        let n = if self.hourly_slots.len() < 4 {
            self.hourly_slots.len()
        } else {
            4
        };
        let mut i: usize = 0;
        while i < n
            invariant
                n <= 4,
                n <= self.hourly_slots.len(),
                i <= n,
                all == slots_view(self.hourly_slots@),
                s@ == head + cache_hour_lines(all.take(i as int)),
            decreases n - i,
        {
            let slot = &self.hourly_slots[i];
            push_str(&mut s, "h");
            push_dec(&mut s, i as u64);
            push_str(&mut s, "=");
            push_str(&mut s, slot.hour_label.as_str());
            push_str(&mut s, "|");
            push_str(&mut s, slot.temp_label.as_str());
            push_str(&mut s, "|");
            push_dec_i64(&mut s, slot.weather_code as i64);
            push_str(&mut s, "\n");
            proof {
                let t = all.take(i + 1);
                assert(t.drop_last() =~= all.take(i as int));
                assert(t.last() == all[i as int]);
                assert(s@ =~= head + cache_hour_lines(t));
            }
            i += 1;
        }
        s
    }

    /// Loads a cache text. Returns whether a configuration or shown-weather
    /// line was read; if so and a temperature is shown, the state is marked
    /// stale from cache. Up to four hour lines replace the hourly slots.
    pub fn apply_cache_text(&mut self, input: &str) -> (r: bool)
        ensures
            r == cache_read(input@).loaded_any,
            cache_applied(*old(self), *final(self), cache_read(input@)),
    {
        let v = str_chars(input);
        let ghost step = cache_stepper();
        let mut loaded_any = false;
        let mut loc: Option<usize> = None;
        let mut units: Option<WeatherUnits> = None;
        let mut temp: Option<(usize, usize)> = None;
        let mut cond: Option<(usize, usize)> = None;
        let mut epoch: Option<i64> = None;
        let mut hours: Vec<WeatherHourSlot> = Vec::new();
        let mut pos: usize = 0;
        assert(v@.subrange(0, v.len() as int) =~= v@);
        assert(slots_view(hours@) =~= Seq::<(Seq<char>, Seq<char>, i32)>::empty());
        while pos < v.len()
            invariant
                pos <= v.len(),
                v@ == input@,
                step == cache_stepper(),
                temp matches Some((a, b)) ==> a <= b <= v.len(),
                cond matches Some((a, b)) ==> a <= b <= v.len(),
                fold_lines(
                    v@.subrange(pos as int, v.len() as int),
                    CacheRead {
                        loaded_any,
                        location_index: loc,
                        units,
                        temp: range_view(v@, temp),
                        condition: range_view(v@, cond),
                        last_live_epoch: epoch,
                        hours: slots_view(hours@),
                    },
                    step,
                ) == cache_read(input@),
            decreases v.len() - pos,
        {
            let (la, lb, next) = next_line(&v, pos);
            let ghost s = v@.subrange(pos as int, v.len() as int);
            let ghost acc0 = CacheRead {
                loaded_any,
                location_index: loc,
                units,
                temp: range_view(v@, temp),
                condition: range_view(v@, cond),
                last_live_epoch: epoch,
                hours: slots_view(hours@),
            };
            match cache_line_exec(&v, la, lb) {
                None => {},
                Some((k0, k1, w0, w1)) => {
                    if range_eq_str(&v, k0, k1, "location_index") {
                        match parse_usize_range(&v, w0, w1) {
                            Some(n) => {
                                loc = Some(
                                    if n < 3 {
                                        n
                                    } else {
                                        3
                                    },
                                );
                                loaded_any = true;
                            },
                            None => {},
                        }
                    } else if range_eq_str(&v, k0, k1, "units") {
                        units = Some(WeatherUnits::from_label_range(&v, w0, w1));
                        loaded_any = true;
                    } else if range_eq_str(&v, k0, k1, "temp") {
                        temp = Some((w0, w1));
                        loaded_any = true;
                    } else if range_eq_str(&v, k0, k1, "condition") {
                        cond = Some((w0, w1));
                        loaded_any = true;
                    } else if range_eq_str(&v, k0, k1, "last_live_epoch") {
                        epoch = Some(
                            match parse_i64_range(&v, w0, w1) {
                                Some(e) => e,
                                None => 0,
                            },
                        );
                    } else if k0 < k1 && v[k0] == 'h' {
                        match parse_cache_hour(&v, w0, w1) {
                            Some(slot) => {
                                hours.push(slot);
                                assert(slots_view(hours@) =~= acc0.hours.push(
                                    slot_view(hours@.last()),
                                ));
                            },
                            None => {},
                        }
                    }
                },
            }
            assert(CacheRead {
                loaded_any,
                location_index: loc,
                units,
                temp: range_view(v@, temp),
                condition: range_view(v@, cond),
                last_live_epoch: epoch,
                hours: slots_view(hours@),
            } == step(first_line(s), acc0));
            assert(fold_lines(s, acc0, step) == fold_lines(
                after_first_line(s),
                step(first_line(s), acc0),
                step,
            ));
            pos = next;
        }
        assert(v@.subrange(pos as int, v.len() as int) =~= Seq::<char>::empty());
        match loc {
            Some(n) => {
                self.location_index = n;
                self.sync_location_label();
            },
            None => {},
        }
        match units {
            Some(u) => {
                self.units = u;
            },
            None => {},
        }
        match temp {
            Some((a, b)) => {
                self.temperature_label = string_from_range(&v, a, b);
            },
            None => {},
        }
        match cond {
            Some((a, b)) => {
                self.condition_label = string_from_range(&v, a, b);
            },
            None => {},
        }
        match epoch {
            Some(e) => {
                self.last_live_epoch = e;
            },
            None => {},
        }
        if hours.len() > 0 {
            let ghost before = slots_view(hours@);
            hours.truncate(4);
            assert(slots_view(hours@) =~= before.take(
                if before.len() < 4 {
                    before.len() as int
                } else {
                    4
                },
            ));
            self.hourly_slots = hours;
        }
        if loaded_any && !str_eq(self.temperature_label.as_str(), "--") {
            self.provider_status = WeatherProviderStatus::Stale;
            self.status = WeatherProviderStatus::Stale.label().to_owned();
            self.last_error = "CACHE".to_owned();
        }
        loaded_any
    }
}

/// How a cache read changes the state: each field a line set takes the
/// read value (the location label follows the location index), at most four
/// read hour slots replace the timeline, and a load with a shown temperature
/// marks the state stale from cache; nothing else changes.
pub open spec fn cache_applied(old_s: WeatherState, new_s: WeatherState, c: CacheRead) -> bool {
    let temp = match c.temp {
        Some(t) => t,
        None => old_s.temperature_label@,
    };
    &&& new_s.location_index == (match c.location_index {
        Some(n) => n,
        None => old_s.location_index,
    })
    &&& new_s.location_label@ == (match c.location_index {
        Some(n) => location_label_spec(n as int),
        None => old_s.location_label@,
    })
    &&& new_s.units == (match c.units {
        Some(u) => u,
        None => old_s.units,
    })
    &&& new_s.temperature_label@ == temp
    &&& new_s.condition_label@ == (match c.condition {
        Some(t) => t,
        None => old_s.condition_label@,
    })
    &&& new_s.last_live_epoch == (match c.last_live_epoch {
        Some(e) => e,
        None => old_s.last_live_epoch,
    })
    &&& slots_view(new_s.hourly_slots@) == (if c.hours.len() > 0 {
        c.hours.take(if c.hours.len() < 4 { c.hours.len() as int } else { 4 })
    } else {
        slots_view(old_s.hourly_slots@)
    })
    &&& if c.loaded_any && temp != "--"@ {
        &&& new_s.provider_status == WeatherProviderStatus::Stale
        &&& new_s.status@ == "STALE"@
        &&& new_s.last_error@ == "CACHE"@
    } else {
        &&& new_s.provider_status == old_s.provider_status
        &&& new_s.status == old_s.status
        &&& new_s.last_error == old_s.last_error
    }
    &&& new_s.refresh_attempts == old_s.refresh_attempts
    &&& new_s.config_generation == old_s.config_generation
}

} // verus!
