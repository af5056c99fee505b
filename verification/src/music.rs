//! Local mock music page state.

use vstd::prelude::*;
use crate::assistant::sat_inc;

verus! {

/// Mock playback state cycling through three canned tracks.
#[derive(Debug, Clone)]
pub struct MusicState {
    pub playing: bool,
    pub toggle_count: u32,
    pub source: &'static str,
    pub track_label: &'static str,
    pub subtitle_label: &'static str,
}

/// A play/pause toggle: playback flips, the toggle is counted, and the
/// track follows the count modulo three.
pub open spec fn play_pause_toggled(old_s: MusicState, new_s: MusicState) -> bool {
    &&& new_s.playing == !old_s.playing
    &&& new_s.toggle_count == sat_inc(old_s.toggle_count)
    &&& new_s.source == old_s.source
    &&& new_s.toggle_count % 3 == 1 ==> new_s.track_label@ == "MIDNIGHT"@
        && new_s.subtitle_label@ == "CHILLWAVE"@
    &&& new_s.toggle_count % 3 == 2 ==> new_s.track_label@ == "NEON DRIVE"@
        && new_s.subtitle_label@ == "LOCAL MOCK"@
    &&& new_s.toggle_count % 3 == 0 ==> new_s.track_label@ == "LOFI BEATS"@
        && new_s.subtitle_label@ == "LOCAL MOCK"@
}

impl MusicState {
    /// The state at boot: paused on the first local track.
    pub open spec fn is_boot(self) -> bool {
        &&& !self.playing
        &&& self.toggle_count == 0
        &&& self.source@ == "LOCAL MOCK"@
        &&& self.track_label@ == "MIDNIGHT"@
        &&& self.subtitle_label@ == "LOCAL MOCK"@
    }

    pub fn new() -> (r: Self)
        ensures
            r.is_boot(),
    {
        MusicState {
            playing: false,
            toggle_count: 0,
            source: "LOCAL MOCK",
            track_label: "MIDNIGHT",
            subtitle_label: "LOCAL MOCK",
        }
    }

    /// Flips play/pause and moves to the track selected by the toggle count.
    pub fn toggle_play_pause(&mut self)
        ensures
            play_pause_toggled(*old(self), *final(self)),
    {
        self.playing = !self.playing;
        self.toggle_count = self.toggle_count.saturating_add(1);
        let m = self.toggle_count % 3;
        if m == 1 {
            self.track_label = "MIDNIGHT";
            self.subtitle_label = "CHILLWAVE";
        } else if m == 2 {
            self.track_label = "NEON DRIVE";
            self.subtitle_label = "LOCAL MOCK";
        } else {
            self.track_label = "LOFI BEATS";
            self.subtitle_label = "LOCAL MOCK";
        }
    }

    pub fn state_label(&self) -> (r: &'static str)
        ensures
            r@ == (if self.playing {
                "PLAYING"@
            } else {
                "PAUSED"@
            }),
    {
        if self.playing {
            "PLAYING"
        } else {
            "PAUSED"
        }
    }

    pub fn elapsed_label(&self) -> (r: &'static str)
        ensures
            r@ == (if self.toggle_count % 3 == 1 {
                "1:28"@
            } else if self.toggle_count % 3 == 2 {
                "0:42"@
            } else {
                "2:05"@
            }),
    {
        let m = self.toggle_count % 3;
        if m == 1 {
            "1:28"
        } else if m == 2 {
            "0:42"
        } else {
            "2:05"
        }
    }

    pub fn duration_label(&self) -> (r: &'static str)
        ensures
            r@ == (if self.toggle_count % 3 == 1 {
                "3:45"@
            } else if self.toggle_count % 3 == 2 {
                "2:58"@
            } else {
                "4:10"@
            }),
    {
        let m = self.toggle_count % 3;
        if m == 1 {
            "3:45"
        } else if m == 2 {
            "2:58"
        } else {
            "4:10"
        }
    }

    pub fn progress_percent(&self) -> (r: u8)
        ensures
            r == (if self.toggle_count % 3 == 1 {
                38u8
            } else if self.toggle_count % 3 == 2 {
                24u8
            } else {
                55u8
            }),
    {
        let m = self.toggle_count % 3;
        if m == 1 {
            38
        } else if m == 2 {
            24
        } else {
            55
        }
    }
}

} // verus!
