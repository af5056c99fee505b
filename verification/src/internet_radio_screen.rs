//! The Internet Radio screen: black background, clock, title, station and
//! status lines, the centred volume and transport labels, the progress row
//! and the control legend.

use vstd::prelude::*;
use crate::radio::RadioScreenSnapshot;
use crate::render::{centered_text_painted, draw_text_centered_at, fill_frame, filled, PIXELS};
use crate::screens::{draw_music_progress_row, progress_row_painted};

verus! {

/// Radio screen background.
pub const RADIO_BG: u16 = 0x0000;
/// Radio white.
pub const RADIO_WHITE: u16 = 0xffff;
/// Radio cyan.
pub const RADIO_CYAN: u16 = 0x07ff;
/// Radio blue.
pub const RADIO_BLUE: u16 = 0x041f;
/// Radio dim grey.
pub const RADIO_DIM: u16 = 0x39e7;

/// The radio controls: VOL- and VOL+ above, PREV, PLAY (STOP while
/// playing) and NEXT below, all in scale-2 text.
pub open spec fn radio_controls_painted(f: Seq<u16>, playing: bool) -> Seq<u16> {
    let a = centered_text_painted(f, 102, 190, "VOL-"@, RADIO_WHITE, 2);
    let b = centered_text_painted(a, 278, 190, "VOL+"@, RADIO_WHITE, 2);
    let c = centered_text_painted(b, 82, 252, "PREV"@, RADIO_WHITE, 2);
    let d = centered_text_painted(c, 190, 252, if playing { "STOP"@ } else { "PLAY"@ }, RADIO_CYAN, 2);
    centered_text_painted(d, 302, 252, "NEXT"@, RADIO_WHITE, 2)
}

/// Draws the radio volume and transport labels.
pub fn draw_internet_radio_r7_controls(frame: &mut Vec<u16>, playing: bool)
    requires
        old(frame)@.len() == PIXELS,
    ensures
        final(frame)@ == radio_controls_painted(old(frame)@, playing),
        final(frame)@.len() == PIXELS,
{
    proof {
        reveal_strlit("VOL-");
        reveal_strlit("VOL+");
        reveal_strlit("PREV");
        reveal_strlit("STOP");
        reveal_strlit("PLAY");
        reveal_strlit("NEXT");
    }
    let play_label = if playing { "STOP" } else { "PLAY" };
    draw_text_centered_at(frame, 102, 190, "VOL-", RADIO_WHITE, 2);
    draw_text_centered_at(frame, 278, 190, "VOL+", RADIO_WHITE, 2);
    draw_text_centered_at(frame, 82, 252, "PREV", RADIO_WHITE, 2);
    draw_text_centered_at(frame, 190, 252, play_label, RADIO_CYAN, 2);
    draw_text_centered_at(frame, 302, 252, "NEXT", RADIO_WHITE, 2);
}

/// The Internet Radio screen for the clock text `time` and the radio
/// snapshot.
pub open spec fn radio_screen_painted(time: Seq<char>, radio: RadioScreenSnapshot) -> Seq<u16> {
    let a = centered_text_painted(filled(RADIO_BG), 180, 34, time, RADIO_WHITE, 2);
    let b = centered_text_painted(a, 180, 72, "INTERNET RADIO"@, RADIO_CYAN, 1);
    let c = centered_text_painted(b, 180, 116, radio.source_label@, RADIO_WHITE, 2);
    let d = centered_text_painted(c, 180, 150, radio.status_label@, RADIO_BLUE, 2);
    let e = radio_controls_painted(d, radio.playing);
    let g = progress_row_painted(e, radio.progress_percent, radio.elapsed_label@, radio.duration_label@);
    centered_text_painted(g, 180, 318, "VOL-/VOL+ ABOVE PREV/PLAY/NEXT"@, RADIO_DIM, 1)
}

/// Draws the whole Internet Radio screen.
pub fn draw(frame: &mut Vec<u16>, time: &str, radio: &RadioScreenSnapshot)
    requires
        old(frame)@.len() == PIXELS,
    ensures
        final(frame)@ == radio_screen_painted(time@, *radio),
{
    proof {
        reveal_strlit("INTERNET RADIO");
        reveal_strlit("VOL-/VOL+ ABOVE PREV/PLAY/NEXT");
    }
    fill_frame(frame, RADIO_BG);
    draw_text_centered_at(frame, 180, 34, time, RADIO_WHITE, 2);
    draw_text_centered_at(frame, 180, 72, "INTERNET RADIO", RADIO_CYAN, 1);
    draw_text_centered_at(frame, 180, 116, radio.source_label.as_str(), RADIO_WHITE, 2);
    draw_text_centered_at(frame, 180, 150, radio.status_label.as_str(), RADIO_BLUE, 2);
    draw_internet_radio_r7_controls(frame, radio.playing);
    draw_music_progress_row(frame, radio.progress_percent, radio.elapsed_label.as_str(), radio.duration_label.as_str());
    draw_text_centered_at(frame, 180, 318, "VOL-/VOL+ ABOVE PREV/PLAY/NEXT", RADIO_DIM, 1);
}

} // verus!
