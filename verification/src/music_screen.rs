//! The Music screen: black background, clock, title, track and format
//! lines, the transport and progress rows and the control legend.

use vstd::prelude::*;
use crate::audio::MusicScreenSnapshot;
use crate::render::{
    centered_text_painted, draw_text_centered_at, fill_frame, filled, PIXELS, ACCENT_MUSIC_BLUE,
    BLACK, MUTED, WHITE,
};
use crate::screens::{
    draw_music_progress_row, draw_music_transport_controls, progress_row_painted,
    transport_controls_painted,
};

verus! {

/// The Music screen for the clock text `time` and the player snapshot.
pub open spec fn music_screen_painted(time: Seq<char>, audio: MusicScreenSnapshot) -> Seq<u16> {
    let a = centered_text_painted(filled(BLACK), 180, 34, time, WHITE, 2);
    let b = centered_text_painted(a, 180, 72, "MUSIC"@, ACCENT_MUSIC_BLUE, 1);
    let c = centered_text_painted(b, 180, 116, audio.track_label@, WHITE, 2);
    let d = centered_text_painted(c, 180, 150, audio.subtitle_label@, ACCENT_MUSIC_BLUE, 2);
    let e = transport_controls_painted(d, audio.playing);
    let g = progress_row_painted(e, audio.progress_percent, audio.elapsed_label@, audio.duration_label@);
    centered_text_painted(g, 180, 318, "VOL- PREV PLAY NEXT VOL+"@, MUTED, 1)
}

/// Draws the whole Music screen.
pub fn draw(frame: &mut Vec<u16>, time: &str, audio: &MusicScreenSnapshot)
    requires
        old(frame)@.len() == PIXELS,
    ensures
        final(frame)@ == music_screen_painted(time@, *audio),
{
    proof {
        reveal_strlit("MUSIC");
        reveal_strlit("VOL- PREV PLAY NEXT VOL+");
    }
    fill_frame(frame, BLACK);
    draw_text_centered_at(frame, 180, 34, time, WHITE, 2);
    draw_text_centered_at(frame, 180, 72, "MUSIC", ACCENT_MUSIC_BLUE, 1);
    draw_text_centered_at(frame, 180, 116, audio.track_label.as_str(), WHITE, 2);
    draw_text_centered_at(frame, 180, 150, audio.subtitle_label.as_str(), ACCENT_MUSIC_BLUE, 2);
    draw_music_transport_controls(frame, audio.playing);
    draw_music_progress_row(frame, audio.progress_percent, audio.elapsed_label.as_str(), audio.duration_label.as_str());
    draw_text_centered_at(frame, 180, 318, "VOL- PREV PLAY NEXT VOL+", MUTED, 1);
}

} // verus!
