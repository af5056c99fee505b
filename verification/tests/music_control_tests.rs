use assistant_rs::audio::{AudioProgress, MusicControl, MusicPress, Mp3Probe, TrackProbe, WavProbe};

fn wav() -> WavProbe {
    WavProbe { channels: 2, sample_rate: 44100, bits_per_sample: 16, audio_format: 1, data_bytes: 1_764_000, data_offset: 44 }
}

#[test]
fn press_starts_then_stops() {
    let mut c = MusicControl::new();
    assert_eq!(c.toggle_play_stop(3), MusicPress::Start(0));
    assert_eq!(c.begin_track(TrackProbe::Wav(Ok(wav()))), Ok(()));
    assert!(c.flags.playing && c.flags.thread_active && !c.stop_requested);
    assert_eq!(c.progress.duration_seconds, 10);
    assert_eq!(c.flags.sequence, 2);
    assert_eq!(c.toggle_play_stop(3), MusicPress::Stop);
    assert!(!c.flags.playing && c.stop_requested);
    c.track_finished(false, true);
    assert!(!c.flags.thread_active && !c.stop_requested);
}

#[test]
fn refused_tracks_and_a_busy_player() {
    let mut c = MusicControl::new();
    let mono8 = WavProbe { bits_per_sample: 8, ..wav() };
    assert_eq!(c.begin_track(TrackProbe::Wav(Ok(mono8))), Err("ONLY_PCM16_SUPPORTED"));
    assert_eq!(c.begin_track(TrackProbe::Mp3(Err("NO_MP3_FRAME_SYNC"))), Err("NO_MP3_FRAME_SYNC"));
    let mp3 = Mp3Probe { id3: false, frame_sync: true, sample_rate: 44100, layer: "L3", version: "MPEG1" };
    assert_eq!(c.begin_track(TrackProbe::Mp3(Ok(mp3))), Ok(()));
    assert_eq!(c.progress.duration_seconds, 0);
    c.stop_stream();
    assert_eq!(c.begin_track(TrackProbe::Mp3(Ok(mp3))), Err("PLAYER_BUSY"));
    assert!(!c.flags.playing);
}

#[test]
fn next_and_previous_stop_and_clear_progress() {
    let mut c = MusicControl::new();
    c.begin_track(TrackProbe::Wav(Ok(wav()))).unwrap();
    c.progress.percent = 40;
    assert_eq!(c.next_track(3), "AudioNext");
    assert_eq!(c.selected, 1);
    assert!(!c.flags.playing && c.stop_requested);
    assert_eq!(c.progress, AudioProgress { tick: 0, percent: 0, elapsed_seconds: 0, duration_seconds: 0 });
    c.track_finished(false, true);
    assert_eq!(c.toggle_play_stop(3), MusicPress::Start(1));
    assert_eq!(c.previous_track(3), "AudioPrev");
    assert_eq!(c.previous_track(3), "AudioPrev");
    assert_eq!(c.selected, 2);
    assert_eq!(c.next_track(0), "AudioNoFiles");
    assert_eq!(c.toggle_play_stop(0), MusicPress::NoFiles);
    c.selected = 9;
    assert_eq!(c.toggle_play_stop(3), MusicPress::Start(0));
}

#[test]
fn finished_tracks_show_full_progress() {
    let mut c = MusicControl::new();
    c.begin_track(TrackProbe::Wav(Ok(wav()))).unwrap();
    c.track_finished(true, true);
    assert_eq!(c.progress.percent, 100);
    assert_eq!(c.progress.elapsed_seconds, 10);
    let before = c.flags.sequence;
    c.note_decoder_progress(250, 3, 60);
    assert_eq!(c.progress.percent, 100);
    assert_eq!(c.flags.sequence, before + 1);
    c.note_decoder_progress(100, 3, 60);
    assert_eq!(c.flags.sequence, before + 1);
}
