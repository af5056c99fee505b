use assistant_rs::audio::{
    audio_file_entry, audio_kind_from_extension, bytes_per_second, music_progress_active, music_progress_sequence,
    next_index, previous_index, probe_mp3, scale_pcm16_in_place, seconds_to_mmss, sort_audio_files,
    wav_duration_label, AudioFileEntry, AudioKind, AudioScanSummary, ProgressFlags, WavProbe, WavProber,
};

fn entry(name: &str) -> AudioFileEntry {
    AudioFileEntry { path: format!("/sdcard/AUDIO/{}", name), name: name.to_string(), kind: AudioKind::Mp3 }
}

#[test]
fn files_sort_by_name() {
    let files = vec![entry("b.mp3"), entry("A.mp3"), entry("a.mp3"), entry("10.mp3"), entry("2.mp3")];
    let sorted = sort_audio_files(files);
    let names: Vec<&str> = sorted.iter().map(|e| e.name.as_str()).collect();
    assert_eq!(names, vec!["10.mp3", "2.mp3", "A.mp3", "a.mp3", "b.mp3"]);
}

#[test]
fn files_of_one_name_keep_their_order() {
    let first = AudioFileEntry { path: "/sdcard/AUDIO/one/x.mp3".to_string(), name: "x.mp3".to_string(), kind: AudioKind::Mp3 };
    let second = AudioFileEntry { path: "/sdcard/AUDIO/two/x.mp3".to_string(), name: "x.mp3".to_string(), kind: AudioKind::Mp3 };
    let sorted = sort_audio_files(vec![entry("y.mp3"), first, entry("a.mp3"), second]);
    let paths: Vec<&str> = sorted.iter().map(|e| e.path.as_str()).collect();
    assert_eq!(
        paths,
        vec!["/sdcard/AUDIO/a.mp3", "/sdcard/AUDIO/one/x.mp3", "/sdcard/AUDIO/two/x.mp3", "/sdcard/AUDIO/y.mp3"]
    );
}

#[test]
fn extensions_classify_files() {
    assert_eq!(audio_kind_from_extension("wav"), Some(AudioKind::Wav));
    assert_eq!(audio_kind_from_extension("Mp3"), Some(AudioKind::Mp3));
    assert_eq!(audio_kind_from_extension("flac"), None);
    let e = audio_file_entry("/sdcard/AUDIO/x.WAV", "x.WAV", "WAV").unwrap();
    assert_eq!(e.kind, AudioKind::Wav);
    assert!(audio_file_entry("/sdcard/AUDIO/x.txt", "x.txt", "txt").is_none());
}

#[test]
fn scan_summary_counts_kinds_and_remembers_firsts() {
    let mut s = AudioScanSummary::new();
    s.note_file("/a.mp3", "mp3");
    s.note_file("/b.wav", "WAV");
    s.note_file("/c.mp3", "MP3");
    s.note_file("/d.txt", "txt");
    assert_eq!((s.total, s.wav, s.mp3, s.other), (4, 1, 2, 1));
    assert_eq!(s.first_mp3.as_deref(), Some("/a.mp3"));
    assert_eq!(s.first_wav.as_deref(), Some("/b.wav"));
}

#[test]
fn track_steps_wrap_and_undo() {
    assert_eq!(next_index(2, 3), 0);
    assert_eq!(previous_index(0, 3), 2);
    for i in 0..5 {
        assert_eq!(previous_index(next_index(i, 5), 5), i);
    }
}

#[test]
fn mmss_labels() {
    assert_eq!(seconds_to_mmss(0), "0:00");
    assert_eq!(seconds_to_mmss(125), "2:05");
}

#[test]
fn wav_rates_and_duration() {
    let wav = WavProbe { channels: 2, sample_rate: 44100, bits_per_sample: 16, audio_format: 1, data_bytes: 1_764_000, data_offset: 44 };
    assert_eq!(bytes_per_second(&wav), 176_400);
    assert_eq!(wav_duration_label(&wav), "0:10");
    let silent = WavProbe { data_bytes: 0, ..wav };
    assert_eq!(wav_duration_label(&silent), "--:--");
}

#[test]
fn pcm_scaling_halves_samples_at_half_volume() {
    let mut buf: Vec<u8> = vec![0x00, 0x10, 0x00, 0xF0, 0x01];
    scale_pcm16_in_place(&mut buf, 50);
    assert_eq!(buf, vec![0x00, 0x08, 0x00, 0xF8, 0x01]);
    let mut same: Vec<u8> = vec![0x34, 0x12];
    scale_pcm16_in_place(&mut same, 100);
    assert_eq!(same, vec![0x34, 0x12]);
}

#[test]
fn mp3_probe_reads_frame_header() {
    let mut buf = vec![0u8; 16];
    buf[0] = 0xFF;
    buf[1] = 0xFB;
    buf[2] = 0x90;
    let p = probe_mp3(&buf).unwrap();
    assert!(p.frame_sync);
    assert!(!p.id3);
    assert_eq!(p.sample_rate, 44100);
    assert_eq!(p.layer, "LayerIII");
    assert_eq!(p.version, "MPEG1");
}

#[test]
fn mp3_probe_without_frame_sync() {
    let p = probe_mp3(&[0u8; 32]).unwrap();
    assert!(!p.frame_sync);
    assert_eq!(p.layer, "UNKNOWN");
    assert_eq!(probe_mp3(&[0xFF, 0xFB]).unwrap_err(), "HEADER_TOO_SMALL");
}

#[test]
fn mp3_probe_skips_id3_tag() {
    let mut buf = vec![0u8; 40];
    buf[0] = b'I';
    buf[1] = b'D';
    buf[2] = b'3';
    buf[9] = 10;
    buf[20] = 0xFF;
    buf[21] = 0xF3;
    buf[22] = 0x84;
    let p = probe_mp3(&buf).unwrap();
    assert!(p.id3);
    assert!(p.frame_sync);
    assert_eq!(p.version, "MPEG2");
    assert_eq!(p.sample_rate, 24000);
}

#[test]
fn wav_prober_walks_header_chunks() {
    let mut file: Vec<u8> = Vec::new();
    file.extend_from_slice(b"RIFF");
    file.extend_from_slice(&36u32.to_le_bytes());
    file.extend_from_slice(b"WAVE");
    file.extend_from_slice(b"fmt ");
    file.extend_from_slice(&16u32.to_le_bytes());
    file.extend_from_slice(&1u16.to_le_bytes());
    file.extend_from_slice(&1u16.to_le_bytes());
    file.extend_from_slice(&8000u32.to_le_bytes());
    file.extend_from_slice(&16000u32.to_le_bytes());
    file.extend_from_slice(&2u16.to_le_bytes());
    file.extend_from_slice(&16u16.to_le_bytes());
    file.extend_from_slice(b"data");
    file.extend_from_slice(&8000u32.to_le_bytes());
    let mut prober = WavProber::new();
    let mut steps = 0;
    while let Some(read) = prober.next_read() {
        let start = read.offset as usize;
        let end = start + read.len;
        if end <= file.len() {
            prober.feed(Some(&file[start..end]));
        } else {
            prober.feed(None);
        }
        steps += 1;
        assert!(steps < 10);
    }
    let wav = prober.result().unwrap().unwrap();
    assert_eq!(wav.channels, 1);
    assert_eq!(wav.sample_rate, 8000);
    assert_eq!(wav.data_bytes, 8000);
    assert_eq!(wav.data_offset, 44);
}

#[test]
fn music_progress_flags() {
    let mut f = ProgressFlags::new();
    f.playing = true;
    f.bump_sequence();
    assert!(music_progress_active(&f));
    assert_eq!(music_progress_sequence(&f), 1);
}
