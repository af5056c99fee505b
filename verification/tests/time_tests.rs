use assistant_rs::logprofile::{parse_runtime_log_profile_text, RuntimeLogProfile};
use assistant_rs::time::{TimeSource, TimeSyncPhase, TimeSyncState};

#[test]
fn time_sync_walks_from_rtc_to_persisted() {
    let mut t = TimeSyncState::new();
    assert_eq!(t.source_label(), "UNSYNCED");
    assert!(t.should_start_after_wifi());
    t.note_rtc_boot_read();
    assert_eq!(t.source_label(), "RTC");
    t.start_sntp_wait();
    assert_eq!(t.status_label(), "WAIT");
    assert!(!t.should_start_after_wifi());
    t.note_sntp_synced();
    assert_eq!(t.source, TimeSource::Ntp);
    t.note_rtc_persisted();
    assert_eq!(t.status_label(), "RTC SAVE");
    assert!(!t.should_start_after_wifi());
    assert_eq!(t.attempts, 1);
}

#[test]
fn failures_are_recorded() {
    let mut t = TimeSyncState::new();
    t.note_rtc_boot_failed();
    assert_eq!(t.last_error, "RTC READ");
    t.note_failed("SNTP TIMEOUT");
    assert_eq!(t.phase, TimeSyncPhase::Failed);
    assert!(t.should_start_after_wifi());
}

#[test]
fn log_profile_text() {
    assert_eq!(parse_runtime_log_profile_text("# c\nlog = debug\n"), Some(RuntimeLogProfile::Debug));
    assert_eq!(parse_runtime_log_profile_text("other=debug\nquiet\n"), Some(RuntimeLogProfile::Normal));
    assert_eq!(parse_runtime_log_profile_text("PROFILE=loud\n"), None);
    assert_eq!(parse_runtime_log_profile_text(""), None);
    assert_eq!(RuntimeLogProfile::from_debug(true), RuntimeLogProfile::Debug);
    assert!(!RuntimeLogProfile::Normal.is_debug());
}
