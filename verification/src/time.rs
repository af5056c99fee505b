//! Time source and SNTP/RTC synchronisation state.

use vstd::prelude::*;
use crate::assistant::sat_inc;

verus! {

/// Where the displayed time comes from.
#[derive(Debug, Clone, Copy, PartialEq, Eq, Structural)]
pub enum TimeSource {
    Unsynced,
    Rtc,
    Ntp,
}

impl TimeSource {
    pub fn label(self) -> (r: &'static str)
        ensures
            r@ == (match self {
                TimeSource::Unsynced => "UNSYNCED"@,
                TimeSource::Rtc => "RTC"@,
                TimeSource::Ntp => "NTP"@,
            }),
    {
        match self {
            TimeSource::Unsynced => "UNSYNCED",
            TimeSource::Rtc => "RTC",
            TimeSource::Ntp => "NTP",
        }
    }
}

/// Progress of the SNTP sync and RTC write-back.
#[derive(Debug, Clone, Copy, PartialEq, Eq, Structural)]
pub enum TimeSyncPhase {
    Idle,
    Waiting,
    Synced,
    Persisted,
    Failed,
}

impl TimeSyncPhase {
    pub fn label(self) -> (r: &'static str)
        ensures
            r@ == (match self {
                TimeSyncPhase::Idle => "IDLE"@,
                TimeSyncPhase::Waiting => "WAIT"@,
                TimeSyncPhase::Synced => "SYNCED"@,
                TimeSyncPhase::Persisted => "RTC SAVE"@,
                TimeSyncPhase::Failed => "FAILED"@,
            }),
    {
        match self {
            TimeSyncPhase::Idle => "IDLE",
            TimeSyncPhase::Waiting => "WAIT",
            TimeSyncPhase::Synced => "SYNCED",
            TimeSyncPhase::Persisted => "RTC SAVE",
            TimeSyncPhase::Failed => "FAILED",
        }
    }
}

/// RTC boot read, SNTP wait and RTC persistence bookkeeping.
#[derive(Debug, Clone)]
pub struct TimeSyncState {
    pub source: TimeSource,
    pub phase: TimeSyncPhase,
    pub attempts: u32,
    pub rtc_boot_read: bool,
    pub rtc_persisted: bool,
    pub last_error: &'static str,
}

impl TimeSyncState {
    /// The state at boot: unsynced and idle, no RTC read or write yet.
    pub open spec fn is_boot(self) -> bool {
        &&& self.source == TimeSource::Unsynced
        &&& self.phase == TimeSyncPhase::Idle
        &&& self.attempts == 0
        &&& !self.rtc_boot_read
        &&& !self.rtc_persisted
        &&& self.last_error@ == "NONE"@
    }

    /// Whether an SNTP sync should be started once Wi-Fi is up.
    pub open spec fn should_start_spec(&self) -> bool {
        !self.rtc_persisted && self.phase != TimeSyncPhase::Waiting && self.phase
            != TimeSyncPhase::Persisted
    }

    pub fn new() -> (r: Self)
        ensures
            r.is_boot(),
    {
        TimeSyncState {
            source: TimeSource::Unsynced,
            phase: TimeSyncPhase::Idle,
            attempts: 0,
            rtc_boot_read: false,
            rtc_persisted: false,
            last_error: "NONE",
        }
    }

    /// The RTC was read at boot: time now comes from the RTC.
    pub fn note_rtc_boot_read(&mut self)
        ensures
            *final(self) == (TimeSyncState {
                source: TimeSource::Rtc,
                rtc_boot_read: true,
                last_error: final(self).last_error,
                ..*old(self)
            }),
            final(self).last_error@ == "NONE"@,
    {
        self.source = TimeSource::Rtc;
        self.rtc_boot_read = true;
        self.last_error = "NONE";
    }

    /// The RTC could not be read at boot.
    pub fn note_rtc_boot_failed(&mut self)
        ensures
            *final(self) == (TimeSyncState {
                source: TimeSource::Unsynced,
                last_error: final(self).last_error,
                ..*old(self)
            }),
            final(self).last_error@ == "RTC READ"@,
    {
        self.source = TimeSource::Unsynced;
        self.last_error = "RTC READ";
    }

    /// An SNTP sync was started.
    pub fn start_sntp_wait(&mut self)
        ensures
            *final(self) == (TimeSyncState {
                phase: TimeSyncPhase::Waiting,
                attempts: sat_inc(old(self).attempts),
                last_error: final(self).last_error,
                ..*old(self)
            }),
            final(self).last_error@ == "SNTP"@,
    {
        self.phase = TimeSyncPhase::Waiting;
        self.attempts = self.attempts.saturating_add(1);
        self.last_error = "SNTP";
    }

    /// SNTP reported a synchronised clock.
    pub fn note_sntp_synced(&mut self)
        ensures
            *final(self) == (TimeSyncState {
                source: TimeSource::Ntp,
                phase: TimeSyncPhase::Synced,
                last_error: final(self).last_error,
                ..*old(self)
            }),
            final(self).last_error@ == "NONE"@,
    {
        self.source = TimeSource::Ntp;
        self.phase = TimeSyncPhase::Synced;
        self.last_error = "NONE";
    }

    /// The synchronised time was written back to the RTC.
    pub fn note_rtc_persisted(&mut self)
        ensures
            *final(self) == (TimeSyncState {
                source: TimeSource::Ntp,
                phase: TimeSyncPhase::Persisted,
                rtc_persisted: true,
                last_error: final(self).last_error,
                ..*old(self)
            }),
            final(self).last_error@ == "NONE"@,
            !final(self).should_start_spec(),
    {
        self.source = TimeSource::Ntp;
        self.phase = TimeSyncPhase::Persisted;
        self.rtc_persisted = true;
        self.last_error = "NONE";
    }

    /// The sync failed for `reason`.
    pub fn note_failed(&mut self, reason: &'static str)
        ensures
            *final(self) == (TimeSyncState {
                phase: TimeSyncPhase::Failed,
                last_error: reason,
                ..*old(self)
            }),
    {
        self.phase = TimeSyncPhase::Failed;
        self.last_error = reason;
    }

    /// Whether an SNTP sync should be started once Wi-Fi is up.
    pub fn should_start_after_wifi(&self) -> (r: bool)
        ensures
            r == self.should_start_spec(),
    {
        !self.rtc_persisted && !(match self.phase {
            TimeSyncPhase::Waiting | TimeSyncPhase::Persisted => true,
            _ => false,
        })
    }

    pub fn status_label(&self) -> (r: &'static str)
        ensures
            r@ == (match self.phase {
                TimeSyncPhase::Idle => "IDLE"@,
                TimeSyncPhase::Waiting => "WAIT"@,
                TimeSyncPhase::Synced => "SYNCED"@,
                TimeSyncPhase::Persisted => "RTC SAVE"@,
                TimeSyncPhase::Failed => "FAILED"@,
            }),
    {
        self.phase.label()
    }

    pub fn source_label(&self) -> (r: &'static str)
        ensures
            r@ == (match self.source {
                TimeSource::Unsynced => "UNSYNCED"@,
                TimeSource::Rtc => "RTC"@,
                TimeSource::Ntp => "NTP"@,
            }),
    {
        self.source.label()
    }
}

/// Once the RTC holds the synchronised time, Wi-Fi reconnects never start
/// another SNTP sync.
pub proof fn lemma_persisted_never_restarts(s: TimeSyncState)
    requires
        s.rtc_persisted,
    ensures
        !s.should_start_spec(),
{
}

} // verus!
