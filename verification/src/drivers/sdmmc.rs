//! SD card host boundary.

use vstd::prelude::*;

verus! {

/// Size of a mounted card.
#[derive(Debug, Clone, Copy)]
pub struct CardInfo {
    pub capacity_mib: u32,
    pub sector_size: u32,
}

/// Why a card could not be used.
#[derive(Debug)]
pub enum Error {
    MountFailed,
    Transport,
}

/// A card host.
pub trait SdHost {
    fn mount(&mut self) -> Result<CardInfo, Error>;

    fn card_info(&self) -> Option<CardInfo>;
}

/// The card size record for a card of `bytes` bytes (whole MiB, truncated
/// to 32 bits as the host stores it; 512-byte sectors).
pub fn card_info_for_bytes(bytes: u64) -> (r: CardInfo)
    ensures
        r.capacity_mib == (bytes / 1048576u64) as u32,
        r.sector_size == 512,
{
    CardInfo { capacity_mib: (bytes / 1048576) as u32, sector_size: 512 }
}

/// The host used when no card driver is built in: mounting always fails.
pub struct PlaceholderSdHost;

impl PlaceholderSdHost {
    pub fn new() -> (r: Self) {
        PlaceholderSdHost
    }
}

impl SdHost for PlaceholderSdHost {
    fn mount(&mut self) -> (r: Result<CardInfo, Error>)
        ensures
            r matches Err(Error::Transport),
    {
        Err(Error::Transport)
    }

    fn card_info(&self) -> (r: Option<CardInfo>)
        ensures
            r is None,
    {
        None
    }
}

/// A FAT directory-entry timestamp, field by field.
#[derive(Debug, Clone, Copy, PartialEq, Eq, Structural)]
pub struct FatTimestamp {
    pub year_since_1970: u8,
    pub zero_indexed_month: u8,
    pub zero_indexed_day: u8,
    pub hours: u8,
    pub minutes: u8,
    pub seconds: u8,
}

/// The clock the card driver stamps files with when no real time is known:
/// always 2026-01-01 00:00:00.
#[derive(Debug, Clone, Copy, Default)]
pub struct DummyTimeSource;

impl DummyTimeSource {
    /// The fixed stamp.
    pub fn get_timestamp(&self) -> (r: FatTimestamp)
        ensures
            r == (FatTimestamp {
                year_since_1970: 56,
                zero_indexed_month: 0,
                zero_indexed_day: 0,
                hours: 0,
                minutes: 0,
                seconds: 0,
            }),
    {
        FatTimestamp {
            year_since_1970: 56,
            zero_indexed_month: 0,
            zero_indexed_day: 0,
            hours: 0,
            minutes: 0,
            seconds: 0,
        }
    }
}

} // verus!
