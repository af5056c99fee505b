//! PCF85063 real-time clock: BCD register decoding.

use vstd::prelude::*;

verus! {

/// Calendar time as the RTC keeps it (year counted from 2000).
#[derive(Debug, Clone, Copy, Default)]
pub struct DateTime {
    pub second: u8,
    pub minute: u8,
    pub hour: u8,
    pub day: u8,
    pub month: u8,
    pub year: u8,
}

/// A bus error of the RTC.
#[derive(Debug)]
pub enum Error<E> {
    Bus(E),
}

/// The PCF85063 driver.
pub struct Pcf85063;

/// Value of a packed BCD byte: high nibble tens, low nibble units.
pub open spec fn bcd_value(v: u8) -> u8 {
    ((v / 16) * 10 + v % 16) as u8
}

/// Decodes a packed BCD byte.
pub fn bcd_to_dec(v: u8) -> (r: u8)
    ensures
        r == bcd_value(v),
        r == (v / 16) * 10 + v % 16,
{
    assert((v >> 4u8) == v / 16) by (bit_vector);
    assert((v & 0x0Fu8) == v % 16) by (bit_vector);
    ((v >> 4) * 10) + (v & 0x0F)
}

impl Pcf85063 {
    /// Register address of the seconds register, the first of the seven
    /// time registers.
    pub const SECONDS: u8 = 0x04;

    pub fn new() -> (r: Self) {
        Pcf85063
    }

    /// The time held in the seven registers read from `SECONDS` on
    /// (seconds, minutes, hours, days, weekdays, months, years), with the
    /// flag bits of each register masked off.
    pub fn datetime_from_registers(&self, buf: [u8; 7]) -> (r: DateTime)
        ensures
            r.second == bcd_value(buf[0] % 128),
            r.minute == bcd_value(buf[1] % 128),
            r.hour == bcd_value(buf[2] % 64),
            r.day == bcd_value(buf[3] % 64),
            r.month == bcd_value(buf[5] % 32),
            r.year == bcd_value(buf[6]),
    {
        let b0 = buf[0];
        let b1 = buf[1];
        let b2 = buf[2];
        let b3 = buf[3];
        let b5 = buf[5];
        assert(b0 & 0x7Fu8 == b0 % 128) by (bit_vector);
        assert(b1 & 0x7Fu8 == b1 % 128) by (bit_vector);
        assert(b2 & 0x3Fu8 == b2 % 64) by (bit_vector);
        assert(b3 & 0x3Fu8 == b3 % 64) by (bit_vector);
        assert(b5 & 0x1Fu8 == b5 % 32) by (bit_vector);
        DateTime {
            second: bcd_to_dec(b0 & 0x7F),
            minute: bcd_to_dec(b1 & 0x7F),
            hour: bcd_to_dec(b2 & 0x3F),
            day: bcd_to_dec(b3 & 0x3F),
            month: bcd_to_dec(b5 & 0x1F),
            year: bcd_to_dec(buf[6]),
        }
    }
}

} // verus!
