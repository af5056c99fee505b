//! LCD backlight: percent to PWM duty as the vendor firmware maps it.

use vstd::prelude::*;

verus! {

/// Highest brightness percent.
pub const BACKLIGHT_MAX: u8 = 100;
/// Brightness at power-up.
pub const BACKLIGHT_DEFAULT: u8 = 70;
/// Full-scale duty of the 13-bit PWM.
pub const BACKLIGHT_PWM_MAX_DUTY: u16 = 8191;

/// Current backlight setting.
#[derive(Debug, Clone, Copy)]
pub struct BacklightState {
    pub percent: u8,
    pub raw_duty: u16,
}

/// The vendor duty curve: off at 0, otherwise full scale minus 81 per
/// percent below 100 (inputs above 100 count as 100).
pub open spec fn raw_duty_spec(light: u8) -> u16 {
    if light == 0 {
        0
    } else {
        let capped: int = if light > 100 { 100 } else { light as int };
        (8191 - 81 * (100 - capped)) as u16
    }
}

/// The PWM duty for a brightness percent.
pub fn vendor_backlight_raw_duty(light: u8) -> (r: u16)
    ensures
        r == raw_duty_spec(light),
        light > 0 ==> r >= 172,
        r <= BACKLIGHT_PWM_MAX_DUTY,
{
    if light == 0 {
        0
    } else {
        let capped = if light > BACKLIGHT_MAX {
            BACKLIGHT_MAX
        } else {
            light
        };
        BACKLIGHT_PWM_MAX_DUTY - (81 * (BACKLIGHT_MAX - capped) as u16)
    }
}

/// The state the backlight takes for a requested percent (clamped to 100).
pub fn backlight_state_for(light: u8) -> (r: BacklightState)
    ensures
        r.percent == (if light > 100 { 100 } else { light }),
        r.raw_duty == raw_duty_spec(r.percent),
{
    let clamped = if light > BACKLIGHT_MAX {
        BACKLIGHT_MAX
    } else {
        light
    };
    BacklightState { percent: clamped, raw_duty: vendor_backlight_raw_duty(clamped) }
}

/// Brighter never gives less duty.
pub proof fn lemma_raw_duty_monotonic(a: u8, b: u8)
    requires
        a <= b,
    ensures
        raw_duty_spec(a) <= raw_duty_spec(b),
{
}

} // verus!
