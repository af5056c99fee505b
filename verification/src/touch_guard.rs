//! Phantom-touch guard: rejects reports that look like controller noise and
//! rate-limits accepted touches per page.

use vstd::prelude::*;
use crate::model::OnboardModel;
use crate::pages::AssistantPage;

verus! {

/// Cooldown between accepted touches on Weather and Settings.
pub const WEATHER_SETTINGS_COOLDOWN_MS: u32 = 360;
/// Cooldown between accepted touches elsewhere.
pub const GENERAL_COOLDOWN_MS: u32 = 120;
/// Touches this close to the top or left edge are noise.
pub const EDGE_NOISE_BAND_PX: i16 = 4;

/// The cooldown of a page.
pub open spec fn page_cooldown_spec(page: AssistantPage) -> u32 {
    if page == AssistantPage::Weather || page == AssistantPage::Settings {
        WEATHER_SETTINGS_COOLDOWN_MS
    } else {
        GENERAL_COOLDOWN_MS
    }
}

/// The cooldown of a page.
pub fn page_cooldown_ms(page: &AssistantPage) -> (r: u32)
    ensures
        r == page_cooldown_spec(*page),
{
    match page {
        AssistantPage::Weather | AssistantPage::Settings => WEATHER_SETTINGS_COOLDOWN_MS,
        _ => GENERAL_COOLDOWN_MS,
    }
}

/// Remembers when (in wrapping milliseconds) the last touch was accepted;
/// 0 means never.
pub struct TouchGuard {
    pub last_accepted_ms: u32,
}

/// `a - b` modulo 2^32.
pub open spec fn wrapping_elapsed(a: u32, b: u32) -> u32 {
    if a >= b {
        (a - b) as u32
    } else {
        (a + 0x1_0000_0000 - b) as u32
    }
}

/// Whether the last touch of `m` is rejected at `now` with `last` accepted
/// before: no finger, at the top or left edge, or inside the page's
/// cooldown.
pub open spec fn ghost_rejected(m: OnboardModel, last: u32, now: u32) -> bool {
    match m.last_touch {
        None => false,
        Some(t) => {
            ||| t.fingers == 0
            ||| (t.x as i16) <= EDGE_NOISE_BAND_PX
            ||| (t.y as i16) <= EDGE_NOISE_BAND_PX
            ||| (last != 0 && wrapping_elapsed(now, last) < page_cooldown_spec(m.current_page))
        },
    }
}

impl TouchGuard {
    pub fn new() -> (r: Self)
        ensures
            r.last_accepted_ms == 0,
    {
        TouchGuard { last_accepted_ms: 0 }
    }

    /// Whether the model's last touch is a phantom; an accepted touch
    /// restarts the cooldown at `now`.
    pub fn reject_touch_ghost(&mut self, model: &OnboardModel, now: u32) -> (r: bool)
        ensures
            r == ghost_rejected(*model, old(self).last_accepted_ms, now),
            final(self).last_accepted_ms == (if model.last_touch is Some && !r {
                now
            } else {
                old(self).last_accepted_ms
            }),
    {
        let touch = match model.last_touch {
            Some(t) => t,
            None => {
                return false;
            },
        };
        if touch.fingers == 0 {
            return true;
        }
        let x = touch.x as i16;
        let y = touch.y as i16;
        if x <= EDGE_NOISE_BAND_PX || y <= EDGE_NOISE_BAND_PX {
            return true;
        }
        let last = self.last_accepted_ms;
        let cooldown = page_cooldown_ms(&model.current_page);
        if last != 0 {
            let elapsed = now.wrapping_sub(last);
            assert(elapsed == wrapping_elapsed(now, last)) by (bit_vector)
                requires
                    elapsed == now.wrapping_sub(last),
            ;
            if elapsed < cooldown {
                return true;
            }
        }
        self.last_accepted_ms = now;
        false
    }
}

} // verus!
