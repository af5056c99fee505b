//! Physical buttons: press tracking with long-press detection, the GPIO
//! discovery candidates, and what a press does to the UI model.

use vstd::prelude::*;
use crate::assistant::sat_inc;
use crate::intents::UiIntent;
use crate::model::{ButtonName, ButtonPressKind, OnboardModel};

verus! {

/// Presses shorter than this are ignored.
pub const BUTTON_DEBOUNCE_MS: u64 = 40;
/// A power-button hold of this long is a long press.
pub const POWER_LONG_PRESS_MS: u64 = 850;

/// A completed button gesture.
#[derive(Debug, Clone, Copy, PartialEq, Eq, Structural)]
pub enum ButtonEvent {
    Short,
    Long,
}

/// Tracks one button: a long press is reported once while held; a short
/// press on release, if no long press was reported and the press outlasted
/// the debounce time.
pub struct ButtonTracker {
    pub down: bool,
    pub pressed_at: Option<u64>,
    pub long_sent: bool,
    pub long_press_ms: u64,
}

/// Milliseconds since `start`, zero when `now` is earlier or there is none.
pub open spec fn held_ms(start: Option<u64>, now: u64) -> u64 {
    match start {
        Some(s) => if now >= s {
            (now - s) as u64
        } else {
            0
        },
        None => 0,
    }
}

/// The tracker after sampling the button at `now`, and what it reports.
pub open spec fn button_step(t: ButtonTracker, now: u64, is_down: bool) -> (ButtonTracker, Option<ButtonEvent>) {
    if is_down {
        if !t.down {
            (ButtonTracker { down: true, pressed_at: Some(now), long_sent: false, ..t }, None)
        } else if !t.long_sent && t.pressed_at is Some && held_ms(t.pressed_at, now)
            >= t.long_press_ms {
            (ButtonTracker { long_sent: true, ..t }, Some(ButtonEvent::Long))
        } else {
            (t, None)
        }
    } else if t.down {
        let elapsed = held_ms(t.pressed_at, now);
        (
            ButtonTracker { down: false, pressed_at: None, ..t },
            if !t.long_sent && elapsed >= BUTTON_DEBOUNCE_MS {
                Some(ButtonEvent::Short)
            } else {
                None
            },
        )
    } else {
        (t, None)
    }
}

impl ButtonTracker {
    /// Released, with the given long-press time.
    pub fn new(long_press_ms: u64) -> (r: Self)
        ensures
            !r.down,
            r.pressed_at is None,
            !r.long_sent,
            r.long_press_ms == long_press_ms,
    {
        ButtonTracker { down: false, pressed_at: None, long_sent: false, long_press_ms }
    }

    /// Samples the button.
    pub fn update(&mut self, now: u64, is_down: bool) -> (r: Option<ButtonEvent>)
        ensures
            (*final(self), r) == button_step(*old(self), now, is_down),
    {
        if is_down {
            if !self.down {
                self.down = true;
                self.pressed_at = Some(now);
                self.long_sent = false;
                return None;
            }
            if !self.long_sent {
                match self.pressed_at {
                    Some(start) => {
                        let held = if now >= start {
                            now - start
                        } else {
                            0
                        };
                        if held >= self.long_press_ms {
                            self.long_sent = true;
                            return Some(ButtonEvent::Long);
                        }
                    },
                    None => {},
                }
            }
            None
        } else if self.down {
            self.down = false;
            let elapsed = match self.pressed_at {
                Some(start) => {
                    if now >= start {
                        now - start
                    } else {
                        0
                    }
                },
                None => 0,
            };
            self.pressed_at = None;
            if !self.long_sent && elapsed >= BUTTON_DEBOUNCE_MS {
                Some(ButtonEvent::Short)
            } else {
                None
            }
        } else {
            None
        }
    }
}

/// While a button stays down, a long press is reported at most once: after
/// a long press, further down samples report nothing.
pub proof fn lemma_long_press_once(t: ButtonTracker, now: u64)
    requires
        t.down,
        t.long_sent,
    ensures
        button_step(t, now, true).1 is None,
        button_step(t, now, true).0 == t,
{
}

/// A press that produced a long press never also produces a short press on
/// release.
pub proof fn lemma_no_short_after_long(t: ButtonTracker, now: u64)
    requires
        t.long_sent,
    ensures
        button_step(t, now, false).1 != Some(ButtonEvent::Short),
{
}

/// A press is reported only on a change of the sampled state or by the
/// long-press timer: a released button that stays released reports
/// nothing.
pub proof fn lemma_idle_silent(t: ButtonTracker, now: u64)
    requires
        !t.down,
    ensures
        button_step(t, now, false) == (t, None::<ButtonEvent>),
{
}

/// The tracker and its reports after sampling the button as down at each
/// of the times `downs`, in order.
pub open spec fn run_downs(t: ButtonTracker, downs: Seq<u64>) -> (ButtonTracker, Seq<Option<ButtonEvent>>)
    decreases downs.len(),
{
    if downs.len() == 0 {
        (t, Seq::empty())
    } else {
        let (t1, es) = run_downs(t, downs.drop_last());
        let (t2, e) = button_step(t1, downs.last(), true);
        (t2, es.push(e))
    }
}

/// Whether the `i`-th down sample of a press begun at `t0` is held long.
pub open spec fn held_long(t0: u64, downs: Seq<u64>, long_ms: u64, i: int) -> bool {
    held_ms(Some(t0), downs[i]) >= long_ms
}

/// Whether the `i`-th down sample is the first one held long.
pub open spec fn first_long(t0: u64, downs: Seq<u64>, long_ms: u64, i: int) -> bool {
    held_long(t0, downs, long_ms, i) && forall|j: int| 0 <= j < i ==> !#[trigger] held_long(t0, downs, long_ms, j)
}

/// Whether some down sample of the press is held long.
pub open spec fn any_long(t0: u64, downs: Seq<u64>, long_ms: u64) -> bool {
    exists|i: int| 0 <= i < downs.len() && #[trigger] held_long(t0, downs, long_ms, i)
}

proof fn lemma_run_downs(t: ButtonTracker, t0: u64, downs: Seq<u64>)
    requires
        t.down,
        t.pressed_at == Some(t0),
        !t.long_sent,
    ensures
        ({
            let (t2, es) = run_downs(t, downs);
            &&& t2 == (ButtonTracker { long_sent: any_long(t0, downs, t.long_press_ms), ..t })
            &&& es.len() == downs.len()
            &&& forall|i: int| 0 <= i < downs.len() ==> #[trigger] es[i] == (if first_long(
                t0,
                downs,
                t.long_press_ms,
                i,
            ) {
                Some(ButtonEvent::Long)
            } else {
                None
            })
        }),
    decreases downs.len(),
{
    if downs.len() > 0 {
        let d = downs.drop_last();
        let n = downs.len() - 1;
        lemma_run_downs(t, t0, d);
        let (t1, es1) = run_downs(t, d);
        let l = t.long_press_ms;
        assert forall|i: int| 0 <= i < d.len() implies #[trigger] held_long(t0, d, l, i) == held_long(
            t0,
            downs,
            l,
            i,
        ) by {
            assert(d[i] == downs[i]);
        }
        if any_long(t0, d, l) {
            let w = choose|i: int| 0 <= i < d.len() && #[trigger] held_long(t0, d, l, i);
            assert(held_long(t0, downs, l, w));
            assert(any_long(t0, downs, l));
        } else if held_long(t0, downs, l, n) {
            assert(any_long(t0, downs, l));
        } else {
            assert forall|i: int| 0 <= i < downs.len() implies !#[trigger] held_long(t0, downs, l, i) by {
                if i < n {
                    assert(!held_long(t0, d, l, i));
                }
            }
        }
        let (t2, es) = run_downs(t, downs);
        assert forall|i: int| 0 <= i < downs.len() implies #[trigger] es[i] == (if first_long(
            t0,
            downs,
            l,
            i,
        ) {
            Some(ButtonEvent::Long)
        } else {
            None
        }) by {
            if i < n {
                assert(es[i] == es1[i]);
                assert(first_long(t0, d, l, i) == first_long(t0, downs, l, i)) by {
                    if first_long(t0, downs, l, i) {
                        assert forall|j: int| 0 <= j < i implies !#[trigger] held_long(t0, d, l, j) by {
                            assert(!held_long(t0, downs, l, j));
                        }
                    }
                    if first_long(t0, d, l, i) {
                        assert forall|j: int| 0 <= j < i implies !#[trigger] held_long(t0, downs, l, j) by {
                            assert(!held_long(t0, d, l, j));
                        }
                    }
                }
            } else {
                if first_long(t0, downs, l, i) {
                    assert(!any_long(t0, d, l)) by {
                        if any_long(t0, d, l) {
                            let w = choose|j: int| 0 <= j < d.len() && #[trigger] held_long(t0, d, l, j);
                            assert(!held_long(t0, downs, l, w));
                        }
                    }
                } else if held_long(t0, downs, l, n) {
                    let w = choose|j: int| 0 <= j < n && #[trigger] held_long(t0, downs, l, j);
                    assert(held_long(t0, d, l, w));
                    assert(any_long(t0, d, l));
                }
            }
        }
    }
}

/// One whole press of a released button, pressed at `t0`, sampled as down
/// at the times `downs` and released at `release`: the press itself reports
/// nothing; the first down sample held at least the long-press time reports
/// a long press and every other one nothing; the release reports a short
/// press exactly when no long press was reported and the press lasted the
/// debounce time; the button ends released.
pub proof fn lemma_whole_press(t: ButtonTracker, t0: u64, downs: Seq<u64>, release: u64)
    requires
        !t.down,
    ensures
        ({
            let (t1, e0) = button_step(t, t0, true);
            let (t2, es) = run_downs(t1, downs);
            let (t3, er) = button_step(t2, release, false);
            &&& e0 is None
            &&& es.len() == downs.len()
            &&& forall|i: int| 0 <= i < downs.len() ==> #[trigger] es[i] == (if first_long(
                t0,
                downs,
                t.long_press_ms,
                i,
            ) {
                Some(ButtonEvent::Long)
            } else {
                None
            })
            &&& er == (if !any_long(t0, downs, t.long_press_ms) && held_ms(Some(t0), release)
                >= BUTTON_DEBOUNCE_MS {
                Some(ButtonEvent::Short)
            } else {
                None
            })
            &&& t3 == (ButtonTracker {
                down: false,
                pressed_at: None,
                long_sent: any_long(t0, downs, t.long_press_ms),
                long_press_ms: t.long_press_ms,
            })
        }),
{
    let (t1, e0) = button_step(t, t0, true);
    lemma_run_downs(t1, t0, downs);
}

/// A GPIO watched as a possible button.
#[derive(Clone, Copy)]
pub struct ButtonPinCandidate {
    pub gpio: i32,
    pub label: &'static str,
    pub origin: &'static str,
    pub active_low_expected: bool,
    pub sleep_bind_allowed: bool,
    pub guard: &'static str,
}

/// What is known about one candidate pin.
#[derive(Clone, Copy)]
pub struct ButtonPinState {
    pub boot_level: i32,
    pub last_level: i32,
    pub active_since: Option<u64>,
    pub last_diag: u64,
    pub long_reported: bool,
    pub noisy_at_boot: bool,
}

/// Number of candidate pins.
pub const BUTTON_PIN_CANDIDATE_COUNT: usize = 4;

/// The candidate pin at `index` (0..=3): GPIO0 (BOOT), GPIO6, GPIO7, GPIO9.
pub fn button_pin_candidate(index: usize) -> (r: ButtonPinCandidate)
    requires
        index < BUTTON_PIN_CANDIDATE_COUNT,
    ensures
        r.gpio == (if index == 0 {
            0i32
        } else if index == 1 {
            6i32
        } else if index == 2 {
            7i32
        } else {
            9i32
        }),
        r.active_low_expected,
        !r.sleep_bind_allowed,
{
    if index == 0 {
        ButtonPinCandidate {
            gpio: 0,
            label: "BOOT",
            origin: "ESP32-S3_BOOT",
            active_low_expected: true,
            sleep_bind_allowed: false,
            guard: "USB_FLASHING_GUARD",
        }
    } else if index == 1 {
        ButtonPinCandidate {
            gpio: 6,
            label: "POWER_ASSUMED",
            origin: "ASSISTANT_R1_ASSUMPTION",
            active_low_expected: true,
            sleep_bind_allowed: false,
            guard: "UNCONFIRMED_REPORT_ONLY",
        }
    } else if index == 2 {
        ButtonPinCandidate {
            gpio: 7,
            label: "GPIO7_FREE_CANDIDATE",
            origin: "V1_ADC_PROBE_FREE_PIN",
            active_low_expected: true,
            sleep_bind_allowed: false,
            guard: "UNCONFIRMED_REPORT_ONLY",
        }
    } else {
        ButtonPinCandidate {
            gpio: 9,
            label: "GPIO9_FREE_CANDIDATE",
            origin: "V1_ADC_PROBE_FREE_PIN",
            active_low_expected: true,
            sleep_bind_allowed: false,
            guard: "UNCONFIRMED_REPORT_ONLY",
        }
    }
}

/// Whether `level` means pressed for the candidate's expected polarity.
pub fn button_candidate_expected_down(candidate: ButtonPinCandidate, level: i32) -> (r: bool)
    ensures
        r == (if candidate.active_low_expected {
            level == 0
        } else {
            level == 1
        }),
{
    if candidate.active_low_expected {
        level == 0
    } else {
        level == 1
    }
}

/// GPIO7 and GPIO9 read as pressed at boot are treated as noise.
pub fn button_candidate_noisy_at_boot(candidate: ButtonPinCandidate, boot_level: i32) -> (r: bool)
    ensures
        r == ((candidate.gpio == 7 || candidate.gpio == 9) && (if candidate.active_low_expected {
            boot_level == 0
        } else {
            boot_level == 1
        })),
{
    (candidate.gpio == 7 || candidate.gpio == 9) && button_candidate_expected_down(
        candidate,
        boot_level,
    )
}

/// A pin is active while it differs from its boot level.
pub fn button_candidate_transition_active(state: ButtonPinState, level: i32) -> (r: bool)
    ensures
        r == (level != state.boot_level),
{
    level != state.boot_level
}

/// How long a pin has been active, in milliseconds.
pub fn button_candidate_duration_ms(now: u64, pressed_since: Option<u64>) -> (r: u64)
    ensures
        r == held_ms(pressed_since, now),
{
    match pressed_since {
        Some(start) => {
            if now >= start {
                now - start
            } else {
                0
            }
        },
        None => 0,
    }
}

/// The power button is active low.
pub fn power_gpio_down_from_level(level: i32) -> (r: bool)
    ensures
        r == (level == 0),
{
    level == 0
}

/// Names the single expander bit that changed, `none`, or `multiple`.
pub fn exio_changed_bits_text(changed: u8) -> (r: &'static str)
    ensures
        r@ == (if changed == 0 {
            "none"@
        } else if changed == 1 {
            "bit0"@
        } else if changed == 2 {
            "bit1"@
        } else if changed == 4 {
            "bit2"@
        } else if changed == 8 {
            "bit3"@
        } else if changed == 16 {
            "bit4"@
        } else if changed == 32 {
            "bit5"@
        } else if changed == 64 {
            "bit6"@
        } else if changed == 128 {
            "bit7"@
        } else {
            "multiple"@
        }),
{
    if changed == 0x00 {
        "none"
    } else if changed == 0x01 {
        "bit0"
    } else if changed == 0x02 {
        "bit1"
    } else if changed == 0x04 {
        "bit2"
    } else if changed == 0x08 {
        "bit3"
    } else if changed == 0x10 {
        "bit4"
    } else if changed == 0x20 {
        "bit5"
    } else if changed == 0x40 {
        "bit6"
    } else if changed == 0x80 {
        "bit7"
    } else {
        "multiple"
    }
}

/// Records a button gesture in the model: BOOT is reserved, POWER opens
/// the (placeholder) power menu.
pub fn handle_button_event(model: &mut OnboardModel, button: ButtonName, event: ButtonEvent)
    ensures
        final(model).button_events == sat_inc(old(model).button_events),
        final(model).last_action@ == (match button {
            ButtonName::Boot => "BOOT RSV"@,
            ButtonName::Power => "POWER MENU"@,
        }),
        *final(model) == (OnboardModel {
            button_events: final(model).button_events,
            last_action: final(model).last_action,
            ..*old(model)
        }),
{
    let kind = match event {
        ButtonEvent::Short => ButtonPressKind::Short,
        ButtonEvent::Long => ButtonPressKind::Long,
    };
    model.note_button(button, kind);
    match button {
        ButtonName::Boot => model.note_intent(UiIntent::BootReserved),
        ButtonName::Power => model.note_intent(UiIntent::PowerMenu),
    }
}

} // verus!
