//! Touch tracking and classification: one finger contact is followed from
//! its first report to its end, summarised, and classified as a page swipe,
//! a tap or a media control press.
//!
//! Times are milliseconds of a monotonic clock. Coordinates are the
//! controller's 16-bit values; differences are taken in 16-bit signed
//! arithmetic that wraps, as the firmware's release build computes them.

use vstd::prelude::*;
use crate::intents::UiIntent;
use crate::model::OnboardModel;
use crate::pages::AssistantPage;

verus! {

/// A tap lasts at most this long.
pub const TOUCH_TAP_MAX_MS: u64 = 450;
/// Minimum horizontal travel of a page swipe.
pub const UNIVERSAL_SWIPE_MIN_DX: i16 = 20;
/// Minimum vertical travel of a settings-detail swipe.
pub const SETTINGS_DETAIL_VERTICAL_SWIPE_MIN_DY: i16 = 20;
/// Taps at or above this line of a settings detail go back to the overview.
pub const SETTINGS_DETAIL_HEADER_TAP_Y_MAX: u16 = 92;
/// Center-tap window.
pub const CENTER_TAP_X_MIN: u16 = 95;
pub const CENTER_TAP_X_MAX: u16 = 265;
pub const CENTER_TAP_Y_MIN: u16 = 95;
pub const CENTER_TAP_Y_MAX: u16 = 285;
/// Largest movement of a tap.
pub const CENTER_TAP_MAX_MOVE_PX: i16 = 12;
/// From this travel on, measured travel wins over the controller's gesture.
pub const TOUCH_GESTURE_SPAN_PREFER_PX: i16 = 35;
/// Controller gesture codes.
pub const CST816_GESTURE_UP: u8 = 0x01;
pub const CST816_GESTURE_DOWN: u8 = 0x02;
pub const CST816_GESTURE_LEFT: u8 = 0x03;
pub const CST816_GESTURE_RIGHT: u8 = 0x04;
/// A contact ends after this many polls without a finger.
pub const TOUCH_NO_TOUCH_FINISH_COUNT: u8 = 3;
/// A contact is summarised after this long at the latest.
pub const TOUCH_ACTIVE_POLL_WINDOW_MS: u64 = 180;
/// Top-left corner hold that puts the screen to sleep.
pub const SOFTWARE_SLEEP_CORNER_HOLD_MS: u64 = 900;
pub const SOFTWARE_SLEEP_CORNER_X_MAX: u16 = 58;
pub const SOFTWARE_SLEEP_CORNER_Y_MAX: u16 = 58;
pub const SOFTWARE_SLEEP_CORNER_MOVE_MAX: i16 = 22;

/// `a - b` in wrapping 16-bit signed arithmetic on the coordinates read as
/// `i16`.
pub open spec fn diff16(a: u16, b: u16) -> i16 {
    ((a as i16) - (b as i16)) as i16
}

/// Wrapping absolute value.
pub open spec fn abs16(v: i16) -> i16 {
    if v < 0 {
        (-v) as i16
    } else {
        v
    }
}

/// Wrapping negation.
pub open spec fn neg16(v: i16) -> i16 {
    (-v) as i16
}

fn diff16_exec(a: u16, b: u16) -> (r: i16)
    ensures
        r == diff16(a, b),
{
    ((a as i16) as i32 - (b as i16) as i32) as i16
}

fn abs16_exec(v: i16) -> (r: i16)
    ensures
        r == abs16(v),
{
    if v < 0 {
        (-(v as i32)) as i16
    } else {
        v
    }
}

fn neg16_exec(v: i16) -> (r: i16)
    ensures
        r == neg16(v),
{
    (-(v as i32)) as i16
}

/// What a finished contact looked like.
#[derive(Debug, Clone, Copy)]
pub struct TouchSummary {
    pub touch_id: u32,
    pub sample_count: u16,
    pub finish_reason: &'static str,
    pub start_x: u16,
    pub start_y: u16,
    pub end_x: u16,
    pub end_y: u16,
    pub min_x: u16,
    pub max_x: u16,
    pub min_y: u16,
    pub max_y: u16,
    pub dx: i16,
    pub dy: i16,
    pub span_x: i16,
    pub span_y: i16,
    pub duration_ms: u64,
    pub gesture: u8,
}

/// Follows one contact. Between contacts every field but the identifiers is
/// zero.
#[derive(Debug)]
pub struct TouchTracker {
    pub active: bool,
    pub touch_id: u32,
    pub next_touch_id: u32,
    pub sample_count: u16,
    pub no_touch_count: u8,
    pub start_x: u16,
    pub start_y: u16,
    pub last_x: u16,
    pub last_y: u16,
    pub min_x: u16,
    pub max_x: u16,
    pub min_y: u16,
    pub max_y: u16,
    pub start_at: Option<u64>,
    pub last_seen: Option<u64>,
    pub gesture: u8,
}

/// Milliseconds from `start` to `now`, zero when `now` is earlier or there
/// is no start.
pub open spec fn elapsed_spec(start: Option<u64>, now: u64) -> u64 {
    match start {
        Some(s) => if now >= s {
            (now - s) as u64
        } else {
            0
        },
        None => 0,
    }
}

/// The tracker with every per-contact field cleared.
pub open spec fn tracker_cleared(t: TouchTracker) -> TouchTracker {
    TouchTracker {
        active: false,
        sample_count: 0,
        no_touch_count: 0,
        start_x: 0,
        start_y: 0,
        last_x: 0,
        last_y: 0,
        min_x: 0,
        max_x: 0,
        min_y: 0,
        max_y: 0,
        start_at: None,
        last_seen: None,
        gesture: 0,
        ..t
    }
}

/// The identifier after `id`, skipping 0.
pub open spec fn next_id(id: u32) -> u32 {
    if id == u32::MAX {
        1
    } else {
        (id + 1) as u32
    }
}

impl TouchTracker {
    /// The tracker's invariant: the extremes bound the first and last
    /// samples of an active contact.
    pub open spec fn wf(&self) -> bool {
        self.active ==> {
            &&& self.min_x <= self.start_x <= self.max_x
            &&& self.min_x <= self.last_x <= self.max_x
            &&& self.min_y <= self.start_y <= self.max_y
            &&& self.min_y <= self.last_y <= self.max_y
        }
    }

    /// No contact, no identifiers used yet.
    pub fn new() -> (r: Self)
        ensures
            r.wf(),
            !r.active,
            r.touch_id == 0,
            r.next_touch_id == 0,
            r == tracker_cleared(r),
    {
        TouchTracker {
            active: false,
            touch_id: 0,
            next_touch_id: 0,
            sample_count: 0,
            no_touch_count: 0,
            start_x: 0,
            start_y: 0,
            last_x: 0,
            last_y: 0,
            min_x: 0,
            max_x: 0,
            min_y: 0,
            max_y: 0,
            start_at: None,
            last_seen: None,
            gesture: 0,
        }
    }

    /// Drops the current contact.
    pub fn reset_fields(&mut self)
        ensures
            *final(self) == tracker_cleared(*old(self)),
            final(self).wf(),
    {
        self.active = false;
        self.sample_count = 0;
        self.no_touch_count = 0;
        self.start_x = 0;
        self.start_y = 0;
        self.last_x = 0;
        self.last_y = 0;
        self.min_x = 0;
        self.max_x = 0;
        self.min_y = 0;
        self.max_y = 0;
        self.start_at = None;
        self.last_seen = None;
        self.gesture = 0;
    }

    /// Starts a new contact at `(x, y)` with a fresh identifier and records
    /// its first sample.
    pub fn begin(&mut self, now: u64, x: u16, y: u16, gesture: u8)
        ensures
            final(self).wf(),
            final(self).active,
            final(self).next_touch_id == next_id(old(self).next_touch_id),
            final(self).touch_id == final(self).next_touch_id,
            final(self).touch_id != 0,
            final(self).sample_count == 1,
            final(self).no_touch_count == 0,
            final(self).start_x == x && final(self).start_y == y,
            final(self).last_x == x && final(self).last_y == y,
            final(self).min_x == x && final(self).max_x == x,
            final(self).min_y == y && final(self).max_y == y,
            final(self).start_at == Some(now),
            final(self).last_seen == Some(now),
            final(self).gesture == gesture,
    {
        self.reset_fields();
        self.next_touch_id = if self.next_touch_id == u32::MAX {
            0
        } else {
            self.next_touch_id + 1
        };
        if self.next_touch_id == 0 {
            self.next_touch_id = 1;
        }
        self.active = true;
        self.touch_id = self.next_touch_id;
        self.sample_count = 0;
        self.no_touch_count = 0;
        self.start_x = x;
        self.start_y = y;
        self.last_x = x;
        self.last_y = y;
        self.min_x = x;
        self.max_x = x;
        self.min_y = y;
        self.max_y = y;
        self.start_at = Some(now);
        self.last_seen = Some(now);
        self.gesture = gesture;
        self.record_sample(now, x, y, gesture);
    }

    /// Adds a sample to the current contact: extends the extremes, counts
    /// the sample (saturating) and keeps a non-zero gesture code.
    pub fn record_sample(&mut self, now: u64, x: u16, y: u16, gesture: u8)
        requires
            old(self).wf(),
        ensures
            final(self).wf(),
            final(self).last_x == x && final(self).last_y == y,
            final(self).min_x == (if x < old(self).min_x { x } else { old(self).min_x }),
            final(self).max_x == (if x > old(self).max_x { x } else { old(self).max_x }),
            final(self).min_y == (if y < old(self).min_y { y } else { old(self).min_y }),
            final(self).max_y == (if y > old(self).max_y { y } else { old(self).max_y }),
            final(self).last_seen == Some(now),
            final(self).no_touch_count == 0,
            final(self).sample_count == (if old(self).sample_count == u16::MAX {
                u16::MAX as int
            } else {
                old(self).sample_count + 1
            }),
            final(self).gesture == (if gesture != 0 { gesture } else { old(self).gesture }),
            final(self).active == old(self).active,
            final(self).touch_id == old(self).touch_id,
            final(self).next_touch_id == old(self).next_touch_id,
            final(self).start_x == old(self).start_x,
            final(self).start_y == old(self).start_y,
            final(self).start_at == old(self).start_at,
    {
        self.last_x = x;
        self.last_y = y;
        if x < self.min_x {
            self.min_x = x;
        }
        if x > self.max_x {
            self.max_x = x;
        }
        if y < self.min_y {
            self.min_y = y;
        }
        if y > self.max_y {
            self.max_y = y;
        }
        self.last_seen = Some(now);
        self.no_touch_count = 0;
        self.sample_count = self.sample_count.saturating_add(1);
        if gesture != 0 {
            self.gesture = gesture;
        }
    }

    /// A finger report: starts a contact or extends the current one.
    pub fn update_down(&mut self, now: u64, x: u16, y: u16, gesture: u8)
        requires
            old(self).wf(),
        ensures
            final(self).wf(),
            final(self).active,
            final(self).last_x == x && final(self).last_y == y,
            !old(self).active ==> final(self).touch_id == next_id(old(self).next_touch_id)
                && final(self).start_x == x && final(self).start_y == y
                && final(self).start_at == Some(now) && final(self).sample_count == 1,
            old(self).active ==> final(self).touch_id == old(self).touch_id
                && final(self).start_x == old(self).start_x
                && final(self).start_y == old(self).start_y
                && final(self).start_at == old(self).start_at,
    {
        if !self.active {
            self.begin(now, x, y, gesture);
        } else {
            self.record_sample(now, x, y, gesture);
        }
    }

    /// A poll without a finger during a contact is counted (saturating).
    pub fn note_no_touch(&mut self)
        ensures
            old(self).active ==> *final(self) == (TouchTracker {
                no_touch_count: if old(self).no_touch_count == u8::MAX {
                    u8::MAX
                } else {
                    (old(self).no_touch_count + 1) as u8
                },
                ..*old(self)
            }),
            !old(self).active ==> *final(self) == *old(self),
    {
        if !self.active {
            return;
        }
        self.no_touch_count = self.no_touch_count.saturating_add(1);
    }

    /// How long the current contact has lasted.
    pub fn active_elapsed(&self, now: u64) -> (r: u64)
        ensures
            r == elapsed_spec(self.start_at, now),
    {
        match self.start_at {
            Some(start) => {
                if now >= start {
                    now - start
                } else {
                    0
                }
            },
            None => 0,
        }
    }

    pub open spec fn span_x_spec(&self) -> i16 {
        diff16(self.max_x, self.min_x)
    }

    pub open spec fn span_y_spec(&self) -> i16 {
        diff16(self.max_y, self.min_y)
    }

    pub fn span_x(&self) -> (r: i16)
        ensures
            r == self.span_x_spec(),
    {
        diff16_exec(self.max_x, self.min_x)
    }

    pub fn span_y(&self) -> (r: i16)
        ensures
            r == self.span_y_spec(),
    {
        diff16_exec(self.max_y, self.min_y)
    }

    /// A still contact that began in the top-left corner.
    pub open spec fn corner_candidate_spec(&self) -> bool {
        &&& self.active
        &&& self.start_x <= SOFTWARE_SLEEP_CORNER_X_MAX
        &&& self.start_y <= SOFTWARE_SLEEP_CORNER_Y_MAX
        &&& abs16(self.span_x_spec()) <= SOFTWARE_SLEEP_CORNER_MOVE_MAX
        &&& abs16(self.span_y_spec()) <= SOFTWARE_SLEEP_CORNER_MOVE_MAX
    }

    pub fn software_sleep_corner_candidate(&self) -> (r: bool)
        ensures
            r == self.corner_candidate_spec(),
    {
        self.active && self.start_x <= SOFTWARE_SLEEP_CORNER_X_MAX && self.start_y
            <= SOFTWARE_SLEEP_CORNER_Y_MAX && abs16_exec(self.span_x())
            <= SOFTWARE_SLEEP_CORNER_MOVE_MAX && abs16_exec(self.span_y())
            <= SOFTWARE_SLEEP_CORNER_MOVE_MAX
    }

    /// The corner contact has been held long enough to sleep the screen.
    pub fn software_sleep_corner_ready(&self, now: u64) -> (r: bool)
        ensures
            r == (self.corner_candidate_spec() && elapsed_spec(self.start_at, now)
                >= SOFTWARE_SLEEP_CORNER_HOLD_MS),
    {
        self.software_sleep_corner_candidate() && self.active_elapsed(now)
            >= SOFTWARE_SLEEP_CORNER_HOLD_MS
    }

    /// Why the current contact should be summarised now, if it should: after
    /// three empty polls, or once the poll window has passed (a corner hold
    /// is left running until the sleep hold time).
    pub fn finish_reason(&self, now: u64) -> (r: Option<&'static str>)
        ensures
            !self.active ==> r is None,
            self.active && self.no_touch_count >= TOUCH_NO_TOUCH_FINISH_COUNT ==> (r matches Some(s)
                && s@ == "no-touch"@),
            self.active && self.no_touch_count < TOUCH_NO_TOUCH_FINISH_COUNT ==> (
            if self.corner_candidate_spec() && elapsed_spec(self.start_at, now)
                < SOFTWARE_SLEEP_CORNER_HOLD_MS {
                r is None
            } else if elapsed_spec(self.start_at, now) >= TOUCH_ACTIVE_POLL_WINDOW_MS {
                (r matches Some(s) && s@ == "window"@)
            } else {
                r is None
            }),
    {
        if !self.active {
            return None;
        }
        if self.no_touch_count >= TOUCH_NO_TOUCH_FINISH_COUNT {
            return Some("no-touch");
        }
        if self.software_sleep_corner_candidate() && self.active_elapsed(now)
            < SOFTWARE_SLEEP_CORNER_HOLD_MS {
            return None;
        }
        if self.active_elapsed(now) >= TOUCH_ACTIVE_POLL_WINDOW_MS {
            return Some("window");
        }
        None
    }

    /// Summarises and clears the current contact.
    pub fn finish(&mut self, now: u64, reason: &'static str) -> (r: Option<TouchSummary>)
        ensures
            !old(self).active ==> r is None && *final(self) == *old(self),
            old(self).active ==> *final(self) == tracker_cleared(*old(self)),
            old(self).active ==> (r matches Some(s) && s == summary_of(*old(self), now, reason)),
            final(self).wf(),
    {
        if !self.active {
            return None;
        }
        let start = match self.start_at {
            Some(s) => s,
            None => now,
        };
        let duration_ms = if now >= start {
            now - start
        } else {
            0
        };
        let summary = TouchSummary {
            touch_id: self.touch_id,
            sample_count: self.sample_count,
            finish_reason: reason,
            start_x: self.start_x,
            start_y: self.start_y,
            end_x: self.last_x,
            end_y: self.last_y,
            min_x: self.min_x,
            max_x: self.max_x,
            min_y: self.min_y,
            max_y: self.max_y,
            dx: diff16_exec(self.last_x, self.start_x),
            dy: diff16_exec(self.last_y, self.start_y),
            span_x: diff16_exec(self.max_x, self.min_x),
            span_y: diff16_exec(self.max_y, self.min_y),
            duration_ms,
            gesture: self.gesture,
        };
        self.reset_fields();
        Some(summary)
    }
}

/// The summary of tracker `t`'s contact finished at `now`.
pub open spec fn summary_of(t: TouchTracker, now: u64, reason: &'static str) -> TouchSummary {
    TouchSummary {
        touch_id: t.touch_id,
        sample_count: t.sample_count,
        finish_reason: reason,
        start_x: t.start_x,
        start_y: t.start_y,
        end_x: t.last_x,
        end_y: t.last_y,
        min_x: t.min_x,
        max_x: t.max_x,
        min_y: t.min_y,
        max_y: t.max_y,
        dx: diff16(t.last_x, t.start_x),
        dy: diff16(t.last_y, t.start_y),
        span_x: diff16(t.max_x, t.min_x),
        span_y: diff16(t.max_y, t.min_y),
        duration_ms: elapsed_spec(
            match t.start_at {
                Some(s) => Some(s),
                None => Some(now),
            },
            now,
        ),
        gesture: t.gesture,
    }
}

/// A still, short contact.
pub open spec fn is_tap_spec(s: TouchSummary) -> bool {
    s.span_x <= CENTER_TAP_MAX_MOVE_PX && s.span_y <= CENTER_TAP_MAX_MOVE_PX && s.duration_ms
        <= TOUCH_TAP_MAX_MS
}

/// Whether a contact was a still, short tap.
pub fn audio_r33_is_tap(summary: &TouchSummary) -> (r: bool)
    ensures
        r == is_tap_spec(*summary),
{
    summary.span_x <= CENTER_TAP_MAX_MOVE_PX && summary.span_y <= CENTER_TAP_MAX_MOVE_PX
        && summary.duration_ms <= TOUCH_TAP_MAX_MS
}

/// Short monitor word for the kind of contact.
pub open spec fn touch_kind_spec(s: TouchSummary) -> Seq<char> {
    let ax = abs16(s.span_x);
    let ay = abs16(s.span_y);
    if is_tap_spec(s) {
        "tap"@
    } else if ax >= UNIVERSAL_SWIPE_MIN_DX && ax >= ay {
        if s.dx < 0 {
            "swipe-left"@
        } else {
            "swipe-right"@
        }
    } else if ay >= UNIVERSAL_SWIPE_MIN_DX {
        if s.dy < 0 {
            "swipe-up"@
        } else {
            "swipe-down"@
        }
    } else {
        "touch"@
    }
}

/// Short monitor word for the kind of contact.
pub fn compact_touch_kind(summary: &TouchSummary) -> (r: &'static str)
    ensures
        r@ == touch_kind_spec(*summary),
{
    if audio_r33_is_tap(summary) {
        return "tap";
    }
    let abs_span_x = abs16_exec(summary.span_x);
    let abs_span_y = abs16_exec(summary.span_y);
    if abs_span_x >= UNIVERSAL_SWIPE_MIN_DX && abs_span_x >= abs_span_y {
        if summary.dx < 0 {
            "swipe-left"
        } else {
            "swipe-right"
        }
    } else if abs_span_y >= UNIVERSAL_SWIPE_MIN_DX {
        if summary.dy < 0 {
            "swipe-up"
        } else {
            "swipe-down"
        }
    } else {
        "touch"
    }
}

/// Signed horizontal travel: the larger of the travel to the left (negative)
/// and to the right of the start.
pub open spec fn signed_span_dx_spec(s: TouchSummary) -> i16 {
    let left = diff16(s.start_x, s.min_x);
    let right = diff16(s.max_x, s.start_x);
    if left >= right {
        neg16(left)
    } else {
        right
    }
}

/// The page-navigation or select intent of a contact: the controller's
/// left/right gesture, a horizontal swipe, or a center tap; the gesture
/// gives way to a disagreeing swipe of 35 px or more.
pub open spec fn touch_intent_spec(s: TouchSummary) -> Option<UiIntent> {
    let sdx = signed_span_dx_spec(s);
    let adx = abs16(sdx);
    let ay = abs16(s.span_y);
    let horizontal = adx * 2 > ay * 3;
    let gesture_intent = if s.gesture == CST816_GESTURE_LEFT {
        Some(UiIntent::NextPage)
    } else if s.gesture == CST816_GESTURE_RIGHT {
        Some(UiIntent::PreviousPage)
    } else {
        None
    };
    let span_intent = if adx >= UNIVERSAL_SWIPE_MIN_DX && horizontal {
        if sdx < 0 {
            Some(UiIntent::NextPage)
        } else {
            Some(UiIntent::PreviousPage)
        }
    } else {
        None
    };
    match gesture_intent {
        Some(g) => match span_intent {
            Some(sp) => if g != sp && adx >= TOUCH_GESTURE_SPAN_PREFER_PX {
                Some(sp)
            } else {
                Some(g)
            },
            None => Some(g),
        },
        None => match span_intent {
            Some(sp) => Some(sp),
            None => if is_tap_spec(s) && CENTER_TAP_X_MIN <= s.end_x <= CENTER_TAP_X_MAX
                && CENTER_TAP_Y_MIN <= s.end_y <= CENTER_TAP_Y_MAX {
                Some(UiIntent::Select)
            } else {
                None
            },
        },
    }
}

/// Page navigation follows the finger: the controller's right gesture
/// (0x04) or a rightward swipe goes to the previous page, its left gesture
/// (0x03) or a leftward swipe to the next page; a gesture that the finger's
/// travel does not contradict decides alone, and the left and right
/// gestures never give the same intent unless a swipe of 35 px or more
/// overrides them.
pub proof fn lemma_gesture_direction(s: TouchSummary)
    ensures
        s.gesture == CST816_GESTURE_RIGHT && signed_span_dx_spec(s) >= 0 ==> touch_intent_spec(s) == Some(
            UiIntent::PreviousPage,
        ),
        s.gesture == CST816_GESTURE_LEFT && signed_span_dx_spec(s) <= 0 ==> touch_intent_spec(s) == Some(
            UiIntent::NextPage,
        ),
        s.gesture != CST816_GESTURE_LEFT && s.gesture != CST816_GESTURE_RIGHT && signed_span_dx_spec(s)
            >= UNIVERSAL_SWIPE_MIN_DX && signed_span_dx_spec(s) * 2 > abs16(s.span_y) * 3
            ==> touch_intent_spec(s) == Some(UiIntent::PreviousPage),
        s.gesture != CST816_GESTURE_LEFT && s.gesture != CST816_GESTURE_RIGHT && i16::MIN
            < signed_span_dx_spec(s) <= -UNIVERSAL_SWIPE_MIN_DX && -signed_span_dx_spec(s) * 2 > abs16(
            s.span_y,
        ) * 3 ==> touch_intent_spec(s) == Some(UiIntent::NextPage),
        abs16(signed_span_dx_spec(s)) < TOUCH_GESTURE_SPAN_PREFER_PX ==> touch_intent_spec(
            TouchSummary { gesture: CST816_GESTURE_LEFT, ..s },
        ) != touch_intent_spec(TouchSummary { gesture: CST816_GESTURE_RIGHT, ..s }),
{
}

/// Classifies a contact as next page, previous page or select.
pub fn intent_from_touch_summary(summary: &TouchSummary) -> (r: Option<UiIntent>)
    ensures
        r == touch_intent_spec(*summary),
{
    let left_travel = diff16_exec(summary.start_x, summary.min_x);
    let right_travel = diff16_exec(summary.max_x, summary.start_x);
    let signed_span_dx = if left_travel >= right_travel {
        neg16_exec(left_travel)
    } else {
        right_travel
    };
    let abs_span_dx = abs16_exec(signed_span_dx);
    let abs_span_y = abs16_exec(summary.span_y);
    let horizontal_dominant = (abs_span_dx as i32 * 2) > (abs_span_y as i32 * 3);
    let gesture_intent = if summary.gesture == CST816_GESTURE_LEFT {
        Some(UiIntent::NextPage)
    } else if summary.gesture == CST816_GESTURE_RIGHT {
        Some(UiIntent::PreviousPage)
    } else {
        None
    };
    let span_intent = if abs_span_dx >= UNIVERSAL_SWIPE_MIN_DX && horizontal_dominant {
        if signed_span_dx < 0 {
            Some(UiIntent::NextPage)
        } else {
            Some(UiIntent::PreviousPage)
        }
    } else {
        None
    };
    match gesture_intent {
        Some(g) => {
            match span_intent {
                Some(sp) => {
                    if g != sp && abs_span_dx >= TOUCH_GESTURE_SPAN_PREFER_PX {
                        return Some(sp);
                    }
                },
                None => {},
            }
            return Some(g);
        },
        None => {},
    }
    match span_intent {
        Some(sp) => {
            return Some(sp);
        },
        None => {},
    }
    let center_tap = audio_r33_is_tap(summary) && CENTER_TAP_X_MIN <= summary.end_x
        && summary.end_x <= CENTER_TAP_X_MAX && CENTER_TAP_Y_MIN <= summary.end_y
        && summary.end_y <= CENTER_TAP_Y_MAX;
    if center_tap {
        Some(UiIntent::Select)
    } else {
        None
    }
}

/// A tap on the header band of a settings detail.
pub open spec fn header_tap_spec(s: TouchSummary) -> bool {
    is_tap_spec(s) && s.end_y <= SETTINGS_DETAIL_HEADER_TAP_Y_MAX
}

/// Whether a contact was a tap on the header band of a settings detail.
pub fn is_settings_detail_header_tap(summary: &TouchSummary) -> (r: bool)
    ensures
        r == header_tap_spec(*summary),
{
    audio_r33_is_tap(summary) && summary.end_y <= SETTINGS_DETAIL_HEADER_TAP_Y_MAX
}

/// Signed vertical travel: the larger of the travel up (negative) and down
/// from the start.
pub open spec fn signed_span_dy_spec(s: TouchSummary) -> i16 {
    let up = diff16(s.start_y, s.min_y);
    let down = diff16(s.max_y, s.start_y);
    if up >= down {
        neg16(up)
    } else {
        down
    }
}

/// Inside a settings detail: a header tap goes back; a vertical swipe, or
/// the controller's up/down gesture with little sideways travel, moves to
/// the previous (up) or next (down) panel.
pub open spec fn settings_detail_intent_spec(m: OnboardModel, s: TouchSummary) -> Option<UiIntent> {
    if m.current_page != AssistantPage::Settings || !m.settings.detail_open {
        None
    } else if header_tap_spec(s) {
        Some(UiIntent::SettingsBackToOverview)
    } else {
        let sdy = signed_span_dy_spec(s);
        let ady = abs16(sdy);
        let ax = abs16(s.span_x);
        let vertical = ady >= SETTINGS_DETAIL_VERTICAL_SWIPE_MIN_DY && ady * 2 > ax * 3;
        if vertical {
            if sdy < 0 {
                Some(UiIntent::SettingsPreviousDetail)
            } else {
                Some(UiIntent::SettingsNextDetail)
            }
        } else if s.gesture == CST816_GESTURE_UP && ax < TOUCH_GESTURE_SPAN_PREFER_PX {
            Some(UiIntent::SettingsPreviousDetail)
        } else if s.gesture == CST816_GESTURE_DOWN && ax < TOUCH_GESTURE_SPAN_PREFER_PX {
            Some(UiIntent::SettingsNextDetail)
        } else {
            None
        }
    }
}

/// The settings-detail intent of a contact, if the page shows a detail.
pub fn settings_detail_intent_from_touch_summary(model: &OnboardModel, summary: &TouchSummary) -> (r:
    Option<UiIntent>)
    ensures
        r == settings_detail_intent_spec(*model, *summary),
{
    if model.current_page != AssistantPage::Settings || !model.settings.detail_open {
        return None;
    }
    if is_settings_detail_header_tap(summary) {
        return Some(UiIntent::SettingsBackToOverview);
    }
    let up_travel = diff16_exec(summary.start_y, summary.min_y);
    let down_travel = diff16_exec(summary.max_y, summary.start_y);
    let signed_span_dy = if up_travel >= down_travel {
        neg16_exec(up_travel)
    } else {
        down_travel
    };
    let abs_span_dy = abs16_exec(signed_span_dy);
    let abs_span_x = abs16_exec(summary.span_x);
    let vertical_dominant = abs_span_dy >= SETTINGS_DETAIL_VERTICAL_SWIPE_MIN_DY && (
    abs_span_dy as i32 * 2) > (abs_span_x as i32 * 3);
    if vertical_dominant {
        if signed_span_dy < 0 {
            return Some(UiIntent::SettingsPreviousDetail);
        } else {
            return Some(UiIntent::SettingsNextDetail);
        }
    }
    if summary.gesture == CST816_GESTURE_UP && abs_span_x < TOUCH_GESTURE_SPAN_PREFER_PX {
        return Some(UiIntent::SettingsPreviousDetail);
    }
    if summary.gesture == CST816_GESTURE_DOWN && abs_span_x < TOUCH_GESTURE_SPAN_PREFER_PX {
        return Some(UiIntent::SettingsNextDetail);
    }
    None
}

/// A finished contact has a non-negative span whenever its coordinates fit
/// in a signed 16-bit value, and its summary spans the extremes.
pub proof fn lemma_summary_span_nonnegative(t: TouchTracker, now: u64, reason: &'static str)
    requires
        t.wf(),
        t.active,
        t.max_x <= 32767,
        t.max_y <= 32767,
    ensures
        summary_of(t, now, reason).span_x == t.max_x - t.min_x,
        summary_of(t, now, reason).span_y == t.max_y - t.min_y,
        summary_of(t, now, reason).span_x >= 0,
        summary_of(t, now, reason).span_y >= 0,
{
    let a = t.max_x;
    let b = t.min_x;
    let c = t.max_y;
    let d = t.min_y;
    assert(((a as i16) - (b as i16)) as i16 == a - b) by (bit_vector)
        requires
            b <= a <= 32767u16,
    ;
    assert(((c as i16) - (d as i16)) as i16 == c - d) by (bit_vector)
        requires
            d <= c <= 32767u16,
    ;
}

} // verus!
