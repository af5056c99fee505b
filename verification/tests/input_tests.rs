use assistant_rs::buttons::{exio_changed_bits_text, ButtonEvent, ButtonTracker};
use assistant_rs::intents::UiIntent;
use assistant_rs::touch::{compact_touch_kind, intent_from_touch_summary, TouchSummary, TouchTracker};

#[test]
fn short_press_after_debounce() {
    let mut b = ButtonTracker::new(800);
    assert_eq!(b.update(1000, true), None);
    assert_eq!(b.update(1010, true), None);
    assert_eq!(b.update(1100, false), Some(ButtonEvent::Short));
    assert_eq!(b.update(1200, false), None);
}

#[test]
fn bounce_is_ignored() {
    let mut b = ButtonTracker::new(800);
    b.update(0, true);
    assert_eq!(b.update(39, false), None);
    b.update(100, true);
    assert_eq!(b.update(140, false), Some(ButtonEvent::Short));
}

#[test]
fn long_press_fires_once_and_suppresses_short() {
    let mut b = ButtonTracker::new(800);
    b.update(0, true);
    assert_eq!(b.update(799, true), None);
    assert_eq!(b.update(800, true), Some(ButtonEvent::Long));
    assert_eq!(b.update(2000, true), None);
    assert_eq!(b.update(2100, false), None);
}

#[test]
fn exio_bits() {
    assert_eq!(exio_changed_bits_text(0), "none");
    assert_eq!(exio_changed_bits_text(0x20), "bit5");
    assert_eq!(exio_changed_bits_text(0x03), "multiple");
}

fn track(points: &[(u64, u16, u16)], gesture: u8, end: u64) -> TouchSummary {
    let mut t = TouchTracker::new();
    for &(now, x, y) in points {
        t.update_down(now, x, y, gesture);
    }
    t.finish(end, "no-touch").unwrap()
}

#[test]
fn tracker_summarises_a_swipe() {
    let s = track(&[(0, 300, 180), (20, 250, 185), (40, 200, 182)], 0, 60);
    assert_eq!(s.touch_id, 1);
    assert_eq!(s.sample_count, 3);
    assert_eq!((s.start_x, s.end_x, s.min_x, s.max_x), (300, 200, 200, 300));
    assert_eq!((s.dx, s.dy, s.span_x, s.span_y), (-100, 2, 100, 5));
    assert_eq!(s.duration_ms, 60);
    assert_eq!(compact_touch_kind(&s), "swipe-left");
    assert_eq!(intent_from_touch_summary(&s), Some(UiIntent::NextPage));
}

#[test]
fn right_swipe_goes_back() {
    let s = track(&[(0, 100, 180), (30, 160, 180)], 0, 40);
    assert_eq!(intent_from_touch_summary(&s), Some(UiIntent::PreviousPage));
}

#[test]
fn centre_tap_selects() {
    let s = track(&[(0, 180, 180), (10, 182, 181)], 0, 100);
    assert_eq!(compact_touch_kind(&s), "tap");
    assert_eq!(intent_from_touch_summary(&s), Some(UiIntent::Select));
}

#[test]
fn gesture_code_decides_small_moves() {
    let s = track(&[(0, 40, 180), (10, 45, 180)], 0x03, 20);
    assert_eq!(intent_from_touch_summary(&s), Some(UiIntent::NextPage));
}

#[test]
fn tracker_counts_ids_and_no_touch_polls() {
    let mut t = TouchTracker::new();
    assert!(t.finish(5, "x").is_none());
    t.update_down(0, 10, 10, 0);
    t.note_no_touch();
    t.note_no_touch();
    assert_eq!(t.finish_reason(10), None);
    t.note_no_touch();
    assert_eq!(t.finish_reason(10), Some("no-touch"));
    t.finish(10, "no-touch");
    t.update_down(20, 200, 200, 0);
    assert_eq!(t.touch_id, 2);
    assert_eq!(t.finish_reason(200), Some("window"));
}

#[test]
fn top_left_hold_waits_for_sleep_corner() {
    let mut t = TouchTracker::new();
    t.update_down(0, 20, 20, 0);
    assert!(t.software_sleep_corner_candidate());
    assert_eq!(t.finish_reason(500), None);
    assert!(!t.software_sleep_corner_ready(899));
    assert!(t.software_sleep_corner_ready(900));
    assert_eq!(t.finish_reason(900), Some("window"));
}
