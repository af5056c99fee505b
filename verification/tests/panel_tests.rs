use assistant_rs::home_grid::CardId;
use assistant_rs::panel::{
    draw_assistant_page, draw_card, draw_status_badge, glyph_5x7, touch_sub_label, ACCENT_HOME, ACCENT_WEATHER, BG,
    CARD_RTC, PANEL_BG, STATUS_BAD, STATUS_OK, SURFACE, SURFACE_2, WHITE,
};
use assistant_rs::model::{OnboardModel, TouchSnapshot};
use assistant_rs::pages::AssistantPage;
use assistant_rs::render::PIXELS;

fn px(f: &[u16], x: usize, y: usize) -> u16 {
    f[y * 360 + x]
}

#[test]
fn panel_home_page_layout() {
    let model = OnboardModel::new();
    let mut f = vec![0u16; PIXELS];
    draw_assistant_page(&model, Some(CardId::Touch), &mut f);
    assert_eq!(px(&f, 0, 0), BG);
    assert_eq!(px(&f, 40, 290), PANEL_BG);
    assert_eq!(px(&f, 34, 100), SURFACE_2);
    assert_eq!(px(&f, 43, 60), ACCENT_HOME);
    assert_eq!(px(&f, 112, 60), SURFACE);
    assert_eq!(px(&f, 47, 93), CARD_RTC);
    assert_eq!(px(&f, 100, 125), SURFACE);
    assert_eq!(px(&f, 185, 100), WHITE);
    assert_eq!(px(&f, 46, 100), SURFACE_2);
    assert_eq!(px(&f, 68, 289), STATUS_BAD);
}

#[test]
fn panel_placeholder_for_other_pages() {
    let mut model = OnboardModel::new();
    model.current_page = AssistantPage::Weather;
    model.i2c_ok = true;
    let mut f = vec![0u16; PIXELS];
    draw_assistant_page(&model, None, &mut f);
    assert_eq!(px(&f, 100, 93), ACCENT_WEATHER);
    assert_eq!(px(&f, 112, 60), ACCENT_WEATHER);
    assert_eq!(px(&f, 68, 289), STATUS_OK);
}

#[test]
fn card_and_badge_pieces() {
    let mut f = vec![0u16; PIXELS];
    draw_card(&mut f, 10, 10, 50, 30, "T", "V", None, 7, true);
    assert_eq!(px(&f, 10, 20), WHITE);
    assert_eq!(px(&f, 30, 11), 7);
    assert_eq!(px(&f, 30, 35), SURFACE);
    let mut g = vec![0u16; PIXELS];
    draw_status_badge(&mut g, 0, 0, "OK", true);
    assert_eq!(px(&g, 2, 2), STATUS_OK);
    assert_eq!(px(&g, 0, 0), WHITE);
}

#[test]
fn panel_glyphs_have_no_lower_case() {
    assert_eq!(glyph_5x7('a'), [0u8; 7]);
    assert_eq!(glyph_5x7('<'), [0u8; 7]);
    assert_eq!(glyph_5x7('A'), [0x0E, 0x11, 0x11, 0x1F, 0x11, 0x11, 0x11]);
}

#[test]
fn touch_line_is_zero_padded() {
    let p = TouchSnapshot { x: 5, y: 123, fingers: 1, gesture: 0 };
    assert_eq!(touch_sub_label(p), "005,123/1");
}
