use assistant_rs::home_grid::{card_from_point, page_from_point, CardId};
use assistant_rs::pages::AssistantPage;
use assistant_rs::render::{
    draw_char, draw_text, draw_text_centered, fill_circle, fill_rect, glyph_5x7, inside_circle, normalize_deg,
    numeric_char_width, numeric_value_width, set_pixel, stroke_circle, text_width, PIXELS,
};

fn frame() -> Vec<u16> {
    vec![0u16; PIXELS]
}

fn px(f: &[u16], x: usize, y: usize) -> u16 {
    f[y * 360 + x]
}

#[test]
fn the_visible_disc() {
    assert!(inside_circle(180, 180));
    assert!(inside_circle(180, 2));
    assert!(!inside_circle(0, 0));
    assert!(!inside_circle(359, 359));
    assert!(!inside_circle(-100000, 5));
}

#[test]
fn set_pixel_skips_corners_and_off_screen() {
    let mut f = frame();
    set_pixel(&mut f, 180, 180, 7);
    set_pixel(&mut f, 0, 0, 7);
    set_pixel(&mut f, 400, 10, 7);
    assert_eq!(px(&f, 180, 180), 7);
    assert_eq!(px(&f, 0, 0), 0);
    assert_eq!(f.iter().filter(|&&c| c == 7).count(), 1);
}

#[test]
fn fill_rect_paints_only_the_rectangle() {
    let mut f = frame();
    fill_rect(&mut f, 100, 150, 10, 5, 9);
    assert_eq!(f.iter().filter(|&&c| c == 9).count(), 50);
    assert_eq!(px(&f, 100, 150), 9);
    assert_eq!(px(&f, 109, 154), 9);
    assert_eq!(px(&f, 110, 154), 0);
    let mut g = frame();
    fill_rect(&mut g, -50, -50, 1000, 1000, 1);
    assert_eq!(px(&g, 0, 0), 0);
    assert_eq!(px(&g, 180, 180), 1);
    fill_rect(&mut g, 10, 10, -5, 20, 3);
    assert!(g.iter().all(|&c| c != 3));
}

#[test]
fn circles() {
    let mut f = frame();
    fill_circle(&mut f, 180, 180, 2, 5);
    assert_eq!(f.iter().filter(|&&c| c == 5).count(), 13);
    let mut g = frame();
    stroke_circle(&mut g, 180, 180, 2, 4);
    assert_eq!(px(&g, 180, 180), 0);
    assert_eq!(px(&g, 181, 180), 4);
    assert_eq!(px(&g, 182, 180), 4);
    assert_eq!(px(&g, 183, 180), 0);
}

#[test]
fn glyphs_and_text() {
    assert_eq!(glyph_5x7('a'), glyph_5x7('A'));
    assert_eq!(glyph_5x7('1'), [0x04, 0x0C, 0x04, 0x04, 0x04, 0x04, 0x0E]);
    assert_eq!(glyph_5x7('~'), [0; 7]);
    let mut f = frame();
    draw_char(&mut f, 170, 190, '-', 2, 1);
    assert_eq!(f.iter().filter(|&&c| c == 2).count(), 5);
    assert_eq!(px(&f, 170, 187), 2);
    let mut g = frame();
    draw_text(&mut g, 160, 190, "--", 3, 2);
    assert_eq!(g.iter().filter(|&&c| c == 3).count(), 40);
    assert_eq!(text_width("HELLO", 2), 60);
}

#[test]
fn centred_text_sits_around_the_middle() {
    let mut f = frame();
    draw_text_centered(&mut f, 190, "-", 6, 1);
    assert_eq!(px(&f, 177, 187), 6);
    assert_eq!(px(&f, 181, 187), 6);
    assert_eq!(px(&f, 182, 187), 0);
}

#[test]
fn angles_and_numeral_widths() {
    assert_eq!(normalize_deg(-30), 330);
    assert_eq!(normalize_deg(720), 0);
    assert_eq!(normalize_deg(-721), 359);
    assert_eq!(numeric_char_width(':', 42, 6), 18);
    assert_eq!(numeric_char_width('F', 42, 6), 30);
    assert_eq!(numeric_char_width('-', 43, 6), 21);
    assert_eq!(numeric_value_width("12:30", 42, 6), 42 * 4 + 18 + 6 * 4);
    assert_eq!(numeric_value_width("", 42, 6), 0);
}

#[test]
fn home_grid_hit_testing() {
    assert_eq!(page_from_point(50, 60), Some(AssistantPage::Home));
    assert_eq!(page_from_point(250, 70), Some(AssistantPage::Settings));
    assert_eq!(page_from_point(108, 70), None);
    assert_eq!(page_from_point(50, 90), None);
    assert_eq!(card_from_point(50, 95), Some(CardId::Rtc));
    assert_eq!(card_from_point(200, 250), Some(CardId::Backlight));
    assert_eq!(card_from_point(180, 95), None);
    assert_eq!(card_from_point(50, 133), None);
}
