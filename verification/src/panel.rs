//! The card-grid panel screen: a rectangular panel with a row of page
//! tabs, a two-by-four grid of telemetry cards (or a placeholder card for
//! the other pages) and a status footer. Unlike the round-screen drawing of
//! `render`, nothing here is clipped to the visible disc, and the glyph
//! table has no lower-case letters and no angle brackets.

use vstd::prelude::*;
use vstd::arithmetic::div_mod::lemma_fundamental_div_mod_converse;
use crate::home_grid::{tab_page, CardId, CARD_H, CARD_W, GAP_X, GRID_X, GRID_Y, HEADER_H, HEADER_X, HEADER_Y, ROW_GAP, TAB_GAP, TAB_W};
use crate::model::{battery_percent_spec, OnboardModel, TouchSnapshot};
use crate::pages::AssistantPage;
use crate::render::{bit_on, col_of, glyph_rows, in_rect, lemma_index, lemma_index_bounds, row_of, PIXELS};
use crate::text::{dec, dec2, dec3, dec4, lemma_dec_u64_len, push_char, push_dec, push_dec3, push_str};

verus! {

/// Panel background outside the panel.
pub const BG: u16 = 0x0841;
/// Black.
pub const BLACK: u16 = 0x0000;
/// White.
pub const WHITE: u16 = 0xFFFF;
/// Card and tab surface.
pub const SURFACE: u16 = 0x2104;
/// Outlines.
pub const SURFACE_2: u16 = 0x18C3;
/// The panel itself.
pub const PANEL_BG: u16 = 0x2945;
/// Home tab accent.
pub const ACCENT_HOME: u16 = 0x07FF;
/// Weather tab accent.
pub const ACCENT_WEATHER: u16 = 0x07E0;
/// Music tab accent.
pub const ACCENT_MUSIC: u16 = 0x4A69;
/// Settings tab accent.
pub const ACCENT_SETTINGS: u16 = 0xFFE0;
/// RTC card accent.
pub const CARD_RTC: u16 = 0x07E0;
/// Touch card accent.
pub const CARD_TOUCH: u16 = 0xF81F;
/// Flash card accent.
pub const CARD_FLASH: u16 = 0xFD20;
/// PSRAM card accent.
pub const CARD_PSRAM: u16 = 0xA53F;
/// Battery card accent.
pub const CARD_BAT: u16 = 0xFFE0;
/// Wi-Fi card accent.
pub const CARD_WIFI: u16 = 0x07FF;
/// SD card accent.
pub const CARD_SD: u16 = 0xC618;
/// Backlight card accent.
pub const CARD_BL: u16 = 0x2D7F;
/// A healthy status.
pub const STATUS_OK: u16 = 0x07E0;
/// A failed status.
pub const STATUS_BAD: u16 = 0xF800;
/// Left edge of the panel.
pub const PANEL_X: i32 = 34;
/// Top edge of the panel.
pub const PANEL_Y: i32 = 48;
/// Width of the panel.
pub const PANEL_W: i32 = 292;
/// Height of the panel.
pub const PANEL_H: i32 = 252;
/// Left edge of the footer.
pub const FOOTER_X: i32 = 56;
/// Top edge of the footer.
pub const FOOTER_Y: i32 = 284;
/// Width of the footer.
pub const FOOTER_W: i32 = 248;
/// Height of the footer.
pub const FOOTER_H: i32 = 12;

/// `f` with the rectangle of corner `(x, y)` and size `w` x `h` set to
/// `color` wherever it lies on the frame.
pub open spec fn plain_rect_painted(f: Seq<u16>, x: int, y: int, w: int, h: int, color: u16) -> Seq<u16> {
    Seq::new(f.len(), |i: int| if in_rect(col_of(i), row_of(i), x, y, w, h) { color } else { f[i] })
}

/// Fills the rectangle of corner `(x, y)` and size `w` x `h`, clipped to
/// the frame.
pub fn fill_rect(frame: &mut Vec<u16>, x: i32, y: i32, w: i32, h: i32, color: u16)
    requires
        old(frame)@.len() == PIXELS,
    ensures
        final(frame)@ == plain_rect_painted(old(frame)@, x as int, y as int, w as int, h as int, color),
        final(frame)@.len() == PIXELS,
{
    let ghost f0 = frame@;
    let x0: i64 = if x < 0 { 0 } else { x as i64 };
    let y0: i64 = if y < 0 { 0 } else { y as i64 };
    let xe: i64 = x as i64 + w as i64;
    let ye: i64 = y as i64 + h as i64;
    let x1: i64 = if xe < 360 { xe } else { 360 };
    let y1: i64 = if ye < 360 { ye } else { 360 };
    let mut yy: i64 = y0;
    while yy < y1
        invariant
            f0.len() == PIXELS,
            frame@.len() == PIXELS,
            0 <= y0 <= yy,
            y0 == (if y < 0 { 0 } else { y as int }),
            x0 == (if x < 0 { 0 } else { x as int }),
            x1 == (if x + w < 360 { x + w } else { 360 }),
            y1 == (if y + h < 360 { y + h } else { 360 }),
            forall|i: int|
                0 <= i < PIXELS ==> #[trigger] frame@[i] == (if in_rect(col_of(i), row_of(i), x as int, y as int, w as int, h as int)
                    && row_of(i) < yy {
                    color
                } else {
                    f0[i]
                }),
        decreases y1 - yy,
    {
        let mut xx: i64 = x0;
        while xx < x1
            invariant
                f0.len() == PIXELS,
                frame@.len() == PIXELS,
                0 <= y0 <= yy < y1,
                0 <= x0 <= xx,
                y0 == (if y < 0 { 0 } else { y as int }),
                x0 == (if x < 0 { 0 } else { x as int }),
                x1 == (if x + w < 360 { x + w } else { 360 }),
                y1 == (if y + h < 360 { y + h } else { 360 }),
                forall|i: int|
                    0 <= i < PIXELS ==> #[trigger] frame@[i] == (if in_rect(col_of(i), row_of(i), x as int, y as int, w as int, h as int)
                        && (row_of(i) < yy || (row_of(i) == yy && col_of(i) < xx)) {
                        color
                    } else {
                        f0[i]
                    }),
            decreases x1 - xx,
        {
            let ghost before = frame@;
            let idx: usize = yy as usize * 360 + xx as usize;
            frame.set(idx, color);
            proof {
                lemma_index(xx as int, yy as int);
                assert forall|i: int| 0 <= i < PIXELS implies #[trigger] frame@[i] == (if in_rect(col_of(i), row_of(i), x as int, y as int, w as int, h as int)
                        && (row_of(i) < yy || (row_of(i) == yy && col_of(i) < xx + 1)) {
                        color
                    } else {
                        f0[i]
                    }) by {
                    lemma_index_bounds(i);
                    if i != idx {
                        assert(frame@[i] == before[i]);
                        if row_of(i) == yy && col_of(i) == xx {
                            assert(i == idx);
                        }
                    }
                }
            }
            xx = xx + 1;
        }
        proof {
            assert forall|i: int| 0 <= i < PIXELS implies #[trigger] frame@[i] == (if in_rect(col_of(i), row_of(i), x as int, y as int, w as int, h as int)
                    && row_of(i) < yy + 1 {
                    color
                } else {
                    f0[i]
                }) by {
                lemma_index_bounds(i);
            }
        }
        yy = yy + 1;
    }
    proof {
        assert forall|i: int| 0 <= i < PIXELS implies #[trigger] frame@[i] == plain_rect_painted(f0, x as int, y as int, w as int, h as int, color)[i] by {
            lemma_index_bounds(i);
        }
        assert(frame@ =~= plain_rect_painted(f0, x as int, y as int, w as int, h as int, color));
    }
}

/// `f` with the one-pixel outline of the box: top, bottom, left and right
/// edges.
pub open spec fn plain_outline_painted(f: Seq<u16>, x: int, y: int, w: int, h: int, color: u16) -> Seq<u16> {
    let a = plain_rect_painted(f, x, y, w, 1, color);
    let b = plain_rect_painted(a, x, y + h - 1, w, 1, color);
    let c = plain_rect_painted(b, x, y, 1, h, color);
    plain_rect_painted(c, x + w - 1, y, 1, h, color)
}

/// Whether the far edges `x + w - 1` and `y + h - 1` of a box fit in an
/// `i32`.
pub open spec fn outline_fits(x: int, y: int, w: int, h: int) -> bool {
    &&& i32::MIN <= x + w <= i32::MAX
    &&& i32::MIN <= x + w - 1 <= i32::MAX
    &&& i32::MIN <= y + h <= i32::MAX
    &&& i32::MIN <= y + h - 1 <= i32::MAX
}

/// Draws the one-pixel outline of the `w` x `h` box at `(x, y)`.
pub fn stroke_rect(frame: &mut Vec<u16>, x: i32, y: i32, w: i32, h: i32, color: u16)
    requires
        old(frame)@.len() == PIXELS,
        outline_fits(x as int, y as int, w as int, h as int),
    ensures
        final(frame)@ == plain_outline_painted(old(frame)@, x as int, y as int, w as int, h as int, color),
        final(frame)@.len() == PIXELS,
{
    fill_rect(frame, x, y, w, 1, color);
    fill_rect(frame, x, y + h - 1, w, 1, color);
    fill_rect(frame, x, y, 1, h, color);
    fill_rect(frame, x + w - 1, y, 1, h, color);
}

/// The glyph of `ch` in this layout's table: the round screen's table
/// without lower-case letters and angle brackets, which draw blank.
pub open spec fn panel_glyph_rows(ch: char) -> [u8; 7] {
    if ('a' <= ch && ch <= 'z') || ch == '<' || ch == '>' {
        [0u8, 0u8, 0u8, 0u8, 0u8, 0u8, 0u8]
    } else {
        glyph_rows(ch)
    }
}

/// The 5x7 glyph of `ch`.
pub fn glyph_5x7(ch: char) -> (r: [u8; 7])
    ensures
        r == panel_glyph_rows(ch),
{
    if ('a' <= ch && ch <= 'z') || ch == '<' || ch == '>' {
        [0u8, 0u8, 0u8, 0u8, 0u8, 0u8, 0u8]
    } else {
        crate::render::glyph_5x7(ch)
    }
}

/// `f` after the first `k` cells of glyph `g` (row by row, five per row),
/// each set cell a `scale` x `scale` block, baseline `y`.
pub open spec fn cells_painted(f: Seq<u16>, x: int, y: int, g: Seq<u8>, color: u16, scale: int, k: nat) -> Seq<u16>
    decreases k,
{
    if k == 0 {
        f
    } else {
        let c = k - 1;
        let prev = cells_painted(f, x, y, g, color, scale, (k - 1) as nat);
        let row = c / 5;
        let col = c % 5;
        if bit_on(g[row], col) {
            plain_rect_painted(prev, x + col * scale, y + row * scale - 7 * scale + scale, scale, scale, color)
        } else {
            prev
        }
    }
}

/// `f` after drawing `ch` with its left column at `x`, baseline `y`.
pub open spec fn char_painted(f: Seq<u16>, x: int, y: int, ch: char, color: u16, scale: int) -> Seq<u16> {
    cells_painted(f, x, y, panel_glyph_rows(ch)@, color, scale, 35)
}

/// `f` after drawing `s` left to right from `x`, six cells apart.
pub open spec fn text_painted(f: Seq<u16>, x: int, y: int, s: Seq<char>, color: u16, scale: int) -> Seq<u16>
    decreases s.len(),
{
    if s.len() == 0 {
        f
    } else {
        char_painted(text_painted(f, x, y, s.drop_last(), color, scale), x + 6 * scale * (s.len() - 1), y, s.last(), color, scale)
    }
}

/// Draws `ch` with its left column at `x` and its baseline at `y`.
pub fn draw_char(frame: &mut Vec<u16>, x: i32, y: i32, ch: char, color: u16, scale: i32)
    requires
        old(frame)@.len() == PIXELS,
        -1000 <= scale <= 1000,
    ensures
        final(frame)@ == char_painted(old(frame)@, x as int, y as int, ch, color, scale as int),
        final(frame)@.len() == PIXELS,
{
    if -1_000_000 <= x && x <= 1_000_000 && -1_000_000 <= y && y <= 1_000_000 {
        draw_char_near(frame, x, y, ch, color, scale);
    } else {
        proof {
            lemma_cells_off(frame@, x as int, y as int, panel_glyph_rows(ch)@, color, scale as int, 35);
        }
    }
}

/// Draws a glyph near the frame, cell by cell.
fn draw_char_near(frame: &mut Vec<u16>, x: i32, y: i32, ch: char, color: u16, scale: i32)
    requires
        old(frame)@.len() == PIXELS,
        -1_000_000 <= x <= 1_000_000,
        -1_000_000 <= y <= 1_000_000,
        -1000 <= scale <= 1000,
    ensures
        final(frame)@ == char_painted(old(frame)@, x as int, y as int, ch, color, scale as int),
        final(frame)@.len() == PIXELS,
{
    let glyph = glyph_5x7(ch);
    let ghost f0 = frame@;
    let mut row: usize = 0;
    while row < 7
        invariant
            row <= 7,
            f0.len() == PIXELS,
            frame@.len() == PIXELS,
            glyph == panel_glyph_rows(ch),
            -1_000_000 <= x <= 1_000_000,
            -1_000_000 <= y <= 1_000_000,
            -1000 <= scale <= 1000,
            frame@ == cells_painted(f0, x as int, y as int, glyph@, color, scale as int, (row * 5) as nat),
        decreases 7 - row,
    {
        let bits: u8 = glyph[row];
        let mut col: u8 = 0;
        while col < 5
            invariant
                row < 7,
                col <= 5,
                f0.len() == PIXELS,
                frame@.len() == PIXELS,
                glyph == panel_glyph_rows(ch),
                bits == glyph@[row as int],
                -1_000_000 <= x <= 1_000_000,
                -1_000_000 <= y <= 1_000_000,
                -1000 <= scale <= 1000,
                frame@ == cells_painted(f0, x as int, y as int, glyph@, color, scale as int, (row * 5 + col) as nat),
            decreases 5 - col,
        {
            let ghost k: nat = (row * 5 + col) as nat;
            proof {
                lemma_fundamental_div_mod_converse(k as int, 5, row as int, col as int);
                assert(-5000 <= col * scale <= 5000 && -7000 <= row * scale <= 7000) by (nonlinear_arith)
                    requires
                        0 <= col < 5,
                        0 <= row < 7,
                        -1000 <= scale <= 1000,
                ;
            }
            if (bits >> (4u8 - col)) & 1u8 != 0u8 {
                let rx: i32 = x + (col as i32) * scale;
                let ry: i32 = y + (row as i32) * scale - 7 * scale + scale;
                fill_rect(frame, rx, ry, scale, scale, color);
            }
            col = col + 1;
        }
        row = row + 1;
    }
}

/// The cells of a glyph far outside the frame paint nothing.
proof fn lemma_cells_off(f: Seq<u16>, x: int, y: int, g: Seq<u8>, color: u16, scale: int, k: nat)
    requires
        f.len() == PIXELS,
        k <= 35,
        -1000 <= scale <= 1000,
        x > 1_000_000 || x < -1_000_000 || y > 1_000_000 || y < -1_000_000,
    ensures
        cells_painted(f, x, y, g, color, scale, k) == f,
    decreases k,
{
    if k > 0 {
        let c = k - 1;
        lemma_cells_off(f, x, y, g, color, scale, (k - 1) as nat);
        let row = c / 5;
        let col = c % 5;
        assert(-5000 <= col * scale <= 5000 && -7000 <= row * scale <= 7000) by (nonlinear_arith)
            requires
                0 <= col < 5,
                0 <= row < 7,
                -1000 <= scale <= 1000,
        ;
        if bit_on(g[row], col) {
            let rx = x + col * scale;
            let ry = y + row * scale - 7 * scale + scale;
            assert forall|i: int| 0 <= i < f.len() implies #[trigger] plain_rect_painted(f, rx, ry, scale, scale, color)[i]
                == f[i] by {
                lemma_index_bounds(i);
            }
            assert(plain_rect_painted(f, rx, ry, scale, scale, color) =~= f);
        }
    }
}

/// Draws `text` left to right from `x`, one glyph every `6 * scale`
/// pixels, on the baseline `y`; a character far outside the frame is
/// skipped, as it paints nothing.
pub fn draw_text(frame: &mut Vec<u16>, x: i32, y: i32, text: &str, color: u16, scale: i32)
    requires
        old(frame)@.len() == PIXELS,
        -1000 <= scale <= 1000,
    ensures
        final(frame)@ == text_painted(old(frame)@, x as int, y as int, text@, color, scale as int),
        final(frame)@.len() == PIXELS,
{
    let chars = crate::text::str_chars(text);
    let n: usize = chars.len();
    assert(chars@.len() == n);
    let ghost f0 = frame@;
    let mut cursor_x: i128 = x as i128;
    let mut i: usize = 0;
    while i < chars.len()
        invariant
            i <= chars@.len(),
            chars@ == text@,
            chars@.len() <= 0x1_0000_0000_0000_0000,
            f0.len() == PIXELS,
            frame@.len() == PIXELS,
            -1000 <= scale <= 1000,
            cursor_x == x + 6 * scale * i,
            frame@ == text_painted(f0, x as int, y as int, chars@.subrange(0, i as int), color, scale as int),
        decreases chars@.len() - i,
    {
        proof {
            let ii = i as int;
            assert(-6000 * 0x1_0000_0000_0000_0000 <= 6 * scale * ii <= 6000 * 0x1_0000_0000_0000_0000
                && 6 * scale * (ii + 1) == 6 * scale * ii + 6 * scale) by (nonlinear_arith)
                requires
                    0 <= ii <= 0x1_0000_0000_0000_0000,
                    -1000 <= scale <= 1000,
            ;
            assert(chars@.subrange(0, ii + 1).drop_last() =~= chars@.subrange(0, ii));
            assert(chars@.subrange(0, ii + 1).last() == chars@[ii]);
            assert(6 * scale * (chars@.subrange(0, ii + 1).len() - 1) == 6 * scale * ii);
        }
        if -1_000_000 <= cursor_x && cursor_x <= 1_000_000 && -1_000_000 <= y && y <= 1_000_000 {
            draw_char(frame, cursor_x as i32, y, chars[i], color, scale);
        } else {
            proof {
                lemma_cells_off(frame@, cursor_x as int, y as int, panel_glyph_rows(chars@[i as int])@, color, scale as int, 35);
            }
        }
        cursor_x = cursor_x + 6 * scale as i128;
        i = i + 1;
    }
    proof {
        assert(chars@.subrange(0, chars@.len() as int) =~= text@);
    }
}

/// The accent of a page's tab.
pub open spec fn panel_accent(page: AssistantPage) -> u16 {
    match page {
        AssistantPage::Weather => ACCENT_WEATHER,
        AssistantPage::Music => ACCENT_MUSIC,
        AssistantPage::Settings => ACCENT_SETTINGS,
        _ => ACCENT_HOME,
    }
}

/// The accent of a page's tab; pages outside the four tabs take the Home
/// accent.
pub fn accent_for_page(page: AssistantPage) -> (r: u16)
    ensures
        r == panel_accent(page),
{
    match page {
        AssistantPage::Weather => ACCENT_WEATHER,
        AssistantPage::Music => ACCENT_MUSIC,
        AssistantPage::Settings => ACCENT_SETTINGS,
        _ => ACCENT_HOME,
    }
}

/// A telemetry card: the surface, an accent bar along the top, a white
/// (selected) or dim outline, the title, the value and the optional
/// second line.
pub open spec fn card_painted(
    f: Seq<u16>,
    x: int,
    y: int,
    w: int,
    h: int,
    title: Seq<char>,
    value: Seq<char>,
    sub: Option<Seq<char>>,
    accent: u16,
    selected: bool,
) -> Seq<u16> {
    let a = plain_rect_painted(f, x, y, w, h, SURFACE);
    let b = plain_rect_painted(a, x, y, w, 3, accent);
    let c = plain_outline_painted(b, x, y, w, h, if selected { WHITE } else { SURFACE_2 });
    let d = text_painted(c, x + 5, y + 9, title, WHITE, 1);
    let e = text_painted(d, x + 5, y + 19, value, WHITE, 1);
    match sub {
        Some(t) => text_painted(e, x + 5, y + 29, t, WHITE, 1),
        None => e,
    }
}

/// Draws a telemetry card.
pub fn draw_card(
    frame: &mut Vec<u16>,
    x: i32,
    y: i32,
    w: i32,
    h: i32,
    title: &str,
    value: &str,
    sub: Option<&str>,
    accent: u16,
    selected: bool,
)
    requires
        old(frame)@.len() == PIXELS,
        outline_fits(x as int, y as int, w as int, h as int),
        x + 5 <= i32::MAX,
        y + 29 <= i32::MAX,
    ensures
        final(frame)@ == card_painted(
            old(frame)@,
            x as int,
            y as int,
            w as int,
            h as int,
            title@,
            value@,
            match sub {
                Some(t) => Some(t@),
                None => None,
            },
            accent,
            selected,
        ),
        final(frame)@.len() == PIXELS,
{
    fill_rect(frame, x, y, w, h, SURFACE);
    fill_rect(frame, x, y, w, 3, accent);
    let border = if selected { WHITE } else { SURFACE_2 };
    stroke_rect(frame, x, y, w, h, border);
    draw_text(frame, x + 5, y + 9, title, WHITE, 1);
    draw_text(frame, x + 5, y + 19, value, WHITE, 1);
    if let Some(subline) = sub {
        draw_text(frame, x + 5, y + 29, subline, WHITE, 1);
    }
}

/// A status badge: a green or red square with a white outline and its
/// label.
pub open spec fn badge_painted(f: Seq<u16>, x: int, y: int, label: Seq<char>, ok: bool) -> Seq<u16> {
    let a = plain_rect_painted(f, x, y, 6, 6, if ok { STATUS_OK } else { STATUS_BAD });
    let b = plain_outline_painted(a, x, y, 6, 6, WHITE);
    text_painted(b, x + 9, y + 6, label, WHITE, 1)
}

/// Draws a status badge at `(x, y)`.
pub fn draw_status_badge(frame: &mut Vec<u16>, x: i32, y: i32, label: &str, ok: bool)
    requires
        old(frame)@.len() == PIXELS,
        x + 9 <= i32::MAX,
        y + 6 <= i32::MAX,
    ensures
        final(frame)@ == badge_painted(old(frame)@, x as int, y as int, label@, ok),
        final(frame)@.len() == PIXELS,
{
    let color = if ok { STATUS_OK } else { STATUS_BAD };
    fill_rect(frame, x, y, 6, 6, color);
    stroke_rect(frame, x, y, 6, 6, WHITE);
    draw_text(frame, x + 9, y + 6, label, WHITE, 1);
}

/// The short label of a tab page.
pub open spec fn tab_label(page: AssistantPage) -> Seq<char> {
    match page {
        AssistantPage::Home => "HOME"@,
        AssistantPage::Weather => "WEATHER"@,
        AssistantPage::Music => "MUSIC"@,
        AssistantPage::InternetRadio => "RADIO"@,
        AssistantPage::Assistant => "ASSISTANT"@,
        AssistantPage::Settings => "SETTINGS"@,
    }
}

/// `f` with the first `n` of the four tabs drawn: the current page's tab
/// filled with its accent and black text, the others on the surface with
/// white text, each outlined.
pub open spec fn tabs_painted(f: Seq<u16>, current: AssistantPage, n: nat) -> Seq<u16>
    decreases n,
{
    if n == 0 {
        f
    } else {
        let k = n - 1;
        let page = tab_page(k);
        let selected = page == current;
        let x = 42 + k * 69;
        let a = plain_rect_painted(tabs_painted(f, current, (n - 1) as nat), x, 58, 65, 22, if selected { panel_accent(page) } else { SURFACE });
        let b = plain_outline_painted(a, x, 58, 65, 22, SURFACE_2);
        text_painted(b, x + 5, 73, tab_label(page), if selected { BLACK } else { WHITE }, 1)
    }
}

fn tab_page_at(idx: usize) -> (r: AssistantPage)
    requires
        idx < 4,
    ensures
        r == tab_page(idx as int),
{
    if idx == 0 {
        AssistantPage::Home
    } else if idx == 1 {
        AssistantPage::Weather
    } else if idx == 2 {
        AssistantPage::Music
    } else {
        AssistantPage::Settings
    }
}

/// Draws the row of four page tabs.
pub fn draw_page_tabs(model: &OnboardModel, frame: &mut Vec<u16>)
    requires
        old(frame)@.len() == PIXELS,
    ensures
        final(frame)@ == tabs_painted(old(frame)@, model.current_page, 4),
        final(frame)@.len() == PIXELS,
{
    let ghost f0 = frame@;
    let mut idx: usize = 0;
    while idx < 4
        invariant
            idx <= 4,
            frame@.len() == PIXELS,
            frame@ == tabs_painted(f0, model.current_page, idx as nat),
        decreases 4 - idx,
    {
        let x = HEADER_X + (idx as i32) * (TAB_W + TAB_GAP);
        let page = tab_page_at(idx);
        let selected = page == model.current_page;
        let accent = accent_for_page(page);
        let fill = if selected { accent } else { SURFACE };
        let text = if selected { BLACK } else { WHITE };
        fill_rect(frame, x, HEADER_Y, TAB_W, HEADER_H, fill);
        stroke_rect(frame, x, HEADER_Y, TAB_W, HEADER_H, SURFACE_2);
        let label = page.short_label();
        proof {
            reveal_strlit("HOME");
            reveal_strlit("WEATHER");
            reveal_strlit("MUSIC");
            reveal_strlit("SETTINGS");
        }
        draw_text(frame, x + 5, HEADER_Y + 15, label, text, 1);
        idx = idx + 1;
    }
}

/// The status footer: a bar with the I2C, RTC and touch badges.
pub open spec fn footer_painted(f: Seq<u16>, i2c_ok: bool, rtc_ready: bool, touch_ready: bool) -> Seq<u16> {
    let a = plain_rect_painted(f, 56, 284, 248, 12, SURFACE_2);
    let b = badge_painted(a, 66, 287, "I2C"@, i2c_ok);
    let c = badge_painted(b, 146, 287, "RTC"@, rtc_ready);
    badge_painted(c, 226, 287, "TOUCH"@, touch_ready)
}

/// Draws the status footer.
pub fn draw_status_footer(model: &OnboardModel, frame: &mut Vec<u16>)
    requires
        old(frame)@.len() == PIXELS,
    ensures
        final(frame)@ == footer_painted(old(frame)@, model.i2c_ok, model.rtc_ready, model.touch_ready),
        final(frame)@.len() == PIXELS,
{
    proof {
        reveal_strlit("I2C");
        reveal_strlit("RTC");
        reveal_strlit("TOUCH");
    }
    fill_rect(frame, FOOTER_X, FOOTER_Y, FOOTER_W, FOOTER_H, SURFACE_2);
    draw_status_badge(frame, FOOTER_X + 10, FOOTER_Y + 3, "I2C", model.i2c_ok);
    draw_status_badge(frame, FOOTER_X + 90, FOOTER_Y + 3, "RTC", model.rtc_ready);
    draw_status_badge(frame, FOOTER_X + 170, FOOTER_Y + 3, "TOUCH", model.touch_ready);
}

/// The touch card's second line: `xxx,yyy/f`.
pub open spec fn touch_sub_spec(p: TouchSnapshot) -> Seq<char> {
    dec3(p.x as nat) + ","@ + dec3(p.y as nat) + "/"@ + dec(p.fingers as nat)
}

/// The touch card's second line for the last touch.
pub fn touch_sub_label(p: TouchSnapshot) -> (r: String)
    ensures
        r@ == touch_sub_spec(p),
        r@.len() <= 62,
{
    let mut s = String::new();
    push_dec3(&mut s, p.x as u64);
    push_char(&mut s, ',');
    push_dec3(&mut s, p.y as u64);
    push_char(&mut s, '/');
    push_dec(&mut s, p.fingers as u64);
    proof {
        reveal_strlit(",");
        reveal_strlit("/");
        lemma_dec_u64_len(p.x as u64);
        lemma_dec_u64_len(p.y as u64);
        lemma_dec_u64_len(p.fingers as u64);
        assert(s@ =~= touch_sub_spec(p));
    }
    s
}

/// The column and row of card `k` (0 to 7) of the grid.
pub open spec fn card_origin(k: int) -> (int, int) {
    (46 + (k % 2) * 139, 92 + (k / 2) * 48)
}

/// The card ids in grid order.
pub open spec fn card_at_index(k: int) -> CardId {
    if k == 0 {
        CardId::Rtc
    } else if k == 1 {
        CardId::Touch
    } else if k == 2 {
        CardId::Flash
    } else if k == 3 {
        CardId::Psram
    } else if k == 4 {
        CardId::Battery
    } else if k == 5 {
        CardId::Wifi
    } else if k == 6 {
        CardId::Sd
    } else {
        CardId::Backlight
    }
}

/// The eight telemetry cards: RTC time (with the date), touch count (with
/// the last touch), flash, PSRAM, battery, Wi-Fi, SD and backlight, the
/// selected one outlined in white.
pub open spec fn home_content_painted(
    f: Seq<u16>,
    selected: Option<CardId>,
    texts: Seq<Seq<char>>,
    subs: Seq<Option<Seq<char>>>,
    accents: Seq<u16>,
    titles: Seq<Seq<char>>,
    n: nat,
) -> Seq<u16>
    decreases n,
{
    if n == 0 {
        f
    } else {
        let k = n - 1;
        let (x, y) = card_origin(k);
        card_painted(
            home_content_painted(f, selected, texts, subs, accents, titles, (n - 1) as nat),
            x,
            y,
            129,
            40,
            titles[k],
            texts[k],
            subs[k],
            accents[k],
            selected == Some(card_at_index(k)),
        )
    }
}

/// The card titles in grid order.
pub open spec fn card_titles() -> Seq<Seq<char>> {
    seq!["RTC"@, "TOUCH"@, "FLASH"@, "PSRAM"@, "BAT"@, "WIFI"@, "SD"@, "BL"@]
}

/// The card accents in grid order.
pub open spec fn card_accents() -> Seq<u16> {
    seq![CARD_RTC, CARD_TOUCH, CARD_FLASH, CARD_PSRAM, CARD_BAT, CARD_WIFI, CARD_SD, CARD_BL]
}

fn card_title(k: usize) -> (r: &'static str)
    requires
        k < 8,
    ensures
        r@ == card_titles()[k as int],
        r@.len() <= 5,
{
    proof {
        reveal_strlit("RTC");
        reveal_strlit("TOUCH");
        reveal_strlit("FLASH");
        reveal_strlit("PSRAM");
        reveal_strlit("BAT");
        reveal_strlit("WIFI");
        reveal_strlit("SD");
        reveal_strlit("BL");
    }
    if k == 0 {
        "RTC"
    } else if k == 1 {
        "TOUCH"
    } else if k == 2 {
        "FLASH"
    } else if k == 3 {
        "PSRAM"
    } else if k == 4 {
        "BAT"
    } else if k == 5 {
        "WIFI"
    } else if k == 6 {
        "SD"
    } else {
        "BL"
    }
}

fn card_accent(k: usize) -> (r: u16)
    requires
        k < 8,
    ensures
        r == card_accents()[k as int],
{
    if k == 0 {
        CARD_RTC
    } else if k == 1 {
        CARD_TOUCH
    } else if k == 2 {
        CARD_FLASH
    } else if k == 3 {
        CARD_PSRAM
    } else if k == 4 {
        CARD_BAT
    } else if k == 5 {
        CARD_WIFI
    } else if k == 6 {
        CARD_SD
    } else {
        CARD_BL
    }
}

fn card_id(k: usize) -> (r: CardId)
    requires
        k < 8,
    ensures
        r == card_at_index(k as int),
{
    if k == 0 {
        CardId::Rtc
    } else if k == 1 {
        CardId::Touch
    } else if k == 2 {
        CardId::Flash
    } else if k == 3 {
        CardId::Psram
    } else if k == 4 {
        CardId::Battery
    } else if k == 5 {
        CardId::Wifi
    } else if k == 6 {
        CardId::Sd
    } else {
        CardId::Backlight
    }
}

/// The views of optional strings.
pub open spec fn opt_views(v: Seq<Option<String>>) -> Seq<Option<Seq<char>>> {
    v.map_values(|o: Option<String>| match o {
        Some(s) => Some(s@),
        None => None,
    })
}

/// The views of strings.
pub open spec fn str_views(v: Seq<String>) -> Seq<Seq<char>> {
    v.map_values(|s: String| s@)
}

/// The value lines of the eight cards: time, touch count, flash, PSRAM,
/// battery, Wi-Fi, SD and backlight.
pub open spec fn home_values(m: OnboardModel) -> Seq<Seq<char>> {
    seq![
        match m.rtc {
            Some(dt) => dec2(dt.hour as nat) + ":"@ + dec2(dt.minute as nat),
            None => "--:--"@,
        },
        dec(m.touch_events as nat),
        dec(m.flash_mib as nat) + "M"@,
        dec(m.psram_mib as nat) + "M"@,
        match battery_percent_spec(m.battery_mv, m.battery_empty_mv, m.battery_full_mv) {
            Some(p) => dec(p as nat) + "%"@,
            None => "--"@,
        },
        match m.wifi_count {
            Some(c) => dec(c as nat),
            None => "--"@,
        },
        if m.sd_present { "OK"@ } else { "NO"@ },
        dec(m.backlight_percent as nat) + "%"@,
    ]
}

/// The second lines of the eight cards: the date under the time, the last
/// touch under the touch count, none elsewhere.
pub open spec fn home_subs(m: OnboardModel) -> Seq<Option<Seq<char>>> {
    seq![
        Some(match m.rtc {
            Some(dt) => dec4((2000 + dt.year) as nat) + "-"@ + dec2(dt.month as nat) + "-"@ + dec2(dt.day as nat),
            None => "---- -- --"@,
        }),
        match m.last_touch {
            Some(p) => Some(touch_sub_spec(p)),
            None => None,
        },
        None,
        None,
        None,
        None,
        None,
        None,
    ]
}

/// Draws the eight telemetry cards of the Home page from the model, the
/// card `selected` outlined in white.
pub fn draw_home_content(model: &OnboardModel, selected: Option<CardId>, frame: &mut Vec<u16>)
    requires
        old(frame)@.len() == PIXELS,
    ensures
        final(frame)@ == home_content_painted(
            old(frame)@,
            selected,
            home_values(*model),
            home_subs(*model),
            card_accents(),
            card_titles(),
            8,
        ),
        final(frame)@.len() == PIXELS,
{
    let ghost f0 = frame@;
    let mut values: Vec<String> = Vec::new();
    values.push(model.rtc_hms());
    values.push(model.touch_count_text());
    values.push(model.flash_text());
    values.push(model.psram_text());
    values.push(model.battery_text());
    values.push(model.wifi_text());
    values.push(model.sd_text());
    values.push(model.backlight_text());
    let mut subs: Vec<Option<String>> = Vec::new();
    subs.push(Some(model.rtc_ymd()));
    subs.push(
        match model.last_touch {
            Some(p) => Some(touch_sub_label(p)),
            None => None,
        },
    );
    let mut k: usize = 2;
    while k < 8
        invariant
            2 <= k <= 8,
            subs@.len() == k,
            subs@[0] matches Some(t) && t@ == home_subs(*model)[0]->0,
            opt_views(subs@)[1] == home_subs(*model)[1],
            forall|m: int| 2 <= m < k ==> subs@[m] is None,
        decreases 8 - k,
    {
        subs.push(None);
        k = k + 1;
    }
    proof {
        assert(str_views(values@) =~= home_values(*model));
        assert(opt_views(subs@) =~= home_subs(*model));
    }
    let mut i: usize = 0;
    while i < 8
        invariant
            i <= 8,
            frame@.len() == PIXELS,
            str_views(values@) == home_values(*model),
            opt_views(subs@) == home_subs(*model),
            values@.len() == 8,
            subs@.len() == 8,
            frame@ == home_content_painted(f0, selected, home_values(*model), home_subs(*model), card_accents(), card_titles(), i as nat),
        decreases 8 - i,
    {
        let x = GRID_X + ((i % 2) as i32) * (CARD_W + GAP_X);
        let y = GRID_Y + ((i / 2) as i32) * (CARD_H + ROW_GAP);
        assert(values@[i as int]@ == home_values(*model)[i as int]);
        assert(opt_views(subs@)[i as int] == home_subs(*model)[i as int]);
        let sub: Option<&str> = match &subs[i] {
            Some(t) => Some(t.as_str()),
            None => None,
        };
        let is_selected = match selected {
            Some(id) => id == card_id(i),
            None => false,
        };
        draw_card(frame, x, y, CARD_W, CARD_H, card_title(i), values[i].as_str(), sub, card_accent(i), is_selected);
        i = i + 1;
    }
}

/// The page-specific lines of a placeholder card.
pub open spec fn placeholder_lines(page: AssistantPage) -> Option<(Seq<char>, Seq<char>)> {
    match page {
        AssistantPage::Weather => Some(("LOCAL FORECAST"@, "DATA LATER"@)),
        AssistantPage::Music => Some(("SD AUDIO"@, "PLAYER LATER"@)),
        AssistantPage::Settings => Some(("DEVICE OPTIONS"@, "MENU LATER"@)),
        _ => None,
    }
}

/// The placeholder card of a page other than Home: a large card with an
/// accent bar, the page title, the placeholder lines, and the clock and
/// touch count along the bottom.
pub open spec fn placeholder_painted(f: Seq<u16>, m: OnboardModel, page: AssistantPage) -> Seq<u16> {
    let a = plain_rect_painted(f, 46, 92, 268, 168, SURFACE);
    let b = plain_rect_painted(a, 46, 92, 268, 4, panel_accent(page));
    let c = plain_outline_painted(b, 46, 92, 268, 168, SURFACE_2);
    let d = text_painted(c, 60, 120, page.title_spec(), WHITE, 1);
    let e = text_painted(d, 60, 142, "PLACEHOLDER"@, WHITE, 1);
    let g = text_painted(e, 60, 164, "V0.1.2 SHELL"@, WHITE, 1);
    let h = match placeholder_lines(page) {
        Some((l1, l2)) => text_painted(text_painted(g, 60, 190, l1, WHITE, 1), 60, 208, l2, WHITE, 1),
        None => g,
    };
    let i = text_painted(h, 60, 236, "RTC "@ + home_values(m)[0], WHITE, 1);
    text_painted(i, 186, 236, "TOUCH "@ + dec(m.touch_events as nat), WHITE, 1)
}

/// Draws the placeholder card of `page`.
pub fn draw_placeholder_page(model: &OnboardModel, frame: &mut Vec<u16>, page: AssistantPage)
    requires
        old(frame)@.len() == PIXELS,
    ensures
        final(frame)@ == placeholder_painted(old(frame)@, *model, page),
        final(frame)@.len() == PIXELS,
{
    proof {
        reveal_strlit("PLACEHOLDER");
        reveal_strlit("V0.1.2 SHELL");
        reveal_strlit("LOCAL FORECAST");
        reveal_strlit("DATA LATER");
        reveal_strlit("SD AUDIO");
        reveal_strlit("PLAYER LATER");
        reveal_strlit("DEVICE OPTIONS");
        reveal_strlit("MENU LATER");
        reveal_strlit("RTC ");
        reveal_strlit("TOUCH ");
        reveal_strlit("HOME");
        reveal_strlit("WEATHER");
        reveal_strlit("MUSIC");
        reveal_strlit("INTERNET RADIO");
        reveal_strlit("AI ASSISTANT");
        reveal_strlit("SETTINGS");
    }
    let accent = accent_for_page(page);
    let title = page.title();
    fill_rect(frame, GRID_X, GRID_Y, CARD_W * 2 + GAP_X, 168, SURFACE);
    fill_rect(frame, GRID_X, GRID_Y, CARD_W * 2 + GAP_X, 4, accent);
    stroke_rect(frame, GRID_X, GRID_Y, CARD_W * 2 + GAP_X, 168, SURFACE_2);
    draw_text(frame, GRID_X + 14, GRID_Y + 28, title, WHITE, 1);
    draw_text(frame, GRID_X + 14, GRID_Y + 50, "PLACEHOLDER", WHITE, 1);
    draw_text(frame, GRID_X + 14, GRID_Y + 72, "V0.1.2 SHELL", WHITE, 1);
    match page {
        AssistantPage::Weather => {
            draw_text(frame, GRID_X + 14, GRID_Y + 98, "LOCAL FORECAST", WHITE, 1);
            draw_text(frame, GRID_X + 14, GRID_Y + 116, "DATA LATER", WHITE, 1);
        },
        AssistantPage::Music => {
            draw_text(frame, GRID_X + 14, GRID_Y + 98, "SD AUDIO", WHITE, 1);
            draw_text(frame, GRID_X + 14, GRID_Y + 116, "PLAYER LATER", WHITE, 1);
        },
        AssistantPage::Settings => {
            draw_text(frame, GRID_X + 14, GRID_Y + 98, "DEVICE OPTIONS", WHITE, 1);
            draw_text(frame, GRID_X + 14, GRID_Y + 116, "MENU LATER", WHITE, 1);
        },
        _ => {},
    }
    let mut rtc = String::new();
    push_str(&mut rtc, "RTC ");
    let hms = model.rtc_hms();
    push_str(&mut rtc, hms.as_str());
    let mut touch = String::new();
    push_str(&mut touch, "TOUCH ");
    push_dec(&mut touch, model.touch_events as u64);
    proof {
        lemma_dec_u64_len(model.touch_events as u64);
        assert(home_values(*model)[0] == hms@);
    }
    draw_text(frame, GRID_X + 14, GRID_Y + 144, rtc.as_str(), WHITE, 1);
    draw_text(frame, GRID_X + 140, GRID_Y + 144, touch.as_str(), WHITE, 1);
}

/// The whole panel screen: the background, the panel with its outline,
/// the tabs, the Home cards or the placeholder card, and the footer.
pub open spec fn panel_page_painted(f: Seq<u16>, m: OnboardModel, selected: Option<CardId>) -> Seq<u16> {
    let a = plain_rect_painted(crate::render::filled(BG), 34, 48, 292, 252, PANEL_BG);
    let b = plain_outline_painted(a, 34, 48, 292, 252, SURFACE_2);
    let c = tabs_painted(b, m.current_page, 4);
    let d = if m.current_page == AssistantPage::Home {
        home_content_painted(c, selected, home_values(m), home_subs(m), card_accents(), card_titles(), 8)
    } else {
        placeholder_painted(c, m, m.current_page)
    };
    footer_painted(d, m.i2c_ok, m.rtc_ready, m.touch_ready)
}

/// Draws the whole panel screen for the model's current page, with the
/// card `selected` outlined on the Home page.
pub fn draw_assistant_page(model: &OnboardModel, selected: Option<CardId>, frame: &mut Vec<u16>)
    requires
        old(frame)@.len() == PIXELS,
    ensures
        final(frame)@ == panel_page_painted(old(frame)@, *model, selected),
        final(frame)@.len() == PIXELS,
{
    crate::render::fill_frame(frame, BG);
    fill_rect(frame, PANEL_X, PANEL_Y, PANEL_W, PANEL_H, PANEL_BG);
    stroke_rect(frame, PANEL_X, PANEL_Y, PANEL_W, PANEL_H, SURFACE_2);
    draw_page_tabs(model, frame);
    if model.current_page == AssistantPage::Home {
        draw_home_content(model, selected, frame);
    } else {
        draw_placeholder_page(model, frame, model.current_page);
    }
    draw_status_footer(model, frame);
}

} // verus!
