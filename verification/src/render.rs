//! Drawing on the 360x360 RGB565 frame of the round screen.
//!
//! A frame is a row-major sequence of 360 * 360 colours; pixel `(x, y)` sits
//! at index `y * 360 + x`. Only pixels inside the visible disc (radius 178
//! around the centre) are ever written.

use vstd::prelude::*;
use vstd::arithmetic::div_mod::lemma_fundamental_div_mod_converse;

verus! {

/// Frame width in pixels.
pub const W: usize = 360;
/// Frame height in pixels.
pub const H: usize = 360;
/// Pixels in a frame.
pub const PIXELS: usize = 129600;
/// Centre of the visible disc.
pub const CX: i32 = 180;
/// Centre of the visible disc.
pub const CY: i32 = 180;
/// Radius of the visible disc.
pub const R_OUTER: i32 = 178;

/// Black.
pub const BLACK: u16 = 0x0000;
/// Screen background inside the bezel.
pub const BG: u16 = 0x0841;
/// Darker background of buttons and complications.
pub const BG_DARK: u16 = 0x0008;
/// Blue background.
pub const BG_BLUE: u16 = 0x0296;
/// Ring colour.
pub const RING: u16 = 0x18C3;
/// Dimmed ring colour.
pub const RING_DIM: u16 = 0x1082;
/// White.
pub const WHITE: u16 = 0xFFFF;
/// Muted text.
pub const MUTED: u16 = 0x9CF3;
/// Soft grey.
pub const SOFT: u16 = 0x5AEB;
/// Home accent.
pub const ACCENT_HOME: u16 = 0x05DF;
/// Home green accent.
pub const ACCENT_HOME_GREEN: u16 = 0x05E0;
/// Home blue accent.
pub const ACCENT_HOME_BLUE: u16 = 0x02DF;
/// Weather accent.
pub const ACCENT_WEATHER: u16 = 0xFDE0;
/// Weather blue accent.
pub const ACCENT_WEATHER_BLUE: u16 = 0x449F;
/// Music accent.
pub const ACCENT_MUSIC: u16 = 0x7818;
/// Music blue accent.
pub const ACCENT_MUSIC_BLUE: u16 = 0x22DF;
/// Assistant accent.
pub const ACCENT_ASSISTANT: u16 = 0x05FF;
/// Assistant blue accent.
pub const ACCENT_ASSISTANT_BLUE: u16 = 0x035F;
/// Settings accent.
pub const ACCENT_SETTINGS: u16 = 0x44BF;
/// A good status.
pub const STATUS_OK: u16 = 0x07E0;
/// A bad status.
pub const STATUS_BAD: u16 = 0xF800;

/// Whether `(x, y)` lies in the visible disc.
pub open spec fn in_circle(x: int, y: int) -> bool {
    (x - 180) * (x - 180) + (y - 180) * (y - 180) <= 178 * 178
}

/// Whether `(x, y)` is a pixel of the frame that the panel shows.
pub open spec fn visible(x: int, y: int) -> bool {
    0 <= x < 360 && 0 <= y < 360 && in_circle(x, y)
}

/// Column of frame index `i`.
pub open spec fn col_of(i: int) -> int {
    i % 360
}

/// Row of frame index `i`.
pub open spec fn row_of(i: int) -> int {
    i / 360
}

/// Whether `(px, py)` lies in the rectangle of corner `(x, y)` and size
/// `w` x `h`.
pub open spec fn in_rect(px: int, py: int, x: int, y: int, w: int, h: int) -> bool {
    x <= px < x + w && y <= py < y + h
}

/// `f` with every visible pixel of the rectangle set to `color`.
pub open spec fn rect_painted(f: Seq<u16>, x: int, y: int, w: int, h: int, color: u16) -> Seq<u16> {
    Seq::new(
        f.len(),
        |i: int|
            if in_rect(col_of(i), row_of(i), x, y, w, h) && in_circle(col_of(i), row_of(i)) {
                color
            } else {
                f[i]
            },
    )
}

pub proof fn lemma_index(x: int, y: int)
    requires
        0 <= x < 360,
        0 <= y,
    ensures
        col_of(y * 360 + x) == x,
        row_of(y * 360 + x) == y,
{
    lemma_fundamental_div_mod_converse(y * 360 + x, 360, y, x);
}

pub proof fn lemma_index_bounds(i: int)
    requires
        0 <= i < 129600,
    ensures
        0 <= col_of(i) < 360,
        0 <= row_of(i) < 360,
        i == row_of(i) * 360 + col_of(i),
{
    vstd::arithmetic::div_mod::lemma_fundamental_div_mod(i, 360);
}

/// Whether `(x, y)` lies in the visible disc.
pub fn inside_circle(x: i32, y: i32) -> (r: bool)
    ensures
        r == in_circle(x as int, y as int),
{
    if x < 2 || x > 358 || y < 2 || y > 358 {
        assert(!in_circle(x as int, y as int)) by (nonlinear_arith)
            requires
                x < 2 || x > 358 || y < 2 || y > 358,
        ;
        return false;
    }
    let dx: i32 = x - CX;
    let dy: i32 = y - CY;
    assert(0 <= dx * dx <= 178 * 178 && 0 <= dy * dy <= 178 * 178) by (nonlinear_arith)
        requires
            -178 <= dx <= 178,
            -178 <= dy <= 178,
    ;
    dx * dx + dy * dy <= R_OUTER * R_OUTER
}

/// Sets pixel `(x, y)` to `color` when it is on screen and in the disc.
pub fn set_pixel(frame: &mut Vec<u16>, x: i32, y: i32, color: u16)
    requires
        old(frame)@.len() == PIXELS,
    ensures
        final(frame)@ == (if visible(x as int, y as int) {
            old(frame)@.update(y * 360 + x, color)
        } else {
            old(frame)@
        }),
{
    if x >= 0 && y >= 0 && x < 360 && y < 360 && inside_circle(x, y) {
        let idx: usize = y as usize * W + x as usize;
        frame.set(idx, color);
    }
}

/// Fills the rectangle of corner `(x, y)` and size `w` x `h`, clipped to the
/// visible disc.
pub fn fill_rect(frame: &mut Vec<u16>, x: i32, y: i32, w: i32, h: i32, color: u16)
    requires
        old(frame)@.len() == PIXELS,
    ensures
        final(frame)@ == rect_painted(old(frame)@, x as int, y as int, w as int, h as int, color),
{
    let ghost f0 = frame@;
    let x0: i64 = if x < 0 { 0 } else { x as i64 };
    let y0: i64 = if y < 0 { 0 } else { y as i64 };
    let xe: i64 = x as i64 + w as i64;
    let ye: i64 = y as i64 + h as i64;
    let x1: i64 = if xe < 360 { xe } else { 360 };
    let y1: i64 = if ye < 360 { ye } else { 360 };
    let mut yy: i64 = y0;
    while yy < y1
        invariant
            f0.len() == PIXELS,
            frame@.len() == PIXELS,
            y0 <= yy,
            y0 == (if y < 0 { 0 } else { y as int }),
            x0 == (if x < 0 { 0 } else { x as int }),
            x1 == (if x + w < 360 { x + w } else { 360 }),
            y1 == (if y + h < 360 { y + h } else { 360 }),
            forall|i: int|
                0 <= i < PIXELS ==> #[trigger] frame@[i] == (if in_rect(col_of(i), row_of(i), x as int, y as int, w as int, h as int)
                    && in_circle(col_of(i), row_of(i)) && row_of(i) < yy {
                    color
                } else {
                    f0[i]
                }),
        decreases y1 - yy,
    {
        let mut xx: i64 = x0;
        while xx < x1
            invariant
                f0.len() == PIXELS,
                frame@.len() == PIXELS,
                y0 <= yy < y1,
                x0 <= xx,
                y0 == (if y < 0 { 0 } else { y as int }),
                x0 == (if x < 0 { 0 } else { x as int }),
                x1 == (if x + w < 360 { x + w } else { 360 }),
                y1 == (if y + h < 360 { y + h } else { 360 }),
                forall|i: int|
                    0 <= i < PIXELS ==> #[trigger] frame@[i] == (if in_rect(col_of(i), row_of(i), x as int, y as int, w as int, h as int)
                        && in_circle(col_of(i), row_of(i)) && (row_of(i) < yy || (row_of(i) == yy && col_of(i) < xx)) {
                        color
                    } else {
                        f0[i]
                    }),
            decreases x1 - xx,
        {
            let ghost before = frame@;
            set_pixel(frame, xx as i32, yy as i32, color);
            proof {
                let idx = yy * 360 + xx;
                lemma_index(xx as int, yy as int);
                assert forall|i: int| 0 <= i < PIXELS implies #[trigger] frame@[i] == (if in_rect(col_of(i), row_of(i), x as int, y as int, w as int, h as int)
                        && in_circle(col_of(i), row_of(i)) && (row_of(i) < yy || (row_of(i) == yy && col_of(i) < xx + 1)) {
                        color
                    } else {
                        f0[i]
                    }) by {
                    lemma_index_bounds(i);
                    if i != idx {
                        assert(frame@[i] == before[i]);
                        if row_of(i) == yy && col_of(i) == xx {
                            assert(i == idx);
                        }
                    }
                }
            }
            xx = xx + 1;
        }
        proof {
            assert forall|i: int| 0 <= i < PIXELS implies #[trigger] frame@[i] == (if in_rect(col_of(i), row_of(i), x as int, y as int, w as int, h as int)
                    && in_circle(col_of(i), row_of(i)) && row_of(i) < yy + 1 {
                    color
                } else {
                    f0[i]
                }) by {
                lemma_index_bounds(i);
            }
        }
        yy = yy + 1;
    }
    proof {
        assert forall|i: int| 0 <= i < PIXELS implies #[trigger] frame@[i] == rect_painted(f0, x as int, y as int, w as int, h as int, color)[i] by {
            lemma_index_bounds(i);
        }
        assert(frame@ =~= rect_painted(f0, x as int, y as int, w as int, h as int, color));
    }
}

/// The 5x7 glyph of `ch`: seven rows, top first, of which the low five bits
/// are the pixels, most significant bit leftmost. ASCII letters are drawn in
/// upper case; characters without a glyph are blank.
pub open spec fn glyph_rows(ch: char) -> [u8; 7] {
    match ch {
        'A' | 'a' => [0x0Eu8, 0x11u8, 0x11u8, 0x1Fu8, 0x11u8, 0x11u8, 0x11u8],
        'B' | 'b' => [0x1Eu8, 0x11u8, 0x11u8, 0x1Eu8, 0x11u8, 0x11u8, 0x1Eu8],
        'C' | 'c' => [0x0Eu8, 0x11u8, 0x10u8, 0x10u8, 0x10u8, 0x11u8, 0x0Eu8],
        'D' | 'd' => [0x1Cu8, 0x12u8, 0x11u8, 0x11u8, 0x11u8, 0x12u8, 0x1Cu8],
        'E' | 'e' => [0x1Fu8, 0x10u8, 0x10u8, 0x1Eu8, 0x10u8, 0x10u8, 0x1Fu8],
        'F' | 'f' => [0x1Fu8, 0x10u8, 0x10u8, 0x1Eu8, 0x10u8, 0x10u8, 0x10u8],
        'G' | 'g' => [0x0Eu8, 0x11u8, 0x10u8, 0x17u8, 0x11u8, 0x11u8, 0x0Eu8],
        'H' | 'h' => [0x11u8, 0x11u8, 0x11u8, 0x1Fu8, 0x11u8, 0x11u8, 0x11u8],
        'I' | 'i' => [0x1Fu8, 0x04u8, 0x04u8, 0x04u8, 0x04u8, 0x04u8, 0x1Fu8],
        'J' | 'j' => [0x01u8, 0x01u8, 0x01u8, 0x01u8, 0x11u8, 0x11u8, 0x0Eu8],
        'K' | 'k' => [0x11u8, 0x12u8, 0x14u8, 0x18u8, 0x14u8, 0x12u8, 0x11u8],
        'L' | 'l' => [0x10u8, 0x10u8, 0x10u8, 0x10u8, 0x10u8, 0x10u8, 0x1Fu8],
        'M' | 'm' => [0x11u8, 0x1Bu8, 0x15u8, 0x15u8, 0x11u8, 0x11u8, 0x11u8],
        'N' | 'n' => [0x11u8, 0x19u8, 0x15u8, 0x13u8, 0x11u8, 0x11u8, 0x11u8],
        'O' | 'o' => [0x0Eu8, 0x11u8, 0x11u8, 0x11u8, 0x11u8, 0x11u8, 0x0Eu8],
        'P' | 'p' => [0x1Eu8, 0x11u8, 0x11u8, 0x1Eu8, 0x10u8, 0x10u8, 0x10u8],
        'Q' | 'q' => [0x0Eu8, 0x11u8, 0x11u8, 0x11u8, 0x15u8, 0x12u8, 0x0Du8],
        'R' | 'r' => [0x1Eu8, 0x11u8, 0x11u8, 0x1Eu8, 0x14u8, 0x12u8, 0x11u8],
        'S' | 's' => [0x0Fu8, 0x10u8, 0x10u8, 0x0Eu8, 0x01u8, 0x01u8, 0x1Eu8],
        'T' | 't' => [0x1Fu8, 0x04u8, 0x04u8, 0x04u8, 0x04u8, 0x04u8, 0x04u8],
        'U' | 'u' => [0x11u8, 0x11u8, 0x11u8, 0x11u8, 0x11u8, 0x11u8, 0x0Eu8],
        'V' | 'v' => [0x11u8, 0x11u8, 0x11u8, 0x11u8, 0x11u8, 0x0Au8, 0x04u8],
        'W' | 'w' => [0x11u8, 0x11u8, 0x11u8, 0x15u8, 0x15u8, 0x1Bu8, 0x11u8],
        'X' | 'x' => [0x11u8, 0x11u8, 0x0Au8, 0x04u8, 0x0Au8, 0x11u8, 0x11u8],
        'Y' | 'y' => [0x11u8, 0x11u8, 0x0Au8, 0x04u8, 0x04u8, 0x04u8, 0x04u8],
        'Z' | 'z' => [0x1Fu8, 0x01u8, 0x02u8, 0x04u8, 0x08u8, 0x10u8, 0x1Fu8],
        '0' => [0x0Eu8, 0x11u8, 0x13u8, 0x15u8, 0x19u8, 0x11u8, 0x0Eu8],
        '1' => [0x04u8, 0x0Cu8, 0x04u8, 0x04u8, 0x04u8, 0x04u8, 0x0Eu8],
        '2' => [0x0Eu8, 0x11u8, 0x01u8, 0x02u8, 0x04u8, 0x08u8, 0x1Fu8],
        '3' => [0x1Fu8, 0x02u8, 0x04u8, 0x02u8, 0x01u8, 0x11u8, 0x0Eu8],
        '4' => [0x02u8, 0x06u8, 0x0Au8, 0x12u8, 0x1Fu8, 0x02u8, 0x02u8],
        '5' => [0x1Fu8, 0x10u8, 0x1Eu8, 0x01u8, 0x01u8, 0x11u8, 0x0Eu8],
        '6' => [0x06u8, 0x08u8, 0x10u8, 0x1Eu8, 0x11u8, 0x11u8, 0x0Eu8],
        '7' => [0x1Fu8, 0x01u8, 0x02u8, 0x04u8, 0x08u8, 0x08u8, 0x08u8],
        '8' => [0x0Eu8, 0x11u8, 0x11u8, 0x0Eu8, 0x11u8, 0x11u8, 0x0Eu8],
        '9' => [0x0Eu8, 0x11u8, 0x11u8, 0x0Fu8, 0x01u8, 0x02u8, 0x0Cu8],
        ':' => [0x00u8, 0x04u8, 0x04u8, 0x00u8, 0x04u8, 0x04u8, 0x00u8],
        '-' => [0x00u8, 0x00u8, 0x00u8, 0x1Fu8, 0x00u8, 0x00u8, 0x00u8],
        '/' => [0x01u8, 0x01u8, 0x02u8, 0x04u8, 0x08u8, 0x10u8, 0x10u8],
        '%' => [0x18u8, 0x19u8, 0x02u8, 0x04u8, 0x08u8, 0x13u8, 0x03u8],
        ',' => [0x00u8, 0x00u8, 0x00u8, 0x00u8, 0x04u8, 0x04u8, 0x08u8],
        '.' => [0x00u8, 0x00u8, 0x00u8, 0x00u8, 0x00u8, 0x0Cu8, 0x0Cu8],
        '<' => [0x01u8, 0x02u8, 0x04u8, 0x08u8, 0x04u8, 0x02u8, 0x01u8],
        '>' => [0x10u8, 0x08u8, 0x04u8, 0x02u8, 0x04u8, 0x08u8, 0x10u8],
        ' ' => [0x00u8, 0x00u8, 0x00u8, 0x00u8, 0x00u8, 0x00u8, 0x00u8],
        _ => [0x00u8, 0x00u8, 0x00u8, 0x00u8, 0x00u8, 0x00u8, 0x00u8],
    }
}

/// The 5x7 glyph of `ch`.
pub fn glyph_5x7(ch: char) -> (r: [u8; 7])
    ensures
        r == glyph_rows(ch),
{
    match ch {
        'A' | 'a' => [0x0Eu8, 0x11u8, 0x11u8, 0x1Fu8, 0x11u8, 0x11u8, 0x11u8],
        'B' | 'b' => [0x1Eu8, 0x11u8, 0x11u8, 0x1Eu8, 0x11u8, 0x11u8, 0x1Eu8],
        'C' | 'c' => [0x0Eu8, 0x11u8, 0x10u8, 0x10u8, 0x10u8, 0x11u8, 0x0Eu8],
        'D' | 'd' => [0x1Cu8, 0x12u8, 0x11u8, 0x11u8, 0x11u8, 0x12u8, 0x1Cu8],
        'E' | 'e' => [0x1Fu8, 0x10u8, 0x10u8, 0x1Eu8, 0x10u8, 0x10u8, 0x1Fu8],
        'F' | 'f' => [0x1Fu8, 0x10u8, 0x10u8, 0x1Eu8, 0x10u8, 0x10u8, 0x10u8],
        'G' | 'g' => [0x0Eu8, 0x11u8, 0x10u8, 0x17u8, 0x11u8, 0x11u8, 0x0Eu8],
        'H' | 'h' => [0x11u8, 0x11u8, 0x11u8, 0x1Fu8, 0x11u8, 0x11u8, 0x11u8],
        'I' | 'i' => [0x1Fu8, 0x04u8, 0x04u8, 0x04u8, 0x04u8, 0x04u8, 0x1Fu8],
        'J' | 'j' => [0x01u8, 0x01u8, 0x01u8, 0x01u8, 0x11u8, 0x11u8, 0x0Eu8],
        'K' | 'k' => [0x11u8, 0x12u8, 0x14u8, 0x18u8, 0x14u8, 0x12u8, 0x11u8],
        'L' | 'l' => [0x10u8, 0x10u8, 0x10u8, 0x10u8, 0x10u8, 0x10u8, 0x1Fu8],
        'M' | 'm' => [0x11u8, 0x1Bu8, 0x15u8, 0x15u8, 0x11u8, 0x11u8, 0x11u8],
        'N' | 'n' => [0x11u8, 0x19u8, 0x15u8, 0x13u8, 0x11u8, 0x11u8, 0x11u8],
        'O' | 'o' => [0x0Eu8, 0x11u8, 0x11u8, 0x11u8, 0x11u8, 0x11u8, 0x0Eu8],
        'P' | 'p' => [0x1Eu8, 0x11u8, 0x11u8, 0x1Eu8, 0x10u8, 0x10u8, 0x10u8],
        'Q' | 'q' => [0x0Eu8, 0x11u8, 0x11u8, 0x11u8, 0x15u8, 0x12u8, 0x0Du8],
        'R' | 'r' => [0x1Eu8, 0x11u8, 0x11u8, 0x1Eu8, 0x14u8, 0x12u8, 0x11u8],
        'S' | 's' => [0x0Fu8, 0x10u8, 0x10u8, 0x0Eu8, 0x01u8, 0x01u8, 0x1Eu8],
        'T' | 't' => [0x1Fu8, 0x04u8, 0x04u8, 0x04u8, 0x04u8, 0x04u8, 0x04u8],
        'U' | 'u' => [0x11u8, 0x11u8, 0x11u8, 0x11u8, 0x11u8, 0x11u8, 0x0Eu8],
        'V' | 'v' => [0x11u8, 0x11u8, 0x11u8, 0x11u8, 0x11u8, 0x0Au8, 0x04u8],
        'W' | 'w' => [0x11u8, 0x11u8, 0x11u8, 0x15u8, 0x15u8, 0x1Bu8, 0x11u8],
        'X' | 'x' => [0x11u8, 0x11u8, 0x0Au8, 0x04u8, 0x0Au8, 0x11u8, 0x11u8],
        'Y' | 'y' => [0x11u8, 0x11u8, 0x0Au8, 0x04u8, 0x04u8, 0x04u8, 0x04u8],
        'Z' | 'z' => [0x1Fu8, 0x01u8, 0x02u8, 0x04u8, 0x08u8, 0x10u8, 0x1Fu8],
        '0' => [0x0Eu8, 0x11u8, 0x13u8, 0x15u8, 0x19u8, 0x11u8, 0x0Eu8],
        '1' => [0x04u8, 0x0Cu8, 0x04u8, 0x04u8, 0x04u8, 0x04u8, 0x0Eu8],
        '2' => [0x0Eu8, 0x11u8, 0x01u8, 0x02u8, 0x04u8, 0x08u8, 0x1Fu8],
        '3' => [0x1Fu8, 0x02u8, 0x04u8, 0x02u8, 0x01u8, 0x11u8, 0x0Eu8],
        '4' => [0x02u8, 0x06u8, 0x0Au8, 0x12u8, 0x1Fu8, 0x02u8, 0x02u8],
        '5' => [0x1Fu8, 0x10u8, 0x1Eu8, 0x01u8, 0x01u8, 0x11u8, 0x0Eu8],
        '6' => [0x06u8, 0x08u8, 0x10u8, 0x1Eu8, 0x11u8, 0x11u8, 0x0Eu8],
        '7' => [0x1Fu8, 0x01u8, 0x02u8, 0x04u8, 0x08u8, 0x08u8, 0x08u8],
        '8' => [0x0Eu8, 0x11u8, 0x11u8, 0x0Eu8, 0x11u8, 0x11u8, 0x0Eu8],
        '9' => [0x0Eu8, 0x11u8, 0x11u8, 0x0Fu8, 0x01u8, 0x02u8, 0x0Cu8],
        ':' => [0x00u8, 0x04u8, 0x04u8, 0x00u8, 0x04u8, 0x04u8, 0x00u8],
        '-' => [0x00u8, 0x00u8, 0x00u8, 0x1Fu8, 0x00u8, 0x00u8, 0x00u8],
        '/' => [0x01u8, 0x01u8, 0x02u8, 0x04u8, 0x08u8, 0x10u8, 0x10u8],
        '%' => [0x18u8, 0x19u8, 0x02u8, 0x04u8, 0x08u8, 0x13u8, 0x03u8],
        ',' => [0x00u8, 0x00u8, 0x00u8, 0x00u8, 0x04u8, 0x04u8, 0x08u8],
        '.' => [0x00u8, 0x00u8, 0x00u8, 0x00u8, 0x00u8, 0x0Cu8, 0x0Cu8],
        '<' => [0x01u8, 0x02u8, 0x04u8, 0x08u8, 0x04u8, 0x02u8, 0x01u8],
        '>' => [0x10u8, 0x08u8, 0x04u8, 0x02u8, 0x04u8, 0x08u8, 0x10u8],
        ' ' => [0x00u8, 0x00u8, 0x00u8, 0x00u8, 0x00u8, 0x00u8, 0x00u8],
        _ => [0x00u8, 0x00u8, 0x00u8, 0x00u8, 0x00u8, 0x00u8, 0x00u8],
    }
}

/// Whether pixel column `col` (0 = leftmost of five) is set in glyph row
/// `bits`.
pub open spec fn bit_on(bits: u8, col: int) -> bool {
    (bits >> ((4 - col) as u8)) & 1u8 != 0u8
}

/// `f` after drawing the first `k` cells (row by row, five per row) of the
/// glyph `g` with its baseline at `y`, each set cell as a `scale` x `scale`
/// block.
pub open spec fn glyph_painted(
    f: Seq<u16>,
    x: int,
    y: int,
    g: Seq<u8>,
    color: u16,
    scale: int,
    k: nat,
) -> Seq<u16>
    decreases k,
{
    if k == 0 {
        f
    } else {
        let c = k - 1;
        let prev = glyph_painted(f, x, y, g, color, scale, (k - 1) as nat);
        let row = c / 5;
        let col = c % 5;
        if bit_on(g[row], col) {
            rect_painted(prev, x + col * scale, y + row * scale - 7 * scale + scale, scale, scale, color)
        } else {
            prev
        }
    }
}

/// `f` after drawing `ch` with its top-left cell column at `x` and its
/// baseline at `y`.
pub open spec fn char_painted(f: Seq<u16>, x: int, y: int, ch: char, color: u16, scale: int) -> Seq<u16> {
    glyph_painted(f, x, y, glyph_rows(ch)@, color, scale, 35)
}

/// `f` after drawing the characters of `s` left to right from `x`, six
/// cells apart.
pub open spec fn text_painted(f: Seq<u16>, x: int, y: int, s: Seq<char>, color: u16, scale: int) -> Seq<u16>
    decreases s.len(),
{
    if s.len() == 0 {
        f
    } else {
        let prev = text_painted(f, x, y, s.drop_last(), color, scale);
        char_painted(prev, x + 6 * scale * (s.len() - 1), y, s.last(), color, scale)
    }
}

proof fn lemma_glyph_painted_len(f: Seq<u16>, x: int, y: int, g: Seq<u8>, color: u16, scale: int, k: nat)
    ensures
        glyph_painted(f, x, y, g, color, scale, k).len() == f.len(),
    decreases k,
{
    if k > 0 {
        lemma_glyph_painted_len(f, x, y, g, color, scale, (k - 1) as nat);
    }
}

/// Draws `ch` with its leftmost cell column at `x` and its baseline at `y`,
/// each glyph cell a `scale` x `scale` block.
pub fn draw_char(frame: &mut Vec<u16>, x: i32, y: i32, ch: char, color: u16, scale: i32)
    requires
        old(frame)@.len() == PIXELS,
        -1000 <= scale <= 1000,
    ensures
        final(frame)@ == char_painted(old(frame)@, x as int, y as int, ch, color, scale as int),
        final(frame)@.len() == PIXELS,
{
    if -1_000_000 <= x && x <= 1_000_000 && -1_000_000 <= y && y <= 1_000_000 {
        draw_char_near(frame, x, y, ch, color, scale);
    } else {
        proof {
            lemma_glyph_off(frame@, x as int, y as int, glyph_rows(ch)@, color, scale as int, 35);
        }
    }
}

/// Draws a glyph near the frame, cell by cell.
fn draw_char_near(frame: &mut Vec<u16>, x: i32, y: i32, ch: char, color: u16, scale: i32)
    requires
        old(frame)@.len() == PIXELS,
        -1_000_000 <= x <= 1_000_000,
        -1_000_000 <= y <= 1_000_000,
        -1000 <= scale <= 1000,
    ensures
        final(frame)@ == char_painted(old(frame)@, x as int, y as int, ch, color, scale as int),
        final(frame)@.len() == PIXELS,
{
    let glyph = glyph_5x7(ch);
    let ghost f0 = frame@;
    let mut row: usize = 0;
    while row < 7
        invariant
            row <= 7,
            f0.len() == PIXELS,
            frame@.len() == PIXELS,
            glyph == glyph_rows(ch),
            -1_000_000 <= x <= 1_000_000,
            -1_000_000 <= y <= 1_000_000,
            -1000 <= scale <= 1000,
            frame@ == glyph_painted(f0, x as int, y as int, glyph@, color, scale as int, (row * 5) as nat),
        decreases 7 - row,
    {
        let bits: u8 = glyph[row];
        let mut col: u8 = 0;
        while col < 5
            invariant
                row < 7,
                col <= 5,
                f0.len() == PIXELS,
                frame@.len() == PIXELS,
                glyph == glyph_rows(ch),
                bits == glyph@[row as int],
                -1_000_000 <= x <= 1_000_000,
                -1_000_000 <= y <= 1_000_000,
                -1000 <= scale <= 1000,
                frame@ == glyph_painted(f0, x as int, y as int, glyph@, color, scale as int, (row * 5 + col) as nat),
            decreases 5 - col,
        {
            let ghost k: nat = (row * 5 + col) as nat;
            proof {
                lemma_fundamental_div_mod_converse(k as int, 5, row as int, col as int);
                assert(-5000 <= col * scale <= 5000 && -7000 <= row * scale <= 7000) by (nonlinear_arith)
                    requires
                        0 <= col < 5,
                        0 <= row < 7,
                        -1000 <= scale <= 1000,
                ;
            }
            if (bits >> (4u8 - col)) & 1u8 != 0u8 {
                let rx: i32 = x + (col as i32) * scale;
                let ry: i32 = y + (row as i32) * scale - 7 * scale + scale;
                fill_rect(frame, rx, ry, scale, scale, color);
            }
            col = col + 1;
        }
        row = row + 1;
    }
}

/// The cells of a glyph far outside the frame paint nothing.
proof fn lemma_glyph_off(f: Seq<u16>, x: int, y: int, g: Seq<u8>, color: u16, scale: int, k: nat)
    requires
        f.len() == PIXELS,
        k <= 35,
        -1000 <= scale <= 1000,
        x > 1_000_000 || x < -1_000_000 || y > 1_000_000 || y < -1_000_000,
    ensures
        glyph_painted(f, x, y, g, color, scale, k) == f,
    decreases k,
{
    if k > 0 {
        let c = k - 1;
        lemma_glyph_off(f, x, y, g, color, scale, (k - 1) as nat);
        let row = c / 5;
        let col = c % 5;
        assert(-5000 <= col * scale <= 5000 && -7000 <= row * scale <= 7000) by (nonlinear_arith)
            requires
                0 <= col < 5,
                0 <= row < 7,
                -1000 <= scale <= 1000,
        ;
        if bit_on(g[row], col) {
            assert forall|i: int| 0 <= i < f.len() implies #[trigger] rect_painted(
                f,
                x + col * scale,
                y + row * scale - 7 * scale + scale,
                scale,
                scale,
                color,
            )[i] == f[i] by {
                lemma_index_bounds(i);
            }
            assert(rect_painted(f, x + col * scale, y + row * scale - 7 * scale + scale, scale, scale, color) =~= f);
        }
    }
}

/// Draws the characters `t` left to right from `x`, six cells apart; a
/// character far outside the frame is skipped, as it paints nothing.
fn draw_chars(frame: &mut Vec<u16>, x: i128, y: i32, t: &Vec<char>, color: u16, scale: i32)
    requires
        old(frame)@.len() == PIXELS,
        -0x1_0000_0000_0000_0000_0000 <= x <= 0x1_0000_0000_0000_0000_0000,
        t@.len() <= 0x1_0000_0000_0000_0000,
        -1000 <= scale <= 1000,
    ensures
        final(frame)@ == text_painted(old(frame)@, x as int, y as int, t@, color, scale as int),
        final(frame)@.len() == PIXELS,
{
    let ghost f0 = frame@;
    let mut cursor_x: i128 = x;
    let mut i: usize = 0;
    while i < t.len()
        invariant
            i <= t@.len(),
            t@.len() <= 0x1_0000_0000_0000_0000,
            f0.len() == PIXELS,
            frame@.len() == PIXELS,
            -0x1_0000_0000_0000_0000_0000 <= x <= 0x1_0000_0000_0000_0000_0000,
            -1000 <= scale <= 1000,
            cursor_x == x + 6 * scale * i,
            frame@ == text_painted(f0, x as int, y as int, t@.subrange(0, i as int), color, scale as int),
        decreases t@.len() - i,
    {
        proof {
            let ii = i as int;
            assert(-6000 * 0x1_0000_0000_0000_0000 <= 6 * scale * ii <= 6000 * 0x1_0000_0000_0000_0000
                && 6 * scale * (ii + 1) == 6 * scale * ii + 6 * scale) by (nonlinear_arith)
                requires
                    0 <= ii <= 0x1_0000_0000_0000_0000,
                    -1000 <= scale <= 1000,
            ;
            assert(t@.subrange(0, ii + 1).drop_last() =~= t@.subrange(0, ii));
            assert(t@.subrange(0, ii + 1).last() == t@[ii]);
            assert(6 * scale * (t@.subrange(0, ii + 1).len() - 1) == 6 * scale * ii);
        }
        if -1_000_000 <= cursor_x && cursor_x <= 1_000_000 && -1_000_000 <= y && y <= 1_000_000 {
            draw_char(frame, cursor_x as i32, y, t[i], color, scale);
        } else {
            proof {
                lemma_glyph_off(frame@, cursor_x as int, y as int, glyph_rows(t@[i as int])@, color, scale as int, 35);
            }
        }
        proof {
            lemma_glyph_painted_len(
                text_painted(f0, x as int, y as int, t@.subrange(0, i as int), color, scale as int),
                cursor_x as int, y as int, glyph_rows(t@[i as int])@, color, scale as int, 35);
        }
        cursor_x = cursor_x + 6 * scale as i128;
        i = i + 1;
    }
    proof {
        assert(t@.subrange(0, t@.len() as int) =~= t@);
    }
}

/// Draws `text` left to right from `x`, one glyph every `6 * scale` pixels,
/// on the baseline `y`.
pub fn draw_text(frame: &mut Vec<u16>, x: i32, y: i32, text: &str, color: u16, scale: i32)
    requires
        old(frame)@.len() == PIXELS,
        -1000 <= scale <= 1000,
    ensures
        final(frame)@ == text_painted(old(frame)@, x as int, y as int, text@, color, scale as int),
        final(frame)@.len() == PIXELS,
{
    let chars = crate::text::str_chars(text);
    let n: usize = chars.len();
    assert(chars@.len() == n);
    draw_chars(frame, x as i128, y, &chars, color, scale);
}

/// Draws `text` centred on column `cx`.
pub fn draw_text_centered_at(frame: &mut Vec<u16>, cx: i32, y: i32, text: &str, color: u16, scale: i32)
    requires
        old(frame)@.len() == PIXELS,
        -1000 <= scale <= 1000,
    ensures
        final(frame)@ == text_painted(
            old(frame)@,
            cx - half_toward_zero(text@.len() * 6 * scale),
            y as int,
            text@,
            color,
            scale as int,
        ),
        final(frame)@.len() == PIXELS,
{
    let chars = crate::text::str_chars(text);
    let n: usize = chars.len();
    assert(chars@.len() == n);
    proof {
        assert(-6000 * 0x1_0000_0000_0000_0000 <= n * 6 * scale <= 6000 * 0x1_0000_0000_0000_0000)
            by (nonlinear_arith)
            requires
                0 <= n <= 0x1_0000_0000_0000_0000,
                -1000 <= scale <= 1000,
        ;
    }
    let width: i128 = n as i128 * 6 * scale as i128;
    let half: i128 = if width >= 0 { width / 2 } else { -((-width) / 2) };
    let x: i128 = cx as i128 - half;
    draw_chars(frame, x, y, &chars, color, scale);
}

/// Draws `text` centred on the middle column of the screen.
pub fn draw_text_centered(frame: &mut Vec<u16>, y: i32, text: &str, color: u16, scale: i32)
    requires
        old(frame)@.len() == PIXELS,
        -1000 <= scale <= 1000,
    ensures
        final(frame)@ == text_painted(
            old(frame)@,
            180 - half_toward_zero(text@.len() * 6 * scale),
            y as int,
            text@,
            color,
            scale as int,
        ),
        final(frame)@.len() == PIXELS,
{
    draw_text_centered_at(frame, CX, y, text, color, scale);
}

/// `f` with `t` drawn at `scale` centred on column `cx`, baseline `y`.
pub open spec fn centered_text_painted(f: Seq<u16>, cx: int, y: int, t: Seq<char>, color: u16, scale: int) -> Seq<u16> {
    text_painted(f, cx - half_toward_zero(t.len() * 6 * scale), y, t, color, scale)
}

/// A frame of `PIXELS` pixels all set to `color`.
pub open spec fn filled(color: u16) -> Seq<u16> {
    Seq::new(PIXELS as nat, |i: int| color)
}

/// Sets every pixel of the frame to `color`.
pub fn fill_frame(frame: &mut Vec<u16>, color: u16)
    requires
        old(frame)@.len() == PIXELS,
    ensures
        final(frame)@ == filled(color),
        final(frame)@.len() == PIXELS,
{
    let mut i: usize = 0;
    while i < frame.len()
        invariant
            i <= frame@.len(),
            frame@.len() == PIXELS,
            forall|k: int| 0 <= k < i ==> #[trigger] frame@[k] == color,
        decreases frame@.len() - i,
    {
        frame.set(i, color);
        i = i + 1;
    }
    assert(frame@ =~= filled(color));
}

/// Rust's `/ 2` on a signed value: the quotient rounded toward zero.
pub open spec fn half_toward_zero(v: int) -> int {
    if v >= 0 {
        v / 2
    } else {
        -((-v) / 2)
    }
}

/// Width in pixels of `text` drawn at `scale`: six cells per character.
pub fn text_width(text: &str, scale: i32) -> (r: i32)
    requires
        text@.len() * 6 <= i32::MAX,
        i32::MIN <= text@.len() * 6 * scale <= i32::MAX,
    ensures
        r == text@.len() * 6 * scale,
{
    let n: usize = crate::text::str_chars(text).len();
    (n as i32) * 6 * scale
}

/// An angle in degrees brought into `0..360`.
pub fn normalize_deg(deg: i32) -> (r: i32)
    ensures
        0 <= r < 360,
        r == deg % 360,
        (deg - r) % 360 == 0,
{
    let mut value: i32 = deg % 360;
    if value < 0 {
        value = value + 360;
    }
    value
}

/// Width of one character of the large segment-style numerals.
pub open spec fn numeric_char_width_spec(ch: char, digit_w: int, stroke: int) -> int {
    if ch == ':' {
        stroke * 3
    } else if ch == 'F' || ch == 'f' {
        digit_w - stroke * 2
    } else if ch == '-' {
        half_toward_zero(digit_w)
    } else {
        digit_w
    }
}

/// Width of a run of large numerals: the characters' widths with one
/// `stroke` gap between neighbours.
pub open spec fn numeric_value_width_spec(s: Seq<char>, digit_w: int, stroke: int) -> int
    decreases s.len(),
{
    if s.len() == 0 {
        0
    } else if s.len() == 1 {
        numeric_char_width_spec(s[0], digit_w, stroke)
    } else {
        numeric_value_width_spec(s.drop_last(), digit_w, stroke) + stroke
            + numeric_char_width_spec(s.last(), digit_w, stroke)
    }
}

/// Width of one large numeral: a colon is three strokes wide, the degree
/// letter F two strokes narrower than a digit, a minus half a digit.
pub fn numeric_char_width(ch: char, digit_w: i32, stroke: i32) -> (r: i32)
    requires
        ch == ':' ==> i32::MIN <= stroke * 3 <= i32::MAX,
        ch == 'F' || ch == 'f' ==> i32::MIN <= stroke * 2 <= i32::MAX && i32::MIN <= digit_w - stroke * 2
            <= i32::MAX,
    ensures
        r == numeric_char_width_spec(ch, digit_w as int, stroke as int),
{
    if ch == ':' {
        stroke * 3
    } else if ch == 'F' || ch == 'f' {
        digit_w - stroke * 2
    } else if ch == '-' {
        if digit_w >= 0 { digit_w / 2 } else { -((-(digit_w as i64)) / 2) as i32 }
    } else {
        digit_w
    }
}

/// Whether step `k` of measuring `t` in large numerals stays within `i32`
/// arithmetic: the numeral's own width, the gap before it and the running
/// total.
pub open spec fn width_step_fits(t: Seq<char>, k: int, digit_w: int, stroke: int) -> bool {
    let ch = t[k];
    let w = numeric_value_width_spec(t.take(k), digit_w, stroke);
    &&& ch == ':' ==> i32::MIN <= stroke * 3 <= i32::MAX
    &&& (ch == 'F' || ch == 'f') ==> i32::MIN <= stroke * 2 <= i32::MAX && i32::MIN <= digit_w - stroke * 2 <= i32::MAX
    &&& k > 0 ==> i32::MIN <= w + stroke <= i32::MAX
    &&& i32::MIN <= numeric_value_width_spec(t.take(k + 1), digit_w, stroke) <= i32::MAX
}

/// Width of `text` drawn in large numerals.
pub fn numeric_value_width(text: &str, digit_w: i32, stroke: i32) -> (r: i32)
    requires
        forall|k: int| 0 <= k < text@.len() ==> #[trigger] width_step_fits(text@, k, digit_w as int, stroke as int),
    ensures
        r == numeric_value_width_spec(text@, digit_w as int, stroke as int),
{
    let chars = crate::text::str_chars(text);
    let ghost t = chars@;
    let mut width: i32 = 0;
    let mut i: usize = 0;
    assert(t.take(0) =~= Seq::<char>::empty());
    while i < chars.len()
        invariant
            i <= t.len(),
            t == chars@,
            t == text@,
            forall|k: int| 0 <= k < t.len() ==> #[trigger] width_step_fits(t, k, digit_w as int, stroke as int),
            width == numeric_value_width_spec(t.take(i as int), digit_w as int, stroke as int),
        decreases t.len() - i,
    {
        assert(width_step_fits(t, i as int, digit_w as int, stroke as int));
        assert(t.take(i as int + 1).drop_last() =~= t.take(i as int));
        assert(t.take(i as int + 1).last() == t[i as int]);
        if i > 0 {
            width = width + stroke;
        }
        let cw = numeric_char_width(chars[i], digit_w, stroke);
        width = width + cw;
        i = i + 1;
    }
    assert(t.take(t.len() as int) =~= t);
    width
}

/// Whether `(px, py)` lies in the disc of centre `(cx, cy)` and radius `r`,
/// within its bounding square.
pub open spec fn in_disc(px: int, py: int, cx: int, cy: int, r: int) -> bool {
    cx - r <= px <= cx + r && cy - r <= py <= cy + r
        && (px - cx) * (px - cx) + (py - cy) * (py - cy) <= r * r
}

/// Whether `(px, py)` lies on the one-pixel ring of the circle of centre
/// `(cx, cy)` and radius `r`, within its bounding square.
pub open spec fn on_ring(px: int, py: int, cx: int, cy: int, r: int) -> bool {
    cx - r <= px <= cx + r && cy - r <= py <= cy + r
        && (r - 1) * (r - 1) <= (px - cx) * (px - cx) + (py - cy) * (py - cy) <= r * r
}

/// `f` with every visible pixel satisfying `shape` set to `color`, where
/// `shape` is the disc (`ring` false) or the ring (`ring` true).
pub open spec fn circle_painted(f: Seq<u16>, cx: int, cy: int, r: int, ring: bool, color: u16) -> Seq<u16> {
    Seq::new(
        f.len(),
        |i: int|
            if (if ring { on_ring(col_of(i), row_of(i), cx, cy, r) } else { in_disc(col_of(i), row_of(i), cx, cy, r) })
                && in_circle(col_of(i), row_of(i)) {
                color
            } else {
                f[i]
            },
    )
}

fn circle_shape_hit(x: i32, y: i32, cx: i32, cy: i32, r: i32, ring: bool) -> (hit: bool)
    requires
        0 <= x < 360,
        0 <= y < 360,
    ensures
        hit == (if ring { on_ring(x as int, y as int, cx as int, cy as int, r as int) } else { in_disc(x as int, y as int, cx as int, cy as int, r as int) }),
{
    let dx: i128 = x as i128 - cx as i128;
    let dy: i128 = y as i128 - cy as i128;
    proof {
        assert(0 <= dx * dx <= 0x1_0000_0000_0000_0000 && 0 <= dy * dy <= 0x1_0000_0000_0000_0000
            && 0 <= r * r <= 0x1_0000_0000_0000_0000 && 0 <= (r - 1) * (r - 1) <= 0x1_0000_0000_0000_0000)
            by (nonlinear_arith)
            requires
                -0x1_0000_0000 <= dx <= 0x1_0000_0000,
                -0x1_0000_0000 <= dy <= 0x1_0000_0000,
                -0x8000_0000 <= r <= 0x7fff_ffff,
        ;
    }
    let d: i128 = dx * dx + dy * dy;
    let rr: i128 = r as i128 * r as i128;
    let inner: i128 = (r as i128 - 1) * (r as i128 - 1);
    let inside = x as i128 >= cx as i128 - r as i128 && x as i128 <= cx as i128 + r as i128
        && y as i128 >= cy as i128 - r as i128 && y as i128 <= cy as i128 + r as i128;
    if ring {
        inside && d <= rr && d >= inner
    } else {
        inside && d <= rr
    }
}

fn paint_circle(frame: &mut Vec<u16>, cx: i32, cy: i32, r: i32, ring: bool, color: u16)
    requires
        old(frame)@.len() == PIXELS,
    ensures
        final(frame)@ == circle_painted(old(frame)@, cx as int, cy as int, r as int, ring, color),
{
    let ghost f0 = frame@;
    let lo_x: i64 = cx as i64 - r as i64;
    let lo_y: i64 = cy as i64 - r as i64;
    let hi_x: i64 = cx as i64 + r as i64;
    let hi_y: i64 = cy as i64 + r as i64;
    let x0: i64 = if lo_x < 0 { 0 } else { lo_x };
    let y0: i64 = if lo_y < 0 { 0 } else { lo_y };
    let x1: i64 = if hi_x < 359 { hi_x } else { 359 };
    let y1: i64 = if hi_y < 359 { hi_y } else { 359 };
    let mut yy: i64 = y0;
    while yy <= y1
        invariant
            f0.len() == PIXELS,
            frame@.len() == PIXELS,
            y0 <= yy <= y1 + 1 || (yy == y0 && y0 > y1),
            y0 == (if cy - r < 0 { 0 } else { cy - r }),
            x0 == (if cx - r < 0 { 0 } else { cx - r }),
            x1 == (if cx + r < 359 { cx + r } else { 359 }),
            y1 == (if cy + r < 359 { cy + r } else { 359 }),
            forall|i: int|
                0 <= i < PIXELS ==> #[trigger] frame@[i] == (if (if ring { on_ring(col_of(i), row_of(i), cx as int, cy as int, r as int) } else { in_disc(col_of(i), row_of(i), cx as int, cy as int, r as int) })
                    && in_circle(col_of(i), row_of(i)) && row_of(i) < yy {
                    color
                } else {
                    f0[i]
                }),
        decreases y1 + 1 - yy,
    {
        let mut xx: i64 = x0;
        while xx <= x1
            invariant
                f0.len() == PIXELS,
                frame@.len() == PIXELS,
                y0 <= yy <= y1,
                x0 <= xx <= x1 + 1 || (xx == x0 && x0 > x1),
                y0 == (if cy - r < 0 { 0 } else { cy - r }),
                x0 == (if cx - r < 0 { 0 } else { cx - r }),
                x1 == (if cx + r < 359 { cx + r } else { 359 }),
                y1 == (if cy + r < 359 { cy + r } else { 359 }),
                forall|i: int|
                    0 <= i < PIXELS ==> #[trigger] frame@[i] == (if (if ring { on_ring(col_of(i), row_of(i), cx as int, cy as int, r as int) } else { in_disc(col_of(i), row_of(i), cx as int, cy as int, r as int) })
                        && in_circle(col_of(i), row_of(i)) && (row_of(i) < yy || (row_of(i) == yy && col_of(i) < xx)) {
                        color
                    } else {
                        f0[i]
                    }),
            decreases x1 + 1 - xx,
        {
            let ghost before = frame@;
            if circle_shape_hit(xx as i32, yy as i32, cx, cy, r, ring) {
                set_pixel(frame, xx as i32, yy as i32, color);
            }
            proof {
                let idx = yy * 360 + xx;
                lemma_index(xx as int, yy as int);
                assert forall|i: int| 0 <= i < PIXELS implies #[trigger] frame@[i] == (if (if ring { on_ring(col_of(i), row_of(i), cx as int, cy as int, r as int) } else { in_disc(col_of(i), row_of(i), cx as int, cy as int, r as int) })
                        && in_circle(col_of(i), row_of(i)) && (row_of(i) < yy || (row_of(i) == yy && col_of(i) < xx + 1)) {
                        color
                    } else {
                        f0[i]
                    }) by {
                    lemma_index_bounds(i);
                    if i != idx {
                        assert(frame@[i] == before[i]);
                        if row_of(i) == yy && col_of(i) == xx {
                            assert(i == idx);
                        }
                    }
                }
            }
            xx = xx + 1;
        }
        proof {
            assert forall|i: int| 0 <= i < PIXELS implies #[trigger] frame@[i] == (if (if ring { on_ring(col_of(i), row_of(i), cx as int, cy as int, r as int) } else { in_disc(col_of(i), row_of(i), cx as int, cy as int, r as int) })
                    && in_circle(col_of(i), row_of(i)) && row_of(i) < yy + 1 {
                    color
                } else {
                    f0[i]
                }) by {
                lemma_index_bounds(i);
            }
        }
        yy = yy + 1;
    }
    proof {
        assert forall|i: int| 0 <= i < PIXELS implies #[trigger] frame@[i] == circle_painted(f0, cx as int, cy as int, r as int, ring, color)[i] by {
            lemma_index_bounds(i);
        }
        assert(frame@ =~= circle_painted(f0, cx as int, cy as int, r as int, ring, color));
    }
}

/// Fills the disc of centre `(cx, cy)` and radius `r`, clipped to the
/// visible disc.
pub fn fill_circle(frame: &mut Vec<u16>, cx: i32, cy: i32, r: i32, color: u16)
    requires
        old(frame)@.len() == PIXELS,
    ensures
        final(frame)@ == circle_painted(old(frame)@, cx as int, cy as int, r as int, false, color),
{
    paint_circle(frame, cx, cy, r, false, color);
}

/// Draws the one-pixel ring of the circle of centre `(cx, cy)` and radius
/// `r`, clipped to the visible disc.
pub fn stroke_circle(frame: &mut Vec<u16>, cx: i32, cy: i32, r: i32, color: u16)
    requires
        old(frame)@.len() == PIXELS,
    ensures
        final(frame)@ == circle_painted(old(frame)@, cx as int, cy as int, r as int, true, color),
{
    paint_circle(frame, cx, cy, r, true, color);
}

/// The accent colour of a page.
pub open spec fn accent_spec(page: crate::pages::AssistantPage) -> u16 {
    match page {
        crate::pages::AssistantPage::Home => 0x05DFu16,
        crate::pages::AssistantPage::Weather => 0xFDE0u16,
        crate::pages::AssistantPage::Music => 0x7818u16,
        crate::pages::AssistantPage::InternetRadio => 0x7818u16,
        crate::pages::AssistantPage::Assistant => 0x05FFu16,
        crate::pages::AssistantPage::Settings => 0x44BFu16,
    }
}

/// The accent colour of a page.
pub fn accent_for_page(page: crate::pages::AssistantPage) -> (r: u16)
    ensures
        r == accent_spec(page),
{
    match page {
        crate::pages::AssistantPage::Home => 0x05DF,
        crate::pages::AssistantPage::Weather => 0xFDE0,
        crate::pages::AssistantPage::Music => 0x7818,
        crate::pages::AssistantPage::InternetRadio => 0x7818,
        crate::pages::AssistantPage::Assistant => 0x05FF,
        crate::pages::AssistantPage::Settings => 0x44BF,
    }
}

} // verus!
