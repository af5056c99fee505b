//! Lines, outlines, rounded boxes, triangles and seven-segment figures on
//! the frame, built from the pixel and fill primitives of `render`.

use vstd::prelude::*;
use crate::render::{
    circle_painted, col_of, fill_circle, fill_rect, half_toward_zero, in_circle, lemma_index,
    lemma_index_bounds, numeric_char_width, numeric_char_width_spec,
    numeric_value_width_spec, rect_painted, row_of, set_pixel, visible, PIXELS,
};

verus! {

/// `f` with pixel `(x, y)` set to `color` when it is visible.
pub open spec fn dot_painted(f: Seq<u16>, x: int, y: int, color: u16) -> Seq<u16> {
    if visible(x, y) {
        f.update(y * 360 + x, color)
    } else {
        f
    }
}

/// `|v|`.
pub open spec fn abs(v: int) -> int {
    if v < 0 {
        -v
    } else {
        v
    }
}

/// The rest of a Bresenham walk from `(x, y)` towards `(x1, y1)` with
/// error term `err`, run lengths `adx`, `ady` and steps `sx`, `sy`: each
/// point is painted, then the walk moves along x when twice the error is at
/// least `-ady` and along y when it is at most `adx`, until the end point
/// (or `fuel` steps).
pub open spec fn line_walk(
    f: Seq<u16>,
    x: int,
    y: int,
    x1: int,
    y1: int,
    err: int,
    adx: int,
    ady: int,
    sx: int,
    sy: int,
    color: u16,
    fuel: nat,
) -> Seq<u16>
    decreases fuel,
{
    let g = dot_painted(f, x, y, color);
    if fuel == 0 || (x == x1 && y == y1) {
        g
    } else {
        let e2 = 2 * err;
        let nx = if e2 >= -ady { x + sx } else { x };
        let err1 = if e2 >= -ady { err - ady } else { err };
        let ny = if e2 <= adx { y + sy } else { y };
        let err2 = if e2 <= adx { err1 + adx } else { err1 };
        line_walk(g, nx, ny, x1, y1, err2, adx, ady, sx, sy, color, (fuel - 1) as nat)
    }
}

/// `f` with the Bresenham line from `(x0, y0)` to `(x1, y1)` painted, both
/// ends included, clipped to the visible disc.
pub open spec fn line_painted(f: Seq<u16>, x0: int, y0: int, x1: int, y1: int, color: u16) -> Seq<u16> {
    let adx = abs(x1 - x0);
    let ady = abs(y1 - y0);
    line_walk(
        f,
        x0,
        y0,
        x1,
        y1,
        adx - ady,
        adx,
        ady,
        if x0 < x1 { 1 } else { -1 },
        if y0 < y1 { 1 } else { -1 },
        color,
        (adx + ady) as nat,
    )
}

/// Draws the Bresenham line from `(x0, y0)` to `(x1, y1)`, both ends
/// included, clipped to the visible disc.
pub fn draw_line(frame: &mut Vec<u16>, x0: i32, y0: i32, x1: i32, y1: i32, color: u16)
    requires
        old(frame)@.len() == PIXELS,
    ensures
        final(frame)@ == line_painted(old(frame)@, x0 as int, y0 as int, x1 as int, y1 as int, color),
        final(frame)@.len() == PIXELS,
{
    let ghost f0 = frame@;
    let adx: i64 = if x1 >= x0 { x1 as i64 - x0 as i64 } else { x0 as i64 - x1 as i64 };
    let ady: i64 = if y1 >= y0 { y1 as i64 - y0 as i64 } else { y0 as i64 - y1 as i64 };
    let sx: i64 = if x0 < x1 { 1 } else { -1 };
    let sy: i64 = if y0 < y1 { 1 } else { -1 };
    let mut x: i64 = x0 as i64;
    let mut y: i64 = y0 as i64;
    let mut err: i128 = adx as i128 - ady as i128;
    let ghost mut i: int = 0;
    let ghost mut j: int = 0;
    let ghost mut fuel: nat = (adx + ady) as nat;
    assert(err == adx * (1 + j) - ady * (1 + i)) by (nonlinear_arith)
        requires
            err == adx - ady,
            i == 0,
            j == 0,
    ;
    loop
        invariant
            frame@.len() == PIXELS,
            adx == abs(x1 - x0),
            0 <= adx <= 0x1_0000_0000,
            0 <= ady <= 0x1_0000_0000,
            ady == abs(y1 - y0),
            sx == (if x0 < x1 { 1int } else { -1int }),
            sy == (if y0 < y1 { 1int } else { -1int }),
            0 <= i <= adx,
            0 <= j <= ady,
            x == (if x0 < x1 { x0 + i } else { x0 - i }),
            y == (if y0 < y1 { y0 + j } else { y0 - j }),
            err == adx * (1 + j) - ady * (1 + i),
            line_painted(f0, x0 as int, y0 as int, x1 as int, y1 as int, color) == line_walk(
                frame@,
                x as int,
                y as int,
                x1 as int,
                y1 as int,
                err as int,
                adx as int,
                ady as int,
                sx as int,
                sy as int,
                color,
                fuel,
            ),
            fuel >= adx + ady - i - j,
        ensures
            frame@ == line_painted(f0, x0 as int, y0 as int, x1 as int, y1 as int, color),
            frame@.len() == PIXELS,
        decreases adx + ady - i - j,
    {
        proof {
            assert(-0x4_0000_0000_0000_0000 <= err <= 0x4_0000_0000_0000_0000) by (nonlinear_arith)
                requires
                    err == adx * (1 + j) - ady * (1 + i),
                    0 <= i <= adx <= 0x1_0000_0000,
                    0 <= j <= ady <= 0x1_0000_0000,
            ;
        }
        let ghost before = frame@;
        set_pixel(frame, x as i32, y as i32, color);
        assert(frame@ == dot_painted(before, x as int, y as int, color));
        if x == x1 as i64 && y == y1 as i64 {
            break;
        }
        assert(fuel > 0);
        let e2: i128 = 2 * err;
        let stepx = e2 >= -(ady as i128);
        let stepy = e2 <= adx as i128;
        proof {
            if stepx && i == adx {
                assert(j < ady);
                assert(2 * err < -ady) by (nonlinear_arith)
                    requires
                        err == adx * (1 + j) - ady * (1 + i),
                        i == adx,
                        0 <= j < ady,
                        0 <= adx,
                ;
            }
            if stepy && j == ady {
                assert(i < adx);
                assert(2 * err > adx) by (nonlinear_arith)
                    requires
                        err == adx * (1 + j) - ady * (1 + i),
                        j == ady,
                        0 <= i < adx,
                        0 <= ady,
                ;
            }
            assert(stepx || stepy);
        }
        let ghost err_before = err;
        let ghost x_before = x;
        let ghost y_before = y;
        if stepx {
            err = err - ady as i128;
            x = x + sx;
            proof {
                assert(adx * (1 + j) - ady * (1 + (i + 1)) == adx * (1 + j) - ady * (1 + i) - ady) by (nonlinear_arith);
                i = i + 1;
            }
        }
        if stepy {
            err = err + adx as i128;
            y = y + sy;
            proof {
                assert(adx * (1 + (j + 1)) - ady * (1 + i) == adx * (1 + j) - ady * (1 + i) + adx) by (nonlinear_arith);
                j = j + 1;
            }
        }
        proof {
            assert(line_walk(before, x_before as int, y_before as int, x1 as int, y1 as int, err_before as int,
                adx as int, ady as int, sx as int, sy as int, color, fuel) == line_walk(frame@, x as int, y as int,
                x1 as int, y1 as int, err as int, adx as int, ady as int, sx as int, sy as int, color, (fuel - 1) as nat));
            fuel = (fuel - 1) as nat;
        }
    }
}

/// `f` with the one-pixel outline of the `w` x `h` box at `(x, y)`: top,
/// bottom, left and right edges drawn as lines in that order.
pub open spec fn stroke_rect_painted(f: Seq<u16>, x: int, y: int, w: int, h: int, color: u16) -> Seq<u16> {
    let a = line_painted(f, x, y, x + w - 1, y, color);
    let b = line_painted(a, x, y + h - 1, x + w - 1, y + h - 1, color);
    let c = line_painted(b, x, y, x, y + h - 1, color);
    line_painted(c, x + w - 1, y, x + w - 1, y + h - 1, color)
}

/// Draws the one-pixel outline of the `w` x `h` box at `(x, y)`.
pub fn stroke_rect(frame: &mut Vec<u16>, x: i32, y: i32, w: i32, h: i32, color: u16)
    requires
        old(frame)@.len() == PIXELS,
        i32::MIN <= x + w - 1 <= i32::MAX,
        i32::MIN <= y + h - 1 <= i32::MAX,
        i32::MIN <= x + w <= i32::MAX,
        i32::MIN <= y + h <= i32::MAX,
    ensures
        final(frame)@ == stroke_rect_painted(old(frame)@, x as int, y as int, w as int, h as int, color),
        final(frame)@.len() == PIXELS,
{
    draw_line(frame, x, y, x + w - 1, y, color);
    draw_line(frame, x, y + h - 1, x + w - 1, y + h - 1, color);
    draw_line(frame, x, y, x, y + h - 1, color);
    draw_line(frame, x + w - 1, y, x + w - 1, y + h - 1, color);
}

/// `f` with the `w` x `h` box at `(x, y)` filled with corners rounded to
/// radius `r`: the box narrowed by `r` on the left and right, the box
/// shortened by `r` at the top and bottom, and the four corner discs.
pub open spec fn rounded_rect_painted(f: Seq<u16>, x: int, y: int, w: int, h: int, r: int, color: u16) -> Seq<u16> {
    let a = rect_painted(f, x + r, y, w - 2 * r, h, color);
    let b = rect_painted(a, x, y + r, w, h - 2 * r, color);
    let c = circle_painted(b, x + r, y + r, r, false, color);
    let d = circle_painted(c, x + w - r - 1, y + r, r, false, color);
    let e = circle_painted(d, x + r, y + h - r - 1, r, false, color);
    circle_painted(e, x + w - r - 1, y + h - r - 1, r, false, color)
}

/// Whether the corners and sizes of the parts of a rounded box fit in an
/// `i32`.
pub open spec fn rounded_rect_fits(x: int, y: int, w: int, h: int, r: int) -> bool {
    &&& i32::MIN <= x + r <= i32::MAX
    &&& i32::MIN <= y + r <= i32::MAX
    &&& i32::MIN <= 2 * r <= i32::MAX
    &&& i32::MIN <= w - 2 * r <= i32::MAX
    &&& i32::MIN <= h - 2 * r <= i32::MAX
    &&& i32::MIN <= x + w <= i32::MAX
    &&& i32::MIN <= x + w - r <= i32::MAX
    &&& i32::MIN <= x + w - r - 1 <= i32::MAX
    &&& i32::MIN <= y + h <= i32::MAX
    &&& i32::MIN <= y + h - r <= i32::MAX
    &&& i32::MIN <= y + h - r - 1 <= i32::MAX
}

/// Fills the `w` x `h` box at `(x, y)` with corners rounded to radius `r`.
pub fn fill_rounded_rect(frame: &mut Vec<u16>, x: i32, y: i32, w: i32, h: i32, r: i32, color: u16)
    requires
        old(frame)@.len() == PIXELS,
        rounded_rect_fits(x as int, y as int, w as int, h as int, r as int),
    ensures
        final(frame)@ == rounded_rect_painted(old(frame)@, x as int, y as int, w as int, h as int, r as int, color),
        final(frame)@.len() == PIXELS,
{
    fill_rect(frame, x + r, y, w - 2 * r, h, color);
    fill_rect(frame, x, y + r, w, h - 2 * r, color);
    fill_circle(frame, x + r, y + r, r, color);
    fill_circle(frame, x + w - r - 1, y + r, r, color);
    fill_circle(frame, x + r, y + h - r - 1, r, color);
    fill_circle(frame, x + w - r - 1, y + h - r - 1, r, color);
}

/// `v / 2` rounded toward zero.
pub fn half(v: i32) -> (r: i32)
    ensures
        r == half_toward_zero(v as int),
{
    if v >= 0 {
        v / 2
    } else {
        -((-(v as i64)) / 2) as i32
    }
}

/// Whether `v` fits in an `i32`.
pub open spec fn fits(v: int) -> bool {
    i32::MIN <= v <= i32::MAX
}

/// Whether the height, middle and bottom of a segment figure of digit
/// width `w` and stroke `s` at row `y` fit in an `i32`.
pub open spec fn figure_frame_fits(y: int, w: int, s: int) -> bool {
    let h = w * 2 - s;
    &&& fits(w * 2) && fits(h)
    &&& fits(y + half_toward_zero(h)) && fits(y + half_toward_zero(h) - half_toward_zero(s))
    &&& fits(y + h) && fits(y + h - s)
}

/// Whether the values computed to draw segment `k` (0 top, then clockwise,
/// 6 middle) fit in an `i32`.
pub open spec fn segment_fits(x: int, y: int, w: int, s: int, k: int) -> bool {
    let h = w * 2 - s;
    let hs = half_toward_zero(s);
    let mid = y + half_toward_zero(h) - hs;
    let bottom = y + h - s;
    let hh = half_toward_zero(h) - s;
    if k == 0 {
        fits(x + s) && fits(2 * s) && fits(w - 2 * s) && rounded_rect_fits(x + s, y, w - 2 * s, s, hs)
    } else if k == 1 {
        fits(x + w) && fits(x + w - s) && fits(y + s) && fits(hh) && rounded_rect_fits(x + w - s, y + s, s, hh, hs)
    } else if k == 2 {
        fits(x + w) && fits(x + w - s) && fits(mid + s) && fits(hh) && rounded_rect_fits(x + w - s, mid + s, s, hh, hs)
    } else if k == 3 {
        fits(x + s) && fits(2 * s) && fits(w - 2 * s) && rounded_rect_fits(x + s, bottom, w - 2 * s, s, hs)
    } else if k == 4 {
        fits(mid + s) && fits(hh) && rounded_rect_fits(x, mid + s, s, hh, hs)
    } else if k == 5 {
        fits(y + s) && fits(hh) && rounded_rect_fits(x, y + s, s, hh, hs)
    } else {
        fits(x + s) && fits(2 * s) && fits(w - 2 * s) && rounded_rect_fits(x + s, mid, w - 2 * s, s, hs)
    }
}

/// Whether drawing the lit segments `seg` of a figure at `(x, y)` stays
/// within `i32` arithmetic.
pub open spec fn segments_fit(x: int, y: int, w: int, s: int, seg: Seq<bool>) -> bool {
    &&& figure_frame_fits(y, w, s)
    &&& forall|k: int| 0 <= k < 7 && #[trigger] seg[k] ==> segment_fits(x, y, w, s, k)
}

/// Whether drawing the letter F of a figure at `(x, y)` stays within `i32`
/// arithmetic.
pub open spec fn letter_f_fits(x: int, y: int, w: int, s: int) -> bool {
    let h = w * 2 - s;
    let hs = half_toward_zero(s);
    &&& fits(w * 2) && fits(h)
    &&& rounded_rect_fits(x, y, s, h, hs)
    &&& fits(w - s) && rounded_rect_fits(x, y, w - s, s, hs)
    &&& fits(y + half_toward_zero(h)) && fits(y + half_toward_zero(h) - hs)
    &&& fits(s * 2) && fits(w - s * 2) && rounded_rect_fits(x, y + half_toward_zero(h) - hs, w - s * 2, s, hs)
}

/// Whether drawing the numeral `ch` at `(x, y)` stays within `i32`
/// arithmetic.
pub open spec fn numeric_char_fits(x: int, y: int, ch: char, w: int, s: int) -> bool {
    if '0' <= ch <= '9' {
        segments_fit(x, y, w, s, digit_segments(ch))
    } else if ch == ':' {
        fits(x + s) && fits(y + half_toward_zero(w)) && fits(y + w) && fits(y + w + half_toward_zero(w))
    } else if ch == 'F' || ch == 'f' {
        letter_f_fits(x, y, w, s)
    } else if ch == '-' {
        fits(y + w) && rounded_rect_fits(x, y + w, half_toward_zero(w), s, half_toward_zero(s))
    } else {
        true
    }
}

/// `f` with the lit segments of a seven-segment figure of width `w` and
/// stroke `s` at `(x, y)`: top, upper right, lower right, bottom, lower
/// left, upper left and middle, each a rounded bar.
pub open spec fn segments_painted(f: Seq<u16>, x: int, y: int, w: int, s: int, color: u16, seg: Seq<bool>) -> Seq<u16> {
    let h = w * 2 - s;
    let hs = half_toward_zero(s);
    let mid = y + half_toward_zero(h) - hs;
    let bottom = y + h - s;
    let half_h = half_toward_zero(h) - s;
    let f0 = if seg[0] { rounded_rect_painted(f, x + s, y, w - 2 * s, s, hs, color) } else { f };
    let f1 = if seg[1] { rounded_rect_painted(f0, x + w - s, y + s, s, half_h, hs, color) } else { f0 };
    let f2 = if seg[2] { rounded_rect_painted(f1, x + w - s, mid + s, s, half_h, hs, color) } else { f1 };
    let f3 = if seg[3] { rounded_rect_painted(f2, x + s, bottom, w - 2 * s, s, hs, color) } else { f2 };
    let f4 = if seg[4] { rounded_rect_painted(f3, x, mid + s, s, half_h, hs, color) } else { f3 };
    let f5 = if seg[5] { rounded_rect_painted(f4, x, y + s, s, half_h, hs, color) } else { f4 };
    if seg[6] { rounded_rect_painted(f5, x + s, mid, w - 2 * s, s, hs, color) } else { f5 }
}

/// Draws the lit segments `seg` of a seven-segment figure.
#[verifier::rlimit(40)]
pub fn draw_segment_mask(frame: &mut Vec<u16>, x: i32, y: i32, w: i32, s: i32, color: u16, seg: [bool; 7])
    requires
        old(frame)@.len() == PIXELS,
        segments_fit(x as int, y as int, w as int, s as int, seg@),
    ensures
        final(frame)@ == segments_painted(old(frame)@, x as int, y as int, w as int, s as int, color, seg@),
        final(frame)@.len() == PIXELS,
{
    let h = w * 2 - s;
    let hs = half(s);
    let mid = y + half(h) - hs;
    let bottom = y + h - s;
    if seg[0] {
        assert(segment_fits(x as int, y as int, w as int, s as int, 0));
        fill_rounded_rect(frame, x + s, y, w - 2 * s, s, hs, color);
    }
    if seg[1] {
        assert(segment_fits(x as int, y as int, w as int, s as int, 1));
        fill_rounded_rect(frame, x + w - s, y + s, s, half(h) - s, hs, color);
    }
    if seg[2] {
        assert(segment_fits(x as int, y as int, w as int, s as int, 2));
        fill_rounded_rect(frame, x + w - s, mid + s, s, half(h) - s, hs, color);
    }
    if seg[3] {
        assert(segment_fits(x as int, y as int, w as int, s as int, 3));
        fill_rounded_rect(frame, x + s, bottom, w - 2 * s, s, hs, color);
    }
    if seg[4] {
        assert(segment_fits(x as int, y as int, w as int, s as int, 4));
        fill_rounded_rect(frame, x, mid + s, s, half(h) - s, hs, color);
    }
    if seg[5] {
        assert(segment_fits(x as int, y as int, w as int, s as int, 5));
        fill_rounded_rect(frame, x, y + s, s, half(h) - s, hs, color);
    }
    if seg[6] {
        assert(segment_fits(x as int, y as int, w as int, s as int, 6));
        fill_rounded_rect(frame, x + s, mid, w - 2 * s, s, hs, color);
    }
}

/// `f` with the letter F of a figure of width `w` and stroke `s` at
/// `(x, y)`: the stem, the top bar and the shorter middle bar.
pub open spec fn letter_f_painted(f: Seq<u16>, x: int, y: int, w: int, s: int, color: u16) -> Seq<u16> {
    let h = w * 2 - s;
    let hs = half_toward_zero(s);
    let a = rounded_rect_painted(f, x, y, s, h, hs, color);
    let b = rounded_rect_painted(a, x, y, w - s, s, hs, color);
    rounded_rect_painted(b, x, y + half_toward_zero(h) - hs, w - s * 2, s, hs, color)
}

/// Draws the letter F of a segment figure.
pub fn draw_letter_f(frame: &mut Vec<u16>, x: i32, y: i32, w: i32, s: i32, color: u16)
    requires
        old(frame)@.len() == PIXELS,
        letter_f_fits(x as int, y as int, w as int, s as int),
    ensures
        final(frame)@ == letter_f_painted(old(frame)@, x as int, y as int, w as int, s as int, color),
        final(frame)@.len() == PIXELS,
{
    let h = w * 2 - s;
    let hs = half(s);
    fill_rounded_rect(frame, x, y, s, h, hs, color);
    fill_rounded_rect(frame, x, y, w - s, s, hs, color);
    fill_rounded_rect(frame, x, y + half(h) - hs, w - s * 2, s, hs, color);
}

/// The lit segments of a digit, top first then clockwise, middle last.
pub open spec fn digit_segments(ch: char) -> Seq<bool> {
    if ch == '0' {
        seq![true, true, true, true, true, true, false]
    } else if ch == '1' {
        seq![false, true, true, false, false, false, false]
    } else if ch == '2' {
        seq![true, true, false, true, true, false, true]
    } else if ch == '3' {
        seq![true, true, true, true, false, false, true]
    } else if ch == '4' {
        seq![false, true, true, false, false, true, true]
    } else if ch == '5' {
        seq![true, false, true, true, false, true, true]
    } else if ch == '6' {
        seq![true, false, true, true, true, true, true]
    } else if ch == '7' {
        seq![true, true, true, false, false, false, false]
    } else if ch == '8' {
        seq![true, true, true, true, true, true, true]
    } else {
        seq![true, true, true, true, false, true, true]
    }
}

/// Whether `ch` is a decimal digit.
pub open spec fn is_digit(ch: char) -> bool {
    '0' <= ch <= '9'
}

/// `f` with the large numeral `ch` at `(x, y)`: a digit as its segments, a
/// colon as two dots, F as its letter, a minus as a short bar; anything
/// else draws nothing.
pub open spec fn numeric_char_painted(f: Seq<u16>, x: int, y: int, ch: char, w: int, s: int, color: u16) -> Seq<u16> {
    if is_digit(ch) {
        segments_painted(f, x, y, w, s, color, digit_segments(ch))
    } else if ch == ':' {
        let r = half_toward_zero(s) + 1;
        let a = circle_painted(f, x + s, y + half_toward_zero(w), r, false, color);
        circle_painted(a, x + s, y + w + half_toward_zero(w), r, false, color)
    } else if ch == 'F' || ch == 'f' {
        letter_f_painted(f, x, y, w, s, color)
    } else if ch == '-' {
        rounded_rect_painted(f, x, y + w, half_toward_zero(w), s, half_toward_zero(s), color)
    } else {
        f
    }
}

/// Draws one large numeral.
pub fn draw_numeric_char(frame: &mut Vec<u16>, x: i32, y: i32, ch: char, w: i32, s: i32, color: u16)
    requires
        old(frame)@.len() == PIXELS,
        numeric_char_fits(x as int, y as int, ch, w as int, s as int),
    ensures
        final(frame)@ == numeric_char_painted(old(frame)@, x as int, y as int, ch, w as int, s as int, color),
        final(frame)@.len() == PIXELS,
{
    if ch == '0' {
        let m = [true, true, true, true, true, true, false];
        assert(m@ =~= digit_segments(ch));
        draw_segment_mask(frame, x, y, w, s, color, m);
    } else if ch == '1' {
        let m = [false, true, true, false, false, false, false];
        assert(m@ =~= digit_segments(ch));
        draw_segment_mask(frame, x, y, w, s, color, m);
    } else if ch == '2' {
        let m = [true, true, false, true, true, false, true];
        assert(m@ =~= digit_segments(ch));
        draw_segment_mask(frame, x, y, w, s, color, m);
    } else if ch == '3' {
        let m = [true, true, true, true, false, false, true];
        assert(m@ =~= digit_segments(ch));
        draw_segment_mask(frame, x, y, w, s, color, m);
    } else if ch == '4' {
        let m = [false, true, true, false, false, true, true];
        assert(m@ =~= digit_segments(ch));
        draw_segment_mask(frame, x, y, w, s, color, m);
    } else if ch == '5' {
        let m = [true, false, true, true, false, true, true];
        assert(m@ =~= digit_segments(ch));
        draw_segment_mask(frame, x, y, w, s, color, m);
    } else if ch == '6' {
        let m = [true, false, true, true, true, true, true];
        assert(m@ =~= digit_segments(ch));
        draw_segment_mask(frame, x, y, w, s, color, m);
    } else if ch == '7' {
        let m = [true, true, true, false, false, false, false];
        assert(m@ =~= digit_segments(ch));
        draw_segment_mask(frame, x, y, w, s, color, m);
    } else if ch == '8' {
        let m = [true, true, true, true, true, true, true];
        assert(m@ =~= digit_segments(ch));
        draw_segment_mask(frame, x, y, w, s, color, m);
    } else if ch == '9' {
        let m = [true, true, true, true, false, true, true];
        assert(m@ =~= digit_segments(ch));
        draw_segment_mask(frame, x, y, w, s, color, m);
    } else if ch == ':' {
        let r = half(s) + 1;
        fill_circle(frame, x + s, y + half(w), r, color);
        fill_circle(frame, x + s, y + w + half(w), r, color);
    } else if ch == 'F' || ch == 'f' {
        draw_letter_f(frame, x, y, w, s, color);
    } else if ch == '-' {
        fill_rounded_rect(frame, x, y + w, half(w), s, half(s), color);
    }
}

/// Where the next numeral of a run starts, relative to the run's left
/// edge, after the numerals `p`: their width plus one stroke gap.
pub open spec fn numeric_offset(p: Seq<char>, w: int, s: int) -> int {
    if p.len() == 0 {
        0
    } else {
        numeric_value_width_spec(p, w, s) + s
    }
}

/// `f` with the run of large numerals `t` drawn left to right from `x`.
pub open spec fn numeric_text_painted(f: Seq<u16>, x: int, y: int, t: Seq<char>, w: int, s: int, color: u16) -> Seq<u16>
    decreases t.len(),
{
    if t.len() == 0 {
        f
    } else {
        let prev = numeric_text_painted(f, x, y, t.drop_last(), w, s, color);
        numeric_char_painted(prev, x + numeric_offset(t.drop_last(), w, s), y, t.last(), w, s, color)
    }
}

/// Whether the width of numeral `ch` can be computed in `i32` arithmetic.
pub open spec fn char_width_fits(ch: char, w: int, s: int) -> bool {
    &&& ch == ':' ==> fits(s * 3)
    &&& (ch == 'F' || ch == 'f') ==> fits(s * 2) && fits(w - s * 2)
}

/// Whether step `k` of laying out and drawing the run `t` from its left
/// edge `x0` on row `y` stays within `i32` arithmetic: adding the numeral's
/// width (and the gap before it) to the run's width, drawing the numeral at
/// its column, and moving on past it.
pub open spec fn run_step_fits(t: Seq<char>, k: int, x0: int, y: int, w: int, s: int) -> bool {
    let p = t.take(k);
    let ch = t[k];
    let cw = numeric_char_width_spec(ch, w, s);
    let x = x0 + numeric_offset(p, w, s);
    &&& char_width_fits(ch, w, s)
    &&& k > 0 ==> fits(numeric_value_width_spec(p, w, s) + s)
    &&& fits(numeric_value_width_spec(t.take(k + 1), w, s))
    &&& fits(x)
    &&& numeric_char_fits(x, y, ch, w, s)
    &&& fits(cw + s)
    &&& fits(x + (cw + s))
}

/// Whether centring and drawing the run `t` on row `y` stays within `i32`
/// arithmetic.
pub open spec fn numeric_run_fits(t: Seq<char>, y: int, w: int, s: int) -> bool {
    let x0 = 180 - half_toward_zero(numeric_value_width_spec(t, w, s));
    forall|k: int| 0 <= k < t.len() ==> #[trigger] run_step_fits(t, k, x0, y, w, s)
}

/// Draws the run of large numerals `text` centred on the middle column,
/// with its top at `y`.
pub fn draw_numeric_value_centered(frame: &mut Vec<u16>, y: i32, text: &str, w: i32, s: i32, color: u16)
    requires
        old(frame)@.len() == PIXELS,
        numeric_run_fits(text@, y as int, w as int, s as int),
    ensures
        final(frame)@ == numeric_text_painted(
            old(frame)@,
            180 - half_toward_zero(numeric_value_width_spec(text@, w as int, s as int)),
            y as int,
            text@,
            w as int,
            s as int,
            color,
        ),
        final(frame)@.len() == PIXELS,
{
    let ghost f0 = frame@;
    let chars = crate::text::str_chars(text);
    let ghost t = chars@;
    let ghost x0s = 180 - half_toward_zero(numeric_value_width_spec(t, w as int, s as int));
    let mut width: i32 = 0;
    let mut i: usize = 0;
    assert(t.take(0) =~= Seq::<char>::empty());
    while i < chars.len()
        invariant
            i <= t.len(),
            t == chars@,
            t == text@,
            x0s == 180 - half_toward_zero(numeric_value_width_spec(t, w as int, s as int)),
            forall|k: int| 0 <= k < t.len() ==> #[trigger] run_step_fits(t, k, x0s, y as int, w as int, s as int),
            width == numeric_value_width_spec(t.take(i as int), w as int, s as int),
        decreases t.len() - i,
    {
        assert(run_step_fits(t, i as int, x0s, y as int, w as int, s as int));
        assert(t.take(i as int + 1).drop_last() =~= t.take(i as int));
        assert(t.take(i as int + 1).last() == t[i as int]);
        if i > 0 {
            width = width + s;
        }
        let cw = numeric_char_width(chars[i], w, s);
        width = width + cw;
        i = i + 1;
    }
    assert(t.take(t.len() as int) =~= t);
    let x0: i32 = 180 - half(width);
    let mut x: i32 = x0;
    let mut i: usize = 0;
    assert(t.subrange(0, 0) =~= Seq::<char>::empty());
    while i < chars.len()
        invariant
            i <= t.len(),
            t == chars@,
            t == text@,
            x0 == x0s,
            x0s == 180 - half_toward_zero(numeric_value_width_spec(t, w as int, s as int)),
            forall|k: int| 0 <= k < t.len() ==> #[trigger] run_step_fits(t, k, x0s, y as int, w as int, s as int),
            frame@.len() == PIXELS,
            x == x0 + numeric_offset(t.take(i as int), w as int, s as int),
            frame@ == numeric_text_painted(f0, x0 as int, y as int, t.take(i as int), w as int, s as int, color),
        decreases t.len() - i,
    {
        let ghost p = t.take(i as int);
        let ghost q = t.take(i as int + 1);
        assert(run_step_fits(t, i as int, x0s, y as int, w as int, s as int));
        assert(q.drop_last() =~= p);
        assert(q.last() == t[i as int]);
        let cw = numeric_char_width(chars[i], w, s);
        draw_numeric_char(frame, x, y, chars[i], w, s, color);
        x = x + (cw + s);
        i = i + 1;
    }
    assert(t.take(t.len() as int) =~= t);
}

/// `f` with the pixels `xa..=xb` of row `y` set to `color` where visible.
pub open spec fn span_painted(f: Seq<u16>, y: int, xa: int, xb: int, color: u16) -> Seq<u16> {
    Seq::new(
        f.len(),
        |i: int|
            if row_of(i) == y && xa <= col_of(i) <= xb && in_circle(col_of(i), row_of(i)) {
                color
            } else {
                f[i]
            },
    )
}

/// Paints the pixels `xa..=xb` of row `y`, a row of the frame.
fn paint_span(frame: &mut Vec<u16>, y: i64, xa: i64, xb: i64, color: u16)
    requires
        old(frame)@.len() == PIXELS,
        0 <= y < 360,
    ensures
        final(frame)@ == span_painted(old(frame)@, y as int, xa as int, xb as int, color),
{
    let ghost f0 = frame@;
    let start: i64 = if xa < 0 { 0 } else { xa };
    let end: i64 = if xb > 359 { 359 } else { xb };
    let mut xx: i64 = start;
    while xx <= end
        invariant
            f0.len() == PIXELS,
            frame@.len() == PIXELS,
            0 <= y < 360,
            start == (if xa < 0 { 0 } else { xa as int }),
            end == (if xb > 359 { 359 } else { xb as int }),
            start <= xx,
            xx <= end + 1 || xx == start,
            forall|i: int|
                0 <= i < PIXELS ==> #[trigger] frame@[i] == (if row_of(i) == y && xa <= col_of(i) < xx
                    && in_circle(col_of(i), row_of(i)) {
                    color
                } else {
                    f0[i]
                }),
        decreases end + 1 - xx,
    {
        let ghost before = frame@;
        set_pixel(frame, xx as i32, y as i32, color);
        proof {
            assert forall|i: int| 0 <= i < PIXELS implies #[trigger] frame@[i] == (if row_of(i) == y && xa
                <= col_of(i) < xx + 1 && in_circle(col_of(i), row_of(i)) {
                color
            } else {
                f0[i]
            }) by {
                lemma_index_bounds(i);
                lemma_index(xx as int, y as int);
                if !(row_of(i) == y && col_of(i) == xx) {
                    assert(i != y * 360 + xx);
                }
            }
        }
        xx = xx + 1;
    }
    proof {
        assert forall|i: int| 0 <= i < PIXELS implies #[trigger] frame@[i] == span_painted(f0, y as int, xa as int, xb as int, color)[i] by {
            lemma_index_bounds(i);
        }
        assert(frame@ =~= span_painted(f0, y as int, xa as int, xb as int, color));
    }
}

/// `v / d` rounded toward zero, for `d > 0`.
pub open spec fn tz_div(v: int, d: int) -> int {
    if v >= 0 {
        v / d
    } else {
        -((-v) / d)
    }
}

fn tz_div_exec(v: i128, d: i128) -> (r: i128)
    requires
        d > 0,
        -0x1_0000_0000_0000_0000_0000 <= v <= 0x1_0000_0000_0000_0000_0000,
    ensures
        r == tz_div(v as int, d as int),
{
    if v >= 0 {
        v / d
    } else {
        -((-v) / d)
    }
}

/// How far a triangle row at `py` reaches from its base edge: the row's
/// distance from the top or bottom tip, scaled from half the size to the
/// triangle's width.
pub open spec fn tri_reach(py: int, cy: int, size: int, width: int) -> int {
    let hs = tz_div(size, 2);
    let dist = if py <= cy { py - (cy - hs) } else { (cy + hs) - py };
    tz_div(width * dist, if hs > 1 { hs } else { 1 })
}

/// Whether `(px, py)` lies in the right-pointing play triangle of size
/// `size` around `(cx, cy)`: rows from `cy - size/2` to `cy + size/2`, each
/// from the left edge `cx - size/3` out to its reach.
pub open spec fn play_triangle_hit(px: int, py: int, cx: int, cy: int, size: int) -> bool {
    let hs = tz_div(size, 2);
    let left = cx - tz_div(size, 3);
    let right = cx + hs;
    cy - hs <= py <= cy + hs && left <= px <= left + tri_reach(py, cy, size, right - left)
}

/// Whether `(px, py)` lies in the left-pointing triangle of size `size`
/// around `(cx, cy)`: the play triangle mirrored, each row from its reach
/// out to the right edge `cx + size/3`.
pub open spec fn left_triangle_hit(px: int, py: int, cx: int, cy: int, size: int) -> bool {
    let hs = tz_div(size, 2);
    let right = cx + tz_div(size, 3);
    let left = cx - hs;
    cy - hs <= py <= cy + hs && right - tri_reach(py, cy, size, right - left) <= px <= right
}

/// `f` with a triangle filled: the play triangle, or its mirror when
/// `pointing_left`.
pub open spec fn triangle_painted(f: Seq<u16>, cx: int, cy: int, size: int, pointing_left: bool, color: u16) -> Seq<u16> {
    Seq::new(
        f.len(),
        |i: int|
            if (if pointing_left {
                left_triangle_hit(col_of(i), row_of(i), cx, cy, size)
            } else {
                play_triangle_hit(col_of(i), row_of(i), cx, cy, size)
            }) && in_circle(col_of(i), row_of(i)) {
                color
            } else {
                f[i]
            },
    )
}

fn paint_triangle(frame: &mut Vec<u16>, cx: i32, cy: i32, size: i32, pointing_left: bool, color: u16)
    requires
        old(frame)@.len() == PIXELS,
    ensures
        final(frame)@ == triangle_painted(old(frame)@, cx as int, cy as int, size as int, pointing_left, color),
{
    let ghost f0 = frame@;
    let hs: i128 = tz_div_exec(size as i128, 2);
    let third: i128 = tz_div_exec(size as i128, 3);
    let top: i128 = cy as i128 - hs;
    let bottom: i128 = cy as i128 + hs;
    let (left, right): (i128, i128) = if pointing_left {
        (cx as i128 - hs, cx as i128 + third)
    } else {
        (cx as i128 - third, cx as i128 + hs)
    };
    let width: i128 = right - left;
    let denom: i128 = if hs > 1 { hs } else { 1 };
    let first: i128 = if top < 0 { 0 } else { top };
    let last: i128 = if bottom > 359 { 359 } else { bottom };
    let mut yy: i128 = first;
    while yy <= last
        invariant
            f0.len() == PIXELS,
            frame@.len() == PIXELS,
            hs == tz_div(size as int, 2),
            third == tz_div(size as int, 3),
            -0x4000_0000 <= hs <= 0x4000_0000,
            -0x3000_0000 <= third <= 0x3000_0000,
            top == cy - hs,
            bottom == cy + hs,
            left == (if pointing_left { cx - hs } else { cx - third }),
            right == (if pointing_left { cx + third } else { cx + hs }),
            width == right - left,
            denom == (if hs > 1 { hs as int } else { 1int }),
            first == (if top < 0 { 0 } else { top as int }),
            last == (if bottom > 359 { 359 } else { bottom as int }),
            first <= yy,
            yy <= last + 1 || yy == first,
            forall|i: int|
                0 <= i < PIXELS ==> #[trigger] frame@[i] == (if (if pointing_left {
                    left_triangle_hit(col_of(i), row_of(i), cx as int, cy as int, size as int)
                } else {
                    play_triangle_hit(col_of(i), row_of(i), cx as int, cy as int, size as int)
                }) && in_circle(col_of(i), row_of(i)) && row_of(i) < yy {
                    color
                } else {
                    f0[i]
                }),
        decreases last + 1 - yy,
    {
        let dist: i128 = if yy <= cy as i128 { yy - top } else { bottom - yy };
        assert(-0x1_0000_0000 <= width <= 0x1_0000_0000);
        assert(-0x1_0000_0000 <= dist <= 0x1_0000_0000);
        assert(-0x1_0000_0000_0000_0000 <= width * dist <= 0x1_0000_0000_0000_0000) by (nonlinear_arith)
            requires
                -0x1_0000_0000 <= width <= 0x1_0000_0000,
                -0x1_0000_0000 <= dist <= 0x1_0000_0000,
        ;
        let reach: i128 = tz_div_exec(width * dist, denom);
        assert(reach == tri_reach(yy as int, cy as int, size as int, width as int));
        assert(0 <= dist <= denom);
        assert(-0x1_0000_0000 <= reach <= 0x1_0000_0000) by {
            assert(-0x1_0000_0000 * denom <= width * dist <= 0x1_0000_0000 * denom) by (nonlinear_arith)
                requires
                    -0x1_0000_0000 <= width <= 0x1_0000_0000,
                    0 <= dist <= denom,
            ;
            if width * dist >= 0 {
                assert((width * dist) / (denom as int) <= 0x1_0000_0000) by (nonlinear_arith)
                    requires
                        0 <= width * dist <= 0x1_0000_0000 * denom,
                        denom >= 1,
                ;
            } else {
                assert((-(width * dist)) / (denom as int) <= 0x1_0000_0000) by (nonlinear_arith)
                    requires
                        0 < -(width * dist) <= 0x1_0000_0000 * denom,
                        denom >= 1,
                ;
            }
        }
        let (xa, xb): (i128, i128) = if pointing_left {
            (right - reach, right)
        } else {
            (left, left + reach)
        };
        let ghost before = frame@;
        paint_span(frame, yy as i64, xa as i64, xb as i64, color);
        proof {
            assert forall|i: int| 0 <= i < PIXELS implies #[trigger] frame@[i] == (if (if pointing_left {
                left_triangle_hit(col_of(i), row_of(i), cx as int, cy as int, size as int)
            } else {
                play_triangle_hit(col_of(i), row_of(i), cx as int, cy as int, size as int)
            }) && in_circle(col_of(i), row_of(i)) && row_of(i) < yy + 1 {
                color
            } else {
                f0[i]
            }) by {
                lemma_index_bounds(i);
            }
        }
        yy = yy + 1;
    }
    proof {
        assert forall|i: int| 0 <= i < PIXELS implies #[trigger] frame@[i] == triangle_painted(f0, cx as int, cy as int, size as int, pointing_left, color)[i] by {
            lemma_index_bounds(i);
        }
        assert(frame@ =~= triangle_painted(f0, cx as int, cy as int, size as int, pointing_left, color));
    }
}

/// Fills the right-pointing play triangle of size `size` around
/// `(cx, cy)`.
pub fn fill_play_triangle(frame: &mut Vec<u16>, cx: i32, cy: i32, size: i32, color: u16)
    requires
        old(frame)@.len() == PIXELS,
    ensures
        final(frame)@ == triangle_painted(old(frame)@, cx as int, cy as int, size as int, false, color),
        final(frame)@.len() == PIXELS,
{
    paint_triangle(frame, cx, cy, size, false, color);
}

/// Fills the left-pointing triangle of size `size` around `(cx, cy)`.
pub fn fill_left_triangle(frame: &mut Vec<u16>, cx: i32, cy: i32, size: i32, color: u16)
    requires
        old(frame)@.len() == PIXELS,
    ensures
        final(frame)@ == triangle_painted(old(frame)@, cx as int, cy as int, size as int, true, color),
        final(frame)@.len() == PIXELS,
{
    paint_triangle(frame, cx, cy, size, true, color);
}

/// `f` with the polyline through `pts` painted: the first point, then a
/// line from each point to the next.
pub open spec fn polyline_painted(f: Seq<u16>, pts: Seq<(i32, i32)>, color: u16) -> Seq<u16>
    decreases pts.len(),
{
    if pts.len() == 0 {
        f
    } else if pts.len() == 1 {
        dot_painted(f, pts[0].0 as int, pts[0].1 as int, color)
    } else {
        let n = pts.len() as int;
        line_painted(
            polyline_painted(f, pts.drop_last(), color),
            pts[n - 2].0 as int,
            pts[n - 2].1 as int,
            pts[n - 1].0 as int,
            pts[n - 1].1 as int,
            color,
        )
    }
}

/// Draws the polyline through `pts`; an arc is drawn as the polyline
/// through its points at each whole degree.
pub fn draw_polyline(frame: &mut Vec<u16>, pts: &Vec<(i32, i32)>, color: u16)
    requires
        old(frame)@.len() == PIXELS,
    ensures
        final(frame)@ == polyline_painted(old(frame)@, pts@, color),
        final(frame)@.len() == PIXELS,
{
    let ghost f0 = frame@;
    if pts.len() == 0 {
        return;
    }
    set_pixel(frame, pts[0].0, pts[0].1, color);
    proof {
        assert(pts@.subrange(0, 1).len() == 1);
        assert(pts@.subrange(0, 1)[0] == pts@[0]);
    }
    let mut k: usize = 1;
    while k < pts.len()
        invariant
            1 <= k <= pts@.len(),
            f0.len() == PIXELS,
            frame@.len() == PIXELS,
            frame@ == polyline_painted(f0, pts@.subrange(0, k as int), color),
        decreases pts@.len() - k,
    {
        let a = pts[k - 1];
        let b = pts[k];
        draw_line(frame, a.0, a.1, b.0, b.1, color);
        proof {
            let q = pts@.subrange(0, k as int + 1);
            assert(q.drop_last() =~= pts@.subrange(0, k as int));
            assert(q[k as int - 1] == a);
            assert(q[k as int] == b);
        }
        k = k + 1;
    }
    proof {
        assert(pts@.subrange(0, pts@.len() as int) =~= pts@);
    }
}

/// The whole degrees an arc passes from `start_deg` to `end_deg`, both
/// brought into `0..360`: from the start, one degree at a time and wrapping
/// at 360, up to the end.
pub open spec fn arc_angles_spec(start_deg: int, end_deg: int) -> Seq<i32> {
    let a = start_deg % 360;
    let e = end_deg % 360;
    let n = (e - a) % 360 + 1;
    Seq::new(n as nat, |k: int| ((a + k) % 360) as i32)
}

/// The whole degrees of an arc from `start_deg` to `end_deg`.
pub fn arc_angles(start_deg: i32, end_deg: i32) -> (r: Vec<i32>)
    ensures
        r@ == arc_angles_spec(start_deg as int, end_deg as int),
        1 <= r@.len() <= 360,
{
    let end = crate::render::normalize_deg(end_deg);
    let mut angle = crate::render::normalize_deg(start_deg);
    let ghost a = angle as int;
    let ghost n = (end - a) % 360 + 1;
    let mut out: Vec<i32> = Vec::new();
    let mut guard: i32 = 0;
    loop
        invariant_except_break
            out@.len() == guard,
            forall|k: int| 0 <= k < guard ==> #[trigger] out@[k] == ((a + k) % 360) as i32,
        invariant
            0 <= a < 360,
            0 <= end < 360,
            a == start_deg % 360,
            end == end_deg % 360,
            n == (end - a) % 360 + 1,
            1 <= n <= 360,
            0 <= guard < n,
            angle == (a + guard) % 360,
        ensures
            out@ =~= arc_angles_spec(start_deg as int, end_deg as int),
        decreases n - guard,
    {
        out.push(angle);
        if angle == end || guard >= 360 {
            proof {
                assert(guard + 1 == n) by {
                    assert((a + guard) % 360 == end);
                    assert(0 <= guard < 360);
                    if end >= a {
                        assert(n == end - a + 1);
                        if a + guard >= 360 {
                            assert((a + guard) % 360 == a + guard - 360);
                        }
                    } else {
                        assert(n == end - a + 361);
                        if a + guard < 360 {
                            assert((a + guard) % 360 == a + guard);
                        } else {
                            assert((a + guard) % 360 == a + guard - 360);
                        }
                    }
                }
            }
            break;
        }
        proof {
            assert(guard + 1 < n) by {
                if end >= a {
                    assert(n == end - a + 1);
                    if a + guard >= 360 {
                        assert((a + guard) % 360 == a + guard - 360);
                    } else {
                        assert((a + guard) % 360 == a + guard);
                    }
                } else {
                    assert(n == end - a + 361);
                    if a + guard < 360 {
                        assert((a + guard) % 360 == a + guard);
                    } else {
                        assert((a + guard) % 360 == a + guard - 360);
                    }
                }
            }
            if a + guard + 1 < 360 {
                assert((a + guard) % 360 == a + guard);
                assert((a + guard + 1) % 360 == a + guard + 1);
            } else if a + guard + 1 == 360 {
                assert((a + guard) % 360 == a + guard);
                assert((a + guard + 1) % 360 == 0);
            } else {
                assert((a + guard) % 360 == a + guard - 360);
                assert((a + guard + 1) % 360 == a + guard + 1 - 360);
            }
        }
        angle = crate::render::normalize_deg(angle + 1);
        guard = guard + 1;
    }
    out
}

/// The colour of a little-endian RGB565 pixel of an asset.
pub open spec fn asset_pixel(bytes: Seq<u8>, i: int) -> u16 {
    (bytes[2 * i] + 256 * bytes[2 * i + 1]) as u16
}

/// Copies a full-screen RGB565 asset, two little-endian bytes per pixel,
/// onto the frame.
pub fn blit_rgb565_asset(frame: &mut Vec<u16>, asset: &[u8])
    requires
        old(frame)@.len() == PIXELS,
        asset@.len() == 2 * PIXELS,
    ensures
        final(frame)@ == Seq::new(PIXELS as nat, |i: int| asset_pixel(asset@, i)),
{
    let mut i: usize = 0;
    while i < PIXELS
        invariant
            i <= PIXELS,
            frame@.len() == PIXELS,
            asset@.len() == 2 * PIXELS,
            forall|k: int| 0 <= k < i ==> #[trigger] frame@[k] == asset_pixel(asset@, k),
        decreases PIXELS - i,
    {
        let b0 = asset[2 * i];
        let b1 = asset[2 * i + 1];
        let px = (b0 as u16) | ((b1 as u16) << 8);
        assert((b0 as u16) | ((b1 as u16) << 8u16) == b0 as u16 + 256 * (b1 as u16)) by (bit_vector);
        frame.set(i, px);
        i = i + 1;
    }
    proof {
        assert(frame@ =~= Seq::new(PIXELS as nat, |i: int| asset_pixel(asset@, i)));
    }
}

} // verus!
