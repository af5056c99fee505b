//! `/BATTERY.TXT`: the battery calibration file.
//!
//! Each line is `key = value`; blank lines, `#` comments and lines without
//! `=` are skipped, and keys match in any case. `adc_multiplier` (or
//! `multiplier`) is a float that the caller converts and range-checks;
//! `empty_mv` and `full_mv` are whole millivolts.

use vstd::prelude::*;
use crate::text::{
    after_first_line, ascii_lower, find_char, first_line, index_of, lower_range, next_line,
    parse_u16_spec, parse_unsigned, range_eq_str, str_chars, string_from_range, trim, trim_range,
};

verus! {

/// What one line of the calibration file says.
#[derive(Debug)]
pub enum BatteryCalLine {
    Skip,
    Multiplier(String),
    EmptyMv(Result<u16, &'static str>),
    FullMv(Result<u16, &'static str>),
}

/// The millivolt value `value` gives, or the error `err` when it is not a
/// `u16`.
pub open spec fn mv_reading(x: Result<u16, &'static str>, value: Seq<char>, err: Seq<char>) -> bool {
    match parse_u16_spec(value) {
        Some(n) => x == Ok::<u16, &'static str>(n),
        None => x matches Err(e) && e@ == err,
    }
}

/// Whether `r` is what the line `line` says: trimmed; skipped when empty,
/// a `#` comment or without `=`; otherwise the key (before the first `=`,
/// trimmed, in lower case) picks the reading of the trimmed value.
pub open spec fn cal_line_is(line: Seq<char>, r: BatteryCalLine) -> bool {
    let l = trim(line);
    let i = index_of(l, '=');
    if l.len() == 0 || l[0] == '#' || i < 0 {
        r is Skip
    } else {
        let key = ascii_lower(trim(l.subrange(0, i)));
        let value = trim(l.subrange(i + 1, l.len() as int));
        if key == "adc_multiplier"@ || key == "multiplier"@ {
            r matches BatteryCalLine::Multiplier(v) && v@ == value
        } else if key == "empty_mv"@ {
            r matches BatteryCalLine::EmptyMv(x) && mv_reading(x, value, "BAD_EMPTY"@)
        } else if key == "full_mv"@ {
            r matches BatteryCalLine::FullMv(x) && mv_reading(x, value, "BAD_FULL"@)
        } else {
            r is Skip
        }
    }
}

/// The lines of `s`, as `str::lines` yields them.
pub open spec fn lines_of(s: Seq<char>) -> Seq<Seq<char>>
    decreases s.len(),
{
    if s.len() == 0 {
        Seq::empty()
    } else {
        proof {
            crate::text::lemma_index_of_bounds(s, '\n');
        }
        seq![first_line(s)] + lines_of(after_first_line(s))
    }
}

/// The reading of the millivolt value `v[a..b]`.
fn mv_range(v: &Vec<char>, a: usize, b: usize, err: &'static str) -> (r: Result<u16, &'static str>)
    requires
        a <= b <= v.len(),
    ensures
        mv_reading(r, v@.subrange(a as int, b as int), err@),
{
    match parse_unsigned(v, a, b, 65535) {
        Some(Some(n)) => Ok(n as u16),
        _ => Err(err),
    }
}

/// The reading of the line `v[a..b]`.
fn cal_line_range(v: &Vec<char>, a: usize, b: usize) -> (r: BatteryCalLine)
    requires
        a <= b <= v.len(),
    ensures
        cal_line_is(v@.subrange(a as int, b as int), r),
{
    let ghost line = v@.subrange(a as int, b as int);
    let (t0, t1) = trim_range(v, a, b);
    let ghost l = v@.subrange(t0 as int, t1 as int);
    if t0 == t1 || v[t0] == '#' {
        return BatteryCalLine::Skip;
    }
    match find_char(v, t0, t1, '=') {
        None => BatteryCalLine::Skip,
        Some(i) => {
            proof {
                assert(l.subrange(0, i - t0) =~= v@.subrange(t0 as int, i as int));
                assert(l.subrange(i - t0 + 1, l.len() as int) =~= v@.subrange(i + 1, t1 as int));
            }
            let (k0, k1) = trim_range(v, t0, i);
            let key = lower_range(v, k0, k1);
            let n = key.len();
            assert(key@.subrange(0, n as int) =~= key@);
            let (w0, w1) = trim_range(v, i + 1, t1);
            if range_eq_str(&key, 0, n, "adc_multiplier") || range_eq_str(&key, 0, n, "multiplier") {
                BatteryCalLine::Multiplier(string_from_range(v, w0, w1))
            } else if range_eq_str(&key, 0, n, "empty_mv") {
                BatteryCalLine::EmptyMv(mv_range(v, w0, w1, "BAD_EMPTY"))
            } else if range_eq_str(&key, 0, n, "full_mv") {
                BatteryCalLine::FullMv(mv_range(v, w0, w1, "BAD_FULL"))
            } else {
                BatteryCalLine::Skip
            }
        },
    }
}

/// What one line of the calibration file says.
pub fn battery_cal_line(line: &str) -> (r: BatteryCalLine)
    ensures
        cal_line_is(line@, r),
{
    let v = str_chars(line);
    assert(v@.subrange(0, v.len() as int) =~= v@);
    cal_line_range(&v, 0, v.len())
}

/// What each line of the calibration file says, in order.
pub fn battery_cal_lines(text: &str) -> (r: Vec<BatteryCalLine>)
    ensures
        r@.len() == lines_of(text@).len(),
        forall|k: int| 0 <= k < r@.len() ==> cal_line_is(lines_of(text@)[k], #[trigger] r@[k]),
{
    let v = str_chars(text);
    let mut out: Vec<BatteryCalLine> = Vec::new();
    let ghost mut done: Seq<Seq<char>> = Seq::empty();
    let mut pos: usize = 0;
    assert(v@.subrange(0, v.len() as int) =~= v@);
    while pos < v.len()
        invariant
            pos <= v.len(),
            v@ == text@,
            lines_of(text@) == done + lines_of(v@.subrange(pos as int, v.len() as int)),
            out@.len() == done.len(),
            forall|k: int| 0 <= k < out@.len() ==> cal_line_is(done[k], #[trigger] out@[k]),
        decreases v.len() - pos,
    {
        let (la, lb, next) = next_line(&v, pos);
        let ghost s = v@.subrange(pos as int, v.len() as int);
        let item = cal_line_range(&v, la, lb);
        proof {
            assert(lines_of(s) == seq![first_line(s)] + lines_of(after_first_line(s)));
            assert(done + lines_of(s) =~= done.push(first_line(s)) + lines_of(after_first_line(s)));
            done = done.push(first_line(s));
        }
        out.push(item);
        pos = next;
    }
    assert(v@.subrange(pos as int, v.len() as int) =~= Seq::<char>::empty());
    assert(done + lines_of(Seq::<char>::empty()) =~= done);
    out
}

/// The error of the final check of a calibration, if any: some key must be
/// set, the full level must be above the empty level, and both must lie in
/// 2500..=4600 mV.
pub open spec fn cal_check_error(any: bool, empty_mv: u16, full_mv: u16) -> Option<Seq<char>> {
    if !any {
        Some("NO_KEYS"@)
    } else if full_mv <= empty_mv {
        Some("BAD_THRESHOLDS"@)
    } else if empty_mv < 2500 || full_mv > 4600 {
        Some("THRESHOLD_RANGE"@)
    } else {
        None
    }
}

/// The final check of a calibration.
pub fn battery_cal_check(any: bool, empty_mv: u16, full_mv: u16) -> (r: Result<(), &'static str>)
    ensures
        match r {
            Ok(()) => cal_check_error(any, empty_mv, full_mv) is None,
            Err(e) => cal_check_error(any, empty_mv, full_mv) == Some(e@),
        },
{
    if !any {
        return Err("NO_KEYS");
    }
    if full_mv <= empty_mv {
        return Err("BAD_THRESHOLDS");
    }
    if empty_mv < 2500 || full_mv > 4600 {
        return Err("THRESHOLD_RANGE");
    }
    Ok(())
}

/// One line of the calibration file once its multiplier, if any, has been
/// converted and range-checked: only whether that succeeded is kept.
#[derive(Debug, Clone, Copy)]
pub enum CalEntry {
    Skip,
    Multiplier(Result<(), &'static str>),
    EmptyMv(Result<u16, &'static str>),
    FullMv(Result<u16, &'static str>),
}

/// Reading the entries `es` in order from the state `(empty, full, any)`:
/// the first error stops the reading; each value read replaces the one
/// before and marks that some key was set.
pub open spec fn cal_fold(es: Seq<CalEntry>, empty: u16, full: u16, any: bool) -> Result<(u16, u16, bool), &'static str>
    decreases es.len(),
{
    if es.len() == 0 {
        Ok((empty, full, any))
    } else {
        match es[0] {
            CalEntry::Skip => cal_fold(es.drop_first(), empty, full, any),
            CalEntry::Multiplier(Err(e)) => Err(e),
            CalEntry::Multiplier(Ok(())) => cal_fold(es.drop_first(), empty, full, true),
            CalEntry::EmptyMv(Err(e)) => Err(e),
            CalEntry::EmptyMv(Ok(v)) => cal_fold(es.drop_first(), v, full, true),
            CalEntry::FullMv(Err(e)) => Err(e),
            CalEntry::FullMv(Ok(v)) => cal_fold(es.drop_first(), empty, v, true),
        }
    }
}

/// The empty and full levels a calibration file sets, starting from the
/// defaults: the first error in line order, or the values read (the last of
/// each wins) once they pass the final check.
pub fn battery_cal_apply(entries: &Vec<CalEntry>, default_empty: u16, default_full: u16) -> (r: Result<(u16, u16), &'static str>)
    ensures
        match cal_fold(entries@, default_empty, default_full, false) {
            Err(e) => r == Err::<(u16, u16), &'static str>(e),
            Ok((empty, full, any)) => match cal_check_error(any, empty, full) {
                Some(msg) => r matches Err(e) && e@ == msg,
                None => r == Ok::<(u16, u16), &'static str>((empty, full)),
            },
        },
{
    let mut empty = default_empty;
    let mut full = default_full;
    let mut any = false;
    let mut i: usize = 0;
    assert(entries@.skip(0) =~= entries@);
    while i < entries.len()
        invariant
            i <= entries@.len(),
            cal_fold(entries@, default_empty, default_full, false) == cal_fold(entries@.skip(i as int), empty, full, any),
        decreases entries@.len() - i,
    {
        let ghost rest = entries@.skip(i as int);
        assert(rest.drop_first() =~= entries@.skip(i as int + 1));
        assert(rest[0] == entries@[i as int]);
        match entries[i] {
            CalEntry::Skip => {},
            CalEntry::Multiplier(Err(e)) => {
                return Err(e);
            },
            CalEntry::Multiplier(Ok(())) => {
                any = true;
            },
            CalEntry::EmptyMv(Err(e)) => {
                return Err(e);
            },
            CalEntry::EmptyMv(Ok(v)) => {
                empty = v;
                any = true;
            },
            CalEntry::FullMv(Err(e)) => {
                return Err(e);
            },
            CalEntry::FullMv(Ok(v)) => {
                full = v;
                any = true;
            },
        }
        i = i + 1;
    }
    assert(entries@.skip(i as int).len() == 0);
    match battery_cal_check(any, empty, full) {
        Ok(()) => Ok((empty, full)),
        Err(e) => Err(e),
    }
}

} // verus!
