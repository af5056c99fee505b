//! What loading a written weather cache gives back.

use vstd::prelude::*;
use crate::text::{
    dec, dec_int, fold_lines, index_of, is_ws, lemma_fold_lines_append, lemma_fold_lines_line,
    lemma_fold_lines_line_cr, strip_cr,
    lemma_index_of_concat, lemma_index_of_first, lemma_parse_dec, lemma_parse_dec_int, lemma_trim_fixed,
    parse_i32_spec, parse_i64_spec, parse_usize_spec, trim,
};
use crate::weather::{
    cache_applied, cache_hour_lines, cache_hour_spec, cache_line_split, cache_read, cache_read_empty,
    cache_step, cache_stepper, cache_text_spec, location_label_spec, slots_view, CacheRead,
    WeatherState, WeatherUnits,
};

verus! {

/// Whether a line of text holds no line break.
pub open spec fn single_line(s: Seq<char>) -> bool {
    index_of(s, '\n') < 0
}

/// Whether `s` has no white space at either end (an empty text has none).
pub open spec fn trimmed(s: Seq<char>) -> bool {
    s.len() == 0 || (!is_ws(s[0]) && !is_ws(s.last()))
}

/// Whether an hour slot survives the cache: its hour and temperature labels
/// are single trimmed lines without a `|`.
pub open spec fn slot_writable(h: (Seq<char>, Seq<char>, i32)) -> bool {
    &&& single_line(h.0) && trimmed(h.0) && index_of(h.0, '|') < 0
    &&& single_line(h.1) && trimmed(h.1) && index_of(h.1, '|') < 0
}

/// The first four of `slots`.
pub open spec fn first_four(slots: Seq<(Seq<char>, Seq<char>, i32)>) -> Seq<(Seq<char>, Seq<char>, i32)> {
    slots.take(if slots.len() < 4 { slots.len() as int } else { 4 })
}

/// Whether the cache text written for `s` reads back field for field: a
/// valid location index, a single-line location label (the loader ignores
/// it), and other labels that are single lines without white space at their
/// ends.
pub open spec fn cache_writable(s: WeatherState) -> bool {
    &&& s.location_index <= 3
    &&& single_line(s.location_label@)
    &&& single_line(s.temperature_label@) && trimmed(s.temperature_label@)
    &&& single_line(s.condition_label@) && trimmed(s.condition_label@)
    &&& forall|i: int| 0 <= i < first_four(slots_view(s.hourly_slots@)).len()
        ==> slot_writable(#[trigger] first_four(slots_view(s.hourly_slots@))[i])
}

/// A cache line `k=v` splits into the key `k` and the trimmed value.
proof fn lemma_split_line(k: Seq<char>, v: Seq<char>)
    requires
        k.len() > 0,
        index_of(k, '=') < 0,
        k[0] != '#',
        !is_ws(k[0]),
        !is_ws(k.last()),
        v.len() == 0 || !is_ws(v.last()),
    ensures
        cache_line_split(k + seq!['='] + v) == Some((k, trim(v))),
{
    let l = k + seq!['='] + v;
    assert(l[0] == k[0]);
    if v.len() > 0 {
        assert(l.last() == v.last());
    } else {
        assert(l.last() == '=');
    }
    lemma_trim_fixed(l);
    lemma_trim_fixed(k);
    lemma_index_of_concat(k, seq!['='] + v, '=');
    lemma_index_of_first(seq!['='] + v, '=', 0);
    assert(l =~= k + (seq!['='] + v));
    assert(l.subrange(0, k.len() as int) =~= k);
    assert(l.subrange(k.len() as int + 1, l.len() as int) =~= v);
}

proof fn lemma_dec_no_sep(n: nat)
    ensures
        index_of(dec(n), '\n') < 0,
        index_of(dec(n), '|') < 0,
        index_of(dec(n), '=') < 0,
        dec(n).len() > 0,
        !is_ws(dec(n)[0]),
        !is_ws(dec(n).last()),
{
    crate::text::lemma_dec_digits(n);
    assert(crate::text::is_digit(dec(n)[0]));
    assert(crate::text::is_digit(dec(n)[dec(n).len() - 1]));
    lemma_no_char_in_digits(dec(n), '\n');
    lemma_no_char_in_digits(dec(n), '|');
    lemma_no_char_in_digits(dec(n), '=');
}

proof fn lemma_no_char_in_digits(s: Seq<char>, c: char)
    requires
        crate::text::all_digits(s),
        !crate::text::is_digit(c),
    ensures
        index_of(s, c) < 0,
{
    crate::text::lemma_index_of_bounds(s, c);
    if index_of(s, c) >= 0 {
        assert(crate::text::is_digit(s[index_of(s, c)]));
    }
}

proof fn lemma_dec_int_no_sep(v: int)
    ensures
        index_of(dec_int(v), '\n') < 0,
        index_of(dec_int(v), '|') < 0,
        dec_int(v).len() > 0,
        !is_ws(dec_int(v)[0]),
        !is_ws(dec_int(v).last()),
{
    if v < 0 {
        let m = (-v) as nat;
        lemma_dec_no_sep(m);
        let s = seq!['-'] + dec(m);
        lemma_index_of_concat(seq!['-'], dec(m), '\n');
        lemma_index_of_concat(seq!['-'], dec(m), '|');
        lemma_index_of_first(seq!['-'], '\n', 1);
        lemma_index_of_first(seq!['-'], '|', 1);
        assert(s.last() == dec(m).last());
    } else {
        lemma_dec_no_sep(v as nat);
    }
}

/// An hour line of the cache adds its slot.
proof fn lemma_hour_line_step(i: nat, h: (Seq<char>, Seq<char>, i32), acc: CacheRead)
    requires
        slot_writable(h),
    ensures
        cache_step("h"@ + dec(i) + "="@ + h.0 + "|"@ + h.1 + "|"@ + dec_int(h.2 as int), acc)
            == (CacheRead { hours: acc.hours.push(h), ..acc }),
{
    reveal_strlit("h");
    reveal_strlit("=");
    reveal_strlit("|");
    reveal_strlit("location_index");
    reveal_strlit("units");
    reveal_strlit("temp");
    reveal_strlit("condition");
    reveal_strlit("last_live_epoch");
    let k = seq!['h'] + dec(i);
    let code = dec_int(h.2 as int);
    let v = h.0 + seq!['|'] + h.1 + seq!['|'] + code;
    lemma_dec_no_sep(i);
    lemma_dec_int_no_sep(h.2 as int);
    lemma_index_of_concat(seq!['h'], dec(i), '=');
    lemma_index_of_first(seq!['h'], '=', 1);
    assert(k.last() == dec(i).last());
    assert(v.last() == code.last());
    lemma_split_line(k, v);
    assert("h"@ + dec(i) + "="@ + h.0 + "|"@ + h.1 + "|"@ + code =~= k + seq!['='] + v);
    // the value reads back as the slot
    if h.0.len() > 0 {
        assert(v[0] == h.0[0]);
    } else {
        assert(v[0] == '|');
    }
    lemma_trim_fixed(v);
    let r1 = h.1 + seq!['|'] + code;
    assert(v =~= h.0 + (seq!['|'] + r1));
    lemma_index_of_concat(h.0, seq!['|'] + r1, '|');
    lemma_index_of_first(seq!['|'] + r1, '|', 0);
    assert(v.subrange(0, h.0.len() as int) =~= h.0);
    assert(v.subrange(h.0.len() as int + 1, v.len() as int) =~= r1);
    assert(r1 =~= h.1 + (seq!['|'] + code));
    lemma_index_of_concat(h.1, seq!['|'] + code, '|');
    lemma_index_of_first(seq!['|'] + code, '|', 0);
    assert(r1.subrange(0, h.1.len() as int) =~= h.1);
    assert(r1.subrange(h.1.len() as int + 1, r1.len() as int) =~= code);
    lemma_trim_fixed(h.0);
    lemma_trim_fixed(h.1);
    lemma_trim_fixed(code);
    lemma_parse_dec_int(h.2 as int);
    assert(parse_i32_spec(code) == Some(h.2));
    assert(cache_hour_spec(v) == Some(h));
    assert(k[0] == 'h');
    assert(k != "location_index"@);
    assert(k != "units"@);
    assert(k != "temp"@);
    assert(k != "condition"@);
    assert(k != "last_live_epoch"@);
}

/// The hour lines of the cache add their slots in order.
proof fn lemma_fold_hour_lines(slots: Seq<(Seq<char>, Seq<char>, i32)>, acc: CacheRead)
    requires
        forall|i: int| 0 <= i < slots.len() ==> slot_writable(#[trigger] slots[i]),
    ensures
        fold_lines(cache_hour_lines(slots), acc, cache_stepper()) == (CacheRead { hours: acc.hours + slots, ..acc }),
    decreases slots.len(),
{
    reveal_strlit("\n");
    if slots.len() == 0 {
        assert(acc.hours + slots =~= acc.hours);
    } else {
        let init = slots.drop_last();
        let h = slots.last();
        let n = (slots.len() - 1) as nat;
        let line = "h"@ + dec(n) + "="@ + h.0 + "|"@ + h.1 + "|"@ + dec_int(h.2 as int);
        assert(cache_hour_lines(slots) =~= cache_hour_lines(init) + (line + seq!['\n'] + Seq::<char>::empty()));
        lemma_fold_hour_lines(init, acc);
        lemma_hour_lines_end(init);
        let mid = CacheRead { hours: acc.hours + init, ..acc };
        lemma_fold_lines_append(cache_hour_lines(init), line + seq!['\n'] + Seq::<char>::empty(), acc, cache_stepper());
        lemma_line_shape(n, h);
        lemma_fold_lines_line(line, Seq::<char>::empty(), mid, cache_stepper());
        lemma_hour_line_step(n, h, mid);
        assert(mid.hours.push(h) =~= acc.hours + slots);
    }
}

proof fn lemma_hour_lines_end(slots: Seq<(Seq<char>, Seq<char>, i32)>)
    ensures
        cache_hour_lines(slots).len() == 0 || cache_hour_lines(slots).last() == '\n',
{
    reveal_strlit("\n");
}

proof fn lemma_line_shape(n: nat, h: (Seq<char>, Seq<char>, i32))
    requires
        slot_writable(h),
    ensures
        index_of("h"@ + dec(n) + "="@ + h.0 + "|"@ + h.1 + "|"@ + dec_int(h.2 as int), '\n') < 0,
        ("h"@ + dec(n) + "="@ + h.0 + "|"@ + h.1 + "|"@ + dec_int(h.2 as int)).last() != '\r',
{
    reveal_strlit("h");
    reveal_strlit("=");
    reveal_strlit("|");
    let code = dec_int(h.2 as int);
    lemma_dec_no_sep(n);
    lemma_dec_int_no_sep(h.2 as int);
    let l = "h"@ + dec(n) + "="@ + h.0 + "|"@ + h.1 + "|"@ + code;
    lemma_single_char('h', '\n');
    lemma_single_char('=', '\n');
    lemma_single_char('|', '\n');
    lemma_no_newline_concat(seq!['h'], dec(n));
    lemma_no_newline_concat(seq!['h'] + dec(n), seq!['=']);
    lemma_no_newline_concat(seq!['h'] + dec(n) + seq!['='], h.0);
    lemma_no_newline_concat(seq!['h'] + dec(n) + seq!['='] + h.0, seq!['|']);
    lemma_no_newline_concat(seq!['h'] + dec(n) + seq!['='] + h.0 + seq!['|'], h.1);
    lemma_no_newline_concat(seq!['h'] + dec(n) + seq!['='] + h.0 + seq!['|'] + h.1, seq!['|']);
    lemma_no_newline_concat(seq!['h'] + dec(n) + seq!['='] + h.0 + seq!['|'] + h.1 + seq!['|'], code);
    assert(l =~= seq!['h'] + dec(n) + seq!['='] + h.0 + seq!['|'] + h.1 + seq!['|'] + code);
    assert(l.last() == code.last());
}

proof fn lemma_no_newline_concat(a: Seq<char>, b: Seq<char>)
    requires
        index_of(a, '\n') < 0,
        index_of(b, '\n') < 0,
    ensures
        index_of(a + b, '\n') < 0,
{
    lemma_index_of_concat(a, b, '\n');
}

proof fn lemma_single_char(c: char, t: char)
    requires
        c != t,
    ensures
        index_of(seq![c], t) < 0,
{
    lemma_index_of_first(seq![c], t, 1);
}

/// A cache line `k=v` is a single line that does not end in a carriage
/// return.
proof fn lemma_line_props(k: Seq<char>, v: Seq<char>)
    requires
        index_of(k, '\n') < 0,
        single_line(v),
        v.len() == 0 || !is_ws(v.last()),
    ensures
        index_of(k + seq!['='] + v, '\n') < 0,
        (k + seq!['='] + v).last() != '\r',
{
    lemma_single_char('=', '\n');
    lemma_no_newline_concat(k, seq!['=']);
    lemma_no_newline_concat(k + seq!['='], v);
    if v.len() > 0 {
        assert((k + seq!['='] + v).last() == v.last());
    }
}

proof fn lemma_key_no_newline(k: Seq<char>)
    requires
        forall|i: int| 0 <= i < k.len() ==> 'a' <= #[trigger] k[i] <= 'z' || k[i] == '_',
    ensures
        index_of(k, '\n') < 0,
{
    crate::text::lemma_index_of_bounds(k, '\n');
    if index_of(k, '\n') >= 0 {
        assert(k[index_of(k, '\n')] == '\n');
    }
}

proof fn lemma_key_no_eq(k: Seq<char>)
    requires
        forall|i: int| 0 <= i < k.len() ==> 'a' <= #[trigger] k[i] <= 'z' || k[i] == '_',
    ensures
        index_of(k, '=') < 0,
{
    crate::text::lemma_index_of_bounds(k, '=');
    if index_of(k, '=') >= 0 {
        assert(k[index_of(k, '=')] == '=');
    }
}

proof fn lemma_key_literals()
    ensures
        "location_index="@ == "location_index"@ + seq!['='],
        "location="@ == seq!['l', 'o', 'c', 'a', 't', 'i', 'o', 'n'] + seq!['='],
        "units="@ == "units"@ + seq!['='],
        "temp="@ == "temp"@ + seq!['='],
        "condition="@ == "condition"@ + seq!['='],
        "last_live_epoch="@ == "last_live_epoch"@ + seq!['='],
        "\n"@ == seq!['\n'],
        index_of("location_index"@, '\n') < 0 && index_of("location_index"@, '=') < 0,
        index_of(seq!['l', 'o', 'c', 'a', 't', 'i', 'o', 'n'], '\n') < 0,
        index_of(seq!['l', 'o', 'c', 'a', 't', 'i', 'o', 'n'], '=') < 0,
        index_of("units"@, '\n') < 0 && index_of("units"@, '=') < 0,
        index_of("temp"@, '\n') < 0 && index_of("temp"@, '=') < 0,
        index_of("condition"@, '\n') < 0 && index_of("condition"@, '=') < 0,
        index_of("last_live_epoch"@, '\n') < 0 && index_of("last_live_epoch"@, '=') < 0,
{
    reveal_strlit("location_index=");
    reveal_strlit("location=");
    reveal_strlit("units=");
    reveal_strlit("temp=");
    reveal_strlit("condition=");
    reveal_strlit("last_live_epoch=");
    reveal_strlit("location_index");
    reveal_strlit("units");
    reveal_strlit("temp");
    reveal_strlit("condition");
    reveal_strlit("last_live_epoch");
    reveal_strlit("\n");
    assert("location_index="@ =~= "location_index"@ + seq!['=']);
    assert("location="@ =~= seq!['l', 'o', 'c', 'a', 't', 'i', 'o', 'n'] + seq!['=']);
    assert("units="@ =~= "units"@ + seq!['=']);
    assert("temp="@ =~= "temp"@ + seq!['=']);
    assert("condition="@ =~= "condition"@ + seq!['=']);
    assert("last_live_epoch="@ =~= "last_live_epoch"@ + seq!['=']);
    lemma_key_no_newline("location_index"@);
    lemma_key_no_newline(seq!['l', 'o', 'c', 'a', 't', 'i', 'o', 'n']);
    lemma_key_no_newline("units"@);
    lemma_key_no_newline("temp"@);
    lemma_key_no_newline("condition"@);
    lemma_key_no_newline("last_live_epoch"@);
    lemma_key_no_eq("location_index"@);
    lemma_key_no_eq(seq!['l', 'o', 'c', 'a', 't', 'i', 'o', 'n']);
    lemma_key_no_eq("units"@);
    lemma_key_no_eq("temp"@);
    lemma_key_no_eq("condition"@);
    lemma_key_no_eq("last_live_epoch"@);
}

proof fn lemma_step_location_index(n: usize, acc: CacheRead)
    requires
        n <= 3,
    ensures
        cache_step("location_index"@ + seq!['='] + dec(n as nat), acc)
            == (CacheRead { location_index: Some(n), loaded_any: true, ..acc }),
{
    reveal_strlit("location_index");
    lemma_key_no_eq("location_index"@);
    lemma_dec_no_sep(n as nat);
    lemma_split_line("location_index"@, dec(n as nat));
    lemma_trim_fixed(dec(n as nat));
    lemma_parse_dec(n as nat);
}

proof fn lemma_step_location(label: Seq<char>, acc: CacheRead)
    ensures
        cache_step(strip_cr(seq!['l', 'o', 'c', 'a', 't', 'i', 'o', 'n'] + seq!['='] + label), acc) == acc,
{
    reveal_strlit("location_index");
    reveal_strlit("units");
    reveal_strlit("temp");
    reveal_strlit("condition");
    reveal_strlit("last_live_epoch");
    let k = seq!['l', 'o', 'c', 'a', 't', 'i', 'o', 'n'];
    lemma_key_no_eq(k);
    let line = strip_cr(k + seq!['='] + label);
    let l = trim(line);
    assert(line.len() >= 9);
    assert(line.subrange(0, 9) =~= k + seq!['=']);
    crate::text::lemma_trim_start_skip(line, 0);
    let te = crate::text::trim_end(line);
    crate::text::lemma_trim_end_keeps_prefix(line, 9);
    assert(l == te);
    assert(l.subrange(0, 9) =~= k + seq!['=']);
    assert(l[8] == l.subrange(0, 9)[8]);
    assert(l[8] == '=');
    assert(l.subrange(0, 8) =~= l.subrange(0, 9).subrange(0, 8));
    assert(l.subrange(0, 8) =~= k);
    let tail = l.subrange(8, l.len() as int);
    assert(tail[0] == '=');
    lemma_index_of_concat(k, tail, '=');
    assert(l =~= l.subrange(0, 8) + tail);
    assert(l =~= k + tail);
    lemma_index_of_first(tail, '=', 0);
    assert(index_of(l, '=') == 8);
    assert(l.subrange(0, 8) =~= k);
    lemma_trim_fixed(k);
    assert(l[0] == 'l');
    assert(k != "location_index"@);
    assert(k != "units"@);
    assert(k != "temp"@);
    assert(k != "condition"@);
    assert(k != "last_live_epoch"@);
}

proof fn lemma_step_units(u: WeatherUnits, acc: CacheRead)
    ensures
        cache_step("units"@ + seq!['='] + u.suffix_spec(), acc) == (CacheRead { units: Some(u), loaded_any: true, ..acc }),
{
    reveal_strlit("location_index");
    reveal_strlit("units");
    reveal_strlit("F");
    reveal_strlit("C");
    reveal_strlit("c");
    reveal_strlit("celsius");
    let v = u.suffix_spec();
    lemma_key_no_eq("units"@);
    lemma_split_line("units"@, v);
    lemma_trim_fixed(v);
    assert("units"@ != "location_index"@);
    match u {
        WeatherUnits::Fahrenheit => {
            assert(v =~= seq!['F']);
            assert(trim(v) == v);
            assert(crate::text::ascii_lower(v) =~= seq!['f']);
            assert(seq!['f'][0] != "c"@[0]);
            assert(seq!['f'] != "c"@);
            assert(seq!['f'] != "celsius"@);
        },
        WeatherUnits::Celsius => {
            assert(v =~= seq!['C']);
            assert(trim(v) == v);
            assert(crate::text::ascii_lower(v) =~= seq!['c']);
            assert(seq!['c'] =~= "c"@);
        },
    }
    assert(WeatherUnits::from_label_spec(v) == u);
}

proof fn lemma_step_temp(t: Seq<char>, acc: CacheRead)
    requires
        trimmed(t),
    ensures
        cache_step("temp"@ + seq!['='] + t, acc) == (CacheRead { temp: Some(t), loaded_any: true, ..acc }),
{
    reveal_strlit("location_index");
    reveal_strlit("units");
    reveal_strlit("temp");
    lemma_key_no_eq("temp"@);
    lemma_split_line("temp"@, t);
    lemma_trim_fixed(t);
    assert("temp"@ != "location_index"@);
    assert("temp"@ != "units"@);
}

proof fn lemma_step_condition(c: Seq<char>, acc: CacheRead)
    requires
        trimmed(c),
    ensures
        cache_step("condition"@ + seq!['='] + c, acc) == (CacheRead { condition: Some(c), loaded_any: true, ..acc }),
{
    reveal_strlit("location_index");
    reveal_strlit("units");
    reveal_strlit("temp");
    reveal_strlit("condition");
    lemma_key_no_eq("condition"@);
    lemma_split_line("condition"@, c);
    lemma_trim_fixed(c);
    assert("condition"@ != "location_index"@);
    assert("condition"@ != "units"@);
    assert("condition"@ != "temp"@);
}

proof fn lemma_step_epoch(e: i64, acc: CacheRead)
    ensures
        cache_step("last_live_epoch"@ + seq!['='] + dec_int(e as int), acc) == (CacheRead { last_live_epoch: Some(e), ..acc }),
{
    reveal_strlit("location_index");
    reveal_strlit("units");
    reveal_strlit("temp");
    reveal_strlit("condition");
    reveal_strlit("last_live_epoch");
    let v = dec_int(e as int);
    lemma_key_no_eq("last_live_epoch"@);
    lemma_dec_int_no_sep(e as int);
    lemma_split_line("last_live_epoch"@, v);
    lemma_trim_fixed(v);
    lemma_parse_dec_int(e as int);
    assert("last_live_epoch"@ != "location_index"@);
    assert("last_live_epoch"@ != "units"@);
    assert("last_live_epoch"@ != "temp"@);
    assert("last_live_epoch"@ != "condition"@);
}

/// Loading the cache text written for a weather state reads back its
/// location index, units, temperature and condition labels, live-data time
/// and first four hour slots.
#[verifier::rlimit(60)]
pub proof fn lemma_cache_text_reads_back(s: WeatherState)
    requires
        cache_writable(s),
    ensures
        cache_read(cache_text_spec(s)) == (CacheRead {
            loaded_any: true,
            location_index: Some(s.location_index),
            units: Some(s.units),
            temp: Some(s.temperature_label@),
            condition: Some(s.condition_label@),
            last_live_epoch: Some(s.last_live_epoch),
            hours: first_four(slots_view(s.hourly_slots@)),
        }),
{
    lemma_key_literals();
    let step = cache_stepper();
    let k2 = seq!['l', 'o', 'c', 'a', 't', 'i', 'o', 'n'];
    let v1 = dec(s.location_index as nat);
    let v2 = s.location_label@;
    let v3 = s.units.suffix_spec();
    let v4 = s.temperature_label@;
    let v5 = s.condition_label@;
    let v6 = dec_int(s.last_live_epoch as int);
    let l1 = "location_index"@ + seq!['='] + v1;
    let l2 = k2 + seq!['='] + v2;
    let l3 = "units"@ + seq!['='] + v3;
    let l4 = "temp"@ + seq!['='] + v4;
    let l5 = "condition"@ + seq!['='] + v5;
    let l6 = "last_live_epoch"@ + seq!['='] + v6;
    let slots = first_four(slots_view(s.hourly_slots@));
    let h = cache_hour_lines(slots);
    let nl = seq!['\n'];
    let r6 = l6 + nl + h;
    let r5 = l5 + nl + r6;
    let r4 = l4 + nl + r5;
    let r3 = l3 + nl + r4;
    let r2 = l2 + nl + r3;
    let r1 = l1 + nl + r2;
    assert(cache_text_spec(s) =~= r1);
    lemma_dec_no_sep(s.location_index as nat);
    lemma_dec_int_no_sep(s.last_live_epoch as int);
    lemma_units_line(s.units);
    lemma_line_props("location_index"@, v1);
    lemma_single_char('=', '\n');
    lemma_no_newline_concat(k2, seq!['=']);
    lemma_no_newline_concat(k2 + seq!['='], v2);
    lemma_line_props("units"@, v3);
    lemma_line_props("temp"@, v4);
    lemma_line_props("condition"@, v5);
    lemma_line_props("last_live_epoch"@, v6);
    let a0 = cache_read_empty();
    lemma_fold_lines_line(l1, r2, a0, step);
    let a1 = cache_step(l1, a0);
    lemma_step_location_index(s.location_index, a0);
    lemma_fold_lines_line_cr(l2, r3, a1, step);
    let a2 = cache_step(strip_cr(l2), a1);
    lemma_step_location(v2, a1);
    lemma_fold_lines_line(l3, r4, a2, step);
    let a3 = cache_step(l3, a2);
    lemma_step_units(s.units, a2);
    lemma_fold_lines_line(l4, r5, a3, step);
    let a4 = cache_step(l4, a3);
    lemma_step_temp(v4, a3);
    lemma_fold_lines_line(l5, r6, a4, step);
    let a5 = cache_step(l5, a4);
    lemma_step_condition(v5, a4);
    lemma_fold_lines_line(l6, h, a5, step);
    let a6 = cache_step(l6, a5);
    lemma_step_epoch(s.last_live_epoch, a5);
    lemma_fold_hour_lines(slots, a6);
    assert(Seq::<(Seq<char>, Seq<char>, i32)>::empty() + slots =~= slots);
}

proof fn lemma_units_line(u: WeatherUnits)
    ensures
        single_line(u.suffix_spec()),
        u.suffix_spec().len() > 0 && !is_ws(u.suffix_spec().last()),
{
    reveal_strlit("F");
    reveal_strlit("C");
    lemma_single_char('F', '\n');
    lemma_single_char('C', '\n');
    assert(u.suffix_spec() =~= seq!['F'] || u.suffix_spec() =~= seq!['C']);
}

/// Writing a weather state's cache text and loading it into any state
/// restores the location, units, temperature and condition, live-data time
/// and (when the written state had any) the first four hour slots, and marks
/// a shown temperature stale from cache.
pub proof fn lemma_cache_text_restores(s: WeatherState, before: WeatherState, after: WeatherState)
    requires
        cache_writable(s),
        cache_applied(before, after, cache_read(cache_text_spec(s))),
    ensures
        after.location_index == s.location_index,
        after.location_label@ == location_label_spec(s.location_index as int),
        after.units == s.units,
        after.temperature_label@ == s.temperature_label@,
        after.condition_label@ == s.condition_label@,
        after.last_live_epoch == s.last_live_epoch,
        slots_view(after.hourly_slots@) == (if s.hourly_slots@.len() > 0 {
            first_four(slots_view(s.hourly_slots@))
        } else {
            slots_view(before.hourly_slots@)
        }),
        s.temperature_label@ != "--"@ ==> after.provider_status == crate::weather::WeatherProviderStatus::Stale,
{
    lemma_cache_text_reads_back(s);
    let slots = first_four(slots_view(s.hourly_slots@));
    assert(slots.len() > 0 <==> s.hourly_slots@.len() > 0);
    assert(first_four(slots) =~= slots);
}

} // verus!

