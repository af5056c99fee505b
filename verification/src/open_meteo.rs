//! Reading an Open-Meteo forecast reply.
//!
//! The reply is JSON, read the way the firmware always has: a field is found
//! by the first occurrence of its quoted key, its value starts after the next
//! colon and any white space, objects and arrays end at their balancing
//! bracket (brackets inside strings do not count), and numbers are the run of
//! digits, signs and points that follows. Turning a number into a value is a
//! floating-point step left to the caller; this module hands over the number
//! tokens, each of which is a valid float literal.

use vstd::prelude::*;
use crate::text::{all_digits, ascii_lower, char_is_ws, index_of, is_digit, is_ws, str_chars, trim};

verus! {

// ---------------------------------------------------------------------------
// Locating values
// ---------------------------------------------------------------------------

/// First position at or after `i` where `p` occurs in `s` (`str::find`).
pub open spec fn find_from(s: Seq<char>, p: Seq<char>, i: int) -> Option<int>
    decreases s.len() + 1 - i,
{
    if i < 0 || i + p.len() > s.len() {
        None
    } else if s.subrange(i, i + p.len()) == p {
        Some(i)
    } else {
        find_from(s, p, i + 1)
    }
}

/// `key` in double quotes.
pub open spec fn quoted_key(key: Seq<char>) -> Seq<char> {
    seq!['"'] + key + seq!['"']
}

/// First position at or after `i` that is the end of `s` or not white space.
pub open spec fn skip_ws(s: Seq<char>, i: int) -> int
    decreases s.len() - i,
{
    if 0 <= i < s.len() && is_ws(s[i]) {
        skip_ws(s, i + 1)
    } else {
        i
    }
}

/// Where the value of `key` starts: after the first occurrence of the quoted
/// key, the next colon and the white space that follows it.
pub open spec fn value_start(s: Seq<char>, key: Seq<char>) -> Option<int> {
    match find_from(s, quoted_key(key), 0) {
        None => None,
        Some(kp) => {
            let after = kp + quoted_key(key).len();
            let ci = index_of(s.subrange(after, s.len() as int), ':');
            if ci < 0 {
                None
            } else {
                Some(skip_ws(s, after + ci + 1))
            }
        },
    }
}

/// Scans `s` from `i` for the bracket `close` that brings the nesting depth
/// back to zero, skipping strings (with backslash escapes).
pub open spec fn scan_close(
    s: Seq<char>,
    i: int,
    open: char,
    close: char,
    depth: int,
    in_str: bool,
    esc: bool,
) -> Option<int>
    decreases s.len() - i,
{
    if i < 0 || i >= s.len() {
        None
    } else {
        let c = s[i];
        if in_str {
            if esc {
                scan_close(s, i + 1, open, close, depth, true, false)
            } else if c == '\\' {
                scan_close(s, i + 1, open, close, depth, true, true)
            } else if c == '"' {
                scan_close(s, i + 1, open, close, depth, false, false)
            } else {
                scan_close(s, i + 1, open, close, depth, true, false)
            }
        } else if c == '"' {
            scan_close(s, i + 1, open, close, depth, true, false)
        } else if c == open {
            scan_close(s, i + 1, open, close, depth + 1, false, false)
        } else if c == close {
            if depth - 1 == 0 {
                Some(i)
            } else {
                scan_close(s, i + 1, open, close, depth - 1, false, false)
            }
        } else {
            scan_close(s, i + 1, open, close, depth, false, false)
        }
    }
}

/// The bounds `[start, end)` of the object (`{`..`}`) or array (`[`..`]`)
/// that is the value of `key`.
pub open spec fn collection_after_key(s: Seq<char>, key: Seq<char>, open: char, close: char) -> Option<(int, int)> {
    match value_start(s, key) {
        None => None,
        Some(p) => if p < s.len() && s[p] == open {
            match scan_close(s, p, open, close, 0, false, false) {
                Some(e) => Some((p, e + 1)),
                None => None,
            }
        } else {
            None
        },
    }
}

/// The text of the object or array that is the value of `key`.
pub open spec fn collection_text(s: Seq<char>, key: Seq<char>, open: char, close: char) -> Option<Seq<char>> {
    match collection_after_key(s, key, open, close) {
        None => None,
        Some((a, b)) => Some(s.subrange(a, b)),
    }
}

proof fn lemma_find_from_bounds(s: Seq<char>, p: Seq<char>, i: int)
    ensures
        find_from(s, p, i) matches Some(k) ==> i <= k && k + p.len() <= s.len()
            && s.subrange(k, k + p.len()) == p,
    decreases s.len() + 1 - i,
{
    if !(i < 0 || i + p.len() > s.len()) && s.subrange(i, i + p.len()) != p {
        lemma_find_from_bounds(s, p, i + 1);
    }
}

proof fn lemma_skip_ws_bounds(s: Seq<char>, i: int)
    requires
        0 <= i <= s.len(),
    ensures
        i <= skip_ws(s, i) <= s.len(),
    decreases s.len() - i,
{
    if 0 <= i < s.len() && is_ws(s[i]) {
        lemma_skip_ws_bounds(s, i + 1);
    }
}

proof fn lemma_scan_close_bounds(
    s: Seq<char>,
    i: int,
    open: char,
    close: char,
    depth: int,
    in_str: bool,
    esc: bool,
)
    ensures
        scan_close(s, i, open, close, depth, in_str, esc) matches Some(e) ==> i <= e < s.len() && s[e] == close,
    decreases s.len() - i,
{
    if 0 <= i < s.len() {
        let c = s[i];
        if in_str {
            if esc {
                lemma_scan_close_bounds(s, i + 1, open, close, depth, true, false);
            } else if c == '\\' {
                lemma_scan_close_bounds(s, i + 1, open, close, depth, true, true);
            } else if c == '"' {
                lemma_scan_close_bounds(s, i + 1, open, close, depth, false, false);
            } else {
                lemma_scan_close_bounds(s, i + 1, open, close, depth, true, false);
            }
        } else if c == '"' {
            lemma_scan_close_bounds(s, i + 1, open, close, depth, true, false);
        } else if c == open {
            lemma_scan_close_bounds(s, i + 1, open, close, depth + 1, false, false);
        } else if c == close {
            if depth - 1 != 0 {
                lemma_scan_close_bounds(s, i + 1, open, close, depth - 1, false, false);
            }
        } else {
            lemma_scan_close_bounds(s, i + 1, open, close, depth, false, false);
        }
    }
}

/// First position at or after `i` where `p` occurs in `s`.
fn find_seq_from(s: &Vec<char>, p: &Vec<char>, i: usize) -> (r: Option<usize>)
    requires
        i <= s@.len(),
    ensures
        match r {
            Some(k) => find_from(s@, p@, i as int) == Some(k as int),
            None => find_from(s@, p@, i as int) is None,
        },
{
    if p.len() > s.len() {
        return None;
    }
    let n: usize = s.len();
    let last: usize = n - p.len();
    let mut j: usize = i;
    while j <= last
        invariant
            i <= j,
            n == s@.len(),
            p@.len() <= s@.len(),
            last == s@.len() - p@.len(),
            find_from(s@, p@, i as int) == find_from(s@, p@, j as int),
        decreases last + 1 - j,
    {
        let mut k: usize = 0;
        let mut same = true;
        while k < p.len()
            invariant
                j <= last,
                n == s@.len(),
                p@.len() <= s@.len(),
                last == s@.len() - p@.len(),
                k <= p@.len(),
                same <==> (forall|t: int| 0 <= t < k ==> s@[j + t] == p@[t]),
            decreases p@.len() - k,
        {
            if s[j + k] != p[k] {
                same = false;
            }
            k = k + 1;
        }
        if same {
            assert(s@.subrange(j as int, j + p@.len()) =~= p@);
            return Some(j);
        }
        proof {
            if s@.subrange(j as int, j + p@.len()) == p@ {
                let t = choose|t: int| 0 <= t < p@.len() && s@[j + t] != p@[t];
                assert(s@.subrange(j as int, j + p@.len())[t] == s@[j + t]);
            }
        }
        if j == last {
            assert(find_from(s@, p@, j as int + 1) is None);
            return None;
        }
        j = j + 1;
    }
    None
}

/// First position at or after `i` that is the end of `s` or not white space.
fn skip_ws_from(s: &Vec<char>, i: usize) -> (r: usize)
    requires
        i <= s@.len(),
    ensures
        r == skip_ws(s@, i as int),
        i <= r <= s@.len(),
{
    let mut j = i;
    while j < s.len() && char_is_ws(s[j])
        invariant
            i <= j <= s@.len(),
            skip_ws(s@, i as int) == skip_ws(s@, j as int),
        decreases s@.len() - j,
    {
        j = j + 1;
    }
    j
}

/// `key` in double quotes.
fn quoted(key: &str) -> (r: Vec<char>)
    ensures
        r@ == quoted_key(key@),
{
    let k = str_chars(key);
    let mut r: Vec<char> = Vec::new();
    r.push('"');
    let mut i: usize = 0;
    while i < k.len()
        invariant
            i <= k@.len(),
            r@ == seq!['"'] + k@.subrange(0, i as int),
        decreases k@.len() - i,
    {
        r.push(k[i]);
        assert(k@.subrange(0, i + 1) =~= k@.subrange(0, i as int).push(k@[i as int]));
        i = i + 1;
    }
    r.push('"');
    assert(k@.subrange(0, k@.len() as int) =~= key@);
    assert(r@ =~= quoted_key(key@));
    r
}

/// Where the value of `key` starts in `s`.
fn value_start_of(s: &Vec<char>, key: &str) -> (r: Option<usize>)
    ensures
        match r {
            Some(p) => value_start(s@, key@) == Some(p as int) && p <= s@.len(),
            None => value_start(s@, key@) is None,
        },
{
    let marker = quoted(key);
    let n: usize = s.len();
    match find_seq_from(s, &marker, 0) {
        None => None,
        Some(kp) => {
            proof {
                lemma_find_from_bounds(s@, marker@, 0);
                assert(kp + marker@.len() <= n);
            }
            let after: usize = kp + marker.len();
            match crate::text::find_char(s, after, s.len(), ':') {
                None => None,
                Some(ci) => {
                    let p = skip_ws_from(s, ci + 1);
                    Some(p)
                },
            }
        },
    }
}

/// Where the collection that starts at `start` (on an `open` bracket) ends.
fn skip_json_collection(s: &Vec<char>, start: usize, open: char, close: char) -> (r: Option<usize>)
    requires
        start < s@.len(),
        s@[start as int] == open,
        open != close,
        open != '"',
    ensures
        match r {
            Some(e) => scan_close(s@, start as int, open, close, 0, false, false) == Some(e as int),
            None => scan_close(s@, start as int, open, close, 0, false, false) is None,
        },
{
    let mut i: usize = start;
    let mut depth: usize = 0;
    let mut in_str = false;
    let mut esc = false;
    while i < s.len()
        invariant
            start <= i <= s@.len(),
            s@[start as int] == open,
            open != close,
            open != '"',
            depth <= i,
            i == start ==> (depth == 0 && !in_str && !esc),
            !in_str ==> !esc,
            i > start ==> depth >= 1,
            scan_close(s@, start as int, open, close, 0, false, false)
                == scan_close(s@, i as int, open, close, depth as int, in_str, esc),
        decreases s@.len() - i,
    {
        let c = s[i];
        if in_str {
            if esc {
                esc = false;
            } else if c == '\\' {
                esc = true;
            } else if c == '"' {
                in_str = false;
            }
        } else if c == '"' {
            in_str = true;
        } else if c == open {
            depth = depth + 1;
        } else if c == close {
            if depth == 1 {
                return Some(i);
            }
            depth = depth - 1;
        }
        i = i + 1;
    }
    None
}

/// The text of the object or array that is the value of `key`.
fn collection_of(s: &Vec<char>, key: &str, open: char, close: char) -> (r: Option<Vec<char>>)
    requires
        open != close,
        open != '"',
    ensures
        match r {
            Some(v) => collection_text(s@, key@, open, close) == Some(v@),
            None => collection_text(s@, key@, open, close) is None,
        },
{
    match value_start_of(s, key) {
        None => None,
        Some(p) => {
            if p < s.len() && s[p] == open {
                match skip_json_collection(s, p, open, close) {
                    None => None,
                    Some(e) => {
                        proof {
                            lemma_scan_close_bounds(s@, p as int, open, close, 0, false, false);
                        }
                        let n = s.len();
                        let mut out: Vec<char> = Vec::new();
                        let mut i: usize = p;
                        while i <= e
                            invariant
                                p <= i <= e + 1,
                                e < s@.len(),
                                n == s@.len(),
                                out@ == s@.subrange(p as int, i as int),
                            decreases e + 1 - i,
                        {
                            out.push(s[i]);
                            assert(s@.subrange(p as int, i + 1) =~= s@.subrange(p as int, i as int).push(s@[i as int]));
                            i = i + 1;
                        }
                        Some(out)
                    },
                }
            } else {
                None
            }
        },
    }
}

/// The text of the object that is the value of `key`, braces included.
fn json_object_after_key(s: &Vec<char>, key: &str) -> (r: Option<Vec<char>>)
    ensures
        match r {
            Some(v) => collection_text(s@, key@, '{', '}') == Some(v@),
            None => collection_text(s@, key@, '{', '}') is None,
        },
{
    collection_of(s, key, '{', '}')
}

/// The text of the array that is the value of `key`, brackets included.
fn json_array_after_key(s: &Vec<char>, key: &str) -> (r: Option<Vec<char>>)
    ensures
        match r {
            Some(v) => collection_text(s@, key@, '[', ']') == Some(v@),
            None => collection_text(s@, key@, '[', ']') is None,
        },
{
    collection_of(s, key, '[', ']')
}

// ---------------------------------------------------------------------------
// Strings
// ---------------------------------------------------------------------------

/// Position of the quote that closes a string whose body starts at `i`
/// (`esc`: the previous character was an unconsumed backslash).
pub open spec fn quote_close(s: Seq<char>, i: int, esc: bool) -> Option<int>
    decreases s.len() - i,
{
    if i < 0 || i >= s.len() {
        None
    } else if esc {
        quote_close(s, i + 1, false)
    } else if s[i] == '\\' {
        quote_close(s, i + 1, true)
    } else if s[i] == '"' {
        Some(i)
    } else {
        quote_close(s, i + 1, false)
    }
}

/// Length, both quotes included, of the string literal that starts at `i`.
pub open spec fn quoted_len(s: Seq<char>, i: int) -> Option<int> {
    if 0 <= i < s.len() && s[i] == '"' {
        match quote_close(s, i + 1, false) {
            Some(c) => Some(c - i + 1),
            None => None,
        }
    } else {
        None
    }
}

/// `s` with every non-overlapping occurrence of `pat`, left to right,
/// replaced by `rep` (`str::replace`).
pub open spec fn replace_all(s: Seq<char>, pat: Seq<char>, rep: Seq<char>) -> Seq<char>
    decreases s.len(),
{
    if pat.len() == 0 || s.len() < pat.len() {
        s
    } else if s.subrange(0, pat.len() as int) == pat {
        rep + replace_all(s.subrange(pat.len() as int, s.len() as int), pat, rep)
    } else {
        seq![s[0]] + replace_all(s.drop_first(), pat, rep)
    }
}

/// The text of a string body: `\"` becomes `"`, then `\\` becomes `\`.
pub open spec fn unescape(body: Seq<char>) -> Seq<char> {
    replace_all(replace_all(body, seq!['\\', '"'], seq!['"']), seq!['\\', '\\'], seq!['\\'])
}

/// The text of the string literal that starts at `i`.
pub open spec fn string_at(s: Seq<char>, i: int) -> Option<Seq<char>> {
    match quoted_len(s, i) {
        Some(n) => Some(unescape(s.subrange(i + 1, i + n - 1))),
        None => None,
    }
}

/// The text of the string that is the value of `key`.
pub open spec fn string_field(s: Seq<char>, key: Seq<char>) -> Option<Seq<char>> {
    match value_start(s, key) {
        None => None,
        Some(p) => string_at(s, p),
    }
}

pub proof fn lemma_quote_close_bounds(s: Seq<char>, i: int, esc: bool)
    ensures
        quote_close(s, i, esc) matches Some(c) ==> i <= c < s.len() && s[c] == '"',
    decreases s.len() - i,
{
    if 0 <= i < s.len() {
        if esc {
            lemma_quote_close_bounds(s, i + 1, false);
        } else if s[i] == '\\' {
            lemma_quote_close_bounds(s, i + 1, true);
        } else if s[i] != '"' {
            lemma_quote_close_bounds(s, i + 1, false);
        }
    }
}

/// Length, both quotes included, of the string literal at `i`.
fn quoted_json_len(s: &Vec<char>, i: usize) -> (r: Option<usize>)
    requires
        i <= s@.len(),
    ensures
        match r {
            Some(n) => quoted_len(s@, i as int) == Some(n as int) && 2 <= n && i + n <= s@.len(),
            None => quoted_len(s@, i as int) is None,
        },
{
    let len = s.len();
    if i >= len || s[i] != '"' {
        return None;
    }
    let mut j: usize = i + 1;
    let mut esc = false;
    while j < len
        invariant
            i < j <= len,
            len == s@.len(),
            s@[i as int] == '"',
            quote_close(s@, i + 1, false) == quote_close(s@, j as int, esc),
        decreases len - j,
    {
        let c = s[j];
        if esc {
            esc = false;
        } else if c == '\\' {
            esc = true;
        } else if c == '"' {
            return Some(j - i + 1);
        }
        j = j + 1;
    }
    None
}

/// `v` with each pair `a b` (left to right, not overlapping) replaced by `r`.
fn replace_pair(v: &Vec<char>, a: char, b: char, r: char) -> (out: Vec<char>)
    ensures
        out@ == replace_all(v@, seq![a, b], seq![r]),
{
    let ghost pat = seq![a, b];
    let ghost rep = seq![r];
    let len = v.len();
    let mut out: Vec<char> = Vec::new();
    let mut i: usize = 0;
    proof {
        assert(v@.subrange(0, len as int) =~= v@);
        assert(out@ + replace_all(v@, pat, rep) =~= replace_all(v@, pat, rep));
    }
    while i < len
        invariant
            i <= len,
            len == v@.len(),
            pat == seq![a, b],
            rep == seq![r],
            replace_all(v@, pat, rep) == out@ + replace_all(v@.subrange(i as int, len as int), pat, rep),
        decreases len - i,
    {
        let ghost rest = v@.subrange(i as int, len as int);
        if i + 1 < len && v[i] == a && v[i + 1] == b {
            proof {
                assert(rest.subrange(0, 2) =~= pat);
                assert(rest.subrange(2, rest.len() as int) =~= v@.subrange(i + 2, len as int));
                assert(out@.push(r) =~= out@ + rep);
            }
            out.push(r);
            i = i + 2;
        } else {
            proof {
                if rest.len() >= 2 {
                    assert(rest.subrange(0, 2) != pat) by {
                        if rest.subrange(0, 2) == pat {
                            assert(rest.subrange(0, 2)[0] == v@[i as int]);
                            assert(rest.subrange(0, 2)[1] == v@[i + 1]);
                        }
                    }
                }
                assert(rest.drop_first() =~= v@.subrange(i + 1, len as int));
                assert(rest[0] == v@[i as int]);
            }
            out.push(v[i]);
            proof {
                assert(out@ =~= out@.drop_last() + seq![v@[i as int]]);
            }
            i = i + 1;
        }
    }
    proof {
        assert(v@.subrange(len as int, len as int) =~= Seq::<char>::empty());
        assert(out@ + Seq::<char>::empty() =~= out@);
    }
    out
}

/// The text of the string literal at `i`, if one starts there.
fn parse_json_string_prefix(s: &Vec<char>, i: usize) -> (r: Option<String>)
    requires
        i <= s@.len(),
    ensures
        match r {
            Some(t) => string_at(s@, i as int) == Some(t@),
            None => string_at(s@, i as int) is None,
        },
{
    let len = s.len();
    match quoted_json_len(s, i) {
        None => None,
        Some(n) => {
            assert(i + n <= len);
            let mut body: Vec<char> = Vec::new();
            let end: usize = i + n - 1;
            let mut k: usize = i + 1;
            while k < end
                invariant
                    end == i + n - 1,
                    i + 1 <= k <= i + n - 1,
                    i + n <= s@.len(),
                    body@ == s@.subrange(i + 1, k as int),
                decreases i + n - 1 - k,
            {
                body.push(s[k]);
                assert(s@.subrange(i + 1, k + 1) =~= s@.subrange(i + 1, k as int).push(s@[k as int]));
                k = k + 1;
            }
            let once = replace_pair(&body, '\\', '"', '"');
            let twice = replace_pair(&once, '\\', '\\', '\\');
            Some(crate::text::string_from_chars(&twice))
        },
    }
}

/// The text of the string that is the value of `key`.
fn parse_json_string_field(s: &Vec<char>, key: &str) -> (r: Option<String>)
    ensures
        match r {
            Some(t) => string_field(s@, key@) == Some(t@),
            None => string_field(s@, key@) is None,
        },
{
    match value_start_of(s, key) {
        None => None,
        Some(p) => parse_json_string_prefix(s, p),
    }
}

// ---------------------------------------------------------------------------
// Numbers
// ---------------------------------------------------------------------------

/// A character that can belong to a number token.
pub open spec fn is_number_char(c: char) -> bool {
    is_digit(c) || c == '-' || c == '+' || c == '.'
}

/// End of the run of number characters that starts at `i`.
pub open spec fn number_run_end(s: Seq<char>, i: int) -> int
    decreases s.len() - i,
{
    if 0 <= i < s.len() && is_number_char(s[i]) {
        number_run_end(s, i + 1)
    } else {
        i
    }
}

/// `Digit+ | Digit+ '.' Digit* | Digit* '.' Digit+`.
pub open spec fn is_decimal_mantissa(m: Seq<char>) -> bool {
    let d = index_of(m, '.');
    if d < 0 {
        m.len() > 0 && all_digits(m)
    } else {
        let int_part = m.subrange(0, d);
        let frac = m.subrange(d + 1, m.len() as int);
        all_digits(int_part) && all_digits(frac) && (int_part.len() > 0 || frac.len() > 0)
    }
}

/// What may follow the `e` of an exponent: `Sign? Digit+`.
pub open spec fn is_exponent_tail(t: Seq<char>) -> bool {
    let b = if t.len() > 0 && (t[0] == '+' || t[0] == '-') {
        t.drop_first()
    } else {
        t
    };
    b.len() > 0 && all_digits(b)
}

/// An unsigned, lower-case number: a mantissa, then optionally `e` and an
/// exponent.
pub open spec fn is_number_literal(b: Seq<char>) -> bool {
    let e = index_of(b, 'e');
    if e < 0 {
        is_decimal_mantissa(b)
    } else {
        is_decimal_mantissa(b.subrange(0, e)) && is_exponent_tail(b.subrange(e + 1, b.len() as int))
    }
}

/// Whether `str::parse::<f32>` accepts `s`: by its documented grammar, an
/// optional sign, then `inf`, `infinity`, `nan` or a number, letters in
/// either case.
pub open spec fn is_float_literal(s: Seq<char>) -> bool {
    let l = ascii_lower(s);
    let b = if l.len() > 0 && (l[0] == '+' || l[0] == '-') {
        l.drop_first()
    } else {
        l
    };
    b == "inf"@ || b == "infinity"@ || b == "nan"@ || is_number_literal(b)
}

/// The number token that is the value of `key`: the run of digits, signs
/// and points at its start, when that run is a float literal.
pub open spec fn number_field(s: Seq<char>, key: Seq<char>) -> Option<Seq<char>> {
    match value_start(s, key) {
        None => None,
        Some(p) => {
            let tok = s.subrange(p, number_run_end(s, p));
            if tok.len() > 0 && is_float_literal(tok) {
                Some(tok)
            } else {
                None
            }
        },
    }
}

proof fn lemma_number_run_end_bounds(s: Seq<char>, i: int)
    requires
        0 <= i <= s.len(),
    ensures
        i <= number_run_end(s, i) <= s.len(),
    decreases s.len() - i,
{
    if 0 <= i < s.len() && is_number_char(s[i]) {
        lemma_number_run_end_bounds(s, i + 1);
    }
}

/// Whether `v[a..b]` is all ASCII digits.
fn digits_only(v: &Vec<char>, a: usize, b: usize) -> (r: bool)
    requires
        a <= b <= v@.len(),
    ensures
        r == all_digits(v@.subrange(a as int, b as int)),
{
    let mut i = a;
    while i < b
        invariant
            a <= i <= b <= v@.len(),
            forall|k: int| a <= k < i ==> is_digit(#[trigger] v@[k]),
        decreases b - i,
    {
        if !('0' <= v[i] && v[i] <= '9') {
            assert(v@.subrange(a as int, b as int)[i - a] == v@[i as int]);
            return false;
        }
        i = i + 1;
    }
    assert forall|k: int| 0 <= k < b - a implies is_digit(#[trigger] v@.subrange(a as int, b as int)[k]) by {
        assert(v@.subrange(a as int, b as int)[k] == v@[a + k]);
    }
    true
}

/// Whether `v[a..b]` is a decimal mantissa.
fn mantissa_ok(v: &Vec<char>, a: usize, b: usize) -> (r: bool)
    requires
        a <= b <= v@.len(),
    ensures
        r == is_decimal_mantissa(v@.subrange(a as int, b as int)),
{
    let ghost m = v@.subrange(a as int, b as int);
    match crate::text::find_char(v, a, b, '.') {
        None => b > a && digits_only(v, a, b),
        Some(d) => {
            proof {
                assert(m.subrange(0, d - a) =~= v@.subrange(a as int, d as int));
                assert(m.subrange(d - a + 1, m.len() as int) =~= v@.subrange(d + 1, b as int));
            }
            digits_only(v, a, d) && digits_only(v, d + 1, b) && (d > a || b > d + 1)
        },
    }
}

/// Whether the characters of `v` form a float literal.
fn float_literal_ok(v: &Vec<char>) -> (r: bool)
    ensures
        r == is_float_literal(v@),
{
    let n = v.len();
    let l = crate::text::lower_range(v, 0, n);
    proof {
        assert(v@.subrange(0, n as int) =~= v@);
    }
    let ln = l.len();
    let start: usize = if ln > 0 && (l[0] == '+' || l[0] == '-') { 1 } else { 0 };
    let ghost body = l@.subrange(start as int, ln as int);
    proof {
        if start == 1 {
            assert(body =~= l@.drop_first());
        } else {
            assert(body =~= l@);
        }
    }
    if crate::text::range_eq_str(&l, start, ln, "inf") || crate::text::range_eq_str(&l, start, ln, "infinity")
        || crate::text::range_eq_str(&l, start, ln, "nan") {
        return true;
    }
    match crate::text::find_char(&l, start, ln, 'e') {
        None => mantissa_ok(&l, start, ln),
        Some(e) => {
            proof {
                assert(body.subrange(0, e - start) =~= l@.subrange(start as int, e as int));
                assert(body.subrange(e - start + 1, body.len() as int) =~= l@.subrange(e + 1, ln as int));
            }
            if !mantissa_ok(&l, start, e) {
                return false;
            }
            let t0: usize = e + 1;
            let ghost t = l@.subrange(t0 as int, ln as int);
            let d0: usize = if t0 < ln && (l[t0] == '+' || l[t0] == '-') { t0 + 1 } else { t0 };
            proof {
                if d0 == t0 + 1 {
                    assert(t.drop_first() =~= l@.subrange(d0 as int, ln as int));
                } else {
                    assert(t =~= l@.subrange(d0 as int, ln as int));
                }
            }
            ln > d0 && digits_only(&l, d0, ln)
        },
    }
}

/// The number token that is the value of `key`, if it is a float literal.
fn parse_json_number_field(s: &Vec<char>, key: &str) -> (r: Option<String>)
    ensures
        match r {
            Some(t) => number_field(s@, key@) == Some(t@),
            None => number_field(s@, key@) is None,
        },
{
    match value_start_of(s, key) {
        None => None,
        Some(p) => {
            let n = s.len();
            let mut e = p;
            while e < n && (('0' <= s[e] && s[e] <= '9') || s[e] == '-' || s[e] == '+' || s[e] == '.')
                invariant
                    p <= e <= n,
                    n == s@.len(),
                    number_run_end(s@, p as int) == number_run_end(s@, e as int),
                decreases n - e,
            {
                e = e + 1;
            }
            let mut tok: Vec<char> = Vec::new();
            let mut i = p;
            while i < e
                invariant
                    p <= i <= e <= n,
                    n == s@.len(),
                    tok@ == s@.subrange(p as int, i as int),
                decreases e - i,
            {
                tok.push(s[i]);
                assert(s@.subrange(p as int, i + 1) =~= s@.subrange(p as int, i as int).push(s@[i as int]));
                i = i + 1;
            }
            if tok.len() > 0 && float_literal_ok(&tok) {
                Some(crate::text::string_from_chars(&tok))
            } else {
                None
            }
        },
    }
}

// ---------------------------------------------------------------------------
// Arrays
// ---------------------------------------------------------------------------

/// `u8::is_ascii_whitespace`.
pub open spec fn is_ascii_ws(c: char) -> bool {
    c == ' ' || c == '\t' || c == '\n' || c == '\x0C' || c == '\r'
}

/// First position at or after `i` that is the end or not ASCII white space.
pub open spec fn skip_ascii_ws(a: Seq<char>, i: int) -> int
    decreases a.len() - i,
{
    if 0 <= i < a.len() && is_ascii_ws(a[i]) {
        skip_ascii_ws(a, i + 1)
    } else {
        i
    }
}

/// First position at or after `i` that is the end, a comma or `]`.
pub open spec fn skip_to_sep(a: Seq<char>, i: int) -> int
    decreases a.len() - i,
{
    if 0 <= i < a.len() && a[i] != ',' && a[i] != ']' {
        skip_to_sep(a, i + 1)
    } else {
        i
    }
}

/// Past the comma at `k`, if there is one.
pub open spec fn after_sep(a: Seq<char>, k: int) -> int {
    if 0 <= k < a.len() && a[k] == ',' {
        k + 1
    } else {
        k
    }
}

pub proof fn lemma_skip_ascii_ws_bounds(a: Seq<char>, i: int)
    requires
        0 <= i <= a.len(),
    ensures
        i <= skip_ascii_ws(a, i) <= a.len(),
    decreases a.len() - i,
{
    if 0 <= i < a.len() && is_ascii_ws(a[i]) {
        lemma_skip_ascii_ws_bounds(a, i + 1);
    }
}

pub proof fn lemma_skip_to_sep_bounds(a: Seq<char>, i: int)
    requires
        0 <= i <= a.len(),
    ensures
        i <= skip_to_sep(a, i) <= a.len(),
    decreases a.len() - i,
{
    if 0 <= i < a.len() && a[i] != ',' && a[i] != ']' {
        lemma_skip_to_sep_bounds(a, i + 1);
    }
}

pub proof fn lemma_quoted_len_bounds(s: Seq<char>, i: int)
    ensures
        quoted_len(s, i) matches Some(n) ==> 2 <= n && i + n <= s.len(),
{
    lemma_quote_close_bounds(s, i + 1, false);
}

/// The strings of the array text `a` (from `[` to `]`), read from position
/// `i`: items are string literals separated by commas; anything else
/// between separators is skipped, and an unterminated string spoils the
/// whole array.
pub open spec fn string_items_from(a: Seq<char>, i: int) -> Option<Seq<Seq<char>>>
    decreases a.len() - i,
{
    if i < 0 || i + 1 >= a.len() {
        Some(seq![])
    } else {
        let j = skip_ascii_ws(a, i);
        if j < a.len() && a[j] == ']' {
            Some(seq![])
        } else if j < a.len() && a[j] == '"' {
            match quoted_len(a, j) {
                None => None,
                Some(n) => {
                    proof {
                        lemma_skip_ascii_ws_bounds(a, i);
                        lemma_quoted_len_bounds(a, j);
                        lemma_skip_to_sep_bounds(a, j + n);
                    }
                    let next = after_sep(a, skip_to_sep(a, j + n));
                    match string_items_from(a, next) {
                        None => None,
                        Some(rest) => Some(seq![unescape(a.subrange(j + 1, j + n - 1))] + rest),
                    }
                },
            }
        } else {
            proof {
                lemma_skip_ascii_ws_bounds(a, i);
                lemma_skip_to_sep_bounds(a, j);
                if j < a.len() && a[j] != ',' {
                    lemma_skip_to_sep_bounds(a, j + 1);
                }
            }
            string_items_from(a, after_sep(a, skip_to_sep(a, j)))
        }
    }
}

/// The strings of the array that is the value of `key`.
pub open spec fn string_array_field(s: Seq<char>, key: Seq<char>) -> Option<Seq<Seq<char>>> {
    match collection_text(s, key, '[', ']') {
        None => None,
        Some(a) => string_items_from(a, 1),
    }
}

/// The number tokens of the comma-separated text `inner`: pieces are
/// trimmed, empty pieces and `null` are skipped, and a piece that is not a
/// float literal spoils the whole list.
pub open spec fn number_tokens(inner: Seq<char>) -> Option<Seq<Seq<char>>>
    decreases inner.len(),
{
    let k = index_of(inner, ',');
    let piece = if k < 0 {
        inner
    } else {
        inner.subrange(0, k)
    };
    let t = trim(piece);
    if !(t.len() == 0 || t == "null"@) && !is_float_literal(t) {
        None
    } else {
        let rest = if k < 0 {
            Some(Seq::<Seq<char>>::empty())
        } else {
            proof {
                crate::text::lemma_index_of_bounds(inner, ',');
            }
            number_tokens(inner.subrange(k + 1, inner.len() as int))
        };
        match rest {
            None => None,
            Some(r) => if t.len() == 0 || t == "null"@ {
                Some(r)
            } else {
                Some(seq![t] + r)
            },
        }
    }
}

/// The number tokens of the array that is the value of `key`.
pub open spec fn number_array_field(s: Seq<char>, key: Seq<char>) -> Option<Seq<Seq<char>>> {
    match collection_text(s, key, '[', ']') {
        None => None,
        Some(a) => number_tokens(crate::text::strip_trail(crate::text::strip_lead(trim(a), '['), ']')),
    }
}

/// The texts of a list of strings.
pub open spec fn strings_view(v: Seq<String>) -> Seq<Seq<char>> {
    v.map_values(|t: String| t@)
}

/// `front` followed by the list in `rest`, if there is one.
pub open spec fn prepend_items(front: Seq<Seq<char>>, rest: Option<Seq<Seq<char>>>) -> Option<Seq<Seq<char>>> {
    match rest {
        None => None,
        Some(r) => Some(front + r),
    }
}

proof fn lemma_strings_view_push(v: Seq<String>, t: String)
    ensures
        strings_view(v.push(t)) == strings_view(v).push(t@),
{
    assert(strings_view(v.push(t)) =~= strings_view(v).push(t@));
}

/// A copy of `v[a..b]`.
fn copy_range(v: &Vec<char>, a: usize, b: usize) -> (r: Vec<char>)
    requires
        a <= b <= v@.len(),
    ensures
        r@ == v@.subrange(a as int, b as int),
{
    let mut r: Vec<char> = Vec::new();
    let mut i = a;
    while i < b
        invariant
            a <= i <= b <= v@.len(),
            r@ == v@.subrange(a as int, i as int),
        decreases b - i,
    {
        r.push(v[i]);
        assert(v@.subrange(a as int, i + 1) =~= v@.subrange(a as int, i as int).push(v@[i as int]));
        i = i + 1;
    }
    r
}

/// The strings of the array text `a`.
fn string_items(a: &Vec<char>) -> (r: Option<Vec<String>>)
    ensures
        match r {
            Some(v) => string_items_from(a@, 1) == Some(strings_view(v@)),
            None => string_items_from(a@, 1) is None,
        },
{
    let len = a.len();
    let mut values: Vec<String> = Vec::new();
    let mut index: usize = 1;
    proof {
        assert(strings_view(values@) =~= Seq::<Seq<char>>::empty());
        match string_items_from(a@, 1) {
            Some(r) => {
                assert(Seq::<Seq<char>>::empty() + r =~= r);
            },
            None => {},
        }
    }
    loop
        invariant
            len == a@.len(),
            1 <= index,
            index <= len || len == 0,
            string_items_from(a@, 1) == prepend_items(strings_view(values@), string_items_from(a@, index as int)),
        decreases len - index,
    {
        if index >= len || index + 1 >= len {
            proof {
                assert(strings_view(values@) + Seq::<Seq<char>>::empty() =~= strings_view(values@));
            }
            return Some(values);
        }
        let ghost i0 = index;
        while index < len && (a[index] == ' ' || a[index] == '\t' || a[index] == '\n' || a[index] == '\x0C'
            || a[index] == '\r')
            invariant
                len == a@.len(),
                i0 <= index <= len,
                skip_ascii_ws(a@, i0 as int) == skip_ascii_ws(a@, index as int),
            decreases len - index,
        {
            index = index + 1;
        }
        if index < len && a[index] == ']' {
            proof {
                assert(strings_view(values@) + Seq::<Seq<char>>::empty() =~= strings_view(values@));
            }
            return Some(values);
        }
        let ghost j = index;
        if index < len && a[index] == '"' {
            let v = match parse_json_string_prefix(a, index) {
                None => {
                    return None;
                },
                Some(v) => v,
            };
            let n = match quoted_json_len(a, index) {
                None => {
                    return None;
                },
                Some(n) => n,
            };
            index = index + n;
            proof {
                lemma_strings_view_push(values@, v);
            }
            values.push(v);
        }
        let ghost k0 = index;
        while index < len && a[index] != ',' && a[index] != ']'
            invariant
                len == a@.len(),
                k0 <= index <= len,
                skip_to_sep(a@, k0 as int) == skip_to_sep(a@, index as int),
            decreases len - index,
        {
            index = index + 1;
        }
        if index < len && a[index] == ',' {
            index = index + 1;
        }
        proof {
            let vs = strings_view(values@);
            if j < len && a@[j as int] == '"' {
                let ghost vprev = vs.drop_last();
                assert(vs =~= vprev.push(vs.last()));
                match string_items_from(a@, index as int) {
                    Some(rest) => {
                        assert(vprev + (seq![vs.last()] + rest) =~= vs + rest);
                    },
                    None => {},
                }
            }
            assert(index > i0);
        }
    }
}

/// The strings of the array that is the value of `key`.
fn parse_json_string_array_field(s: &Vec<char>, key: &str) -> (r: Option<Vec<String>>)
    ensures
        match r {
            Some(v) => string_array_field(s@, key@) == Some(strings_view(v@)),
            None => string_array_field(s@, key@) is None,
        },
{
    match json_array_after_key(s, key) {
        None => None,
        Some(a) => string_items(&a),
    }
}

/// The number tokens of `v[a..b]`.
fn number_tokens_of(v: &Vec<char>, a: usize, b: usize) -> (r: Option<Vec<String>>)
    requires
        a <= b <= v@.len(),
    ensures
        match r {
            Some(t) => number_tokens(v@.subrange(a as int, b as int)) == Some(strings_view(t@)),
            None => number_tokens(v@.subrange(a as int, b as int)) is None,
        },
{
    let mut values: Vec<String> = Vec::new();
    let mut pos: usize = a;
    proof {
        assert(strings_view(values@) =~= Seq::<Seq<char>>::empty());
        match number_tokens(v@.subrange(a as int, b as int)) {
            Some(r) => {
                assert(Seq::<Seq<char>>::empty() + r =~= r);
            },
            None => {},
        }
    }
    loop
        invariant
            a <= pos <= b <= v@.len(),
            number_tokens(v@.subrange(a as int, b as int)) == prepend_items(
                strings_view(values@),
                number_tokens(v@.subrange(pos as int, b as int)),
            ),
        decreases b - pos,
    {
        let ghost inner = v@.subrange(pos as int, b as int);
        let found = crate::text::find_char(v, pos, b, ',');
        let piece_end: usize = match found {
            Some(k) => k,
            None => b,
        };
        proof {
            crate::text::lemma_index_of_bounds(inner, ',');
            match found {
                Some(k) => {
                    assert(inner.subrange(0, k - pos) =~= v@.subrange(pos as int, k as int));
                    assert(inner.subrange(k - pos + 1, inner.len() as int) =~= v@.subrange(k + 1, b as int));
                },
                None => {
                    assert(v@.subrange(pos as int, b as int) =~= inner);
                },
            }
        }
        let (ta, tb) = crate::text::trim_range(v, pos, piece_end);
        let skip = tb == ta || crate::text::range_eq_str(v, ta, tb, "null");
        if !skip {
            let tok = copy_range(v, ta, tb);
            if !float_literal_ok(&tok) {
                return None;
            }
            let t = crate::text::string_from_chars(&tok);
            proof {
                let vs = strings_view(values@);
                lemma_strings_view_push(values@, t);
                match found {
                    Some(k) => {
                        match number_tokens(v@.subrange(k + 1, b as int)) {
                            Some(rest) => {
                                assert(vs + (seq![t@] + rest) =~= vs.push(t@) + rest);
                            },
                            None => {},
                        }
                    },
                    None => {
                        assert(vs + seq![t@] =~= vs.push(t@));
                        assert(vs + (seq![t@] + Seq::<Seq<char>>::empty()) =~= vs.push(t@));
                    },
                }
            }
            values.push(t);
        } else {
            proof {
                if found is None {
                    assert(strings_view(values@) + Seq::<Seq<char>>::empty() =~= strings_view(values@));
                }
            }
        }
        match found {
            None => {
                proof {
                    assert(strings_view(values@) + Seq::<Seq<char>>::empty() =~= strings_view(values@));
                }
                return Some(values);
            },
            Some(k) => {
                pos = k + 1;
            },
        }
    }
}

/// Bounds of `v[a..b]` without its trailing run of `c`.
fn strip_trailing(v: &Vec<char>, a: usize, b: usize, c: char) -> (r: usize)
    requires
        a <= b <= v@.len(),
    ensures
        a <= r <= b,
        v@.subrange(a as int, r as int) == crate::text::strip_trail(v@.subrange(a as int, b as int), c),
{
    let mut j = b;
    while j > a && v[j - 1] == c
        invariant
            a <= j <= b <= v@.len(),
            crate::text::strip_trail(v@.subrange(a as int, b as int), c) == crate::text::strip_trail(
                v@.subrange(a as int, j as int),
                c,
            ),
        decreases j - a,
    {
        assert(v@.subrange(a as int, j as int).drop_last() =~= v@.subrange(a as int, j - 1));
        j = j - 1;
    }
    j
}

/// The number tokens of the array that is the value of `key`.
fn parse_json_number_array_field(s: &Vec<char>, key: &str) -> (r: Option<Vec<String>>)
    ensures
        match r {
            Some(v) => number_array_field(s@, key@) == Some(strings_view(v@)),
            None => number_array_field(s@, key@) is None,
        },
{
    match json_array_after_key(s, key) {
        None => None,
        Some(a) => {
            let n = a.len();
            let (t0, t1) = crate::text::trim_range(&a, 0, n);
            proof {
                assert(a@.subrange(0, n as int) =~= a@);
            }
            let (l0, l1) = crate::text::strip_char_range(&a, t0, t1, '[', false);
            let e = strip_trailing(&a, l0, l1, ']');
            number_tokens_of(&a, l0, e)
        },
    }
}

// ---------------------------------------------------------------------------
// The reply
// ---------------------------------------------------------------------------

/// `a`, or `b` when `a` is absent.
pub open spec fn first_some<T>(a: Option<T>, b: Option<T>) -> Option<T> {
    if a is Some {
        a
    } else {
        b
    }
}

/// The list in `o`, or an empty one.
pub open spec fn items_or_empty(o: Option<Seq<Seq<char>>>) -> Seq<Seq<char>> {
    match o {
        Some(v) => v,
        None => Seq::empty(),
    }
}

/// The `current` object of a reply (or the older `current_weather`).
pub open spec fn current_object(s: Seq<char>) -> Option<Seq<char>> {
    first_some(collection_text(s, "current"@, '{', '}'), collection_text(s, "current_weather"@, '{', '}'))
}

/// What a reply holds: the current temperature and weather-code tokens, the
/// current time, and the hourly times, temperature tokens and code tokens
/// (empty where the reply has no `hourly` object or the array is missing or
/// spoilt); or the reason it cannot be used.
pub open spec fn open_meteo_reading(s: Seq<char>) -> Result<
    (Seq<char>, Seq<char>, Option<Seq<char>>, Seq<Seq<char>>, Seq<Seq<char>>, Seq<Seq<char>>),
    Seq<char>,
> {
    match current_object(s) {
        None => Err("NO CURRENT"@),
        Some(c) => match first_some(number_field(c, "temperature_2m"@), number_field(c, "temperature"@)) {
            None => Err("NO TEMP"@),
            Some(temp) => match first_some(number_field(c, "weather_code"@), number_field(c, "weathercode"@)) {
                None => Err("NO CODE"@),
                Some(code) => {
                    let hourly = collection_text(s, "hourly"@, '{', '}');
                    let times = match hourly {
                        Some(h) => items_or_empty(string_array_field(h, "time"@)),
                        None => Seq::empty(),
                    };
                    let temps = match hourly {
                        Some(h) => items_or_empty(number_array_field(h, "temperature_2m"@)),
                        None => Seq::empty(),
                    };
                    let codes = match hourly {
                        Some(h) => items_or_empty(number_array_field(h, "weather_code"@)),
                        None => Seq::empty(),
                    };
                    Ok((temp, code, string_field(c, "time"@), times, temps, codes))
                },
            },
        },
    }
}

/// The fields of a forecast reply, numbers still as text: each number token
/// is a float literal for the caller to convert and round.
#[derive(Debug, Clone)]
pub struct OpenMeteoTokens {
    pub temperature: String,
    pub weather_code: String,
    pub current_time: Option<String>,
    pub hourly_times: Vec<String>,
    pub hourly_temperatures: Vec<String>,
    pub hourly_codes: Vec<String>,
}

/// The contents of `t`.
pub open spec fn tokens_view(t: OpenMeteoTokens) -> (
    Seq<char>,
    Seq<char>,
    Option<Seq<char>>,
    Seq<Seq<char>>,
    Seq<Seq<char>>,
    Seq<Seq<char>>,
) {
    (
        t.temperature@,
        t.weather_code@,
        match t.current_time {
            Some(c) => Some(c@),
            None => None,
        },
        strings_view(t.hourly_times@),
        strings_view(t.hourly_temperatures@),
        strings_view(t.hourly_codes@),
    )
}

fn number_field_either(c: &Vec<char>, first: &str, second: &str) -> (r: Option<String>)
    ensures
        match r {
            Some(t) => first_some(number_field(c@, first@), number_field(c@, second@)) == Some(t@),
            None => first_some(number_field(c@, first@), number_field(c@, second@)) is None,
        },
{
    match parse_json_number_field(c, first) {
        Some(t) => Some(t),
        None => parse_json_number_field(c, second),
    }
}

fn items_or_empty_vec(o: Option<Vec<String>>) -> (r: Vec<String>)
    ensures
        strings_view(r@) == items_or_empty(match o {
            Some(v) => Some(strings_view(v@)),
            None => None,
        }),
{
    match o {
        Some(v) => v,
        None => {
            let r: Vec<String> = Vec::new();
            assert(strings_view(r@) =~= Seq::<Seq<char>>::empty());
            r
        },
    }
}

/// Reads a forecast reply into its fields; fails with `NO CURRENT`,
/// `NO TEMP` or `NO CODE` when the current object, its temperature or its
/// weather code is missing.
pub fn open_meteo_tokens(input: &str) -> (r: Result<OpenMeteoTokens, &'static str>)
    ensures
        match r {
            Ok(t) => open_meteo_reading(input@) == Ok::<_, Seq<char>>(tokens_view(t)),
            Err(e) => open_meteo_reading(input@) == Err::<(Seq<char>, Seq<char>, Option<Seq<char>>, Seq<Seq<char>>, Seq<Seq<char>>, Seq<Seq<char>>), Seq<char>>(e@),
        },
{
    let s = str_chars(input);
    let current = match json_object_after_key(&s, "current") {
        Some(c) => Some(c),
        None => json_object_after_key(&s, "current_weather"),
    };
    let c = match current {
        None => {
            return Err("NO CURRENT");
        },
        Some(c) => c,
    };
    let temperature = match number_field_either(&c, "temperature_2m", "temperature") {
        None => {
            return Err("NO TEMP");
        },
        Some(t) => t,
    };
    let weather_code = match number_field_either(&c, "weather_code", "weathercode") {
        None => {
            return Err("NO CODE");
        },
        Some(t) => t,
    };
    let current_time = parse_json_string_field(&c, "time");
    let (hourly_times, hourly_temperatures, hourly_codes) = match json_object_after_key(&s, "hourly") {
        None => {
            let a: Vec<String> = Vec::new();
            let b: Vec<String> = Vec::new();
            let d: Vec<String> = Vec::new();
            assert(strings_view(a@) =~= Seq::<Seq<char>>::empty());
            assert(strings_view(b@) =~= Seq::<Seq<char>>::empty());
            assert(strings_view(d@) =~= Seq::<Seq<char>>::empty());
            (a, b, d)
        },
        Some(h) => (
            items_or_empty_vec(parse_json_string_array_field(&h, "time")),
            items_or_empty_vec(parse_json_number_array_field(&h, "temperature_2m")),
            items_or_empty_vec(parse_json_number_array_field(&h, "weather_code")),
        ),
    };
    Ok(OpenMeteoTokens {
        temperature,
        weather_code,
        current_time,
        hourly_times,
        hourly_temperatures,
        hourly_codes,
    })
}

// ---------------------------------------------------------------------------
// The hourly timeline
// ---------------------------------------------------------------------------

/// How many leading characters of `v`, counted from `k` with `used` bytes
/// already taken, fill exactly `n` bytes of UTF-8 (`str::get(0..n)` finds a
/// character boundary there).
pub open spec fn chars_for_bytes(v: Seq<char>, n: int, k: int, used: int) -> Option<int>
    decreases v.len() - k,
{
    if used == n {
        Some(k)
    } else if used > n || k < 0 || k >= v.len() {
        None
    } else {
        chars_for_bytes(v, n, k + 1, used + crate::text::char_utf8_len(v[k]))
    }
}

/// `str::get(0..n)`: the first `n` bytes of `v`, when they end on a
/// character boundary.
pub open spec fn byte_prefix(v: Seq<char>, n: int) -> Option<Seq<char>> {
    match chars_for_bytes(v, n, 0, 0) {
        Some(k) => Some(v.subrange(0, k)),
        None => None,
    }
}

/// The hour that a timestamp like `2024-05-01T14:30` starts: its first 13
/// bytes followed by `:00`.
pub open spec fn hour_floor(v: Seq<char>) -> Option<Seq<char>> {
    match byte_prefix(v, 13) {
        Some(p) => Some(p + ":00"@),
        None => None,
    }
}

/// The hour of day written after the first `T` of a timestamp (the first two
/// bytes of the text up to the next `T`), or 0 when it cannot be read.
pub open spec fn iso_hour(v: Seq<char>) -> u8 {
    let t = index_of(v, 'T');
    if t < 0 {
        0
    } else {
        let rest = v.subrange(t + 1, v.len() as int);
        let u = index_of(rest, 'T');
        let seg = if u < 0 {
            rest
        } else {
            rest.subrange(0, u)
        };
        match byte_prefix(seg, 2) {
            None => 0,
            Some(h) => match crate::text::parse_u8_spec(h) {
                Some(x) => x,
                None => 0,
            },
        }
    }
}

/// A 12-hour clock label such as `2P` or `12A`.
pub open spec fn hour12_label(hour: u8) -> Seq<char> {
    let h12: nat = if hour % 12 == 0 {
        12
    } else {
        (hour % 12) as nat
    };
    crate::text::dec(h12) + (if hour < 12 {
        seq!['A']
    } else {
        seq!['P']
    })
}

/// The label of the hour that a timestamp falls in.
pub open spec fn hour_label_spec(v: Seq<char>) -> Seq<char> {
    hour12_label(iso_hour(v))
}

/// The 12-hour label of a timestamp's hour `h`: a clock hour from 1 to 12
/// that agrees with `h` modulo 12, then `A` exactly when `h` is before noon
/// (so 1 to 11 o'clock in the morning end in `A`, midnight reads `12A` and
/// noon `12P`); the label reads back as `h` for every hour of the day.
pub proof fn lemma_hour_label(v: Seq<char>)
    ensures
        ({
            let h = iso_hour(v) as int;
            let l = hour_label_spec(v);
            &&& l.len() >= 2
            &&& l.last() == (if h < 12 { 'A' } else { 'P' })
            &&& crate::text::unsigned_text_value(l.drop_last()) matches Some(k) && 1 <= k <= 12 && k % 12 == h
                % 12 && (h < 24 ==> h == k % 12 + (if l.last() == 'P' { 12int } else { 0int }))
        }),
{
    let h = iso_hour(v);
    let h12: nat = if h % 12 == 0 { 12 } else { (h % 12) as nat };
    let l = hour_label_spec(v);
    crate::text::lemma_parse_dec(h12);
    crate::text::lemma_dec_digits(h12);
    assert(l.drop_last() =~= crate::text::dec(h12));
    assert(crate::text::unsigned_text_value(l.drop_last()) == Some(h12));
}

/// First index at or after `i` whose time does not sort before `target`.
pub open spec fn first_not_before(times: Seq<Seq<char>>, target: Seq<char>, i: int) -> Option<int>
    decreases times.len() - i,
{
    if i < 0 || i >= times.len() {
        None
    } else if !crate::text::lex_lt(times[i], target) {
        Some(i)
    } else {
        first_not_before(times, target, i + 1)
    }
}

/// Where the timeline starts: at the first hour not before the hour of the
/// current reading, else at the beginning.
pub open spec fn timeline_start(times: Seq<Seq<char>>, current_time: Option<Seq<char>>) -> int {
    match current_time {
        None => 0,
        Some(ct) => {
            let target = match hour_floor(ct) {
                Some(t) => t,
                None => ct,
            };
            match first_not_before(times, target, 0) {
                Some(i) => i,
                None => 0,
            }
        },
    }
}

/// Up to four hour slots of the timeline: from its start, with bare
/// temperatures; or, when the start is past the data, the first hours with
/// the unit suffix on the temperature.
pub open spec fn timeline_slots(
    times: Seq<Seq<char>>,
    temps: Seq<i32>,
    codes: Seq<i32>,
    current_time: Option<Seq<char>>,
    suffix: Seq<char>,
) -> Seq<(Seq<char>, Seq<char>, i32)> {
    let len = vstd::math::min(vstd::math::min(times.len() as int, temps.len() as int), codes.len() as int);
    let start = timeline_start(times, current_time);
    if len == 0 {
        Seq::empty()
    } else if start < len {
        Seq::new(
            (vstd::math::min(len, start + 4) - start) as nat,
            |k: int|
                (
                    hour_label_spec(times[start + k]),
                    crate::text::dec_int(temps[start + k] as int),
                    codes[start + k],
                ),
        )
    } else {
        Seq::new(
            vstd::math::min(len, 4) as nat,
            |k: int| (hour_label_spec(times[k]), crate::text::dec_int(temps[k] as int) + suffix, codes[k]),
        )
    }
}

/// The first `n` bytes of `v`, if they end on a character boundary.
fn byte_prefix_len(v: &Vec<char>, n: u64) -> (r: Option<usize>)
    ensures
        match r {
            Some(k) => chars_for_bytes(v@, n as int, 0, 0) == Some(k as int) && k <= v@.len(),
            None => chars_for_bytes(v@, n as int, 0, 0) is None,
        },
{
    let len = v.len();
    let mut k: usize = 0;
    let mut used: u64 = 0;
    loop
        invariant
            k <= len,
            len == v@.len(),
            used <= n,
            chars_for_bytes(v@, n as int, 0, 0) == chars_for_bytes(v@, n as int, k as int, used as int),
        decreases len - k,
    {
        if used == n {
            return Some(k);
        }
        if k >= len {
            return None;
        }
        let u = v[k] as u32;
        let w: u64 = if u < 0x80 {
            1
        } else if u < 0x800 {
            2
        } else if u < 0x10000 {
            3
        } else {
            4
        };
        if w > n - used {
            assert(chars_for_bytes(v@, n as int, k + 1, used + w) is None);
            return None;
        }
        used = used + w;
        k = k + 1;
    }
}

/// `hour_floor_from_iso`: the hour that a timestamp starts.
fn hour_floor_from_iso(v: &Vec<char>) -> (r: Option<Vec<char>>)
    ensures
        match r {
            Some(t) => hour_floor(v@) == Some(t@),
            None => hour_floor(v@) is None,
        },
{
    match byte_prefix_len(v, 13) {
        None => None,
        Some(k) => {
            let mut out = copy_range(v, 0, k);
            out.push(':');
            out.push('0');
            out.push('0');
            proof {
                reveal_strlit(":00");
                assert(out@ =~= v@.subrange(0, k as int) + ":00"@);
            }
            Some(out)
        },
    }
}

/// The hour of day of a timestamp, as the timeline reads it.
fn iso_hour_of(v: &Vec<char>) -> (r: u8)
    ensures
        r == iso_hour(v@),
{
    let len = v.len();
    match crate::text::find_char(v, 0, len, 'T') {
        None => {
            proof {
                assert(v@.subrange(0, len as int) =~= v@);
            }
            0
        },
        Some(t) => {
            proof {
                assert(v@.subrange(0, len as int) =~= v@);
            }
            let ghost rest = v@.subrange(t + 1, len as int);
            let seg_end: usize = match crate::text::find_char(v, t + 1, len, 'T') {
                Some(u) => u,
                None => len,
            };
            let seg = copy_range(v, t + 1, seg_end);
            proof {
                if seg_end < len {
                    assert(rest.subrange(0, seg_end - (t + 1)) =~= seg@);
                } else {
                    assert(rest =~= seg@);
                }
            }
            match byte_prefix_len(&seg, 2) {
                None => 0,
                Some(k) => match crate::text::parse_unsigned(&seg, 0, k, 255) {
                    Some(Some(x)) => x as u8,
                    _ => 0,
                },
            }
        },
    }
}

/// `hour_label_from_iso`: the 12-hour label of a timestamp's hour.
fn hour_label_from_iso(v: &Vec<char>) -> (r: String)
    ensures
        r@ == hour_label_spec(v@),
{
    let hour = iso_hour_of(v);
    let h12: u64 = if hour % 12 == 0 { 12 } else { (hour % 12) as u64 };
    let mut s = String::new();
    crate::text::push_dec(&mut s, h12);
    if hour < 12 {
        crate::text::push_char(&mut s, 'A');
    } else {
        crate::text::push_char(&mut s, 'P');
    }
    proof {
        assert(s@ =~= hour12_label(hour));
    }
    s
}

/// First index of `times` whose text does not sort before `target`.
fn first_not_before_idx(times: &Vec<String>, target: &Vec<char>) -> (r: Option<usize>)
    ensures
        match r {
            Some(i) => first_not_before(strings_view(times@), target@, 0) == Some(i as int),
            None => first_not_before(strings_view(times@), target@, 0) is None,
        },
{
    let ghost tv = strings_view(times@);
    let mut i: usize = 0;
    while i < times.len()
        invariant
            i <= times@.len(),
            tv == strings_view(times@),
            first_not_before(tv, target@, 0) == first_not_before(tv, target@, i as int),
        decreases times@.len() - i,
    {
        let tc = str_chars(times[i].as_str());
        assert(tv[i as int] == times@[i as int]@);
        if !crate::text::chars_lt(&tc, target) {
            return Some(i);
        }
        i = i + 1;
    }
    None
}

/// Builds the hour slots of the timeline from the reply's hourly times, its
/// temperatures and weather codes already rounded to whole numbers, and the
/// time of the current reading.
pub fn parse_hourly_slots(
    times: &Vec<String>,
    temps: &Vec<i32>,
    codes: &Vec<i32>,
    current_time: &Option<String>,
    units: crate::weather::WeatherUnits,
) -> (r: Vec<crate::weather::WeatherHourSlot>)
    ensures
        crate::weather::slots_view(r@) == timeline_slots(
            strings_view(times@),
            temps@,
            codes@,
            match current_time {
                Some(c) => Some(c@),
                None => None,
            },
            units.suffix_spec(),
        ),
{
    let ghost tv = strings_view(times@);
    let ghost ct = match current_time {
        Some(c) => Some(c@),
        None => None,
    };
    let mut len = times.len();
    if temps.len() < len {
        len = temps.len();
    }
    if codes.len() < len {
        len = codes.len();
    }
    let mut out: Vec<crate::weather::WeatherHourSlot> = Vec::new();
    if len == 0 {
        assert(crate::weather::slots_view(out@) =~= timeline_slots(tv, temps@, codes@, ct, units.suffix_spec()));
        return out;
    }
    let mut start: usize = 0;
    match current_time {
        None => {},
        Some(c) => {
            let cv = str_chars(c.as_str());
            let target = match hour_floor_from_iso(&cv) {
                Some(t) => t,
                None => cv,
            };
            match first_not_before_idx(times, &target) {
                Some(f) => {
                    start = f;
                },
                None => {},
            }
        },
    }
    assert(start == timeline_start(tv, ct));
    if start < len {
        let end: usize = if len - start < 4 { len } else { start + 4 };
        let mut i = start;
        while i < end
            invariant
                start <= i <= end <= len,
                len <= times@.len(),
                len <= temps@.len(),
                len <= codes@.len(),
                tv == strings_view(times@),
                crate::weather::slots_view(out@) =~= Seq::new(
                    (i - start) as nat,
                    |k: int|
                        (
                            hour_label_spec(tv[start + k]),
                            crate::text::dec_int(temps@[start + k] as int),
                            codes@[start + k],
                        ),
                ),
            decreases end - i,
        {
            let tc = str_chars(times[i].as_str());
            let hour_label = hour_label_from_iso(&tc);
            let mut temp_label = String::new();
            crate::text::push_dec_i64(&mut temp_label, temps[i] as i64);
            let slot = crate::weather::WeatherHourSlot { hour_label, temp_label, weather_code: codes[i] };
            let ghost before = out@;
            proof {
                assert(tv[i as int] == times@[i as int]@);
            }
            out.push(slot);
            proof {
                assert(crate::weather::slots_view(out@) =~= crate::weather::slots_view(before).push(crate::weather::slot_view(slot)));
            }
            i = i + 1;
        }
        assert(crate::weather::slots_view(out@) =~= timeline_slots(tv, temps@, codes@, ct, units.suffix_spec()));
        out
    } else {
        let end: usize = if len < 4 { len } else { 4 };
        let suffix = units.suffix();
        let mut i: usize = 0;
        while i < end
            invariant
                i <= end <= len,
                len <= times@.len(),
                len <= temps@.len(),
                len <= codes@.len(),
                tv == strings_view(times@),
                suffix@ == units.suffix_spec(),
                crate::weather::slots_view(out@) =~= Seq::new(
                    i as nat,
                    |k: int|
                        (
                            hour_label_spec(tv[k]),
                            crate::text::dec_int(temps@[k] as int) + units.suffix_spec(),
                            codes@[k],
                        ),
                ),
            decreases end - i,
        {
            let tc = str_chars(times[i].as_str());
            let hour_label = hour_label_from_iso(&tc);
            let mut temp_label = String::new();
            crate::text::push_dec_i64(&mut temp_label, temps[i] as i64);
            crate::text::push_str(&mut temp_label, suffix);
            let slot = crate::weather::WeatherHourSlot { hour_label, temp_label, weather_code: codes[i] };
            let ghost before = out@;
            proof {
                assert(tv[i as int] == times@[i as int]@);
            }
            out.push(slot);
            proof {
                assert(crate::weather::slots_view(out@) =~= crate::weather::slots_view(before).push(crate::weather::slot_view(slot)));
            }
            i = i + 1;
        }
        assert(crate::weather::slots_view(out@) =~= timeline_slots(tv, temps@, codes@, ct, units.suffix_spec()));
        out
    }
}

} // verus!
