//! Character-level text helpers shared by the parsers and label builders.
//!
//! Text is handled as sequences of `char`. The specifications below describe
//! the standard library's whitespace trimming, line splitting, ASCII case
//! mapping and decimal formatting, so that parsers can be specified as folds
//! over the lines of their input.

use vstd::prelude::*;
use vstd::std_specs::iter::IteratorSpec;
use vstd::string::StringExecFns;

verus! {

broadcast use vstd::string::group_string_axioms;

// ---------------------------------------------------------------------------
// Specifications
// ---------------------------------------------------------------------------

/// `char::is_whitespace`: the Unicode `White_Space` property.
pub open spec fn is_ws(c: char) -> bool {
    let u = c as u32;
    ||| 0x09 <= u <= 0x0D
    ||| u == 0x20
    ||| u == 0x85
    ||| u == 0xA0
    ||| u == 0x1680
    ||| 0x2000 <= u <= 0x200A
    ||| u == 0x2028
    ||| u == 0x2029
    ||| u == 0x202F
    ||| u == 0x205F
    ||| u == 0x3000
}

/// `str::trim_start`.
pub open spec fn trim_start(s: Seq<char>) -> Seq<char>
    decreases s.len(),
{
    if s.len() > 0 && is_ws(s[0]) {
        trim_start(s.drop_first())
    } else {
        s
    }
}

/// `str::trim_end`.
pub open spec fn trim_end(s: Seq<char>) -> Seq<char>
    decreases s.len(),
{
    if s.len() > 0 && is_ws(s.last()) {
        trim_end(s.drop_last())
    } else {
        s
    }
}

/// `str::trim`.
pub open spec fn trim(s: Seq<char>) -> Seq<char> {
    trim_end(trim_start(s))
}

/// Position of the first occurrence of `c` in `s`, or `-1`.
pub open spec fn index_of(s: Seq<char>, c: char) -> int
    decreases s.len(),
{
    if s.len() == 0 {
        -1
    } else if s[0] == c {
        0
    } else {
        let r = index_of(s.drop_first(), c);
        if r < 0 {
            -1
        } else {
            r + 1
        }
    }
}

/// Position of the last occurrence of `c` in `s`, or `-1`.
pub open spec fn last_index_of(s: Seq<char>, c: char) -> int
    decreases s.len(),
{
    if s.len() == 0 {
        -1
    } else if s.last() == c {
        s.len() - 1
    } else {
        last_index_of(s.drop_last(), c)
    }
}

/// The view of an optional range of `v`.
pub open spec fn range_view(v: Seq<char>, r: Option<(usize, usize)>) -> Option<Seq<char>> {
    match r {
        None => None,
        Some((a, b)) => Some(v.subrange(a as int, b as int)),
    }
}

/// Removes one trailing carriage return.
pub open spec fn strip_cr(s: Seq<char>) -> Seq<char> {
    if s.len() > 0 && s.last() == '\r' {
        s.drop_last()
    } else {
        s
    }
}

/// The first line of `s` as `str::lines` yields it.
pub open spec fn first_line(s: Seq<char>) -> Seq<char> {
    let i = index_of(s, '\n');
    if i < 0 {
        s
    } else {
        strip_cr(s.subrange(0, i))
    }
}

/// What follows the first line terminator of `s` (empty if there is none).
pub open spec fn after_first_line(s: Seq<char>) -> Seq<char> {
    let i = index_of(s, '\n');
    if i < 0 {
        Seq::empty()
    } else {
        s.subrange(i + 1, s.len() as int)
    }
}

/// Folds `step` over the lines of `s`, in order (`str::lines`).
pub open spec fn fold_lines<A>(s: Seq<char>, acc: A, step: spec_fn(Seq<char>, A) -> A) -> A
    decreases s.len(),
{
    if s.len() == 0 {
        acc
    } else {
        proof {
            lemma_index_of_bounds(s, '\n');
        }
        fold_lines(after_first_line(s), step(first_line(s), acc), step)
    }
}

/// `char::to_ascii_lowercase`.
pub open spec fn lower_char(c: char) -> char {
    if 'A' <= c && c <= 'Z' {
        ((c as u32) + 32) as char
    } else {
        c
    }
}

/// `char::to_ascii_uppercase`.
pub open spec fn upper_char(c: char) -> char {
    if 'a' <= c && c <= 'z' {
        ((c as u32) - 32) as char
    } else {
        c
    }
}

/// `str::to_ascii_lowercase`.
pub open spec fn ascii_lower(s: Seq<char>) -> Seq<char> {
    s.map_values(|c: char| lower_char(c))
}

/// `str::to_ascii_uppercase`.
pub open spec fn ascii_upper(s: Seq<char>) -> Seq<char> {
    s.map_values(|c: char| upper_char(c))
}

/// `str::starts_with` for a literal prefix.
pub open spec fn starts_with(s: Seq<char>, p: Seq<char>) -> bool {
    p.len() <= s.len() && s.subrange(0, p.len() as int) == p
}

/// `str::ends_with` for a literal suffix.
pub open spec fn ends_with(s: Seq<char>, p: Seq<char>) -> bool {
    p.len() <= s.len() && s.subrange(s.len() - p.len(), s.len() as int) == p
}

/// The decimal digit character for `d < 10`.
pub open spec fn digit(d: nat) -> char {
    if d == 0 {
        '0'
    } else if d == 1 {
        '1'
    } else if d == 2 {
        '2'
    } else if d == 3 {
        '3'
    } else if d == 4 {
        '4'
    } else if d == 5 {
        '5'
    } else if d == 6 {
        '6'
    } else if d == 7 {
        '7'
    } else if d == 8 {
        '8'
    } else {
        '9'
    }
}

/// Decimal representation of `n` without leading zeros (`{}`).
pub open spec fn dec(n: nat) -> Seq<char>
    decreases n,
{
    if n < 10 {
        seq![digit(n)]
    } else {
        dec(n / 10).push(digit(n % 10))
    }
}

/// Decimal representation of a signed integer (`{}`).
pub open spec fn dec_int(n: int) -> Seq<char> {
    if n < 0 {
        seq!['-'] + dec((-n) as nat)
    } else {
        dec(n as nat)
    }
}

/// Decimal representation zero-padded to at least two digits (`{:02}`).
pub open spec fn dec2(n: nat) -> Seq<char> {
    if n < 10 {
        seq!['0', digit(n)]
    } else {
        dec(n)
    }
}

/// Zero-padded to at least three digits (`{:03}`).
pub open spec fn dec3(n: nat) -> Seq<char> {
    if n < 10 {
        seq!['0', '0', digit(n)]
    } else if n < 100 {
        seq!['0'] + dec(n)
    } else {
        dec(n)
    }
}

/// Zero-padded to at least four digits (`{:04}`).
pub open spec fn dec4(n: nat) -> Seq<char> {
    if n < 10 {
        seq!['0', '0', '0', digit(n)]
    } else if n < 100 {
        seq!['0', '0'] + dec(n)
    } else if n < 1000 {
        seq!['0'] + dec(n)
    } else {
        dec(n)
    }
}

/// Whether `c` is an ASCII decimal digit.
pub open spec fn is_digit(c: char) -> bool {
    '0' <= c && c <= '9'
}

/// Value of an ASCII digit.
pub open spec fn digit_value(c: char) -> nat {
    ((c as u32) - ('0' as u32)) as nat
}

/// Value of a non-empty run of ASCII digits.
pub open spec fn digits_value(s: Seq<char>) -> nat
    decreases s.len(),
{
    if s.len() == 0 {
        0
    } else {
        digits_value(s.drop_last()) * 10 + digit_value(s.last())
    }
}

/// Whether every character of `s` is an ASCII digit.
pub open spec fn all_digits(s: Seq<char>) -> bool {
    forall|i: int| 0 <= i < s.len() ==> is_digit(#[trigger] s[i])
}

/// The magnitude that `str::parse` reads for an unsigned integer: an optional
/// `+` followed by at least one digit, and nothing else.
pub open spec fn unsigned_text_value(s: Seq<char>) -> Option<nat> {
    let body = if s.len() > 0 && s[0] == '+' {
        s.drop_first()
    } else {
        s
    };
    if body.len() > 0 && all_digits(body) {
        Some(digits_value(body))
    } else {
        None
    }
}

/// The value that `str::parse` reads for a signed integer: an optional sign
/// followed by at least one digit, and nothing else.
pub open spec fn signed_text_value(s: Seq<char>) -> Option<int> {
    if s.len() > 0 && s[0] == '-' {
        let body = s.drop_first();
        if body.len() > 0 && all_digits(body) {
            Some(-(digits_value(body) as int))
        } else {
            None
        }
    } else {
        match unsigned_text_value(s) {
            Some(v) => Some(v as int),
            None => None,
        }
    }
}

/// `str::parse::<usize>`.
pub open spec fn parse_usize_spec(s: Seq<char>) -> Option<usize> {
    match unsigned_text_value(s) {
        Some(v) => if v <= usize::MAX {
            Some(v as usize)
        } else {
            None
        },
        None => None,
    }
}

/// `str::parse::<u16>`.
pub open spec fn parse_u16_spec(s: Seq<char>) -> Option<u16> {
    match unsigned_text_value(s) {
        Some(v) => if v <= u16::MAX {
            Some(v as u16)
        } else {
            None
        },
        None => None,
    }
}

/// `str::parse::<u8>`.
pub open spec fn parse_u8_spec(s: Seq<char>) -> Option<u8> {
    match unsigned_text_value(s) {
        Some(v) => if v <= u8::MAX {
            Some(v as u8)
        } else {
            None
        },
        None => None,
    }
}

/// `str::parse::<i32>`.
pub open spec fn parse_i32_spec(s: Seq<char>) -> Option<i32> {
    match signed_text_value(s) {
        Some(v) => if i32::MIN <= v <= i32::MAX {
            Some(v as i32)
        } else {
            None
        },
        None => None,
    }
}

/// `str::parse::<i64>`.
pub open spec fn parse_i64_spec(s: Seq<char>) -> Option<i64> {
    match signed_text_value(s) {
        Some(v) => if i64::MIN <= v <= i64::MAX {
            Some(v as i64)
        } else {
            None
        },
        None => None,
    }
}

// ---------------------------------------------------------------------------
// Lemmas
// ---------------------------------------------------------------------------

pub proof fn lemma_index_of_bounds(s: Seq<char>, c: char)
    ensures
        -1 <= index_of(s, c) < s.len(),
        index_of(s, c) >= 0 ==> s[index_of(s, c)] == c,
        forall|k: int| 0 <= k < s.len() && (index_of(s, c) < 0 || k < index_of(s, c)) ==> s[k] != c,
    decreases s.len(),
{
    if s.len() > 0 && s[0] != c {
        lemma_index_of_bounds(s.drop_first(), c);
        assert forall|k: int| 0 <= k < s.len() && (index_of(s, c) < 0 || k < index_of(s, c)) implies s[k] != c by {
            if k > 0 {
                assert(s[k] == s.drop_first()[k - 1]);
            }
        }
    }
}

pub proof fn lemma_index_of_first(s: Seq<char>, c: char, i: int)
    requires
        0 <= i <= s.len(),
        i < s.len() ==> s[i] == c,
        forall|k: int| 0 <= k < i ==> s[k] != c,
    ensures
        index_of(s, c) == (if i < s.len() { i } else { -1 }),
    decreases s.len(),
{
    if s.len() > 0 && i > 0 {
        assert forall|k: int| 0 <= k < i - 1 implies s.drop_first()[k] != c by {
            assert(s.drop_first()[k] == s[k + 1]);
        }
        lemma_index_of_first(s.drop_first(), c, i - 1);
    }
}

pub proof fn lemma_last_index_of(s: Seq<char>, c: char, i: int)
    requires
        -1 <= i < s.len(),
        i >= 0 ==> s[i] == c,
        forall|k: int| i < k < s.len() ==> s[k] != c,
    ensures
        last_index_of(s, c) == i,
    decreases s.len(),
{
    if s.len() > 0 && i < s.len() - 1 {
        lemma_last_index_of(s.drop_last(), c, i);
    }
}

pub proof fn lemma_trim_start_skip(s: Seq<char>, i: int)
    requires
        0 <= i <= s.len(),
        forall|k: int| 0 <= k < i ==> is_ws(#[trigger] s[k]),
    ensures
        trim_start(s) == trim_start(s.subrange(i, s.len() as int)),
    decreases i,
{
    if i > 0 {
        assert(s.drop_first() =~= s.subrange(1, s.len() as int));
        assert forall|k: int| 0 <= k < i - 1 implies is_ws(#[trigger] s.drop_first()[k]) by {
            assert(s.drop_first()[k] == s[k + 1]);
        }
        lemma_trim_start_skip(s.drop_first(), i - 1);
        assert(s.drop_first().subrange(i - 1, s.drop_first().len() as int) =~= s.subrange(i, s.len() as int));
    } else {
        assert(s.subrange(0, s.len() as int) =~= s);
    }
}

/// Trimming the end keeps every character up to the last one that is not
/// white space.
pub proof fn lemma_trim_end_keeps_prefix(s: Seq<char>, n: int)
    requires
        0 < n <= s.len(),
        !is_ws(s[n - 1]),
    ensures
        trim_end(s).len() >= n,
        trim_end(s).subrange(0, n) == s.subrange(0, n),
    decreases s.len(),
{
    if s.len() > n && is_ws(s.last()) {
        lemma_trim_end_keeps_prefix(s.drop_last(), n);
        assert(s.drop_last().subrange(0, n) =~= s.subrange(0, n));
    }
}

pub proof fn lemma_trim_end_skip(s: Seq<char>, j: int)
    requires
        0 <= j <= s.len(),
        forall|k: int| j <= k < s.len() ==> is_ws(#[trigger] s[k]),
    ensures
        trim_end(s) == trim_end(s.subrange(0, j)),
    decreases s.len() - j,
{
    if j < s.len() {
        assert(s.drop_last() =~= s.subrange(0, s.len() - 1));
        lemma_trim_end_skip(s.drop_last(), j);
        assert(s.drop_last().subrange(0, j) =~= s.subrange(0, j));
    } else {
        assert(s.subrange(0, j) =~= s);
    }
}

pub proof fn lemma_digits_value_push(s: Seq<char>, c: char)
    ensures
        digits_value(s.push(c)) == digits_value(s) * 10 + digit_value(c),
{
    assert(s.push(c).drop_last() =~= s);
}

// ---------------------------------------------------------------------------
// Executable helpers
// ---------------------------------------------------------------------------

/// Calls std's `String::push`. Trusted: the contract claims that the string
/// afterwards holds its former characters followed by `c`, as std documents.
#[verifier::external_body]
pub(crate) fn push_char(s: &mut String, c: char)
    ensures
        final(s)@ == old(s)@.push(c),
{
    s.push(c);
}

/// Appends the characters of `t` to `s`.
pub(crate) fn push_str(s: &mut String, t: &str)
    ensures
        final(s)@ == old(s)@ + t@,
{
    s.append(t);
}

/// The characters of a string slice, in order.
pub fn str_chars(s: &str) -> (v: Vec<char>)
    ensures
        v@ == s@,
{
    let mut v: Vec<char> = Vec::new();
    let mut it = s.chars();
    loop
        invariant
            it.obeys_prophetic_iter_laws(),
            v@ + it.remaining() == s@,
        ensures
            v@ == s@,
        decreases s@.len() - v@.len(),
    {
        match it.next() {
            Some(c) => {
                v.push(c);
            }
            None => {
                assert(v@ =~= s@);
                break;
            }
        }
    }
    v
}

/// A string holding `v[a..b]`.
pub fn string_from_range(v: &Vec<char>, a: usize, b: usize) -> (s: String)
    requires
        a <= b <= v.len(),
    ensures
        s@ == v@.subrange(a as int, b as int),
{
    let mut s = String::new();
    let mut i = a;
    while i < b
        invariant
            a <= i <= b <= v.len(),
            s@ == v@.subrange(a as int, i as int),
        decreases b - i,
    {
        push_char(&mut s, v[i]);
        assert(v@.subrange(a as int, i + 1) =~= v@.subrange(a as int, i as int).push(v@[i as int]));
        i += 1;
    }
    s
}

/// A string holding all of `v`.
pub fn string_from_chars(v: &Vec<char>) -> (s: String)
    ensures
        s@ == v@,
{
    let s = string_from_range(v, 0, v.len());
    assert(v@.subrange(0, v@.len() as int) =~= v@);
    s
}

/// Appends `v[a..b]` to `s`.
pub fn push_range(s: &mut String, v: &Vec<char>, a: usize, b: usize)
    requires
        a <= b <= v.len(),
    ensures
        final(s)@ == old(s)@ + v@.subrange(a as int, b as int),
{
    let mut i = a;
    while i < b
        invariant
            a <= i <= b <= v.len(),
            s@ == old(s)@ + v@.subrange(a as int, i as int),
        decreases b - i,
    {
        push_char(s, v[i]);
        assert(v@.subrange(a as int, i + 1) =~= v@.subrange(a as int, i as int).push(v@[i as int]));
        i += 1;
    }
}

/// `char::is_whitespace`.
pub fn char_is_ws(c: char) -> (r: bool)
    ensures
        r == is_ws(c),
{
    let u = c as u32;
    (0x09 <= u && u <= 0x0D) || u == 0x20 || u == 0x85 || u == 0xA0 || u == 0x1680 || (0x2000
        <= u && u <= 0x200A) || u == 0x2028 || u == 0x2029 || u == 0x202F || u == 0x205F || u
        == 0x3000
}

/// Bounds of `trim(v[a..b])` inside `v`.
pub fn trim_range(v: &Vec<char>, a: usize, b: usize) -> (r: (usize, usize))
    requires
        a <= b <= v.len(),
    ensures
        a <= r.0 <= r.1 <= b,
        v@.subrange(r.0 as int, r.1 as int) == trim(v@.subrange(a as int, b as int)),
{
    let ghost s = v@.subrange(a as int, b as int);
    let mut i = a;
    while i < b && char_is_ws(v[i])
        invariant
            a <= i <= b <= v.len(),
            s == v@.subrange(a as int, b as int),
            forall|k: int| 0 <= k < i - a ==> is_ws(#[trigger] s[k]),
        decreases b - i,
    {
        i += 1;
    }
    proof {
        lemma_trim_start_skip(s, i - a);
        assert(s.subrange(i - a, s.len() as int) =~= v@.subrange(i as int, b as int));
        let t = v@.subrange(i as int, b as int);
        if t.len() > 0 {
            assert(t[0] == v@[i as int]);
        }
        assert(trim_start(t) == t);
    }
    let ghost t = v@.subrange(i as int, b as int);
    let mut j = b;
    while j > i && char_is_ws(v[j - 1])
        invariant
            a <= i <= j <= b <= v.len(),
            t == v@.subrange(i as int, b as int),
            forall|k: int| j - i <= k < t.len() ==> is_ws(#[trigger] t[k]),
        decreases j - i,
    {
        j -= 1;
    }
    proof {
        lemma_trim_end_skip(t, j - i);
        assert(t.subrange(0, j - i) =~= v@.subrange(i as int, j as int));
        let u = v@.subrange(i as int, j as int);
        if u.len() > 0 {
            assert(u.last() == v@[j - 1]);
        }
        assert(trim_end(u) == u);
    }
    (i, j)
}

/// First position of `c` in `v[a..b]`, relative to the start of `v`.
pub fn find_char(v: &Vec<char>, a: usize, b: usize, c: char) -> (r: Option<usize>)
    requires
        a <= b <= v.len(),
    ensures
        match r {
            Some(i) => a <= i < b && index_of(v@.subrange(a as int, b as int), c) == i - a,
            None => index_of(v@.subrange(a as int, b as int), c) == -1,
        },
{
    let ghost s = v@.subrange(a as int, b as int);
    let mut i = a;
    while i < b
        invariant
            a <= i <= b <= v.len(),
            s == v@.subrange(a as int, b as int),
            forall|k: int| 0 <= k < i - a ==> s[k] != c,
        decreases b - i,
    {
        if v[i] == c {
            proof {
                lemma_index_of_first(s, c, i - a);
            }
            return Some(i);
        }
        i += 1;
    }
    proof {
        lemma_index_of_first(s, c, s.len() as int);
    }
    None
}

/// Last position of `c` in `v[a..b]`, relative to the start of `v`.
pub fn find_last_char(v: &Vec<char>, a: usize, b: usize, c: char) -> (r: Option<usize>)
    requires
        a <= b <= v.len(),
    ensures
        match r {
            Some(i) => a <= i < b && last_index_of(v@.subrange(a as int, b as int), c) == i - a,
            None => last_index_of(v@.subrange(a as int, b as int), c) == -1,
        },
{
    let ghost s = v@.subrange(a as int, b as int);
    let mut j = b;
    while j > a
        invariant
            a <= j <= b <= v.len(),
            s == v@.subrange(a as int, b as int),
            forall|k: int| j - a <= k < s.len() ==> s[k] != c,
        decreases j - a,
    {
        if v[j - 1] == c {
            proof {
                lemma_last_index_of(s, c, j - 1 - a);
            }
            return Some(j - 1);
        }
        j -= 1;
    }
    proof {
        lemma_last_index_of(s, c, -1);
    }
    None
}

/// The bounds of the first line of `v[pos..]` and where the next line starts.
pub fn next_line(v: &Vec<char>, pos: usize) -> (r: (usize, usize, usize))
    requires
        pos < v.len(),
    ensures
        pos <= r.0 <= r.1 <= v.len(),
        pos < r.2 <= v.len(),
        v@.subrange(r.0 as int, r.1 as int) == first_line(v@.subrange(pos as int, v.len() as int)),
        v@.subrange(r.2 as int, v.len() as int) == after_first_line(
            v@.subrange(pos as int, v.len() as int),
        ),
{
    let ghost s = v@.subrange(pos as int, v.len() as int);
    match find_char(v, pos, v.len(), '\n') {
        Some(i) => {
            let mut end = i;
            if end > pos && v[end - 1] == '\r' {
                end = end - 1;
            }
            proof {
                let line = s.subrange(0, i - pos);
                assert(line =~= v@.subrange(pos as int, i as int));
                if i > pos && v@[i - 1] == '\r' {
                    assert(line.drop_last() =~= v@.subrange(pos as int, i - 1));
                }
                assert(s.subrange(i - pos + 1, s.len() as int) =~= v@.subrange(i + 1, v.len() as int));
            }
            (pos, end, i + 1)
        },
        None => {
            proof {
                assert(v@.subrange(v.len() as int, v.len() as int) =~= Seq::<char>::empty());
            }
            (pos, v.len(), v.len())
        },
    }
}

/// Whether `v[a..b]` equals `lit`.
pub fn range_eq(v: &Vec<char>, a: usize, b: usize, lit: &Vec<char>) -> (r: bool)
    requires
        a <= b <= v.len(),
    ensures
        r == (v@.subrange(a as int, b as int) == lit@),
{
    if b - a != lit.len() {
        return false;
    }
    let mut i: usize = 0;
    while i < lit.len()
        invariant
            a <= b <= v.len(),
            b - a == lit.len(),
            0 <= i <= lit.len(),
            forall|k: int| 0 <= k < i ==> v@[a + k] == lit@[k],
        decreases lit.len() - i,
    {
        if v[a + i] != lit[i] {
            assert(v@.subrange(a as int, b as int)[i as int] != lit@[i as int]);
            return false;
        }
        i += 1;
    }
    assert(v@.subrange(a as int, b as int) =~= lit@);
    true
}

/// Whether `v[a..b]` equals the string slice `lit`.
pub fn range_eq_str(v: &Vec<char>, a: usize, b: usize, lit: &str) -> (r: bool)
    requires
        a <= b <= v.len(),
    ensures
        r == (v@.subrange(a as int, b as int) == lit@),
{
    let l = str_chars(lit);
    range_eq(v, a, b, &l)
}

/// Whether `v[a..b]` starts with `lit`.
pub fn range_starts_with(v: &Vec<char>, a: usize, b: usize, lit: &str) -> (r: bool)
    requires
        a <= b <= v.len(),
    ensures
        r == starts_with(v@.subrange(a as int, b as int), lit@),
{
    let l = str_chars(lit);
    if l.len() > b - a {
        return false;
    }
    let r = range_eq(v, a, a + l.len(), &l);
    assert(v@.subrange(a as int, b as int).subrange(0, l@.len() as int) =~= v@.subrange(
        a as int,
        a + l.len(),
    ));
    r
}

/// Whether `v[a..b]` ends with `lit`.
pub fn range_ends_with(v: &Vec<char>, a: usize, b: usize, lit: &str) -> (r: bool)
    requires
        a <= b <= v.len(),
    ensures
        r == ends_with(v@.subrange(a as int, b as int), lit@),
{
    let l = str_chars(lit);
    if l.len() > b - a {
        return false;
    }
    let r = range_eq(v, b - l.len(), b, &l);
    assert(v@.subrange(a as int, b as int).subrange((b - a) - l@.len(), (b - a) as int)
        =~= v@.subrange(b - l.len(), b as int));
    r
}

/// `char::to_ascii_lowercase`.
pub fn to_lower(c: char) -> (r: char)
    ensures
        r == lower_char(c),
{
    if 'A' <= c && c <= 'Z' {
        let u = (c as u32) + 32;
        assert(0x61 <= u <= 0x7A);
        char_from_ascii(u)
    } else {
        c
    }
}

/// `char::to_ascii_uppercase`.
pub fn to_upper(c: char) -> (r: char)
    ensures
        r == upper_char(c),
{
    if 'a' <= c && c <= 'z' {
        let u = (c as u32) - 32;
        char_from_ascii(u)
    } else {
        c
    }
}

/// The character with an ASCII code point.
fn char_from_ascii(u: u32) -> (r: char)
    requires
        u < 128,
    ensures
        r == u as char,
        r as u32 == u,
{
    let b = u as u8;
    b as char
}

/// `v[a..b]` in ASCII lower case.
pub fn lower_range(v: &Vec<char>, a: usize, b: usize) -> (r: Vec<char>)
    requires
        a <= b <= v.len(),
    ensures
        r@ == ascii_lower(v@.subrange(a as int, b as int)),
{
    let mut r: Vec<char> = Vec::new();
    let mut i = a;
    while i < b
        invariant
            a <= i <= b <= v.len(),
            r@ == ascii_lower(v@.subrange(a as int, i as int)),
        decreases b - i,
    {
        r.push(to_lower(v[i]));
        assert(ascii_lower(v@.subrange(a as int, i + 1)) =~= ascii_lower(
            v@.subrange(a as int, i as int),
        ).push(lower_char(v@[i as int])));
        i += 1;
    }
    r
}

/// `v[a..b]` in ASCII upper case.
pub fn upper_range(v: &Vec<char>, a: usize, b: usize) -> (r: Vec<char>)
    requires
        a <= b <= v.len(),
    ensures
        r@ == ascii_upper(v@.subrange(a as int, b as int)),
{
    let mut r: Vec<char> = Vec::new();
    let mut i = a;
    while i < b
        invariant
            a <= i <= b <= v.len(),
            r@ == ascii_upper(v@.subrange(a as int, i as int)),
        decreases b - i,
    {
        r.push(to_upper(v[i]));
        assert(ascii_upper(v@.subrange(a as int, i + 1)) =~= ascii_upper(
            v@.subrange(a as int, i as int),
        ).push(upper_char(v@[i as int])));
        i += 1;
    }
    r
}

/// The decimal digit character for `d < 10`.
pub fn digit_char(d: u64) -> (c: char)
    requires
        d < 10,
    ensures
        c == digit(d as nat),
{
    if d == 0 {
        '0'
    } else if d == 1 {
        '1'
    } else if d == 2 {
        '2'
    } else if d == 3 {
        '3'
    } else if d == 4 {
        '4'
    } else if d == 5 {
        '5'
    } else if d == 6 {
        '6'
    } else if d == 7 {
        '7'
    } else if d == 8 {
        '8'
    } else {
        '9'
    }
}

/// Appends the decimal representation of `n` (`{}`).
pub fn push_dec(s: &mut String, n: u64)
    ensures
        final(s)@ == old(s)@ + dec(n as nat),
    decreases n,
{
    if n >= 10 {
        push_dec(s, n / 10);
    }
    push_char(s, digit_char(n % 10));
    proof {
        if n >= 10 {
            assert(old(s)@ + dec((n / 10) as nat) + seq![digit((n % 10) as nat)] =~= old(s)@ + dec(
                n as nat,
            ));
        } else {
            assert(old(s)@.push(digit(n as nat)) =~= old(s)@ + dec(n as nat));
        }
    }
}

/// Appends the decimal representation of a signed integer (`{}`).
pub fn push_dec_i64(s: &mut String, n: i64)
    ensures
        final(s)@ == old(s)@ + dec_int(n as int),
{
    if n < 0 {
        push_char(s, '-');
        let m: u64 = if n == i64::MIN {
            9223372036854775808u64
        } else {
            (-n) as u64
        };
        push_dec(s, m);
        assert(old(s)@.push('-') + dec(m as nat) =~= old(s)@ + (seq!['-'] + dec(m as nat)));
    } else {
        push_dec(s, n as u64);
    }
}

/// Appends `n` zero-padded to two digits (`{:02}`).
pub fn push_dec2(s: &mut String, n: u64)
    ensures
        final(s)@ == old(s)@ + dec2(n as nat),
{
    if n < 10 {
        push_char(s, '0');
        push_char(s, digit_char(n));
        assert(old(s)@.push('0').push(digit(n as nat)) =~= old(s)@ + dec2(n as nat));
    } else {
        push_dec(s, n);
    }
}

/// Appends `n` zero-padded to four digits (`{:04}`).
pub fn push_dec4(s: &mut String, n: u64)
    ensures
        final(s)@ == old(s)@ + dec4(n as nat),
{
    if n < 10 {
        push_char(s, '0');
        push_char(s, '0');
        push_char(s, '0');
        push_char(s, digit_char(n));
        assert(old(s)@.push('0').push('0').push('0').push(digit(n as nat)) =~= old(s)@ + dec4(
            n as nat,
        ));
    } else if n < 100 {
        push_char(s, '0');
        push_char(s, '0');
        push_dec(s, n);
        assert(old(s)@.push('0').push('0') + dec(n as nat) =~= old(s)@ + dec4(n as nat));
    } else if n < 1000 {
        push_char(s, '0');
        push_dec(s, n);
        assert(old(s)@.push('0') + dec(n as nat) =~= old(s)@ + dec4(n as nat));
    } else {
        push_dec(s, n);
    }
}

/// Appends `n` zero-padded to three digits.
pub fn push_dec3(s: &mut String, n: u64)
    ensures
        final(s)@ == old(s)@ + dec3(n as nat),
{
    if n < 10 {
        push_char(s, '0');
        push_char(s, '0');
        push_char(s, digit_char(n));
        assert(old(s)@.push('0').push('0').push(digit(n as nat)) =~= old(s)@ + dec3(n as nat));
    } else if n < 100 {
        push_char(s, '0');
        push_dec(s, n);
        assert(old(s)@.push('0') + dec(n as nat) =~= old(s)@ + dec3(n as nat));
    } else {
        push_dec(s, n);
    }
}

/// The decimal representation of `n` as a new string.
pub fn dec_string(n: u64) -> (s: String)
    ensures
        s@ == dec(n as nat),
{
    let mut s = String::new();
    push_dec(&mut s, n);
    assert(Seq::<char>::empty() + dec(n as nat) =~= dec(n as nat));
    s
}

/// Reads the magnitude of an unsigned integer text in `v[a..b]`.
///
/// Returns `None` exactly when the text is not an optional `+` followed by
/// digits; magnitudes above `limit` are reported as `Some(None)`.
pub fn parse_unsigned(v: &Vec<char>, a: usize, b: usize, limit: u64) -> (r: Option<Option<u64>>)
    requires
        a <= b <= v.len(),
    ensures
        match unsigned_text_value(v@.subrange(a as int, b as int)) {
            None => r is None,
            Some(n) => r == (if n <= limit {
                Some(Some(n as u64))
            } else {
                Some(None::<u64>)
            }),
        },
{
    let ghost s = v@.subrange(a as int, b as int);
    let mut start = a;
    if start < b && v[start] == '+' {
        start += 1;
    }
    let ghost body = v@.subrange(start as int, b as int);
    proof {
        if a < b && v@[a as int] == '+' {
            assert(s.drop_first() =~= body);
        } else {
            assert(s =~= body);
        }
        assert(body == (if s.len() > 0 && s[0] == '+' {
            s.drop_first()
        } else {
            s
        }));
    }
    if start == b {
        assert(body.len() == 0);
        assert(unsigned_text_value(s) is None);
        return None;
    }
    let mut i = start;
    let mut acc: u64 = 0;
    let mut over = false;
    while i < b
        invariant
            start < b,
            start <= i <= b <= v.len(),
            body == v@.subrange(start as int, b as int),
            s == v@.subrange(a as int, b as int),
            body == (if s.len() > 0 && s[0] == '+' {
                s.drop_first()
            } else {
                s
            }),
            all_digits(v@.subrange(start as int, i as int)),
            !over ==> acc as nat == digits_value(v@.subrange(start as int, i as int)) && acc <= limit,
            over ==> digits_value(v@.subrange(start as int, i as int)) > limit,
        decreases b - i,
    {
        let c = v[i];
        if !('0' <= c && c <= '9') {
            assert(body[i - start] == c);
            assert(!all_digits(body));
            assert(unsigned_text_value(s) is None);
            return None;
        }
        let d = (c as u32 - '0' as u32) as u64;
        proof {
            lemma_digits_value_push(v@.subrange(start as int, i as int), c);
            assert(v@.subrange(start as int, i + 1) =~= v@.subrange(start as int, i as int).push(c));
        }
        if !over {
            let next: u128 = (acc as u128) * 10 + (d as u128);
            if next > limit as u128 {
                over = true;
            } else {
                acc = next as u64;
            }
        } else {
            assert(digits_value(v@.subrange(start as int, i as int)) * 10 + d > limit) by (nonlinear_arith)
                requires
                    digits_value(v@.subrange(start as int, i as int)) > limit,
            ;
        }
        i += 1;
    }
    assert(v@.subrange(start as int, b as int) =~= body);
    if over {
        Some(None)
    } else {
        Some(Some(acc))
    }
}

/// `str::parse::<usize>` on `v[a..b]`.
pub fn parse_usize_range(v: &Vec<char>, a: usize, b: usize) -> (r: Option<usize>)
    requires
        a <= b <= v.len(),
    ensures
        r == parse_usize_spec(v@.subrange(a as int, b as int)),
{
    match parse_unsigned(v, a, b, usize::MAX as u64) {
        Some(Some(n)) => Some(n as usize),
        _ => None,
    }
}

/// `str::parse::<i64>` on `v[a..b]`.
pub fn parse_i64_range(v: &Vec<char>, a: usize, b: usize) -> (r: Option<i64>)
    requires
        a <= b <= v.len(),
    ensures
        r == parse_i64_spec(v@.subrange(a as int, b as int)),
{
    let ghost s = v@.subrange(a as int, b as int);
    if a < b && v[a] == '-' {
        let ghost body = v@.subrange(a + 1, b as int);
        assert(s.drop_first() =~= body);
        if a + 1 < b && v[a + 1] == '+' {
            assert(!is_digit(body[0]));
            return None;
        }
        assert(body.len() > 0 ==> body[0] != '+');
        match parse_unsigned(v, a + 1, b, 9223372036854775808u64) {
            Some(Some(n)) => {
                if n == 9223372036854775808u64 {
                    Some(i64::MIN)
                } else {
                    Some(-(n as i64))
                }
            },
            _ => None,
        }
    } else {
        match parse_unsigned(v, a, b, i64::MAX as u64) {
            Some(Some(n)) => Some(n as i64),
            _ => None,
        }
    }
}

/// `str::parse::<i32>` on `v[a..b]`.
pub fn parse_i32_range(v: &Vec<char>, a: usize, b: usize) -> (r: Option<i32>)
    requires
        a <= b <= v.len(),
    ensures
        r == parse_i32_spec(v@.subrange(a as int, b as int)),
{
    match parse_i64_range(v, a, b) {
        Some(x) => {
            if i32::MIN as i64 <= x && x <= i32::MAX as i64 {
                Some(x as i32)
            } else {
                None
            }
        },
        None => None,
    }
}

/// Whether two string slices hold the same text.
pub fn str_eq(a: &str, b: &str) -> (r: bool)
    ensures
        r == (a@ == b@),
{
    let v = str_chars(a);
    let n = v.len();
    assert(v@.subrange(0, n as int) =~= v@);
    range_eq_str(&v, 0, n, b)
}

/// The first `max` characters of `s` (all of it when shorter).
pub fn clip_chars(s: &str, max: usize) -> (r: String)
    ensures
        r@ == s@.take(if s@.len() < max { s@.len() as int } else { max as int }),
{
    let v = str_chars(s);
    let end = if v.len() < max {
        v.len()
    } else {
        max
    };
    let r = string_from_range(&v, 0, end);
    assert(v@.subrange(0, end as int) =~= s@.take(end as int));
    r
}

/// Whether `p` occurs in `s` (`str::contains`).
pub open spec fn contains_seq(s: Seq<char>, p: Seq<char>) -> bool {
    exists|i: int| 0 <= i <= s.len() - p.len() && #[trigger] s.subrange(i, i + p.len()) == p
}

/// Whether `needle` occurs in `hay`.
pub fn str_contains(hay: &str, needle: &str) -> (r: bool)
    ensures
        r == contains_seq(hay@, needle@),
{
    let h = str_chars(hay);
    let n = str_chars(needle);
    if n.len() > h.len() {
        return false;
    }
    if n.len() == 0 {
        assert(hay@.subrange(0, 0int + needle@.len()) =~= needle@);
        return true;
    }
    let mut i: usize = 0;
    while i <= h.len() - n.len()
        invariant
            0 < n.len() <= h.len(),
            h@ == hay@,
            n@ == needle@,
            i <= h.len() - n.len() + 1,
            forall|j: int| 0 <= j < i ==> #[trigger] h@.subrange(j, j + n@.len()) != n@,
        decreases h.len() - i,
    {
        if range_eq(&h, i, i + n.len(), &n) {
            assert(hay@.subrange(i as int, i + needle@.len()) == needle@);
            return true;
        }
        i += 1;
    }
    assert forall|j: int| 0 <= j <= h@.len() - n@.len() implies #[trigger] h@.subrange(j, j + n@.len())
        != n@ by {
        assert(j < i);
    }
    false
}

/// Whether `c` is an ASCII letter or digit.
pub open spec fn is_ascii_alnum(c: char) -> bool {
    ('0' <= c && c <= '9') || ('a' <= c && c <= 'z') || ('A' <= c && c <= 'Z')
}

/// The first `max` characters of `s` that are ASCII alphanumerics, `-` or
/// `.`, upper-cased.
pub open spec fn clip_upper_ascii(s: Seq<char>, max: nat) -> Seq<char>
    decreases s.len(),
{
    if s.len() == 0 || max == 0 {
        Seq::empty()
    } else if is_ascii_alnum(s[0]) || s[0] == '-' || s[0] == '.' {
        seq![upper_char(s[0])] + clip_upper_ascii(s.drop_first(), (max - 1) as nat)
    } else {
        clip_upper_ascii(s.drop_first(), max)
    }
}

/// Keeps the first `max` ASCII alphanumerics, `-` and `.` of `value`,
/// upper-cased.
pub fn clipped_upper_ascii(value: &str, max: usize) -> (r: String)
    ensures
        r@ == clip_upper_ascii(value@, max as nat),
{
    let v = str_chars(value);
    let mut out = String::new();
    let mut count: usize = 0;
    let mut i: usize = 0;
    assert(v@.subrange(0, v.len() as int) =~= v@);
    while i < v.len()
        invariant
            v@ == value@,
            i <= v.len(),
            count == out@.len(),
            count <= max,
            out@ + clip_upper_ascii(v@.subrange(i as int, v.len() as int), (max - count) as nat)
                == clip_upper_ascii(value@, max as nat),
        ensures
            out@ == clip_upper_ascii(value@, max as nat),
        decreases v.len() - i,
    {
        let ghost rest = v@.subrange(i as int, v.len() as int);
        if count >= max {
            assert(out@ + Seq::<char>::empty() =~= out@);
            break;
        }
        let c = v[i];
        assert(rest[0] == c);
        assert(rest.drop_first() =~= v@.subrange(i + 1, v.len() as int));
        if ('0' <= c && c <= '9') || ('a' <= c && c <= 'z') || ('A' <= c && c <= 'Z') || c == '-'
            || c == '.' {
            let ghost before = out@;
            push_char(&mut out, to_upper(c));
            count += 1;
            assert(out@ + clip_upper_ascii(rest.drop_first(), (max - count) as nat) =~= before + (
            seq![upper_char(c)] + clip_upper_ascii(rest.drop_first(), (max - count) as nat)));
        }
        i += 1;
        proof {
            if i == v.len() {
                assert(v@.subrange(i as int, v.len() as int) =~= Seq::<char>::empty());
                assert(out@ + Seq::<char>::empty() =~= out@);
            }
        }
    }
    out
}

/// `s` without its leading run of `c` (`str::trim_start_matches`).
pub open spec fn strip_lead(s: Seq<char>, c: char) -> Seq<char>
    decreases s.len(),
{
    if s.len() > 0 && s[0] == c {
        strip_lead(s.drop_first(), c)
    } else {
        s
    }
}

/// `s` without its trailing run of `c` (`str::trim_end_matches`).
pub open spec fn strip_trail(s: Seq<char>, c: char) -> Seq<char>
    decreases s.len(),
{
    if s.len() > 0 && s.last() == c {
        strip_trail(s.drop_last(), c)
    } else {
        s
    }
}

/// `s` without leading and trailing runs of `c` (`str::trim_matches`).
pub open spec fn strip_both(s: Seq<char>, c: char) -> Seq<char> {
    strip_trail(strip_lead(s, c), c)
}

proof fn lemma_strip_lead_skip(s: Seq<char>, c: char, i: int)
    requires
        0 <= i <= s.len(),
        forall|k: int| 0 <= k < i ==> #[trigger] s[k] == c,
    ensures
        strip_lead(s, c) == strip_lead(s.subrange(i, s.len() as int), c),
    decreases i,
{
    if i > 0 {
        assert forall|k: int| 0 <= k < i - 1 implies #[trigger] s.drop_first()[k] == c by {
            assert(s.drop_first()[k] == s[k + 1]);
        }
        lemma_strip_lead_skip(s.drop_first(), c, i - 1);
        assert(s.drop_first().subrange(i - 1, s.drop_first().len() as int) =~= s.subrange(
            i,
            s.len() as int,
        ));
    } else {
        assert(s.subrange(0, s.len() as int) =~= s);
    }
}

proof fn lemma_strip_trail_skip(s: Seq<char>, c: char, j: int)
    requires
        0 <= j <= s.len(),
        forall|k: int| j <= k < s.len() ==> #[trigger] s[k] == c,
    ensures
        strip_trail(s, c) == strip_trail(s.subrange(0, j), c),
    decreases s.len() - j,
{
    if j < s.len() {
        lemma_strip_trail_skip(s.drop_last(), c, j);
        assert(s.drop_last().subrange(0, j) =~= s.subrange(0, j));
    } else {
        assert(s.subrange(0, j) =~= s);
    }
}

/// Bounds of `strip_both(v[a..b], c)`, or with `both` false of
/// `strip_lead(v[a..b], c)`.
pub fn strip_char_range(v: &Vec<char>, a: usize, b: usize, c: char, both: bool) -> (r: (usize, usize))
    requires
        a <= b <= v.len(),
    ensures
        a <= r.0 <= r.1 <= b,
        v@.subrange(r.0 as int, r.1 as int) == (if both {
            strip_both(v@.subrange(a as int, b as int), c)
        } else {
            strip_lead(v@.subrange(a as int, b as int), c)
        }),
{
    let ghost s = v@.subrange(a as int, b as int);
    let mut i = a;
    while i < b && v[i] == c
        invariant
            a <= i <= b <= v.len(),
            s == v@.subrange(a as int, b as int),
            forall|k: int| 0 <= k < i - a ==> #[trigger] s[k] == c,
        decreases b - i,
    {
        i += 1;
    }
    proof {
        lemma_strip_lead_skip(s, c, i - a);
        assert(s.subrange(i - a, s.len() as int) =~= v@.subrange(i as int, b as int));
        let t = v@.subrange(i as int, b as int);
        if t.len() > 0 {
            assert(t[0] == v@[i as int]);
        }
        assert(strip_lead(t, c) == t);
    }
    if !both {
        return (i, b);
    }
    let ghost t = v@.subrange(i as int, b as int);
    let mut j = b;
    while j > i && v[j - 1] == c
        invariant
            a <= i <= j <= b <= v.len(),
            t == v@.subrange(i as int, b as int),
            forall|k: int| j - i <= k < t.len() ==> #[trigger] t[k] == c,
        decreases j - i,
    {
        j -= 1;
    }
    proof {
        lemma_strip_trail_skip(t, c, j - i);
        assert(t.subrange(0, j - i) =~= v@.subrange(i as int, j as int));
        let u = v@.subrange(i as int, j as int);
        if u.len() > 0 {
            assert(u.last() == v@[j - 1]);
        }
        assert(strip_trail(u, c) == u);
    }
    (i, j)
}

} // verus!

verus! {

/// Number of bytes `c` takes in UTF-8.
pub open spec fn char_utf8_len(c: char) -> nat {
    let u = c as u32;
    if u < 0x80 {
        1
    } else if u < 0x800 {
        2
    } else if u < 0x10000 {
        3
    } else {
        4
    }
}

/// Byte length of the UTF-8 encoding of `s` (`str::len`).
pub open spec fn utf8_len(s: Seq<char>) -> nat
    decreases s.len(),
{
    if s.len() == 0 {
        0
    } else {
        utf8_len(s.drop_last()) + char_utf8_len(s.last())
    }
}

/// Removes every leading U+FEFF (`str::trim_start_matches('\u{feff}')`).
pub open spec fn skip_bom(s: Seq<char>) -> Seq<char>
    decreases s.len(),
{
    if s.len() > 0 && s[0] == '\u{feff}' {
        skip_bom(s.drop_first())
    } else {
        s
    }
}

pub proof fn lemma_skip_bom(s: Seq<char>, i: int)
    requires
        0 <= i <= s.len(),
        forall|k: int| 0 <= k < i ==> #[trigger] s[k] == '\u{feff}',
    ensures
        skip_bom(s) == skip_bom(s.subrange(i, s.len() as int)),
    decreases i,
{
    if i > 0 {
        assert forall|k: int| 0 <= k < i - 1 implies #[trigger] s.drop_first()[k] == '\u{feff}' by {
            assert(s.drop_first()[k] == s[k + 1]);
        }
        lemma_skip_bom(s.drop_first(), i - 1);
        assert(s.drop_first().subrange(i - 1, s.drop_first().len() as int) =~= s.subrange(i, s.len() as int));
    } else {
        assert(s.subrange(0, s.len() as int) =~= s);
    }
}

/// Start of `skip_bom(v[a..b])` inside `v`.
pub fn skip_bom_range(v: &Vec<char>, a: usize, b: usize) -> (r: usize)
    requires
        a <= b <= v.len(),
    ensures
        a <= r <= b,
        v@.subrange(r as int, b as int) == skip_bom(v@.subrange(a as int, b as int)),
{
    let ghost s = v@.subrange(a as int, b as int);
    let mut i = a;
    while i < b && v[i] == '\u{feff}'
        invariant
            a <= i <= b <= v.len(),
            s == v@.subrange(a as int, b as int),
            forall|k: int| 0 <= k < i - a ==> #[trigger] s[k] == '\u{feff}',
        decreases b - i,
    {
        i += 1;
    }
    proof {
        lemma_skip_bom(s, i - a);
        assert(s.subrange(i - a, s.len() as int) =~= v@.subrange(i as int, b as int));
        let t = v@.subrange(i as int, b as int);
        if t.len() > 0 {
            assert(t[0] == v@[i as int]);
        }
    }
    i
}

/// Whether the UTF-8 length of `v[a..b]` exceeds `limit`.
pub fn utf8_len_exceeds(v: &Vec<char>, a: usize, b: usize, limit: u64) -> (r: bool)
    requires
        a <= b <= v.len(),
        limit < u64::MAX - 4,
    ensures
        r == (utf8_len(v@.subrange(a as int, b as int)) > limit),
{
    let mut i = a;
    let mut acc: u64 = 0;
    while i < b
        invariant
            a <= i <= b <= v.len(),
            limit < u64::MAX - 4,
            acc == utf8_len(v@.subrange(a as int, i as int)),
            acc <= limit,
        decreases b - i,
    {
        let u = v[i] as u32;
        let w: u64 = if u < 0x80 {
            1
        } else if u < 0x800 {
            2
        } else if u < 0x10000 {
            3
        } else {
            4
        };
        assert(v@.subrange(a as int, i + 1).drop_last() =~= v@.subrange(a as int, i as int));
        acc = acc + w;
        i += 1;
        if acc > limit {
            proof {
                lemma_utf8_len_prefix(v@.subrange(a as int, b as int), i - a);
                assert(v@.subrange(a as int, b as int).subrange(0, i - a) =~= v@.subrange(a as int, i as int));
            }
            return true;
        }
    }
    false
}

/// A prefix is never longer in UTF-8 than the whole.
pub proof fn lemma_utf8_len_prefix(s: Seq<char>, k: int)
    requires
        0 <= k <= s.len(),
    ensures
        utf8_len(s.subrange(0, k)) <= utf8_len(s),
    decreases s.len() - k,
{
    if k < s.len() {
        lemma_utf8_len_prefix(s, k + 1);
        assert(s.subrange(0, k + 1).drop_last() =~= s.subrange(0, k));
    } else {
        assert(s.subrange(0, k) =~= s);
    }
}

/// Whether `a` sorts before `b` (`str` order: by code points, which is the
/// order of their UTF-8 bytes).
pub open spec fn lex_lt(a: Seq<char>, b: Seq<char>) -> bool
    decreases a.len(),
{
    if a.len() == 0 {
        b.len() > 0
    } else if b.len() == 0 {
        false
    } else if a[0] != b[0] {
        a[0] < b[0]
    } else {
        lex_lt(a.drop_first(), b.drop_first())
    }
}


/// `str` order is transitive.
pub proof fn lemma_lex_lt_trans(a: Seq<char>, b: Seq<char>, c: Seq<char>)
    requires
        lex_lt(a, b),
        lex_lt(b, c),
    ensures
        lex_lt(a, c),
    decreases a.len(),
{
    if a.len() > 0 && b.len() > 0 && c.len() > 0 && a[0] == b[0] && b[0] == c[0] {
        lemma_lex_lt_trans(a.drop_first(), b.drop_first(), c.drop_first());
    }
}

/// `str` order is total.
pub proof fn lemma_lex_lt_total(a: Seq<char>, b: Seq<char>)
    ensures
        lex_lt(a, b) || lex_lt(b, a) || a == b,
    decreases a.len(),
{
    if a.len() == 0 && b.len() == 0 {
        assert(a =~= b);
    } else if a.len() > 0 && b.len() > 0 && a[0] == b[0] {
        lemma_lex_lt_total(a.drop_first(), b.drop_first());
        if a.drop_first() == b.drop_first() {
            assert(a =~= seq![a[0]] + a.drop_first());
            assert(b =~= seq![b[0]] + b.drop_first());
        }
    }
}

/// No text sorts before itself.
pub proof fn lemma_lex_lt_irreflexive(a: Seq<char>)
    ensures
        !lex_lt(a, a),
    decreases a.len(),
{
    if a.len() > 0 {
        lemma_lex_lt_irreflexive(a.drop_first());
    }
}

/// Whether `a` sorts before `b`.
pub fn chars_lt(a: &Vec<char>, b: &Vec<char>) -> (r: bool)
    ensures
        r == lex_lt(a@, b@),
{
    let mut i: usize = 0;
    proof {
        assert(a@.subrange(0, a@.len() as int) =~= a@);
        assert(b@.subrange(0, b@.len() as int) =~= b@);
    }
    while i < a.len() && i < b.len() && a[i] == b[i]
        invariant
            i <= a@.len(),
            i <= b@.len(),
            lex_lt(a@, b@) == lex_lt(a@.subrange(i as int, a@.len() as int), b@.subrange(i as int, b@.len() as int)),
        decreases a@.len() - i,
    {
        proof {
            let sa = a@.subrange(i as int, a@.len() as int);
            let sb = b@.subrange(i as int, b@.len() as int);
            assert(sa.drop_first() =~= a@.subrange(i + 1, a@.len() as int));
            assert(sb.drop_first() =~= b@.subrange(i + 1, b@.len() as int));
        }
        i = i + 1;
    }
    if i == a.len() {
        i < b.len()
    } else if i == b.len() {
        false
    } else {
        a[i] < b[i]
    }
}

// ---------------------------------------------------------------------------
// Lemmas on decimal text and lines
// ---------------------------------------------------------------------------

/// The digit of `d` reads back as `d`.
pub proof fn lemma_digit_value(d: nat)
    requires
        d < 10,
    ensures
        is_digit(digit(d)),
        digit_value(digit(d)) == d,
{
}

/// `dec(n)` is a non-empty run of digits whose value is `n`.
pub proof fn lemma_dec_digits(n: nat)
    ensures
        dec(n).len() > 0,
        all_digits(dec(n)),
        digits_value(dec(n)) == n,
    decreases n,
{
    if n < 10 {
        lemma_digit_value(n);
        assert(seq![digit(n)].drop_last() =~= Seq::<char>::empty());
        assert(digits_value(Seq::<char>::empty()) == 0);
        assert(digits_value(seq![digit(n)]) == n);
    } else {
        lemma_dec_digits(n / 10);
        lemma_digit_value(n % 10);
        lemma_digits_value_push(dec(n / 10), digit(n % 10));
        vstd::arithmetic::div_mod::lemma_fundamental_div_mod(n as int, 10);
        assert(dec(n) == dec(n / 10).push(digit(n % 10)));
        assert(digits_value(dec(n)) == digits_value(dec(n / 10)) * 10 + digit_value(digit(n % 10)));
        assert(digits_value(dec(n)) == (n / 10) * 10 + n % 10);
        assert forall|i: int| 0 <= i < dec(n).len() implies is_digit(#[trigger] dec(n)[i]) by {
            if i < dec(n / 10).len() {
                assert(dec(n)[i] == dec(n / 10)[i]);
            }
        }
    }
}

/// `10^k`.
pub open spec fn pow10(k: nat) -> nat
    decreases k,
{
    if k == 0 {
        1
    } else {
        10 * pow10((k - 1) as nat)
    }
}

/// A number below `10^k` has at most `k` decimal digits.
pub proof fn lemma_dec_len(n: nat, k: nat)
    requires
        k >= 1,
        n < pow10(k),
    ensures
        dec(n).len() <= k,
    decreases k,
{
    if n >= 10 {
        assert(k >= 2) by {
            if k == 1 {
                assert(pow10(1) == 10 * pow10(0));
            }
        }
        assert(pow10(k) == 10 * pow10((k - 1) as nat));
        lemma_dec_len(n / 10, (k - 1) as nat);
    }
}

/// A 64-bit number has at most 20 decimal digits, and its padded forms at
/// most 20 characters.
pub proof fn lemma_dec_u64_len(n: u64)
    ensures
        dec(n as nat).len() <= 20,
        dec2(n as nat).len() <= 20,
        dec3(n as nat).len() <= 20,
        dec4(n as nat).len() <= 20,
{
    assert(pow10(20) == 100000000000000000000) by {
        reveal_with_fuel(pow10, 21);
    }
    lemma_dec_len(n as nat, 20);
    if n < 1000 {
        assert(pow10(3) == 1000) by {
            reveal_with_fuel(pow10, 4);
        }
        lemma_dec_len(n as nat, 3);
    }
}

/// `str::parse` reads `dec(n)` back as `n`.
pub proof fn lemma_parse_dec(n: nat)
    ensures
        unsigned_text_value(dec(n)) == Some(n),
        signed_text_value(dec(n)) == Some(n as int),
        dec(n)[0] != '-' && dec(n)[0] != '+',
{
    lemma_dec_digits(n);
    assert(is_digit(dec(n)[0]));
}

/// `str::parse` reads `dec_int(v)` back as `v`.
pub proof fn lemma_parse_dec_int(v: int)
    ensures
        signed_text_value(dec_int(v)) == Some(v),
{
    if v < 0 {
        let m = (-v) as nat;
        lemma_dec_digits(m);
        let s = seq!['-'] + dec(m);
        assert(s.drop_first() =~= dec(m));
    } else {
        lemma_parse_dec(v as nat);
    }
}

/// A text that starts and ends with something other than white space is
/// its own trim.
pub proof fn lemma_trim_fixed(s: Seq<char>)
    requires
        s.len() == 0 || (!is_ws(s[0]) && !is_ws(s.last())),
    ensures
        trim(s) == s,
{
}

/// `index_of` on a concatenation.
pub proof fn lemma_index_of_concat(a: Seq<char>, b: Seq<char>, c: char)
    ensures
        index_of(a, c) >= 0 ==> index_of(a + b, c) == index_of(a, c),
        index_of(a, c) < 0 && index_of(b, c) >= 0 ==> index_of(a + b, c) == a.len() + index_of(b, c),
        index_of(a, c) < 0 && index_of(b, c) < 0 ==> index_of(a + b, c) < 0,
{
    lemma_index_of_bounds(a, c);
    lemma_index_of_bounds(b, c);
    let s = a + b;
    if index_of(a, c) >= 0 {
        lemma_index_of_first(s, c, index_of(a, c));
    } else if index_of(b, c) >= 0 {
        assert forall|k: int| 0 <= k < a.len() + index_of(b, c) implies s[k] != c by {
            if k >= a.len() {
                assert(s[k] == b[k - a.len()]);
            }
        }
        lemma_index_of_first(s, c, a.len() + index_of(b, c));
    } else {
        assert forall|k: int| 0 <= k < s.len() implies s[k] != c by {
            if k >= a.len() {
                assert(s[k] == b[k - a.len()]);
            }
        }
        lemma_index_of_first(s, c, s.len() as int);
    }
}

/// Folding over a line, its terminator and the rest steps over the line,
/// then folds over the rest.
pub proof fn lemma_fold_lines_line<A>(line: Seq<char>, rest: Seq<char>, acc: A, step: spec_fn(Seq<char>, A) -> A)
    requires
        index_of(line, '\n') < 0,
        line.len() == 0 || line.last() != '\r',
    ensures
        fold_lines(line + seq!['\n'] + rest, acc, step) == fold_lines(rest, step(line, acc), step),
{
    let s = line + seq!['\n'] + rest;
    lemma_index_of_concat(line, seq!['\n'] + rest, '\n');
    lemma_index_of_first(seq!['\n'] + rest, '\n', 0);
    assert(s =~= line + (seq!['\n'] + rest));
    assert(index_of(s, '\n') == line.len());
    assert(s.subrange(0, line.len() as int) =~= line);
    assert(s.subrange(line.len() as int + 1, s.len() as int) =~= rest);
}

/// Folding over a line, its terminator and the rest steps over the line as
/// `str::lines` yields it (without a trailing carriage return), then folds
/// over the rest.
pub proof fn lemma_fold_lines_line_cr<A>(line: Seq<char>, rest: Seq<char>, acc: A, step: spec_fn(Seq<char>, A) -> A)
    requires
        index_of(line, '\n') < 0,
    ensures
        fold_lines(line + seq!['\n'] + rest, acc, step) == fold_lines(rest, step(strip_cr(line), acc), step),
{
    let s = line + seq!['\n'] + rest;
    lemma_index_of_concat(line, seq!['\n'] + rest, '\n');
    lemma_index_of_first(seq!['\n'] + rest, '\n', 0);
    assert(s =~= line + (seq!['\n'] + rest));
    assert(index_of(s, '\n') == line.len());
    assert(s.subrange(0, line.len() as int) =~= line);
    assert(s.subrange(line.len() as int + 1, s.len() as int) =~= rest);
}

/// Folding over two texts, the first ending a line, folds over each in turn.
pub proof fn lemma_fold_lines_append<A>(a: Seq<char>, b: Seq<char>, acc: A, step: spec_fn(Seq<char>, A) -> A)
    requires
        a.len() == 0 || a.last() == '\n',
    ensures
        fold_lines(a + b, acc, step) == fold_lines(b, fold_lines(a, acc, step), step),
    decreases a.len(),
{
    if a.len() == 0 {
        assert(a + b =~= b);
    } else {
        lemma_index_of_bounds(a, '\n');
        let i = index_of(a, '\n');
        lemma_index_of_last_is_found(a);
        lemma_index_of_concat(a, b, '\n');
        let s = a + b;
        assert(s.subrange(0, i) =~= a.subrange(0, i));
        let a2 = a.subrange(i + 1, a.len() as int);
        assert(s.subrange(i + 1, s.len() as int) =~= a2 + b);
        assert(after_first_line(a) == a2);
        if a2.len() > 0 {
            assert(a2.last() == a.last());
        }
        lemma_fold_lines_append(a2, b, step(first_line(a), acc), step);
    }
}

proof fn lemma_index_of_last_is_found(a: Seq<char>)
    requires
        a.len() > 0,
        a.last() == '\n',
    ensures
        index_of(a, '\n') >= 0,
{
    lemma_index_of_bounds(a, '\n');
    if index_of(a, '\n') < 0 {
        assert(a[a.len() - 1] != '\n');
    }
}

} // verus!
