//! Monitor verbosity profile, chosen at build time or by `/LOG.TXT`.

use vstd::prelude::*;
use crate::text::{
    after_first_line, ascii_upper, find_char, first_line, fold_lines, index_of, next_line,
    range_eq_str, str_chars, trim, trim_range, upper_range,
};

verus! {

/// How much the firmware logs.
#[derive(Debug, Clone, Copy, PartialEq, Eq, Structural)]
pub enum RuntimeLogProfile {
    Normal,
    Debug,
}

impl RuntimeLogProfile {
    pub fn from_debug(debug: bool) -> (r: Self)
        ensures
            r == (if debug {
                RuntimeLogProfile::Debug
            } else {
                RuntimeLogProfile::Normal
            }),
    {
        if debug {
            RuntimeLogProfile::Debug
        } else {
            RuntimeLogProfile::Normal
        }
    }

    pub fn is_debug(self) -> (r: bool)
        ensures
            r == (self == RuntimeLogProfile::Debug),
    {
        match self {
            RuntimeLogProfile::Debug => true,
            RuntimeLogProfile::Normal => false,
        }
    }

    pub fn label(self) -> (r: &'static str)
        ensures
            r@ == (match self {
                RuntimeLogProfile::Normal => "NORMAL"@,
                RuntimeLogProfile::Debug => "DEBUG"@,
            }),
    {
        match self {
            RuntimeLogProfile::Normal => "NORMAL",
            RuntimeLogProfile::Debug => "DEBUG",
        }
    }
}

/// The profile a value names (any case): `DEBUG`, `VERBOSE`, `TRACE` or
/// `NORMAL`, `INFO`, `QUIET`.
pub open spec fn profile_word(value: Seq<char>) -> Option<RuntimeLogProfile> {
    let u = ascii_upper(trim(value));
    if u == "DEBUG"@ || u == "VERBOSE"@ || u == "TRACE"@ {
        Some(RuntimeLogProfile::Debug)
    } else if u == "NORMAL"@ || u == "INFO"@ || u == "QUIET"@ {
        Some(RuntimeLogProfile::Normal)
    } else {
        None
    }
}

/// The profile one line names: a bare word, or `LOG=`, `PROFILE=` or
/// `VERBOSITY=` followed by one; blank and `#` lines name none.
pub open spec fn line_profile(line: Seq<char>) -> Option<RuntimeLogProfile> {
    let l = trim(line);
    if l.len() == 0 || l[0] == '#' {
        None
    } else {
        let i = index_of(l, '=');
        if i < 0 {
            profile_word(l)
        } else {
            let key = ascii_upper(trim(l.subrange(0, i)));
            if key == "LOG"@ || key == "PROFILE"@ || key == "VERBOSITY"@ {
                profile_word(trim(l.subrange(i + 1, l.len() as int)))
            } else {
                None
            }
        }
    }
}

/// The first line that names a profile decides.
pub open spec fn profile_step(line: Seq<char>, acc: Option<RuntimeLogProfile>) -> Option<
    RuntimeLogProfile,
> {
    match acc {
        Some(p) => Some(p),
        None => line_profile(line),
    }
}

pub open spec fn profile_stepper() -> spec_fn(Seq<char>, Option<RuntimeLogProfile>) -> Option<
    RuntimeLogProfile,
> {
    |line: Seq<char>, acc: Option<RuntimeLogProfile>| profile_step(line, acc)
}

/// The profile a `/LOG.TXT` text selects, if any.
pub open spec fn log_profile_spec(text: Seq<char>) -> Option<RuntimeLogProfile> {
    fold_lines(text, None, profile_stepper())
}

/// Once a profile is chosen, later lines do not change it.
pub proof fn lemma_profile_fold_keeps(s: Seq<char>, p: RuntimeLogProfile)
    ensures
        fold_lines(s, Some(p), profile_stepper()) == Some(p),
    decreases s.len(),
{
    if s.len() > 0 {
        crate::text::lemma_index_of_bounds(s, '\n');
        lemma_profile_fold_keeps(after_first_line(s), p);
    }
}

/// The profile named by the value `v[a..b]`.
fn profile_word_range(v: &Vec<char>, a: usize, b: usize) -> (r: Option<RuntimeLogProfile>)
    requires
        a <= b <= v.len(),
    ensures
        r == profile_word(v@.subrange(a as int, b as int)),
{
    let (t0, t1) = trim_range(v, a, b);
    let u = upper_range(v, t0, t1);
    let n = u.len();
    assert(u@.subrange(0, n as int) =~= u@);
    if range_eq_str(&u, 0, n, "DEBUG") || range_eq_str(&u, 0, n, "VERBOSE") || range_eq_str(
        &u,
        0,
        n,
        "TRACE",
    ) {
        Some(RuntimeLogProfile::Debug)
    } else if range_eq_str(&u, 0, n, "NORMAL") || range_eq_str(&u, 0, n, "INFO") || range_eq_str(
        &u,
        0,
        n,
        "QUIET",
    ) {
        Some(RuntimeLogProfile::Normal)
    } else {
        None
    }
}

/// The profile named by line `v[a..b]`.
fn line_profile_range(v: &Vec<char>, a: usize, b: usize) -> (r: Option<RuntimeLogProfile>)
    requires
        a <= b <= v.len(),
    ensures
        r == line_profile(v@.subrange(a as int, b as int)),
{
    let (t0, t1) = trim_range(v, a, b);
    let ghost l = v@.subrange(t0 as int, t1 as int);
    if t0 == t1 || v[t0] == '#' {
        return None;
    }
    match find_char(v, t0, t1, '=') {
        None => {
            let r = profile_word_range(v, t0, t1);
            r
        },
        Some(i) => {
            let (k0, k1) = trim_range(v, t0, i);
            let key = upper_range(v, k0, k1);
            let n = key.len();
            assert(key@.subrange(0, n as int) =~= key@);
            assert(l.subrange(0, i - t0) =~= v@.subrange(t0 as int, i as int));
            assert(l.subrange(i - t0 + 1, l.len() as int) =~= v@.subrange(i + 1, t1 as int));
            if range_eq_str(&key, 0, n, "LOG") || range_eq_str(&key, 0, n, "PROFILE")
                || range_eq_str(&key, 0, n, "VERBOSITY") {
                let (w0, w1) = trim_range(v, i + 1, t1);
                profile_word_range(v, w0, w1)
            } else {
                None
            }
        },
    }
}

/// The profile a `/LOG.TXT` text selects: the first line that names one.
pub fn parse_runtime_log_profile_text(text: &str) -> (r: Option<RuntimeLogProfile>)
    ensures
        r == log_profile_spec(text@),
{
    let v = str_chars(text);
    let ghost step = profile_stepper();
    let mut pos: usize = 0;
    assert(v@.subrange(0, v.len() as int) =~= v@);
    while pos < v.len()
        invariant
            pos <= v.len(),
            v@ == text@,
            step == profile_stepper(),
            fold_lines(v@.subrange(pos as int, v.len() as int), None, step) == log_profile_spec(
                text@,
            ),
        decreases v.len() - pos,
    {
        let (la, lb, next) = next_line(&v, pos);
        let ghost s = v@.subrange(pos as int, v.len() as int);
        assert(fold_lines(s, None, step) == fold_lines(
            after_first_line(s),
            step(first_line(s), None),
            step,
        ));
        match line_profile_range(&v, la, lb) {
            Some(p) => {
                proof {
                    lemma_profile_fold_keeps(after_first_line(s), p);
                }
                return Some(p);
            },
            None => {},
        }
        pos = next;
    }
    assert(v@.subrange(pos as int, v.len() as int) =~= Seq::<char>::empty());
    None
}

} // verus!
