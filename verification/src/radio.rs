//! Internet Radio: the station list file, station selection, and the
//! screen snapshot. Streaming runs outside the library.

use vstd::prelude::*;
use crate::audio::ProgressFlags;
use vstd::string::StringSliceAdditionalSpecFns;
use crate::text::{
    after_first_line, ascii_upper, dec, dec2, find_char, find_last_char, first_line, fold_lines,
    index_of, last_index_of, next_line, push_dec, push_dec2, push_range, push_str, range_eq_str,
    range_starts_with, starts_with, str_chars, strip_both, strip_char_range, strip_lead,
    string_from_range, trim, trim_range, upper_range,
};

verus! {

/// A station: display name and stream URL.
#[derive(Clone, Debug)]
pub struct RadioStation {
    pub name: String,
    pub url: String,
}

/// What the Internet Radio screen shows.
#[derive(Debug)]
pub struct RadioScreenSnapshot {
    pub station_label: String,
    pub status_label: String,
    pub source_label: String,
    pub playing: bool,
    pub progress_percent: u8,
    pub elapsed_label: String,
    pub duration_label: String,
}

/// A field of the station file: byte-order marks, white space, and
/// surrounding double then single quotes removed.
pub open spec fn clean_field(s: Seq<char>) -> Seq<char> {
    trim(strip_both(strip_both(trim(strip_lead(s, '\u{feff}')), '"'), '\''))
}

/// An `http://` or `https://` URL.
pub open spec fn is_radio_url_spec(s: Seq<char>) -> bool {
    starts_with(s, "http://"@) || starts_with(s, "https://"@)
}

/// The display name of an M3U `#EXTINF` line: what follows its last comma.
pub open spec fn extinf_name(line: Seq<char>) -> Option<Seq<char>> {
    if !starts_with(ascii_upper(line), "#EXTINF"@) {
        None
    } else {
        let i = last_index_of(line, ',');
        if i < 0 {
            None
        } else {
            let n = clean_field(line.subrange(i + 1, line.len() as int));
            if n.len() == 0 {
                None
            } else {
                Some(n)
            }
        }
    }
}

/// The host part of a stream URL.
pub open spec fn url_host(url: Seq<char>) -> Seq<char> {
    let rest = if starts_with(url, "http://"@) {
        url.subrange(7, url.len() as int)
    } else if starts_with(url, "https://"@) {
        url.subrange(8, url.len() as int)
    } else {
        url
    };
    let j = index_of(rest, '/');
    trim(
        if j < 0 {
            rest
        } else {
            rest.subrange(0, j)
        },
    )
}

/// A name for an unnamed station: its host (18 characters), or
/// `Station {n}` for its position `n`.
pub open spec fn name_from_url(url: Seq<char>, index: nat) -> Seq<char> {
    let h = url_host(url);
    if h.len() == 0 {
        "Station "@ + dec(index)
    } else {
        h.take(if h.len() < 18 { h.len() as int } else { 18 })
    }
}

/// A `name<sep>url` or `url<sep>name` line split at the first `sep`.
pub open spec fn split_station(line: Seq<char>, sep: char, index: nat) -> Option<(Seq<char>, Seq<char>)> {
    let i = index_of(line, sep);
    if i < 0 {
        None
    } else {
        let left = clean_field(line.subrange(0, i));
        let right = clean_field(line.subrange(i + 1, line.len() as int));
        if is_radio_url_spec(left) {
            Some(
                (
                    if right.len() == 0 {
                        name_from_url(left, index)
                    } else {
                        right
                    },
                    left,
                ),
            )
        } else if is_radio_url_spec(right) {
            Some(
                (
                    if left.len() == 0 {
                        name_from_url(right, index)
                    } else {
                        left
                    },
                    right,
                ),
            )
        } else {
            None
        }
    }
}

/// A station line, trying the separators `=`, `|`, `,`, `;` and tab in
/// turn.
pub open spec fn station_line(line: Seq<char>, index: nat) -> Option<(Seq<char>, Seq<char>)> {
    match split_station(line, '=', index) {
        Some(st) => Some(st),
        None => match split_station(line, '|', index) {
            Some(st) => Some(st),
            None => match split_station(line, ',', index) {
                Some(st) => Some(st),
                None => match split_station(line, ';', index) {
                    Some(st) => Some(st),
                    None => split_station(line, '\t', index),
                },
            },
        },
    }
}

/// The characters that part a station's name from its URL.
pub open spec fn is_station_sep(c: char) -> bool {
    c == '=' || c == '|' || c == ',' || c == ';' || c == '\t'
}

/// Whether `s` holds none of the station separators.
pub open spec fn no_station_sep(s: Seq<char>) -> bool {
    forall|i: int| 0 <= i < s.len() ==> !is_station_sep(#[trigger] s[i])
}

proof fn lemma_sep_index(a: Seq<char>, sep: char, b: Seq<char>, c: char)
    requires
        no_station_sep(a),
        no_station_sep(b),
        is_station_sep(sep),
        is_station_sep(c),
    ensures
        index_of(a + seq![sep] + b, c) == (if c == sep { a.len() as int } else { -1 }),
{
    crate::text::lemma_index_of_first(a, c, a.len() as int);
    crate::text::lemma_index_of_first(b, c, b.len() as int);
    let m = seq![sep];
    if c == sep {
        crate::text::lemma_index_of_first(m, c, 0);
    } else {
        crate::text::lemma_index_of_first(m, c, 1);
    }
    crate::text::lemma_index_of_concat(a, m, c);
    crate::text::lemma_index_of_concat(a + m, b, c);
}

/// A line `name<sep>url` or `url<sep>name`, split at any one of the
/// separators `=`, `|`, `,`, `;` or tab, gives the station of that name and
/// URL, whichever separator it uses: a cleaned, non-empty name that is not
/// itself a URL, and a clean `http(s)` URL, neither holding a separator.
pub proof fn lemma_station_line_separators(name: Seq<char>, sep: char, url: Seq<char>, index: nat)
    requires
        is_station_sep(sep),
        no_station_sep(name),
        no_station_sep(url),
        is_radio_url_spec(url),
        clean_field(url) == url,
        clean_field(name).len() > 0,
        !is_radio_url_spec(clean_field(name)),
    ensures
        station_line(name + seq![sep] + url, index) == Some((clean_field(name), url)),
        station_line(url + seq![sep] + name, index) == Some((clean_field(name), url)),
{
    let l1 = name + seq![sep] + url;
    let l2 = url + seq![sep] + name;
    lemma_sep_index(name, sep, url, '=');
    lemma_sep_index(name, sep, url, '|');
    lemma_sep_index(name, sep, url, ',');
    lemma_sep_index(name, sep, url, ';');
    lemma_sep_index(name, sep, url, '\t');
    lemma_sep_index(url, sep, name, '=');
    lemma_sep_index(url, sep, name, '|');
    lemma_sep_index(url, sep, name, ',');
    lemma_sep_index(url, sep, name, ';');
    lemma_sep_index(url, sep, name, '\t');
    assert(l1.subrange(0, name.len() as int) =~= name);
    assert(l1.subrange(name.len() as int + 1, l1.len() as int) =~= url);
    assert(l2.subrange(0, url.len() as int) =~= url);
    assert(l2.subrange(url.len() as int + 1, l2.len() as int) =~= name);
    assert(split_station(l1, sep, index) == Some((clean_field(name), url)));
    assert(split_station(l2, sep, index) == Some((clean_field(name), url)));
}

/// The station list read so far: stations (name, URL), lines skipped, and
/// an `#EXTINF` name waiting for its URL.
pub struct StationsRead {
    pub stations: Seq<(Seq<char>, Seq<char>)>,
    pub skipped: usize,
    pub pending: Option<Seq<char>>,
}

/// Effect of one line of the station file.
pub open spec fn stations_step(raw: Seq<char>, acc: StationsRead) -> StationsRead {
    let line = clean_field(raw);
    let index = (acc.stations.len() + 1) as nat;
    if line.len() == 0 {
        acc
    } else {
        match extinf_name(line) {
            Some(n) => StationsRead { pending: Some(n), ..acc },
            None => if line[0] == '#' {
                acc
            } else if is_radio_url_spec(line) {
                StationsRead {
                    stations: acc.stations.push(
                        (
                            match acc.pending {
                                Some(n) => n,
                                None => name_from_url(line, index),
                            },
                            line,
                        ),
                    ),
                    pending: None,
                    ..acc
                }
            } else {
                match station_line(line, index) {
                    Some(st) => StationsRead {
                        stations: acc.stations.push(st),
                        pending: None,
                        ..acc
                    },
                    None => StationsRead {
                        skipped: if acc.skipped == usize::MAX {
                            usize::MAX
                        } else {
                            (acc.skipped + 1) as usize
                        },
                        pending: None,
                        ..acc
                    },
                }
            },
        }
    }
}

/// A line of the station file that reads `name<sep>url` once cleaned, with
/// any of the separators, adds that station and skips nothing.
pub proof fn lemma_station_file_line(raw: Seq<char>, name: Seq<char>, sep: char, url: Seq<char>, acc: StationsRead)
    requires
        clean_field(raw) == name + seq![sep] + url,
        name.len() > 0,
        name[0] != '#',
        !is_radio_url_spec(name + seq![sep] + url),
        is_station_sep(sep),
        no_station_sep(name),
        no_station_sep(url),
        is_radio_url_spec(url),
        clean_field(url) == url,
        clean_field(name).len() > 0,
        !is_radio_url_spec(clean_field(name)),
    ensures
        stations_step(raw, acc).stations == acc.stations.push((clean_field(name), url)),
        stations_step(raw, acc).skipped == acc.skipped,
{
    let line = name + seq![sep] + url;
    let index = (acc.stations.len() + 1) as nat;
    lemma_station_line_separators(name, sep, url, index);
    reveal_strlit("#EXTINF");
    assert(line[0] == name[0]);
    assert(ascii_upper(line)[0] == crate::text::upper_char(line[0]));
    assert(!starts_with(ascii_upper(line), "#EXTINF"@)) by {
        if starts_with(ascii_upper(line), "#EXTINF"@) {
            assert(ascii_upper(line).subrange(0, 7)[0] == '#');
        }
    }
    assert(extinf_name(line) is None);
}

pub open spec fn stations_stepper() -> spec_fn(Seq<char>, StationsRead) -> StationsRead {
    |raw: Seq<char>, acc: StationsRead| stations_step(raw, acc)
}

/// The stations and skipped-line count of a station file.
pub open spec fn stations_read(text: Seq<char>) -> StationsRead {
    fold_lines(
        text,
        StationsRead { stations: Seq::empty(), skipped: 0, pending: None },
        stations_stepper(),
    )
}

/// Every station read has an `http://` or `https://` URL.
pub open spec fn all_urls_streamable(st: Seq<(Seq<char>, Seq<char>)>) -> bool {
    forall|i: int| 0 <= i < st.len() ==> #[trigger] is_radio_url_spec(st[i].1)
}

/// Bounds of `clean_field(v[a..b])`.
fn clean_station_field(v: &Vec<char>, a: usize, b: usize) -> (r: (usize, usize))
    requires
        a <= b <= v.len(),
    ensures
        a <= r.0 <= r.1 <= b,
        v@.subrange(r.0 as int, r.1 as int) == clean_field(v@.subrange(a as int, b as int)),
{
    let (a1, b1) = strip_char_range(v, a, b, '\u{feff}', false);
    let (a2, b2) = trim_range(v, a1, b1);
    let (a3, b3) = strip_char_range(v, a2, b2, '"', true);
    let (a4, b4) = strip_char_range(v, a3, b3, '\'', true);
    trim_range(v, a4, b4)
}

/// Whether `v[a..b]` is an `http://` or `https://` URL.
fn is_radio_url(v: &Vec<char>, a: usize, b: usize) -> (r: bool)
    requires
        a <= b <= v.len(),
    ensures
        r == is_radio_url_spec(v@.subrange(a as int, b as int)),
{
    range_starts_with(v, a, b, "http://") || range_starts_with(v, a, b, "https://")
}

/// `name_from_url(v[a..b], index)` as a string.
fn station_name_from_url(v: &Vec<char>, a: usize, b: usize, index: usize) -> (r: String)
    requires
        a <= b <= v.len(),
    ensures
        r@ == name_from_url(v@.subrange(a as int, b as int), index as nat),
{
    let ghost url = v@.subrange(a as int, b as int);
    proof {
        reveal_strlit("http://");
        reveal_strlit("https://");
    }
    let start = if range_starts_with(v, a, b, "http://") {
        assert(url.subrange(7, url.len() as int) =~= v@.subrange(a + 7, b as int));
        a + 7
    } else if range_starts_with(v, a, b, "https://") {
        assert(url.subrange(8, url.len() as int) =~= v@.subrange(a + 8, b as int));
        a + 8
    } else {
        a
    };
    let ghost rest = v@.subrange(start as int, b as int);
    let end = match find_char(v, start, b, '/') {
        Some(j) => {
            assert(rest.subrange(0, j - start) =~= v@.subrange(start as int, j as int));
            j
        },
        None => b,
    };
    let (h0, h1) = trim_range(v, start, end);
    if h0 == h1 {
        let mut s = String::new();
        push_str(&mut s, "Station ");
        push_dec(&mut s, index as u64);
        s
    } else {
        let stop = if h1 - h0 < 18 {
            h1
        } else {
            h0 + 18
        };
        assert(v@.subrange(h0 as int, stop as int) =~= v@.subrange(h0 as int, h1 as int).take(
            (stop - h0) as int,
        ));
        string_from_range(v, h0, stop)
    }
}

/// `split_station(v[a..b], sep, index)`.
fn split_station_range(v: &Vec<char>, a: usize, b: usize, sep: char, index: usize) -> (r: Option<
    (String, String),
>)
    requires
        a <= b <= v.len(),
    ensures
        match split_station(v@.subrange(a as int, b as int), sep, index as nat) {
            None => r is None,
            Some((n, u)) => r matches Some((rn, ru)) && rn@ == n && ru@ == u,
        },
{
    let ghost line = v@.subrange(a as int, b as int);
    let i = match find_char(v, a, b, sep) {
        None => {
            return None;
        },
        Some(i) => i,
    };
    assert(line.subrange(0, i - a) =~= v@.subrange(a as int, i as int));
    assert(line.subrange(i - a + 1, line.len() as int) =~= v@.subrange(i + 1, b as int));
    let (l0, l1) = clean_station_field(v, a, i);
    let (r0, r1) = clean_station_field(v, i + 1, b);
    if is_radio_url(v, l0, l1) {
        let name = if r0 == r1 {
            station_name_from_url(v, l0, l1, index)
        } else {
            string_from_range(v, r0, r1)
        };
        Some((name, string_from_range(v, l0, l1)))
    } else if is_radio_url(v, r0, r1) {
        let name = if l0 == l1 {
            station_name_from_url(v, r0, r1, index)
        } else {
            string_from_range(v, l0, l1)
        };
        Some((name, string_from_range(v, r0, r1)))
    } else {
        None
    }
}

/// `station_line(v[a..b], index)`.
fn parse_station_line(v: &Vec<char>, a: usize, b: usize, index: usize) -> (r: Option<(String, String)>)
    requires
        a <= b <= v.len(),
    ensures
        match station_line(v@.subrange(a as int, b as int), index as nat) {
            None => r is None,
            Some((n, u)) => r matches Some((rn, ru)) && rn@ == n && ru@ == u,
        },
{
    match split_station_range(v, a, b, '=', index) {
        Some(st) => {
            return Some(st);
        },
        None => {},
    }
    match split_station_range(v, a, b, '|', index) {
        Some(st) => {
            return Some(st);
        },
        None => {},
    }
    match split_station_range(v, a, b, ',', index) {
        Some(st) => {
            return Some(st);
        },
        None => {},
    }
    match split_station_range(v, a, b, ';', index) {
        Some(st) => {
            return Some(st);
        },
        None => {},
    }
    split_station_range(v, a, b, '\t', index)
}

/// `extinf_name(v[a..b])`, as bounds in `v`.
fn parse_extinf_name(v: &Vec<char>, a: usize, b: usize) -> (r: Option<(usize, usize)>)
    requires
        a <= b <= v.len(),
    ensures
        match extinf_name(v@.subrange(a as int, b as int)) {
            None => r is None,
            Some(n) => r matches Some((n0, n1)) && n0 <= n1 <= v.len() && v@.subrange(
                n0 as int,
                n1 as int,
            ) == n,
        },
{
    let ghost line = v@.subrange(a as int, b as int);
    let u = upper_range(v, a, b);
    let n = u.len();
    assert(u@.subrange(0, n as int) =~= u@);
    if !range_starts_with(&u, 0, n, "#EXTINF") {
        return None;
    }
    let i = match find_last_char(v, a, b, ',') {
        None => {
            return None;
        },
        Some(i) => i,
    };
    assert(line.subrange(i - a + 1, line.len() as int) =~= v@.subrange(i + 1, b as int));
    let (n0, n1) = clean_station_field(v, i + 1, b);
    if n0 == n1 {
        None
    } else {
        Some((n0, n1))
    }
}

/// Parses a station file: plain URLs, M3U (`#EXTINF` names), and
/// `name<sep>url` lines; returns the stations and the count of lines that
/// could not be read.
pub fn parse_stations_text(text: &str) -> (r: (Vec<RadioStation>, usize))
    ensures
        r.1 == stations_read(text@).skipped,
        r.0@.len() == stations_read(text@).stations.len(),
        forall|i: int|
            0 <= i < r.0@.len() ==> (#[trigger] r.0@[i]).name@ == stations_read(text@).stations[i].0
                && r.0@[i].url@ == stations_read(text@).stations[i].1,
{
    let v = str_chars(text);
    let ghost step = stations_stepper();
    let mut out: Vec<RadioStation> = Vec::new();
    let mut skipped: usize = 0;
    let mut pending: Option<(usize, usize)> = None;
    let mut pos: usize = 0;
    assert(v@.subrange(0, v.len() as int) =~= v@);
    assert(Seq::new(out@.len(), |i: int| (out@[i].name@, out@[i].url@)) =~= Seq::<
        (Seq<char>, Seq<char>),
    >::empty());
    while pos < v.len()
        invariant
            pos <= v.len(),
            v@ == text@,
            step == stations_stepper(),
            out@.len() <= pos,
            pending matches Some((a, b)) ==> a <= b <= v.len(),
            fold_lines(
                v@.subrange(pos as int, v.len() as int),
                StationsRead {
                    stations: Seq::new(
                        out@.len(),
                        |i: int| (out@[i].name@, out@[i].url@),
                    ),
                    skipped,
                    pending: match pending {
                        Some((a, b)) => Some(v@.subrange(a as int, b as int)),
                        None => None,
                    },
                },
                step,
            ) == stations_read(text@),
        decreases v.len() - pos,
    {
        let (la, lb, next) = next_line(&v, pos);
        let ghost s = v@.subrange(pos as int, v.len() as int);
        let ghost acc0 = StationsRead {
            stations: Seq::new(out@.len(), |i: int| (out@[i].name@, out@[i].url@)),
            skipped,
            pending: match pending {
                Some((a, b)) => Some(v@.subrange(a as int, b as int)),
                None => None,
            },
        };
        let (c0, c1) = clean_station_field(&v, la, lb);
        let index = out.len() + 1;
        if c0 < c1 {
            match parse_extinf_name(&v, c0, c1) {
                Some(nr) => {
                    pending = Some(nr);
                },
                None => {
                    if v[c0] == '#' {
                    } else if is_radio_url(&v, c0, c1) {
                        let name = match pending {
                            Some((p0, p1)) => string_from_range(&v, p0, p1),
                            None => station_name_from_url(&v, c0, c1, index),
                        };
                        let ghost before = out@;
                        out.push(RadioStation { name, url: string_from_range(&v, c0, c1) });
                        pending = None;
                        assert(Seq::new(out@.len(), |i: int| (out@[i].name@, out@[i].url@))
                            =~= acc0.stations.push((out@.last().name@, out@.last().url@)));
                    } else {
                        match parse_station_line(&v, c0, c1, index) {
                            Some((name, url)) => {
                                out.push(RadioStation { name, url });
                                pending = None;
                                assert(Seq::new(out@.len(), |i: int| (out@[i].name@, out@[i].url@))
                                    =~= acc0.stations.push((out@.last().name@, out@.last().url@)));
                            },
                            None => {
                                pending = None;
                                skipped = skipped.saturating_add(1);
                            },
                        }
                    }
                },
            }
        }
        assert(StationsRead {
            stations: Seq::new(out@.len(), |i: int| (out@[i].name@, out@[i].url@)),
            skipped,
            pending: match pending {
                Some((a, b)) => Some(v@.subrange(a as int, b as int)),
                None => None,
            },
        } == step(first_line(s), acc0));
        assert(fold_lines(s, acc0, step) == fold_lines(
            after_first_line(s),
            step(first_line(s), acc0),
            step,
        ));
        pos = next;
    }
    assert(v@.subrange(pos as int, v.len() as int) =~= Seq::<char>::empty());
    (out, skipped)
}

proof fn lemma_station_line_url(line: Seq<char>, index: nat)
    ensures
        station_line(line, index) matches Some((n, u)) ==> is_radio_url_spec(u),
{
}

proof fn lemma_step_keeps_urls(raw: Seq<char>, acc: StationsRead)
    requires
        all_urls_streamable(acc.stations),
    ensures
        all_urls_streamable(stations_step(raw, acc).stations),
{
    let line = clean_field(raw);
    lemma_station_line_url(line, (acc.stations.len() + 1) as nat);
    let next = stations_step(raw, acc).stations;
    assert forall|i: int| 0 <= i < next.len() implies #[trigger] is_radio_url_spec(next[i].1) by {
        if i < acc.stations.len() {
            assert(next[i] == acc.stations[i]);
        }
    }
}

proof fn lemma_fold_keeps_urls(s: Seq<char>, acc: StationsRead)
    requires
        all_urls_streamable(acc.stations),
    ensures
        all_urls_streamable(fold_lines(s, acc, stations_stepper()).stations),
    decreases s.len(),
{
    if s.len() > 0 {
        crate::text::lemma_index_of_bounds(s, '\n');
        lemma_step_keeps_urls(first_line(s), acc);
        lemma_fold_keeps_urls(after_first_line(s), stations_step(first_line(s), acc));
    }
}

/// Every station read from a station file has an `http://` or `https://`
/// stream URL.
pub proof fn lemma_parsed_urls_streamable(text: Seq<char>)
    ensures
        all_urls_streamable(stations_read(text).stations),
{
    lemma_fold_keeps_urls(text, StationsRead { stations: Seq::empty(), skipped: 0, pending: None });
}

/// Whether a stream URL can be played (`http://` or `https://`).
pub fn is_supported_stream_url(url: &str) -> (r: bool)
    ensures
        r == is_radio_url_spec(url@),
{
    let v = str_chars(url);
    let n = v.len();
    assert(v@.subrange(0, n as int) =~= v@);
    is_radio_url(&v, 0, n)
}

/// Monitor word for how a stream plays.
pub fn stream_playback_label(url: &str) -> (r: &'static str)
    ensures
        r@ == (if starts_with(url@, "https://"@) {
            "HTTPS_MP3_STREAM"@
        } else {
            "HTTP_MP3_STREAM"@
        }),
{
    let v = str_chars(url);
    let n = v.len();
    assert(v@.subrange(0, n as int) =~= v@);
    if range_starts_with(&v, 0, n, "https://") {
        "HTTPS_MP3_STREAM"
    } else {
        "HTTP_MP3_STREAM"
    }
}

/// Monitor word for the stream format.
pub fn stream_format_label(url: &str) -> (r: &'static str)
    ensures
        r@ == (if starts_with(url@, "https://"@) {
            "HTTPS_MP3"@
        } else {
            "HTTP_MP3"@
        }),
{
    let v = str_chars(url);
    let n = v.len();
    assert(v@.subrange(0, n as int) =~= v@);
    if range_starts_with(&v, 0, n, "https://") {
        "HTTPS_MP3"
    } else {
        "HTTP_MP3"
    }
}


/// A file name that may hold a station list: the known names, or a
/// `RADIO…`/`STATION…` name with a list extension (any case).
pub open spec fn station_list_candidate_spec(name: Seq<char>) -> bool {
    let u = ascii_upper(name);
    ||| u == "RADIO.TXT"@
    ||| u == "RADIO.CSV"@
    ||| u == "RADIO.M3U"@
    ||| u == "RADIO.M3U8"@
    ||| u == "RADIO"@
    ||| u == "STATION.TXT"@
    ||| u == "STATIONS.TXT"@
    ||| u == "STATIONS.CSV"@
    ||| u == "STATIONS.M3U"@
    ||| u == "RADIO~1.TXT"@
    ||| ((starts_with(u, "RADIO"@) || starts_with(u, "STATION"@)) && (crate::text::ends_with(
        u,
        ".TXT"@,
    ) || crate::text::ends_with(u, ".CSV"@) || crate::text::ends_with(u, ".M3U"@)
        || crate::text::ends_with(u, ".M3U8"@)))
}

/// Whether a file name may hold a station list.
pub fn is_station_list_candidate(name: &str) -> (r: bool)
    ensures
        r == station_list_candidate_spec(name@),
{
    let v = str_chars(name);
    let n = v.len();
    assert(v@.subrange(0, n as int) =~= v@);
    let u = upper_range(&v, 0, n);
    let m = u.len();
    assert(u@.subrange(0, m as int) =~= u@);
    if range_eq_str(&u, 0, m, "RADIO.TXT") || range_eq_str(&u, 0, m, "RADIO.CSV")
        || range_eq_str(&u, 0, m, "RADIO.M3U") || range_eq_str(&u, 0, m, "RADIO.M3U8")
        || range_eq_str(&u, 0, m, "RADIO") || range_eq_str(&u, 0, m, "STATION.TXT")
        || range_eq_str(&u, 0, m, "STATIONS.TXT") || range_eq_str(&u, 0, m, "STATIONS.CSV")
        || range_eq_str(&u, 0, m, "STATIONS.M3U") || range_eq_str(&u, 0, m, "RADIO~1.TXT") {
        return true;
    }
    (range_starts_with(&u, 0, m, "RADIO") || range_starts_with(&u, 0, m, "STATION")) && (
    crate::text::range_ends_with(&u, 0, m, ".TXT") || crate::text::range_ends_with(
        &u,
        0,
        m,
        ".CSV",
    ) || crate::text::range_ends_with(&u, 0, m, ".M3U") || crate::text::range_ends_with(
        &u,
        0,
        m,
        ".M3U8",
    ))
}

/// A path as shown: without a leading `/sdcard`.
pub fn radio_display_path(path: &str) -> (r: String)
    ensures
        r@ == (if starts_with(path@, "/sdcard"@) {
            path@.subrange(7, path@.len() as int)
        } else {
            path@
        }),
{
    let v = str_chars(path);
    let n = v.len();
    assert(v@.subrange(0, n as int) =~= v@);
    proof {
        reveal_strlit("/sdcard");
    }
    if range_starts_with(&v, 0, n, "/sdcard") {
        string_from_range(&v, 7, n)
    } else {
        string_from_range(&v, 0, n)
    }
}

/// A station name as shown: trimmed and cut to 24 characters, or `Radio`
/// when nothing is left.
pub open spec fn shown_station_name(input: Seq<char>) -> Seq<char> {
    let c = trim(input);
    let t = c.take(if c.len() < 24 { c.len() as int } else { 24 });
    if c.len() == 0 || trim(t).len() == 0 {
        "Radio"@
    } else {
        t
    }
}

/// A station name as shown on the radio screen.
pub fn radio_r32_preserve_raw_station_name(input: &str) -> (r: String)
    ensures
        r@ == shown_station_name(input@),
{
    let v = str_chars(input);
    let n = v.len();
    assert(v@.subrange(0, n as int) =~= v@);
    let (c0, c1) = trim_range(&v, 0, n);
    if c0 == c1 {
        return "Radio".to_owned();
    }
    let stop = if c1 - c0 < 24 {
        c1
    } else {
        c0 + 24
    };
    assert(v@.subrange(c0 as int, stop as int) =~= v@.subrange(c0 as int, c1 as int).take(
        (stop - c0) as int,
    ));
    let (t0, t1) = trim_range(&v, c0, stop);
    if t0 == t1 {
        "Radio".to_owned()
    } else {
        string_from_range(&v, c0, stop)
    }
}

/// `h:mm:ss` from an hour on, else `m:ss`.
pub open spec fn hhmmss_spec(seconds: u32) -> Seq<char> {
    let h = seconds / 3600;
    let m = (seconds % 3600) / 60;
    let s = seconds % 60;
    if h > 0 {
        dec(h as nat) + ":"@ + dec2(m as nat) + ":"@ + dec2(s as nat)
    } else {
        dec(m as nat) + ":"@ + dec2(s as nat)
    }
}

/// Elapsed time of a stream.
pub fn seconds_to_hhmmss(seconds: u32) -> (r: String)
    ensures
        r@ == hhmmss_spec(seconds),
{
    let h = seconds / 3600;
    let m = (seconds % 3600) / 60;
    let sec = seconds % 60;
    let mut s = String::new();
    if h > 0 {
        push_dec(&mut s, h as u64);
        push_str(&mut s, ":");
        push_dec2(&mut s, m as u64);
        push_str(&mut s, ":");
        push_dec2(&mut s, sec as u64);
    } else {
        push_dec(&mut s, m as u64);
        push_str(&mut s, ":");
        push_dec2(&mut s, sec as u64);
    }
    s
}

/// The selected station: the stored selection modulo the list length.
pub fn radio_selected_index(stored: u32, len: usize) -> (r: usize)
    ensures
        len == 0 ==> r == 0,
        len > 0 ==> r == (stored as int) % (len as int) && r < len,
{
    if len == 0 {
        0
    } else {
        (stored as usize) % len
    }
}

/// The radio backend as the screen reads it.
#[derive(Clone, Copy, Debug)]
pub struct RadioBackendView {
    pub selected: u32,
    pub rust_playing: bool,
    pub thread_active: bool,
    pub ui_idle_override: bool,
    pub elapsed_seconds: u32,
    pub status_code: u32,
}

/// Whether the stream backend is running.
pub open spec fn backend_active_spec(b: RadioBackendView) -> bool {
    b.rust_playing || b.thread_active || (1 <= b.status_code <= 4)
}

/// The status word of the radio screen: after a user stop or station
/// change the screen shows stopping or ready; otherwise the stream shim's
/// status.
pub open spec fn radio_status_word(b: RadioBackendView) -> Seq<char> {
    if b.ui_idle_override && b.thread_active {
        "STOPPING"@
    } else if b.ui_idle_override {
        "READY"@
    } else if b.status_code == 1 {
        "CONNECTING"@
    } else if b.status_code == 2 {
        "BUFFERING"@
    } else if b.status_code == 3 {
        "PLAYING"@
    } else if b.status_code == 4 {
        "STOPPING"@
    } else if b.status_code == 5 && backend_active_spec(b) {
        "STOPPING"@
    } else if b.status_code == 5 {
        "STOPPED"@
    } else if b.status_code == 6 {
        "ERROR"@
    } else if b.thread_active || b.rust_playing {
        "STARTING"@
    } else {
        "STOPPED"@
    }
}

fn radio_status_text(b: &RadioBackendView) -> (r: &'static str)
    ensures
        r@ == radio_status_word(*b),
{
    let backend_active = b.rust_playing || b.thread_active || (1 <= b.status_code
        && b.status_code <= 4);
    if b.ui_idle_override && b.thread_active {
        "STOPPING"
    } else if b.ui_idle_override {
        "READY"
    } else if b.status_code == 1 {
        "CONNECTING"
    } else if b.status_code == 2 {
        "BUFFERING"
    } else if b.status_code == 3 {
        "PLAYING"
    } else if b.status_code == 4 {
        "STOPPING"
    } else if b.status_code == 5 && backend_active {
        "STOPPING"
    } else if b.status_code == 5 {
        "STOPPED"
    } else if b.status_code == 6 {
        "ERROR"
    } else if b.thread_active || b.rust_playing {
        "STARTING"
    } else {
        "STOPPED"
    }
}

/// The Internet Radio screen for a station list and the backend state.
pub fn radio_snapshot(stations: &Vec<RadioStation>, b: &RadioBackendView) -> (r: RadioScreenSnapshot)
    ensures
        stations@.len() == 0 ==> {
            &&& r.station_label@ == "NO STATIONS"@
            &&& r.status_label@ == "Create /AUDIO/RADIO.TXT"@
            &&& r.source_label@ == "HTTP/HTTPS MP3"@
            &&& !r.playing
            &&& r.progress_percent == 0
            &&& r.elapsed_label@ == "LIVE"@
            &&& r.duration_label@ == "--"@
        },
        stations@.len() > 0 ==> {
            let idx = (b.selected as int) % (stations@.len() as int);
            &&& r.station_label@ == " "@
            &&& r.status_label@ == radio_status_word(*b)
            &&& r.source_label@ == shown_station_name(stations@[idx].name@)
            &&& r.playing == (!b.ui_idle_override && backend_active_spec(*b))
            &&& r.progress_percent == (b.elapsed_seconds % 60) * 100 / 60
            &&& r.elapsed_label@ == hhmmss_spec(b.elapsed_seconds)
            &&& r.duration_label@ == "LIVE"@
        },
{
    if stations.len() == 0 {
        return RadioScreenSnapshot {
            station_label: "NO STATIONS".to_owned(),
            status_label: "Create /AUDIO/RADIO.TXT".to_owned(),
            source_label: "HTTP/HTTPS MP3".to_owned(),
            playing: false,
            progress_percent: 0,
            elapsed_label: "LIVE".to_owned(),
            duration_label: "--".to_owned(),
        };
    }
    let idx = radio_selected_index(b.selected, stations.len());
    let station = &stations[idx];
    let backend_active = b.rust_playing || b.thread_active || (1 <= b.status_code
        && b.status_code <= 4);
    let playing = if b.ui_idle_override {
        false
    } else {
        backend_active
    };
    let progress: u32 = (b.elapsed_seconds % 60) * 100 / 60;
    RadioScreenSnapshot {
        station_label: " ".to_owned(),
        status_label: radio_status_text(b).to_owned(),
        source_label: radio_r32_preserve_raw_station_name(station.name.as_str()),
        playing,
        progress_percent: progress as u8,
        elapsed_label: seconds_to_hhmmss(b.elapsed_seconds),
        duration_label: "LIVE".to_owned(),
    }
}


/// A stop request for `reason` makes the screen show the stream as idle for
/// user stops and station changes.
pub fn stop_sets_idle_override(reason: &str) -> (r: bool)
    ensures
        r == (reason@ == "user-stop"@ || reason@ == "next"@ || reason@ == "prev"@),
{
    crate::text::str_eq(reason, "user-stop") || crate::text::str_eq(reason, "next")
        || crate::text::str_eq(reason, "prev")
}

/// The radio's shared playback state: the selected station, whether a
/// stream is wanted, whether the stream thread runs, whether the screen
/// shows the ready (PLAY) state while an old stream is still stopping, and
/// the redraw counter.
#[derive(Clone, Copy, Debug, PartialEq, Eq, Structural)]
pub struct RadioControl {
    pub selected: u32,
    pub playing: bool,
    pub thread_active: bool,
    pub ui_idle_override: bool,
    pub sequence: u32,
}

/// The counter moved on by one, wrapping at 2^32.
pub open spec fn next_seq(seq: u32) -> u32 {
    crate::audio::bumped(seq)
}

/// The state after a stop request for `reason`: no stream wanted, and the
/// ready state shown when the user stopped or changed station.
pub open spec fn stopped(c: RadioControl, reason: Seq<char>) -> RadioControl {
    RadioControl {
        playing: false,
        ui_idle_override: c.ui_idle_override || reason == "user-stop"@ || reason == "next"@ || reason == "prev"@,
        sequence: next_seq(c.sequence),
        ..c
    }
}

/// The state after NEXT with `len` stations: the stream is stopped and,
/// when there are stations, the following one is selected (wrapping) and
/// shown ready.
pub open spec fn after_next(c: RadioControl, len: nat) -> RadioControl {
    let s = stopped(c, "next"@);
    if len == 0 {
        s
    } else {
        RadioControl {
            selected: (((c.selected as nat) % len + 1) % len) as u32,
            ui_idle_override: true,
            sequence: next_seq(s.sequence),
            ..s
        }
    }
}

/// The state after PREV with `len` stations: the stream is stopped and,
/// when there are stations, the preceding one is selected (wrapping) and
/// shown ready.
pub open spec fn after_previous(c: RadioControl, len: nat) -> RadioControl {
    let s = stopped(c, "prev"@);
    let current = (c.selected as nat) % len;
    if len == 0 {
        s
    } else {
        RadioControl {
            selected: (if current == 0 { len - 1 } else { current - 1 }) as u32,
            ui_idle_override: true,
            sequence: next_seq(s.sequence),
            ..s
        }
    }
}

/// What a PLAY/STOP press did.
#[derive(Clone, Copy, Debug, PartialEq, Eq, Structural)]
pub enum RadioPress {
    /// There are no stations.
    NoStations,
    /// The running stream was asked to stop.
    Stop,
    /// An earlier stop is still finishing; the button stays PLAY.
    Stopping,
    /// The station at this index should be streamed.
    Start(usize),
    /// The station's URL cannot be streamed.
    Refused,
}

/// The state and outcome of a PLAY/STOP press with the station list
/// `stations`.
pub open spec fn after_press(c: RadioControl, stations: Seq<RadioStation>) -> (RadioControl, RadioPress) {
    let len = stations.len();
    if len == 0 {
        (RadioControl { playing: false, ..c }, RadioPress::NoStations)
    } else if !c.ui_idle_override && (c.playing || c.thread_active) {
        (stopped(c, "user-stop"@), RadioPress::Stop)
    } else if c.ui_idle_override && c.thread_active {
        (RadioControl { sequence: next_seq(c.sequence), ..c }, RadioPress::Stopping)
    } else {
        let idx = (c.selected as nat) % len;
        if is_radio_url_spec(stations[idx as int].url@) {
            (
                RadioControl {
                    playing: true,
                    thread_active: true,
                    ui_idle_override: false,
                    sequence: next_seq(c.sequence),
                    ..c
                },
                RadioPress::Start(idx as usize),
            )
        } else {
            (RadioControl { playing: false, thread_active: false, ..c }, RadioPress::Refused)
        }
    }
}

/// Whether the screen shows a stream as playing (a STOP button) for the
/// backend state `b`.
pub open spec fn shows_playing(b: RadioBackendView) -> bool {
    !b.ui_idle_override && backend_active_spec(b)
}

/// The backend view of a control state with the stream's elapsed time and
/// status code.
pub open spec fn control_view(c: RadioControl, elapsed_seconds: u32, status_code: u32) -> RadioBackendView {
    RadioBackendView {
        selected: c.selected,
        rust_playing: c.playing,
        thread_active: c.thread_active,
        ui_idle_override: c.ui_idle_override,
        elapsed_seconds,
        status_code,
    }
}

impl RadioControl {
    /// The first station selected, nothing playing.
    pub fn new() -> (r: Self)
        ensures
            r == (RadioControl { selected: 0, playing: false, thread_active: false, ui_idle_override: false, sequence: 0 }),
    {
        RadioControl { selected: 0, playing: false, thread_active: false, ui_idle_override: false, sequence: 0 }
    }

    /// The screen's view of the radio, given the stream's elapsed time and
    /// status code; with no stations nothing counts as playing.
    pub fn screen_view(&mut self, station_count: usize, elapsed_seconds: u32, status_code: u32) -> (r: RadioBackendView)
        ensures
            *final(self) == (if station_count == 0 { RadioControl { playing: false, ..*old(self) } } else { *old(self) }),
            r == control_view(*final(self), elapsed_seconds, status_code),
    {
        if station_count == 0 {
            self.playing = false;
        }
        RadioBackendView {
            selected: self.selected,
            rust_playing: self.playing,
            thread_active: self.thread_active,
            ui_idle_override: self.ui_idle_override,
            elapsed_seconds,
            status_code,
        }
    }

    /// Records a stop request for `reason`; the caller asks the stream to
    /// stop.
    pub fn stop_stream(&mut self, reason: &str)
        ensures
            *final(self) == stopped(*old(self), reason@),
    {
        self.playing = false;
        if stop_sets_idle_override(reason) {
            self.ui_idle_override = true;
        }
        self.sequence = self.sequence.wrapping_add(1);
    }

    /// NEXT: stops the stream and selects the following station; returns
    /// the action name.
    pub fn next_station(&mut self, station_count: usize) -> (r: &'static str)
        ensures
            *final(self) == after_next(*old(self), station_count as nat),
            r@ == (if station_count == 0 { "RadioNoStations"@ } else { "RadioNext"@ }),
    {
        self.stop_stream("next");
        proof {
            reveal_strlit("next");
            reveal_strlit("user-stop");
            reveal_strlit("prev");
        }
        if station_count == 0 {
            return "RadioNoStations";
        }
        let current = radio_selected_index(self.selected, station_count);
        let next = (current + 1) % station_count;
        self.selected = next as u32;
        self.ui_idle_override = true;
        self.sequence = self.sequence.wrapping_add(1);
        "RadioNext"
    }

    /// PREV: stops the stream and selects the preceding station; returns
    /// the action name.
    pub fn previous_station(&mut self, station_count: usize) -> (r: &'static str)
        ensures
            *final(self) == after_previous(*old(self), station_count as nat),
            r@ == (if station_count == 0 { "RadioNoStations"@ } else { "RadioPrev"@ }),
    {
        self.stop_stream("prev");
        proof {
            reveal_strlit("next");
            reveal_strlit("user-stop");
            reveal_strlit("prev");
        }
        if station_count == 0 {
            return "RadioNoStations";
        }
        let current = radio_selected_index(self.selected, station_count);
        let prev = if current == 0 {
            station_count - 1
        } else {
            current - 1
        };
        self.selected = prev as u32;
        self.ui_idle_override = true;
        self.sequence = self.sequence.wrapping_add(1);
        "RadioPrev"
    }

    /// PLAY/STOP: stops a running stream, waits out a stop in progress, or
    /// starts the selected station when its URL can be streamed.
    pub fn toggle_play_stop(&mut self, stations: &Vec<RadioStation>) -> (r: RadioPress)
        ensures
            (*final(self), r) == after_press(*old(self), stations@),
    {
        proof {
            reveal_strlit("next");
            reveal_strlit("user-stop");
            reveal_strlit("prev");
        }
        let len = stations.len();
        if len == 0 {
            self.playing = false;
            return RadioPress::NoStations;
        }
        if !self.ui_idle_override && (self.playing || self.thread_active) {
            self.stop_stream("user-stop");
            return RadioPress::Stop;
        }
        if self.ui_idle_override && self.thread_active {
            self.sequence = self.sequence.wrapping_add(1);
            return RadioPress::Stopping;
        }
        let idx = radio_selected_index(self.selected, len);
        if is_supported_stream_url(stations[idx].url.as_str()) {
            self.ui_idle_override = false;
            self.playing = true;
            self.thread_active = true;
            self.sequence = self.sequence.wrapping_add(1);
            RadioPress::Start(idx)
        } else {
            self.playing = false;
            self.thread_active = false;
            RadioPress::Refused
        }
    }

    /// The stream thread could not be started.
    pub fn spawn_failed(&mut self)
        ensures
            *final(self) == (RadioControl { playing: false, thread_active: false, ..*old(self) }),
    {
        self.playing = false;
        self.thread_active = false;
    }

    /// The stream thread ended.
    pub fn stream_finished(&mut self)
        ensures
            *final(self) == (RadioControl {
                playing: false,
                thread_active: false,
                sequence: next_seq(old(self).sequence),
                ..*old(self)
            }),
    {
        self.playing = false;
        self.thread_active = false;
        self.sequence = self.sequence.wrapping_add(1);
    }
}

/// The monitor name of a PLAY/STOP outcome.
pub fn press_label(p: RadioPress) -> (r: &'static str)
    ensures
        r@ == (match p {
            RadioPress::NoStations => "RadioNoStations"@,
            RadioPress::Stop => "RadioStop"@,
            RadioPress::Stopping => "RadioStopping"@,
            RadioPress::Start(_) => "RadioPlay"@,
            RadioPress::Refused => "RadioError"@,
        }),
{
    match p {
        RadioPress::NoStations => "RadioNoStations",
        RadioPress::Stop => "RadioStop",
        RadioPress::Stopping => "RadioStopping",
        RadioPress::Start(_) => "RadioPlay",
        RadioPress::Refused => "RadioError",
    }
}

/// STOP, NEXT and PREV leave the selected station ready with a PLAY
/// button: afterwards the screen never shows a stream as playing, and the
/// next PLAY press either starts the selected station or, while the old
/// stream is still stopping, keeps the PLAY button.
pub proof fn lemma_station_select_leaves_play_ready(
    c: RadioControl,
    stations: Seq<RadioStation>,
    elapsed_seconds: u32,
    status_code: u32,
)
    requires
        stations.len() > 0,
    ensures
        !shows_playing(control_view(after_next(c, stations.len()), elapsed_seconds, status_code)),
        !shows_playing(control_view(after_previous(c, stations.len()), elapsed_seconds, status_code)),
        after_press(c, stations).1 == RadioPress::Stop ==> !shows_playing(
            control_view(after_press(c, stations).0, elapsed_seconds, status_code),
        ),
        after_press(after_next(c, stations.len()), stations).1 != RadioPress::Stop,
        after_press(after_previous(c, stations.len()), stations).1 != RadioPress::Stop,
        after_press(after_press(c, stations).0, stations).1 == RadioPress::Stopping
            ==> !shows_playing(control_view(after_press(after_press(c, stations).0, stations).0, elapsed_seconds, status_code)),
{
}

/// The radio progress counter.
pub fn progress_sequence(flags: &ProgressFlags) -> (r: u32)
    ensures
        r == flags.sequence,
{
    flags.sequence
}

/// Whether the radio screen should keep redrawing progress: a station plays
/// or the stream thread has not finished.
pub fn progress_active(flags: &ProgressFlags) -> (r: bool)
    ensures
        r == (flags.playing || flags.thread_active),
{
    flags.playing || flags.thread_active
}

/// A station list read from a file: where from, its size in bytes, the
/// stations and the number of lines that could not be read.
#[derive(Debug)]
pub struct RadioStationLoad {
    pub path: String,
    pub bytes: usize,
    pub stations: Vec<RadioStation>,
    pub skipped: usize,
}

/// Reads the station list `text` of the file at `path`.
pub fn station_load_from_text(path: &str, text: &str) -> (r: RadioStationLoad)
    ensures
        r.path@ == path@,
        r.bytes == text.spec_bytes().len() as usize,
        r.skipped == stations_read(text@).skipped,
        r.stations@.len() == stations_read(text@).stations.len(),
        forall|i: int|
            0 <= i < r.stations@.len() ==> (#[trigger] r.stations@[i]).name@ == stations_read(text@).stations[i].0
                && r.stations@[i].url@ == stations_read(text@).stations[i].1,
{
    let (stations, skipped) = parse_stations_text(text);
    RadioStationLoad { path: path.to_owned(), bytes: text.len(), stations, skipped }
}

/// The stations of a loaded list, none when no list was found.
pub fn stations(load: Option<RadioStationLoad>) -> (r: Vec<RadioStation>)
    ensures
        match load {
            Some(l) => r@ == l.stations@,
            None => r@.len() == 0,
        },
{
    match load {
        Some(l) => l.stations,
        None => Vec::new(),
    }
}

/// What is known of the station list for the boot log.
#[derive(Debug)]
pub struct RadioStationDiag {
    pub status: &'static str,
    pub path: String,
    pub bytes: usize,
    pub skipped: usize,
}

/// The station list as the boot log reports it: `READY` or `PARSE_EMPTY`
/// with the shown path, size and skipped lines of a loaded list, or
/// `MISSING` with the first searched path.
pub fn station_list_diagnostics(load: &Option<RadioStationLoad>) -> (r: RadioStationDiag)
    ensures
        match *load {
            Some(l) => {
                &&& r.status@ == (if l.stations@.len() == 0 {
                    "PARSE_EMPTY"@
                } else {
                    "READY"@
                })
                &&& r.path@ == (if starts_with(l.path@, "/sdcard"@) {
                    l.path@.subrange(7, l.path@.len() as int)
                } else {
                    l.path@
                })
                &&& r.bytes == l.bytes
                &&& r.skipped == l.skipped
            },
            None => {
                &&& r.status@ == "MISSING"@
                &&& r.path@ == "/AUDIO/RADIO.TXT"@
                &&& r.bytes == 0
                &&& r.skipped == 0
            },
        },
{
    match load {
        Some(l) => RadioStationDiag {
            status: if l.stations.len() == 0 {
                "PARSE_EMPTY"
            } else {
                "READY"
            },
            path: radio_display_path(l.path.as_str()),
            bytes: l.bytes,
            skipped: l.skipped,
        },
        None => {
            let path = radio_display_path("/sdcard/AUDIO/RADIO.TXT");
            proof {
                reveal_strlit("/sdcard/AUDIO/RADIO.TXT");
                reveal_strlit("/sdcard");
                reveal_strlit("/AUDIO/RADIO.TXT");
                assert("/sdcard/AUDIO/RADIO.TXT"@.subrange(0, 7) =~= "/sdcard"@);
                assert("/sdcard/AUDIO/RADIO.TXT"@.subrange(7, 23) =~= "/AUDIO/RADIO.TXT"@);
            }
            RadioStationDiag { status: "MISSING", path, bytes: 0, skipped: 0 }
        },
    }
}

/// The stored radio volume as the stream reads it: at most 100.
pub fn volume_percent(stored: u32) -> (r: u8)
    ensures
        r == (if stored < 100 {
            stored
        } else {
            100
        }),
{
    if stored < 100 {
        stored as u8
    } else {
        100
    }
}

/// The first list with stations among `offers`.
pub open spec fn first_nonempty(offers: Seq<Option<RadioStationLoad>>) -> Option<RadioStationLoad>
    decreases offers.len(),
{
    if offers.len() == 0 {
        None
    } else {
        match offers[0] {
            Some(l) => if l.stations@.len() > 0 {
                Some(l)
            } else {
                first_nonempty(offers.drop_first())
            },
            None => first_nonempty(offers.drop_first()),
        }
    }
}

/// The first list that could be read among `offers`.
pub open spec fn first_loaded(offers: Seq<Option<RadioStationLoad>>) -> Option<RadioStationLoad>
    decreases offers.len(),
{
    if offers.len() == 0 {
        None
    } else {
        match offers[0] {
            Some(l) => Some(l),
            None => first_loaded(offers.drop_first()),
        }
    }
}

/// The list the radio settles on when the candidate files give `offers` in
/// turn: the first with stations, else the first that could be read.
pub open spec fn station_pick(offers: Seq<Option<RadioStationLoad>>) -> Option<RadioStationLoad> {
    if first_nonempty(offers) is Some {
        first_nonempty(offers)
    } else {
        first_loaded(offers)
    }
}

/// One candidate file of the search: `(found, first_empty)` after `offer`.
pub open spec fn search_step(
    s: (Option<RadioStationLoad>, Option<RadioStationLoad>),
    offer: Option<RadioStationLoad>,
) -> (Option<RadioStationLoad>, Option<RadioStationLoad>) {
    if s.0 is Some {
        s
    } else {
        match offer {
            None => s,
            Some(l) => if l.stations@.len() > 0 {
                (Some(l), s.1)
            } else if s.1 is Some {
                s
            } else {
                (None, Some(l))
            },
        }
    }
}

/// The search state after `offers`, one after the other.
pub open spec fn search_fold(offers: Seq<Option<RadioStationLoad>>) -> (Option<RadioStationLoad>, Option<RadioStationLoad>)
    decreases offers.len(),
{
    if offers.len() == 0 {
        (None, None)
    } else {
        search_step(search_fold(offers.drop_last()), offers.last())
    }
}

/// What a search state settles on.
pub open spec fn search_outcome(s: (Option<RadioStationLoad>, Option<RadioStationLoad>)) -> Option<RadioStationLoad> {
    if s.0 is Some {
        s.0
    } else {
        s.1
    }
}

proof fn lemma_first_nonempty_push(offers: Seq<Option<RadioStationLoad>>, x: Option<RadioStationLoad>)
    ensures
        first_nonempty(offers.push(x)) == (if first_nonempty(offers) is Some {
            first_nonempty(offers)
        } else {
            match x {
                Some(l) => if l.stations@.len() > 0 {
                    Some(l)
                } else {
                    None
                },
                None => None,
            }
        }),
        first_loaded(offers.push(x)) == (if first_loaded(offers) is Some {
            first_loaded(offers)
        } else {
            x
        }),
    decreases offers.len(),
{
    let px = offers.push(x);
    if offers.len() == 0 {
        assert(px.drop_first() =~= Seq::<Option<RadioStationLoad>>::empty());
        assert(px[0] == x);
        assert(first_nonempty(px.drop_first()) is None);
        assert(first_loaded(px.drop_first()) is None);
    } else {
        let tail = offers.drop_first();
        lemma_first_nonempty_push(tail, x);
        assert(px.drop_first() =~= tail.push(x));
        assert(px[0] == offers[0]);
    }
}

proof fn lemma_search_fold(offers: Seq<Option<RadioStationLoad>>)
    ensures
        search_fold(offers).0 == first_nonempty(offers),
        search_fold(offers).0 is None ==> search_fold(offers).1 == first_loaded(offers),
    decreases offers.len(),
{
    if offers.len() > 0 {
        let init = offers.drop_last();
        lemma_search_fold(init);
        lemma_first_nonempty_push(init, offers.last());
        assert(init.push(offers.last()) =~= offers);
    }
}

/// Offering candidate files one at a time settles on the first list with
/// stations, and failing that on the first list that could be read.
pub proof fn lemma_station_search_picks_first_nonempty(offers: Seq<Option<RadioStationLoad>>)
    ensures
        search_outcome(search_fold(offers)) == station_pick(offers),
{
    lemma_search_fold(offers);
}

/// The search for a station list over candidate files.
pub struct StationSearch {
    pub found: Option<RadioStationLoad>,
    pub best_empty: Option<RadioStationLoad>,
}

impl StationSearch {
    /// Nothing offered yet.
    pub fn new() -> (r: Self)
        ensures
            r.found is None,
            r.best_empty is None,
    {
        StationSearch { found: None, best_empty: None }
    }

    /// Whether a list with stations has been found, so that no further file
    /// needs reading.
    pub fn is_done(&self) -> (r: bool)
        ensures
            r == self.found is Some,
    {
        self.found.is_some()
    }

    /// Takes the result of reading one more candidate file.
    pub fn offer(&mut self, loaded: Option<RadioStationLoad>)
        ensures
            (final(self).found, final(self).best_empty) == search_step((old(self).found, old(self).best_empty), loaded),
    {
        if self.found.is_some() {
            return;
        }
        match loaded {
            None => {},
            Some(l) => {
                if l.stations.len() > 0 {
                    self.found = Some(l);
                } else if self.best_empty.is_none() {
                    self.best_empty = Some(l);
                }
            },
        }
    }

    /// The list the search settles on.
    pub fn result(self) -> (r: Option<RadioStationLoad>)
        ensures
            r == search_outcome((self.found, self.best_empty)),
    {
        match self.found {
            Some(l) => Some(l),
            None => self.best_empty,
        }
    }
}

} // verus!
