//! Wi-Fi provisioning steps and `WIFI.TXT` credential parsing.
//!
//! The credential file is a small `key=value` text:
//! `ssid=YourNetwork` and `password=YourPassword` (also `pass` or `psk`).

use vstd::prelude::*;
use crate::text::{
    after_first_line, ascii_lower, find_char, first_line, fold_lines, index_of, lower_range, next_line, range_eq, range_view, skip_bom,
    skip_bom_range, str_chars, string_from_range, trim, trim_range, utf8_len, utf8_len_exceeds,
};

verus! {

/// Stage of the Wi-Fi provisioning flow.
#[derive(Debug, Clone, Copy, PartialEq, Eq, Structural)]
pub enum WifiProvisioningStep {
    Idle,
    ImportSd,
    Connecting,
    Connected,
    Failed,
}

impl WifiProvisioningStep {
    pub open spec fn label_spec(self) -> Seq<char> {
        match self {
            WifiProvisioningStep::Idle => "PROV IDLE"@,
            WifiProvisioningStep::ImportSd => "IMPORT SD"@,
            WifiProvisioningStep::Connecting => "CONNECTING"@,
            WifiProvisioningStep::Connected => "CONNECTED"@,
            WifiProvisioningStep::Failed => "FAILED"@,
        }
    }

    pub fn label(self) -> (r: &'static str)
        ensures
            r@ == self.label_spec(),
    {
        match self {
            WifiProvisioningStep::Idle => "PROV IDLE",
            WifiProvisioningStep::ImportSd => "IMPORT SD",
            WifiProvisioningStep::Connecting => "CONNECTING",
            WifiProvisioningStep::Connected => "CONNECTED",
            WifiProvisioningStep::Failed => "FAILED",
        }
    }

    pub fn short_label(self) -> (r: &'static str)
        ensures
            r@ == (match self {
                WifiProvisioningStep::Idle => "IDLE"@,
                WifiProvisioningStep::ImportSd => "IMPORT"@,
                WifiProvisioningStep::Connecting => "CONN"@,
                WifiProvisioningStep::Connected => "OK"@,
                WifiProvisioningStep::Failed => "FAIL"@,
            }),
    {
        match self {
            WifiProvisioningStep::Idle => "IDLE",
            WifiProvisioningStep::ImportSd => "IMPORT",
            WifiProvisioningStep::Connecting => "CONN",
            WifiProvisioningStep::Connected => "OK",
            WifiProvisioningStep::Failed => "FAIL",
        }
    }
}

/// Station credentials read from `WIFI.TXT`.
#[derive(Debug, Clone)]
pub struct WifiCredentials {
    pub ssid: String,
    pub password: String,
}

/// Why a `WIFI.TXT` could not be used.
#[derive(Debug, Clone, Copy, PartialEq, Eq, Structural)]
pub enum WifiCredentialParseError {
    MissingSsid,
    SsidTooLong,
    PasswordTooLong,
}

impl WifiCredentialParseError {
    pub fn label(self) -> (r: &'static str)
        ensures
            r@ == (match self {
                WifiCredentialParseError::MissingSsid => "NO SSID"@,
                WifiCredentialParseError::SsidTooLong => "SSID LONG"@,
                WifiCredentialParseError::PasswordTooLong => "PASS LONG"@,
            }),
    {
        match self {
            WifiCredentialParseError::MissingSsid => "NO SSID",
            WifiCredentialParseError::SsidTooLong => "SSID LONG",
            WifiCredentialParseError::PasswordTooLong => "PASS LONG",
        }
    }
}

/// Strips one pair of matching surrounding quotes (`"` or `'`).
pub open spec fn unquote(s: Seq<char>) -> Seq<char> {
    if s.len() >= 2 && ((s[0] == '"' && s.last() == '"') || (s[0] == '\'' && s.last()
        == '\'')) {
        s.subrange(1, s.len() - 1)
    } else {
        s
    }
}

/// The `key=value` split of a credential line that is not blank or a comment.
pub open spec fn credential_line(line: Seq<char>) -> Option<(Seq<char>, Seq<char>)> {
    let l = skip_bom(trim(line));
    if l.len() == 0 || l[0] == '#' || l[0] == ';' {
        None
    } else {
        let i = index_of(l, '=');
        if i < 0 {
            None
        } else {
            Some(
                (
                    ascii_lower(trim(l.subrange(0, i))),
                    unquote(trim(l.subrange(i + 1, l.len() as int))),
                ),
            )
        }
    }
}

/// Effect of one line on the (ssid, password) read so far: later keys win.
pub open spec fn credential_step(line: Seq<char>, acc: (Option<Seq<char>>, Option<Seq<char>>)) -> (
    Option<Seq<char>>,
    Option<Seq<char>>,
) {
    match credential_line(line) {
        None => acc,
        Some((key, value)) => if key == "ssid"@ {
            (Some(value), acc.1)
        } else if key == "password"@ || key == "pass"@ || key == "psk"@ {
            (acc.0, Some(value))
        } else {
            acc
        },
    }
}

/// `credential_step` as a value, for folding over lines.
pub open spec fn credential_stepper() -> spec_fn(
    Seq<char>,
    (Option<Seq<char>>, Option<Seq<char>>),
) -> (Option<Seq<char>>, Option<Seq<char>>) {
    |line: Seq<char>, acc: (Option<Seq<char>>, Option<Seq<char>>)| credential_step(line, acc)
}

/// The (ssid, password) values named by a credential text.
pub open spec fn credential_values(input: Seq<char>) -> (Option<Seq<char>>, Option<Seq<char>>) {
    fold_lines(input, (None::<Seq<char>>, None::<Seq<char>>), credential_stepper())
}

/// What `WifiCredentials::parse` returns for a text: the credentials, or the
/// first check that fails (missing/empty SSID, SSID over 32 bytes, password
/// over 64 bytes).
pub open spec fn parse_credentials_spec(input: Seq<char>) -> Result<
    (Seq<char>, Seq<char>),
    WifiCredentialParseError,
> {
    let (ssid, password) = credential_values(input);
    match ssid {
        None => Err(WifiCredentialParseError::MissingSsid),
        Some(s) => if s.len() == 0 {
            Err(WifiCredentialParseError::MissingSsid)
        } else if utf8_len(s) > 32 {
            Err(WifiCredentialParseError::SsidTooLong)
        } else {
            let p = match password {
                Some(p) => p,
                None => Seq::empty(),
            };
            if utf8_len(p) > 64 {
                Err(WifiCredentialParseError::PasswordTooLong)
            } else {
                Ok((s, p))
            }
        },
    }
}

/// Bounds of `unquote(v[a..b])`.
fn unquote_range(v: &Vec<char>, a: usize, b: usize) -> (r: (usize, usize))
    requires
        a <= b <= v.len(),
    ensures
        a <= r.0 <= r.1 <= b,
        v@.subrange(r.0 as int, r.1 as int) == unquote(v@.subrange(a as int, b as int)),
{
    if b - a >= 2 && ((v[a] == '"' && v[b - 1] == '"') || (v[a] == '\'' && v[b - 1] == '\'')) {
        assert(v@.subrange(a as int, b as int).subrange(1, (b - a) - 1) =~= v@.subrange(
            a + 1,
            b - 1,
        ));
        (a + 1, b - 1)
    } else {
        (a, b)
    }
}

/// Splits one credential line `v[a..b]` into key and value bounds.
fn credential_line_exec(v: &Vec<char>, a: usize, b: usize) -> (r: Option<(Vec<char>, usize, usize)>)
    requires
        a <= b <= v.len(),
    ensures
        match credential_line(v@.subrange(a as int, b as int)) {
            None => r is None,
            Some((key, value)) => r matches Some((k, va, vb)) && k@ == key && va <= vb <= v.len()
                && v@.subrange(va as int, vb as int) == value,
        },
{
    let (t0, t1) = trim_range(v, a, b);
    let s0 = skip_bom_range(v, t0, t1);
    let ghost l = v@.subrange(s0 as int, t1 as int);
    if s0 == t1 || v[s0] == '#' || v[s0] == ';' {
        return None;
    }
    match find_char(v, s0, t1, '=') {
        None => None,
        Some(i) => {
            let (k0, k1) = trim_range(v, s0, i);
            let key = lower_range(v, k0, k1);
            let (w0, w1) = trim_range(v, i + 1, t1);
            let (q0, q1) = unquote_range(v, w0, w1);
            proof {
                assert(l.subrange(0, i - s0) =~= v@.subrange(s0 as int, i as int));
                assert(l.subrange(i - s0 + 1, l.len() as int) =~= v@.subrange(i + 1, t1 as int));
            }
            Some((key, q0, q1))
        },
    }
}

impl WifiCredentials {
    /// Parses a `WIFI.TXT` text.
    pub fn parse(input: &str) -> (r: Result<WifiCredentials, WifiCredentialParseError>)
        ensures
            match parse_credentials_spec(input@) {
                Ok((s, p)) => r matches Ok(c) && c.ssid@ == s && c.password@ == p,
                Err(e) => r == Err::<WifiCredentials, WifiCredentialParseError>(e),
            },
    {
        let v = str_chars(input);
        let ghost step = credential_stepper();
        let mut ssid: Option<(usize, usize)> = None;
        let mut password: Option<(usize, usize)> = None;
        let mut pos: usize = 0;
        let ssid_key = str_chars("ssid");
        let password_key = str_chars("password");
        let pass_key = str_chars("pass");
        let psk_key = str_chars("psk");
        assert(v@.subrange(0, v.len() as int) =~= v@);
        while pos < v.len()
            invariant
                pos <= v.len(),
                v@ == input@,
                ssid_key@ == "ssid"@,
                password_key@ == "password"@,
                pass_key@ == "pass"@,
                psk_key@ == "psk"@,
                step == credential_stepper(),
                ssid matches Some((a, b)) ==> a <= b <= v.len(),
                password matches Some((a, b)) ==> a <= b <= v.len(),
                fold_lines(
                    v@.subrange(pos as int, v.len() as int),
                    (range_view(v@, ssid), range_view(v@, password)),
                    step,
                ) == credential_values(input@),
            decreases v.len() - pos,
        {
            let (la, lb, next) = next_line(&v, pos);
            let ghost s = v@.subrange(pos as int, v.len() as int);
            let ghost acc0 = (range_view(v@, ssid), range_view(v@, password));
            match credential_line_exec(&v, la, lb) {
                None => {},
                Some((key, va, vb)) => {
                    let key_len = key.len();
                    assert(key@.subrange(0, key_len as int) =~= key@);
                    if range_eq(&key, 0, key_len, &ssid_key) {
                        ssid = Some((va, vb));
                    } else if range_eq(&key, 0, key_len, &password_key) || range_eq(
                        &key,
                        0,
                        key_len,
                        &pass_key,
                    ) || range_eq(&key, 0, key_len, &psk_key) {
                        password = Some((va, vb));
                    }
                },
            }
            assert((range_view(v@, ssid), range_view(v@, password)) == step(first_line(s), acc0));
            assert(fold_lines(s, acc0, step) == fold_lines(
                after_first_line(s),
                step(first_line(s), acc0),
                step,
            ));
            pos = next;
        }
        assert(v@.subrange(pos as int, v.len() as int) =~= Seq::<char>::empty());
        let (sa, sb) = match ssid {
            None => {
                return Err(WifiCredentialParseError::MissingSsid);
            },
            Some(r) => r,
        };
        if sa == sb {
            return Err(WifiCredentialParseError::MissingSsid);
        }
        if utf8_len_exceeds(&v, sa, sb, 32) {
            return Err(WifiCredentialParseError::SsidTooLong);
        }
        let (pa, pb) = match password {
            None => (0, 0),
            Some(r) => r,
        };
        assert(v@.subrange(0, 0) =~= Seq::<char>::empty());
        if utf8_len_exceeds(&v, pa, pb, 64) {
            return Err(WifiCredentialParseError::PasswordTooLong);
        }
        Ok(WifiCredentials { ssid: string_from_range(&v, sa, sb), password: string_from_range(&v, pa, pb) })
    }
}

} // verus!
