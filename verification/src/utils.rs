//! Interpretation of environment settings: boolean flags, bounded numbers and
//! non-empty strings. The values are read by the caller and handed in.

use vstd::prelude::*;
use vstd::string::*;
use crate::text::{
    is_whitespace, spec_trim, trim, push_char, push_str, push_decimal, push_hex8_upper, hex8_upper_text, dec_text,
    push_hex2_upper, hex2_upper_text,
};
use crate::uri::{Uri, UriView, uri_text};

verus! {

/// ASCII lowercase of one character; other characters are kept.
pub open spec fn lower_char(c: char) -> char {
    if 'A' <= c && c <= 'Z' {
        ((c as u32) + 32) as char
    } else {
        c
    }
}

/// ASCII lowercase of a text, as `str::to_ascii_lowercase` gives it.
pub open spec fn spec_ascii_lower(s: Seq<char>) -> Seq<char> {
    s.map_values(|c: char| lower_char(c))
}

/// A copy of `s` in ASCII lowercase.
pub fn ascii_lower(s: &str) -> (t: String)
    ensures
        t@ == spec_ascii_lower(s@),
{
    let n = s.unicode_len();
    let mut t = String::new();
    let mut i: usize = 0;
    while i < n
        invariant
            n == s@.len(),
            i <= n,
            t@ == spec_ascii_lower(s@.take(i as int)),
        decreases n - i,
    {
        let c = s.get_char(i);
        let l = if 'A' <= c && c <= 'Z' {
            ((c as u32) + 32) as u8 as char
        } else {
            c
        };
        assert(l == lower_char(c)) by {
            if 'A' <= c && c <= 'Z' {
                assert((c as u32) + 32 < 256);
            }
        }
        crate::text::push_char(&mut t, l);
        assert(spec_ascii_lower(s@.take(i + 1)) =~= spec_ascii_lower(s@.take(i as int)).push(l));
        i = i + 1;
    }
    assert(s@.take(n as int) =~= s@);
    t
}

/// Whether a flag value means "off": after trimming and lowercasing it is `0`, `false`,
/// `no` or `off`.
pub open spec fn is_false_word(v: Seq<char>) -> bool {
    let t = spec_ascii_lower(spec_trim(v));
    t == "0"@ || t == "false"@ || t == "no"@ || t == "off"@
}

/// The meaning of a boolean-like setting: `default` when it is unset, otherwise on unless
/// it is one of the common false words.
pub open spec fn spec_flag_enabled(value: Option<Seq<char>>, default: bool) -> bool {
    match value {
        None => default,
        Some(v) => !is_false_word(v),
    }
}

/// Interprets a boolean-like setting, accepting common false values.
pub fn env_flag_enabled(value: Option<&str>, default: bool) -> (b: bool)
    ensures
        b == spec_flag_enabled(
            match value {
                Some(v) => Some(v@),
                None => None,
            },
            default,
        ),
{
    match value {
        None => default,
        Some(v) => {
            let t = trim(v);
            let l = ascii_lower(t.as_str());
            let zero = String::from_str("0");
            let f = String::from_str("false");
            let no = String::from_str("no");
            let off = String::from_str("off");
            !(l == zero || l == f || l == no || l == off)
        },
    }
}

/// Whether verbose debug logging is on, given the value of `PACOM_DEBUG_VERBOSE`
/// (off by default).
pub fn verbose_debug_enabled(value: Option<&str>) -> (b: bool)
    ensures
        b == spec_flag_enabled(
            match value {
                Some(v) => Some(v@),
                None => None,
            },
            false,
        ),
{
    env_flag_enabled(value, false)
}

/// Whether RPC diagnostics are on, given the value of `PACOM_RPC_DIAGNOSTICS`
/// (off by default).
pub fn rpc_diag_enabled(value: Option<&str>) -> (b: bool)
    ensures
        b == spec_flag_enabled(
            match value {
                Some(v) => Some(v@),
                None => None,
            },
            false,
        ),
{
    env_flag_enabled(value, false)
}

/// The trimmed value of a setting when it is set and not blank.
pub open spec fn spec_non_empty(value: Option<Seq<char>>) -> Option<Seq<char>> {
    match value {
        Some(v) => if spec_trim(v).len() > 0 {
            Some(spec_trim(v))
        } else {
            None
        },
        None => None,
    }
}

/// Returns a trimmed setting only when it is non-empty.
pub fn env_string_non_empty(value: Option<&str>) -> (r: Option<String>)
    ensures
        match r {
            Some(s) => spec_non_empty(
                match value {
                    Some(v) => Some(v@),
                    None => None,
                },
            ) == Some(s@),
            None => spec_non_empty(
                match value {
                    Some(v) => Some(v@),
                    None => None,
                },
            ) is None,
        },
{
    match value {
        None => None,
        Some(v) => {
            let t = trim(v);
            if t.as_str().unicode_len() == 0 {
                None
            } else {
                Some(t)
            }
        },
    }
}

// ── Numbers ────────────────────────────────────────────────────

/// The value of `c` as a digit in `radix` (10 or 16), if it is one.
pub open spec fn digit_value(c: char, radix: nat) -> Option<nat> {
    if '0' <= c && c <= '9' {
        Some((c as nat - 48) as nat)
    } else if radix == 16 && 'a' <= c && c <= 'f' {
        Some((c as nat - 87) as nat)
    } else if radix == 16 && 'A' <= c && c <= 'F' {
        Some((c as nat - 55) as nat)
    } else {
        None
    }
}

/// The value of a sequence of digits (0 for the empty sequence), if all are digits.
pub open spec fn digits_value(s: Seq<char>, radix: nat) -> Option<nat>
    decreases s.len(),
{
    if s.len() == 0 {
        Some(0)
    } else {
        match (digits_value(s.drop_last(), radix), digit_value(s.last(), radix)) {
            (Some(v), Some(d)) => Some(v * radix + d),
            _ => None,
        }
    }
}

/// How `from_str_radix` reads an unsigned number: an optional `+`, then at least one digit;
/// `None` when the text is not of that form or the value exceeds `max`.
pub open spec fn spec_parse(s: Seq<char>, radix: nat, max: nat) -> Option<nat> {
    let body = if s.len() > 0 && s[0] == '+' {
        s.drop_first()
    } else {
        s
    };
    if body.len() == 0 {
        None
    } else {
        match digits_value(body, radix) {
            Some(v) => if v <= max {
                Some(v)
            } else {
                None
            },
            None => None,
        }
    }
}

fn digit_of(c: char, radix: u32) -> (r: Option<u32>)
    requires
        radix == 10 || radix == 16,
    ensures
        match r {
            Some(d) => digit_value(c, radix as nat) == Some(d as nat) && d < radix,
            None => digit_value(c, radix as nat) is None,
        },
{
    if '0' <= c && c <= '9' {
        Some((c as u32) - 48)
    } else if radix == 16 && 'a' <= c && c <= 'f' {
        Some((c as u32) - 87)
    } else if radix == 16 && 'A' <= c && c <= 'F' {
        Some((c as u32) - 55)
    } else {
        None
    }
}

proof fn lemma_cap_step(v: nat, cap: nat, radix: nat, d: nat)
    requires
        radix == 10 || radix == 16,
        d < radix,
    ensures
        (if v <= cap { v } else { cap + 1 }) * radix + d > cap <==> v * radix + d > cap,
        v <= cap && v * radix + d <= cap ==> (if v <= cap { v } else { cap + 1 }) * radix + d == v
            * radix + d,
{
    if v > cap {
        assert((cap + 1) * radix + d > cap) by (nonlinear_arith)
            requires
                radix >= 10,
        ;
        assert(v * radix + d > cap) by (nonlinear_arith)
            requires
                v > cap,
                radix >= 10,
        ;
    }
}

/// Reads an unsigned number in `radix` (10 or 16) not greater than `max`, as
/// `from_str_radix(..).ok()` does for an unsigned type whose largest value is `max`.
pub fn parse_unsigned(s: &str, radix: u32, max: u64) -> (r: Option<u64>)
    requires
        radix == 10 || radix == 16,
    ensures
        match r {
            Some(v) => spec_parse(s@, radix as nat, max as nat) == Some(v as nat),
            None => spec_parse(s@, radix as nat, max as nat) is None,
        },
{
    let n = s.unicode_len();
    let mut i: usize = 0;
    if n > 0 && s.get_char(0) == '+' {
        i = 1;
    }
    let start = i;
    let ghost body = s@.subrange(start as int, n as int);
    assert(body =~= (if s@.len() > 0 && s@[0] == '+' { s@.drop_first() } else { s@ }));
    if start == n {
        return None;
    }
    // `acc` is the value read so far, or `max + 1` once it is known to exceed `max`.
    let mut acc: u64 = 0;
    let mut over: bool = false;
    while i < n
        invariant
            n == s@.len(),
            start <= i <= n,
            radix == 10 || radix == 16,
            body == s@.subrange(start as int, n as int),
            body == (if s@.len() > 0 && s@[0] == '+' { s@.drop_first() } else { s@ }),
            digits_value(body.take(i - start), radix as nat) is Some,
            !over ==> digits_value(body.take(i - start), radix as nat) == Some(acc as nat) && acc <= max,
            over ==> digits_value(body.take(i - start), radix as nat).unwrap() > max,
        decreases n - i,
    {
        let c = s.get_char(i);
        let ghost pre = body.take(i - start);
        assert(body.take(i + 1 - start).drop_last() =~= pre);
        assert(body.take(i + 1 - start).last() == c);
        match digit_of(c, radix) {
            None => {
                proof {
                    assert(digits_value(body.take(i + 1 - start), radix as nat) is None);
                    lemma_digits_none_extends(body, radix as nat, (i + 1 - start) as int);
                    assert(body.len() > 0);
                }
                return None;
            },
            Some(d) => {
                let ghost pv = digits_value(pre, radix as nat).unwrap();
                proof {
                    if over {
                        lemma_cap_step(pv, max as nat, radix as nat, d as nat);
                    }
                }
                if !over {
                    if d as u64 > max || acc > (max - d as u64) / radix as u64 {
                        over = true;
                        proof {
                            if d <= max {
                                assert(acc * radix + d > max) by (nonlinear_arith)
                                    requires
                                        acc > (max - d) / (radix as int),
                                        radix > 0,
                                        d <= max,
                                        acc >= 0,
                                ;
                            }
                        }
                    } else {
                        proof {
                            assert(acc * radix + d <= max) by (nonlinear_arith)
                                requires
                                    acc <= (max - d) / (radix as int),
                                    radix > 0,
                                    d <= max,
                            ;
                        }
                        acc = acc * radix as u64 + d as u64;
                    }
                }
            },
        }
        i = i + 1;
    }
    assert(body.take(n - start) =~= body);
    if over {
        None
    } else {
        Some(acc)
    }
}

proof fn lemma_digits_none_extends(s: Seq<char>, radix: nat, k: int)
    requires
        0 <= k <= s.len(),
        digits_value(s.take(k), radix) is None,
    ensures
        digits_value(s, radix) is None,
    decreases s.len() - k,
{
    if k < s.len() {
        assert(s.take(k + 1).drop_last() =~= s.take(k));
        lemma_digits_none_extends(s, radix, k + 1);
    } else {
        assert(s.take(k) =~= s);
    }
}

/// The number of discovery channels given the value of `PACOM_DISCOVERY_CHANNELS`: the
/// value read as a `u16` and clamped to `1..=64`; 16 when unset or not a `u16`.
pub open spec fn spec_channel_count(value: Option<Seq<char>>) -> u16 {
    match value {
        Some(v) => match spec_parse(v, 10, 0xFFFF) {
            Some(n) => if n < 1 {
                1
            } else if n > 64 {
                64
            } else {
                n as u16
            },
            None => 16,
        },
        None => 16,
    }
}

/// Returns the configured number of discovery channels, clamped to `1..=64` (16 by default).
pub fn discovery_channel_count(value: Option<&str>) -> (n: u16)
    ensures
        n == spec_channel_count(
            match value {
                Some(v) => Some(v@),
                None => None,
            },
        ),
        1 <= n <= 64,
{
    match value {
        None => 16,
        Some(v) => match parse_unsigned(v, 10, 0xFFFF) {
            Some(n) => if n < 1 {
                1
            } else if n > 64 {
                64
            } else {
                n as u16
            },
            None => 16,
        },
    }
}

/// The verbose debug rendering of a URI.
pub open spec fn spec_uri_dbg(u: UriView) -> Seq<char> {
    uri_text(u, false) + " [auth='"@ + u.0 + "', ue=0x"@ + hex8_upper_text(u.1) + ", ver="@ + dec_text(
        u.2 as nat,
    ) + ", res=0x"@ + hex8_upper_text(u.3) + "]"@
}

/// Formats a URI into a verbose debug-friendly string: its text form, then its authority,
/// entity id, major version and resource id.
pub fn uri_dbg(uri: &Uri) -> (t: String)
    ensures
        t@ == spec_uri_dbg(uri@),
{
    let mut t = uri.to_uri(false);
    push_str(&mut t, " [auth='");
    push_str(&mut t, uri.authority_name.as_str());
    push_str(&mut t, "', ue=0x");
    push_hex8_upper(&mut t, uri.ue_id);
    push_str(&mut t, ", ver=");
    push_decimal(&mut t, uri.ue_version_major as u64);
    push_str(&mut t, ", res=0x");
    push_hex8_upper(&mut t, uri.resource_id);
    push_str(&mut t, "]");
    assert(t@ =~= spec_uri_dbg(uri@));
    t
}

/// The bytes of `b` as two uppercase hexadecimal digits each, separated by spaces.
pub open spec fn spec_hex_bytes(b: Seq<u8>) -> Seq<char>
    decreases b.len(),
{
    if b.len() == 0 {
        Seq::empty()
    } else if b.len() == 1 {
        hex2_upper_text(b[0])
    } else {
        spec_hex_bytes(b.drop_last()) + seq![' '] + hex2_upper_text(b.last())
    }
}

/// The first `max` bytes of a payload (all of them if there are fewer) in hexadecimal, for
/// diagnostics: `01 AB FF`.
pub fn payload_preview(bytes: &[u8], max: usize) -> (t: String)
    ensures
        t@ == spec_hex_bytes(bytes@.take(if max < bytes@.len() { max as int } else { bytes@.len() as int })),
{
    let n = if max < bytes.len() {
        max
    } else {
        bytes.len()
    };
    let mut t = String::new();
    let mut i: usize = 0;
    while i < n
        invariant
            n <= bytes@.len(),
            i <= n,
            t@ == spec_hex_bytes(bytes@.take(i as int)),
        decreases n - i,
    {
        let ghost before = t@;
        if i > 0 {
            push_char(&mut t, ' ');
        }
        push_hex2_upper(&mut t, bytes[i]);
        proof {
            let s = bytes@.take(i + 1);
            assert(s.drop_last() =~= bytes@.take(i as int));
            assert(s.last() == bytes@[i as int]);
            if i > 0 {
                assert(t@ =~= before + seq![' '] + hex2_upper_text(bytes@[i as int]));
            } else {
                assert(t@ =~= hex2_upper_text(bytes@[i as int]));
            }
        }
        i = i + 1;
    }
    t
}

} // verus!
