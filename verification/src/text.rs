//! Character-level text rules: whitespace trimming, prefixes and number formatting.

use vstd::prelude::*;
use vstd::string::*;

verus! {

/// `c` has the Unicode `White_Space` property (what `char::is_whitespace` tests).
pub open spec fn is_ws(c: char) -> bool {
    let u = c as u32;
    ||| (0x9 <= u && u <= 0xD)
    ||| u == 0x20
    ||| u == 0x85
    ||| u == 0xA0
    ||| u == 0x1680
    ||| (0x2000 <= u && u <= 0x200A)
    ||| u == 0x2028
    ||| u == 0x2029
    ||| u == 0x202F
    ||| u == 0x205F
    ||| u == 0x3000
}

/// `s` without its leading whitespace.
pub open spec fn trim_left(s: Seq<char>) -> Seq<char>
    decreases s.len(),
{
    if s.len() > 0 && is_ws(s[0]) {
        trim_left(s.drop_first())
    } else {
        s
    }
}

/// `s` without its trailing whitespace.
pub open spec fn trim_right(s: Seq<char>) -> Seq<char>
    decreases s.len(),
{
    if s.len() > 0 && is_ws(s.last()) {
        trim_right(s.drop_last())
    } else {
        s
    }
}

/// `s` without leading and trailing whitespace, as `str::trim` gives it.
pub open spec fn spec_trim(s: Seq<char>) -> Seq<char> {
    trim_right(trim_left(s))
}

/// Whether `c` is a Unicode whitespace character.
pub fn is_whitespace(c: char) -> (b: bool)
    ensures
        b == is_ws(c),
{
    let u = c as u32;
    (0x9 <= u && u <= 0xD) || u == 0x20 || u == 0x85 || u == 0xA0 || u == 0x1680 || (0x2000
        <= u && u <= 0x200A) || u == 0x2028 || u == 0x2029 || u == 0x202F || u == 0x205F || u
        == 0x3000
}

proof fn lemma_trim_left_skip(s: Seq<char>, i: int)
    requires
        0 <= i <= s.len(),
        forall|k: int| 0 <= k < i ==> is_ws(#[trigger] s[k]),
    ensures
        trim_left(s) == trim_left(s.subrange(i, s.len() as int)),
    decreases i,
{
    if i > 0 {
        assert(s.drop_first() =~= s.subrange(1, s.len() as int));
        lemma_trim_left_skip(s.drop_first(), i - 1);
        assert(s.drop_first().subrange(i - 1, s.drop_first().len() as int) =~= s.subrange(
            i,
            s.len() as int,
        ));
    } else {
        assert(s.subrange(0, s.len() as int) =~= s);
    }
}

proof fn lemma_trim_right_skip(s: Seq<char>, j: int)
    requires
        0 <= j <= s.len(),
        forall|k: int| j <= k < s.len() ==> is_ws(#[trigger] s[k]),
    ensures
        trim_right(s) == trim_right(s.subrange(0, j)),
    decreases s.len() - j,
{
    if j < s.len() {
        assert(s.drop_last() =~= s.subrange(0, s.len() - 1));
        lemma_trim_right_skip(s.drop_last(), j);
        assert(s.drop_last().subrange(0, j) =~= s.subrange(0, j));
    } else {
        assert(s.subrange(0, j) =~= s);
    }
}

/// A copy of `s` without leading and trailing whitespace.
pub fn trim(s: &str) -> (t: String)
    ensures
        t@ == spec_trim(s@),
{
    let n = s.unicode_len();
    let mut i: usize = 0;
    while i < n && is_whitespace(s.get_char(i))
        invariant
            n == s@.len(),
            i <= n,
            forall|k: int| 0 <= k < i ==> is_ws(#[trigger] s@[k]),
        decreases n - i,
    {
        i = i + 1;
    }
    proof {
        lemma_trim_left_skip(s@, i as int);
    }
    let ghost rest = s@.subrange(i as int, n as int);
    assert(trim_left(rest) == rest);
    let mut j: usize = n;
    while j > i && is_whitespace(s.get_char(j - 1))
        invariant
            n == s@.len(),
            i <= j <= n,
            rest == s@.subrange(i as int, n as int),
            forall|k: int| j <= k < n ==> is_ws(#[trigger] s@[k]),
        decreases j - i,
    {
        j = j - 1;
    }
    proof {
        assert forall|k: int| (j - i) <= k < rest.len() implies is_ws(#[trigger] rest[k]) by {
            assert(rest[k] == s@[k + i]);
        }
        lemma_trim_right_skip(rest, j - i);
        assert(rest.subrange(0, j - i) =~= s@.subrange(i as int, j as int));
    }
    s.substring_char(i, j).to_owned()
}


/// Appends one character to `s` (`String::push`).
#[verifier::external_body]
pub fn push_char(s: &mut String, c: char)
    ensures
        final(s)@ == old(s)@.push(c),
{
    s.push(c);
}

/// Appends the characters of `t` to `s`.
pub fn push_str(s: &mut String, t: &str)
    ensures
        final(s)@ == old(s)@ + t@,
{
    let n = t.unicode_len();
    let ghost start = s@;
    let mut i: usize = 0;
    while i < n
        invariant
            n == t@.len(),
            i <= n,
            s@ == start + t@.take(i as int),
        decreases n - i,
    {
        let c = t.get_char(i);
        push_char(s, c);
        assert(start + t@.take(i + 1) =~= (start + t@.take(i as int)).push(c));
        i = i + 1;
    }
    assert(t@.take(n as int) =~= t@);
}

/// The character of the decimal digit `d` (`0 <= d < 10`).
pub open spec fn dec_char(d: int) -> char {
    (48 + d) as char
}

/// The lowercase hexadecimal digit of `d` (`0 <= d < 16`).
pub open spec fn hex_lower_char(d: int) -> char {
    if d < 10 {
        (48 + d) as char
    } else {
        (87 + d) as char
    }
}

/// The uppercase hexadecimal digit of `d` (`0 <= d < 16`).
pub open spec fn hex_upper_char(d: int) -> char {
    if d < 10 {
        (48 + d) as char
    } else {
        (55 + d) as char
    }
}

/// The decimal representation of `n`, without leading zeros.
pub open spec fn dec_text(n: nat) -> Seq<char>
    decreases n,
{
    if n < 10 {
        seq![dec_char(n as int)]
    } else {
        dec_text(n / 10).push(dec_char((n % 10) as int))
    }
}

/// The uppercase hexadecimal representation of `n`, without leading zeros.
pub open spec fn hex_upper_text(n: nat) -> Seq<char>
    decreases n,
{
    if n < 16 {
        seq![hex_upper_char(n as int)]
    } else {
        hex_upper_text(n / 16).push(hex_upper_char((n % 16) as int))
    }
}

/// `0x` followed by the four lowercase hexadecimal digits of `v`.
pub open spec fn hex_u16_text(v: u16) -> Seq<char> {
    seq![
        '0',
        'x',
        hex_lower_char((v / 4096) as int),
        hex_lower_char(((v / 256) % 16) as int),
        hex_lower_char(((v / 16) % 16) as int),
        hex_lower_char((v % 16) as int),
    ]
}

fn digit_char(d: u8) -> (c: char)
    requires
        d < 10,
    ensures
        c == dec_char(d as int),
{
    (48u8 + d) as char
}

fn hex_digit(d: u8, upper: bool) -> (c: char)
    requires
        d < 16,
    ensures
        c == (if upper {
            hex_upper_char(d as int)
        } else {
            hex_lower_char(d as int)
        }),
{
    if d < 10 {
        (48u8 + d) as char
    } else if upper {
        (55u8 + d) as char
    } else {
        (87u8 + d) as char
    }
}

/// Appends the decimal representation of `n` to `s`.
pub fn push_decimal(s: &mut String, n: u64)
    ensures
        final(s)@ == old(s)@ + dec_text(n as nat),
    decreases n,
{
    if n >= 10 {
        push_decimal(s, n / 10);
    }
    let c = digit_char((n % 10) as u8);
    push_char(s, c);
    if n < 10 {
        assert(old(s)@ + dec_text(n as nat) =~= old(s)@.push(c));
    } else {
        assert(old(s)@ + dec_text(n as nat) =~= (old(s)@ + dec_text((n / 10) as nat)).push(c));
    }
}

/// Appends the uppercase hexadecimal representation of `n` to `s`.
pub fn push_hex_upper(s: &mut String, n: u32)
    ensures
        final(s)@ == old(s)@ + hex_upper_text(n as nat),
    decreases n,
{
    if n >= 16 {
        push_hex_upper(s, n / 16);
    }
    let c = hex_digit((n % 16) as u8, true);
    push_char(s, c);
    if n < 16 {
        assert(old(s)@ + hex_upper_text(n as nat) =~= old(s)@.push(c));
    } else {
        assert(old(s)@ + hex_upper_text(n as nat) =~= (old(s)@ + hex_upper_text(
            (n / 16) as nat,
        )).push(c));
    }
}

/// `0x` followed by the four lowercase hexadecimal digits of `v`, as `format!("{:#06x}", v)`.
pub fn hex_u16(v: u16) -> (t: String)
    ensures
        t@ == hex_u16_text(v),
{
    let mut t = String::new();
    push_char(&mut t, '0');
    push_char(&mut t, 'x');
    push_char(&mut t, hex_digit((v / 4096) as u8, false));
    push_char(&mut t, hex_digit(((v / 256) % 16) as u8, false));
    push_char(&mut t, hex_digit(((v / 16) % 16) as u8, false));
    push_char(&mut t, hex_digit((v % 16) as u8, false));
    assert(t@ =~= hex_u16_text(v));
    t
}


/// The eight uppercase hexadecimal digits of `v`, most significant first.
pub open spec fn hex8_upper_text(v: u32) -> Seq<char> {
    Seq::new(8, |i: int| hex_upper_char(((v as int) / pow16(7 - i)) % 16))
}

/// 16 to the power `k` (for `0 <= k <= 7`).
pub open spec fn pow16(k: int) -> int
    decreases k,
{
    if k <= 0 {
        1
    } else {
        16 * pow16(k - 1)
    }
}

proof fn lemma_pow16_pos(k: int)
    ensures
        pow16(k) >= 1,
    decreases k,
{
    if k > 0 {
        lemma_pow16_pos(k - 1);
    }
}

/// Appends the eight uppercase hexadecimal digits of `v` (zero-padded).
pub fn push_hex8_upper(s: &mut String, v: u32)
    ensures
        final(s)@ == old(s)@ + hex8_upper_text(v),
{
    let ghost start = s@;
    let mut div: u32 = 0x1000_0000;
    let mut i: usize = 0;
    assert(pow16(7) == 0x1000_0000) by {
        reveal_with_fuel(pow16, 8);
    }
    while i < 8
        invariant
            i <= 8,
            div as int == pow16(7 - i),
            div >= 1,
            s@ == start + hex8_upper_text(v).take(i as int),
        decreases 8 - i,
    {
        let d = ((v / div) % 16) as u8;
        let c = hex_digit(d, true);
        push_char(s, c);
        assert(start + hex8_upper_text(v).take(i + 1) =~= (start + hex8_upper_text(v).take(i as int)).push(c));
        if i < 7 {
            assert(pow16(7 - i) == 16 * pow16(7 - i - 1));
            proof {
                lemma_pow16_pos(7 - i - 1);
            }
            div = div / 16;
        }
        i = i + 1;
    }
    assert(hex8_upper_text(v).take(8) =~= hex8_upper_text(v));
}

/// The two uppercase hexadecimal digits of `b`.
pub open spec fn hex2_upper_text(b: u8) -> Seq<char> {
    seq![hex_upper_char((b / 16) as int), hex_upper_char((b % 16) as int)]
}

/// Appends the two uppercase hexadecimal digits of `b`.
pub fn push_hex2_upper(s: &mut String, b: u8)
    ensures
        final(s)@ == old(s)@ + hex2_upper_text(b),
{
    push_char(s, hex_digit(b / 16, true));
    push_char(s, hex_digit(b % 16, true));
    assert(s@ =~= old(s)@ + hex2_upper_text(b));
}

/// The four uppercase hexadecimal digits of `v`.
pub open spec fn hex4_upper_text(v: u16) -> Seq<char> {
    seq![
        hex_upper_char((v / 4096) as int),
        hex_upper_char(((v / 256) % 16) as int),
        hex_upper_char(((v / 16) % 16) as int),
        hex_upper_char((v % 16) as int),
    ]
}

/// Appends the four uppercase hexadecimal digits of `v`.
pub fn push_hex4_upper(s: &mut String, v: u16)
    ensures
        final(s)@ == old(s)@ + hex4_upper_text(v),
{
    push_char(s, hex_digit((v / 4096) as u8, true));
    push_char(s, hex_digit(((v / 256) % 16) as u8, true));
    push_char(s, hex_digit(((v / 16) % 16) as u8, true));
    push_char(s, hex_digit((v % 16) as u8, true));
    assert(s@ =~= old(s)@ + hex4_upper_text(v));
}

/// Whether `s` begins with `p`.
pub open spec fn spec_starts_with(s: Seq<char>, p: Seq<char>) -> bool {
    p.len() <= s.len() && s.take(p.len() as int) == p
}

/// Whether `s` begins with `prefix`.
pub fn starts_with(s: &str, prefix: &str) -> (b: bool)
    ensures
        b == spec_starts_with(s@, prefix@),
{
    let n = s.unicode_len();
    let m = prefix.unicode_len();
    if m > n {
        return false;
    }
    let mut i: usize = 0;
    while i < m
        invariant
            n == s@.len(),
            m == prefix@.len(),
            m <= n,
            i <= m,
            forall|k: int| 0 <= k < i ==> s@[k] == prefix@[k],
        decreases m - i,
    {
        if s.get_char(i) != prefix.get_char(i) {
            assert(s@.take(m as int)[i as int] != prefix@[i as int]);
            return false;
        }
        i = i + 1;
    }
    assert(s@.take(m as int) =~= prefix@);
    true
}

} // verus!
