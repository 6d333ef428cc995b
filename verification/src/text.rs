//! Text helpers on character sequences: trimming, decimal parsing and
//! formatting, substring search.

use vstd::prelude::*;

verus! {

/// `char::is_whitespace`: the Unicode `White_Space` property.
pub open spec fn is_white_space(c: char) -> bool {
    ||| ('\u{9}' <= c && c <= '\u{d}')
    ||| c == ' '
    ||| c == '\u{85}'
    ||| c == '\u{a0}'
    ||| c == '\u{1680}'
    ||| ('\u{2000}' <= c && c <= '\u{200a}')
    ||| c == '\u{2028}'
    ||| c == '\u{2029}'
    ||| c == '\u{202f}'
    ||| c == '\u{205f}'
    ||| c == '\u{3000}'
}

/// The text with its leading white space removed.
pub open spec fn trim_start_seq(s: Seq<char>) -> Seq<char>
    decreases s.len(),
{
    if s.len() > 0 && is_white_space(s[0]) {
        trim_start_seq(s.drop_first())
    } else {
        s
    }
}

/// The text with its trailing white space removed.
pub open spec fn trim_end_seq(s: Seq<char>) -> Seq<char>
    decreases s.len(),
{
    if s.len() > 0 && is_white_space(s.last()) {
        trim_end_seq(s.drop_last())
    } else {
        s
    }
}

/// The text with white space removed at both ends, as `str::trim` gives it.
pub open spec fn trimmed(s: Seq<char>) -> Seq<char> {
    trim_end_seq(trim_start_seq(s))
}

/// Decides `is_white_space`.
pub fn is_white_space_char(c: char) -> (r: bool)
    ensures
        r == is_white_space(c),
{
    ('\u{9}' <= c && c <= '\u{d}') || c == ' ' || c == '\u{85}' || c == '\u{a0}' || c == '\u{1680}'
        || ('\u{2000}' <= c && c <= '\u{200a}') || c == '\u{2028}' || c == '\u{2029}' || c
        == '\u{202f}' || c == '\u{205f}' || c == '\u{3000}'
}

/// The characters of `s`, in order.
pub fn chars_of(s: &str) -> (v: Vec<char>)
    ensures
        v@ == s@,
{
    let n = s.unicode_len();
    let mut v: Vec<char> = Vec::new();
    for i in 0..n
        invariant
            n == s@.len(),
            v@ == s@.subrange(0, i as int),
    {
        let c = s.get_char(i);
        v.push(c);
        assert(v@ =~= s@.subrange(0, i + 1));
    }
    assert(v@ =~= s@);
    v
}

proof fn lemma_trim_start_step(s: Seq<char>, i: int)
    requires
        0 <= i < s.len(),
        is_white_space(s[i]),
    ensures
        trim_start_seq(s.subrange(i, s.len() as int)) == trim_start_seq(
            s.subrange(i + 1, s.len() as int),
        ),
{
    assert(s.subrange(i, s.len() as int).drop_first() =~= s.subrange(i + 1, s.len() as int));
}

proof fn lemma_trim_end_step(s: Seq<char>, j: int)
    requires
        0 < j <= s.len(),
        is_white_space(s[j - 1]),
    ensures
        trim_end_seq(s.subrange(0, j)) == trim_end_seq(s.subrange(0, j - 1)),
{
    assert(s.subrange(0, j).drop_last() =~= s.subrange(0, j - 1));
}

proof fn lemma_trim_start_split(s: Seq<char>) -> (i: int)
    ensures
        0 <= i <= s.len(),
        trim_start_seq(s) == s.subrange(i, s.len() as int),
        forall|k: int| 0 <= k < i ==> is_white_space(#[trigger] s[k]),
        i < s.len() ==> !is_white_space(s[i]),
    decreases s.len(),
{
    if s.len() > 0 && is_white_space(s[0]) {
        let i0 = lemma_trim_start_split(s.drop_first());
        assert(s.drop_first().subrange(i0, s.drop_first().len() as int) =~= s.subrange(
            i0 + 1,
            s.len() as int,
        ));
        assert forall|k: int| 0 <= k < i0 + 1 implies is_white_space(#[trigger] s[k]) by {
            if k > 0 {
                assert(s[k] == s.drop_first()[k - 1]);
            }
        }
        i0 + 1
    } else {
        assert(s.subrange(0, s.len() as int) =~= s);
        0
    }
}

proof fn lemma_trim_end_split(t: Seq<char>) -> (j: int)
    ensures
        0 <= j <= t.len(),
        trim_end_seq(t) == t.subrange(0, j),
        forall|k: int| j <= k < t.len() ==> is_white_space(#[trigger] t[k]),
        j > 0 ==> !is_white_space(t[j - 1]),
    decreases t.len(),
{
    if t.len() > 0 && is_white_space(t.last()) {
        let j0 = lemma_trim_end_split(t.drop_last());
        assert(t.drop_last().subrange(0, j0) =~= t.subrange(0, j0));
        assert forall|k: int| j0 <= k < t.len() implies is_white_space(#[trigger] t[k]) by {
            if k < t.len() - 1 {
                assert(t[k] == t.drop_last()[k]);
            }
        }
        j0
    } else {
        assert(t.subrange(0, t.len() as int) =~= t);
        t.len() as int
    }
}

/// What trimming keeps: a contiguous piece `s[i..j]` of the text such that
/// everything before `i` and from `j` on is white space, and the piece, when
/// not empty, begins and ends with a character that is not white space; a
/// text that is empty or has no white space at either end is kept whole.
pub proof fn lemma_trim_keeps_middle(s: Seq<char>)
    ensures
        exists|i: int, j: int|
            0 <= i <= j <= s.len() && trimmed(s) == s.subrange(i, j) && (forall|k: int|
                0 <= k < i ==> is_white_space(#[trigger] s[k])) && (forall|k: int|
                j <= k < s.len() ==> is_white_space(#[trigger] s[k])),
        trimmed(s).len() > 0 ==> !is_white_space(trimmed(s)[0]) && !is_white_space(
            trimmed(s).last(),
        ),
        s.len() == 0 || (!is_white_space(s[0]) && !is_white_space(s.last())) ==> trimmed(s) == s,
{
    let i = lemma_trim_start_split(s);
    let t = s.subrange(i, s.len() as int);
    let j = lemma_trim_end_split(t);
    assert(t.subrange(0, j) =~= s.subrange(i, i + j));
    assert forall|k: int| i + j <= k < s.len() implies is_white_space(#[trigger] s[k]) by {
        assert(s[k] == t[k - i]);
    }
    if j > 0 {
        assert(trimmed(s)[0] == s[i]);
        assert(trimmed(s).last() == t[j - 1]);
    }
    if s.len() > 0 && !is_white_space(s[0]) && !is_white_space(s.last()) {
        assert(i == 0);
        assert(t[t.len() - 1] == s.last());
        assert(j == t.len());
        assert(s.subrange(0, s.len() as int) =~= s);
    }
    if s.len() == 0 {
        assert(s.subrange(0, 0) =~= s);
    }
    assert(0 <= i <= i + j <= s.len() && trimmed(s) == s.subrange(i, i + j));
}

/// `str::trim`: `s` without leading and trailing white space.
pub fn trim_text(s: &str) -> (r: String)
    ensures
        r@ == trimmed(s@),
{
    let v = chars_of(s);
    let n = v.len();
    let mut i: usize = 0;
    assert(s@.subrange(0, n as int) =~= s@);
    while i < n && is_white_space_char(v[i])
        invariant
            v@ == s@,
            n == v@.len(),
            i <= n,
            trim_start_seq(s@) == trim_start_seq(s@.subrange(i as int, n as int)),
        decreases n - i,
    {
        proof {
            lemma_trim_start_step(s@, i as int);
        }
        i = i + 1;
    }
    let ghost front = s@.subrange(i as int, n as int);
    assert(trim_start_seq(front) == front);
    let mut j: usize = n;
    while j > i && is_white_space_char(v[j - 1])
        invariant
            v@ == s@,
            n == v@.len(),
            i <= j <= n,
            front == s@.subrange(i as int, n as int),
            trim_end_seq(front) == trim_end_seq(s@.subrange(i as int, j as int)),
        decreases j,
    {
        proof {
            let t = s@.subrange(i as int, n as int);
            assert(s@.subrange(i as int, j as int) =~= t.subrange(0, j - i));
            assert(s@.subrange(i as int, j - 1) =~= t.subrange(0, j - i - 1));
            lemma_trim_end_step(t, j - i);
            assert(t.subrange(0, j - i)[j - i - 1] == v@[j - 1]);
        }
        j = j - 1;
    }
    let piece = s.substring_char(i, j);
    String::from_str(piece)
}


/// Why a decimal integer did not parse, as `core::num::IntErrorKind` tells it.
#[derive(Clone, Copy, Debug, PartialEq, Eq, Structural)]
pub enum IntParseError {
    /// The text was empty.
    Empty,
    /// A character was not a decimal digit (or a lone `+`).
    InvalidDigit,
    /// The value exceeds the largest value of the target type.
    PosOverflow,
}

pub open spec fn is_ascii_digit(c: char) -> bool {
    '0' <= c && c <= '9'
}

pub open spec fn digit_value(c: char) -> nat {
    (c as nat - '0' as nat) as nat
}

pub open spec fn digit_char(d: nat) -> char
    recommends
        d < 10,
{
    ('0' as nat + d) as char
}

/// Reads the digits `d` left to right after the value `acc`; the first
/// character that is no digit, or the first digit after which the value
/// exceeds `max`, ends the reading with that error.
pub open spec fn scan_digits(d: Seq<char>, acc: nat, max: nat) -> Result<nat, IntParseError>
    decreases d.len(),
{
    if d.len() == 0 {
        Ok(acc)
    } else if !is_ascii_digit(d[0]) {
        Err(IntParseError::InvalidDigit)
    } else if acc * 10 + digit_value(d[0]) > max {
        Err(IntParseError::PosOverflow)
    } else {
        scan_digits(d.drop_first(), acc * 10 + digit_value(d[0]), max)
    }
}

/// `str::parse` of an unsigned integer type whose largest value is `max`:
/// an optional `+`, then at least one ASCII digit.
pub open spec fn parse_unsigned(s: Seq<char>, max: nat) -> Result<nat, IntParseError> {
    if s.len() == 0 {
        Err(IntParseError::Empty)
    } else {
        let d = if s[0] == '+' {
            s.drop_first()
        } else {
            s
        };
        if d.len() == 0 {
            Err(IntParseError::InvalidDigit)
        } else {
            scan_digits(d, 0, max)
        }
    }
}

/// The decimal representation of `n`, without sign or leading zeros.
pub open spec fn decimal_digits(n: nat) -> Seq<char>
    decreases n,
{
    if n < 10 {
        seq![digit_char(n)]
    } else {
        decimal_digits(n / 10).push(digit_char(n % 10))
    }
}

proof fn lemma_scan_bounded(d: Seq<char>, acc: nat, max: nat)
    requires
        acc <= max,
    ensures
        scan_digits(d, acc, max) matches Ok(n) ==> n <= max,
    decreases d.len(),
{
    if d.len() > 0 && is_ascii_digit(d[0]) && acc * 10 + digit_value(d[0]) <= max {
        lemma_scan_bounded(d.drop_first(), acc * 10 + digit_value(d[0]), max);
    }
}

/// Every value `parse_unsigned` yields is at most `max`.
pub proof fn lemma_parse_unsigned_bounded(s: Seq<char>, max: nat)
    ensures
        parse_unsigned(s, max) matches Ok(n) ==> n <= max,
{
    if s.len() > 0 {
        let d = if s[0] == '+' {
            s.drop_first()
        } else {
            s
        };
        lemma_scan_bounded(d, 0, max);
    }
}

proof fn lemma_scan_prefix(d: Seq<char>, i: int, acc: nat, max: nat)
    requires
        0 <= i < d.len(),
    ensures
        scan_digits(d.subrange(i, d.len() as int), acc, max) == (if !is_ascii_digit(d[i]) {
            Err(IntParseError::InvalidDigit)
        } else if acc * 10 + digit_value(d[i]) > max {
            Err(IntParseError::PosOverflow)
        } else {
            scan_digits(d.subrange(i + 1, d.len() as int), acc * 10 + digit_value(d[i]), max)
        }),
{
    assert(d.subrange(i, d.len() as int).drop_first() =~= d.subrange(i + 1, d.len() as int));
}

/// Parses `v[start..]` as digits, the value bounded by `max`.
fn scan_digits_exec(v: &Vec<char>, start: usize, max: u32) -> (r: Result<u32, IntParseError>)
    requires
        start <= v@.len(),
    ensures
        match scan_digits(v@.subrange(start as int, v@.len() as int), 0, max as nat) {
            Ok(n) => r == Ok::<u32, IntParseError>(n as u32),
            Err(e) => r == Err::<u32, IntParseError>(e),
        },
        r matches Ok(k) ==> k <= max,
{
    let n = v.len();
    let mut acc: u64 = 0;
    let mut i = start;
    while i < n
        invariant
            n == v@.len(),
            start <= i <= n,
            acc <= max,
            scan_digits(v@.subrange(start as int, n as int), 0, max as nat) == scan_digits(
                v@.subrange(i as int, n as int),
                acc as nat,
                max as nat,
            ),
        decreases n - i,
    {
        proof {
            lemma_scan_prefix(v@, i as int, acc as nat, max as nat);
        }
        let c = v[i];
        if !('0' <= c && c <= '9') {
            return Err(IntParseError::InvalidDigit);
        }
        let d = (c as u32 - '0' as u32) as u64;
        let next = acc * 10 + d;
        if next > max as u64 {
            return Err(IntParseError::PosOverflow);
        }
        acc = next;
        i = i + 1;
    }
    assert(v@.subrange(n as int, n as int).len() == 0);
    Ok(acc as u32)
}

/// Parses an unsigned decimal integer no greater than `max`.
fn parse_bounded(s: &str, max: u32) -> (r: Result<u32, IntParseError>)
    ensures
        match parse_unsigned(s@, max as nat) {
            Ok(n) => r == Ok::<u32, IntParseError>(n as u32),
            Err(e) => r == Err::<u32, IntParseError>(e),
        },
        r matches Ok(k) ==> k <= max,
{
    let v = chars_of(s);
    if v.len() == 0 {
        return Err(IntParseError::Empty);
    }
    let start: usize = if v[0] == '+' {
        1
    } else {
        0
    };
    if start == v.len() {
        return Err(IntParseError::InvalidDigit);
    }
    proof {
        if s@[0] == '+' {
            assert(s@.drop_first() =~= s@.subrange(1, s@.len() as int));
        } else {
            assert(s@ =~= s@.subrange(0, s@.len() as int));
        }
    }
    scan_digits_exec(&v, start, max)
}

/// `str::parse::<u32>`.
pub fn parse_u32(s: &str) -> (r: Result<u32, IntParseError>)
    ensures
        match parse_unsigned(s@, u32::MAX as nat) {
            Ok(n) => r == Ok::<u32, IntParseError>(n as u32),
            Err(e) => r == Err::<u32, IntParseError>(e),
        },
{
    parse_bounded(s, u32::MAX)
}

/// `str::parse::<u16>`.
pub fn parse_u16(s: &str) -> (r: Result<u16, IntParseError>)
    ensures
        match parse_unsigned(s@, u16::MAX as nat) {
            Ok(n) => r == Ok::<u16, IntParseError>(n as u16),
            Err(e) => r == Err::<u16, IntParseError>(e),
        },
{
    proof {
        lemma_parse_unsigned_bounded(s@, u16::MAX as nat);
    }
    match parse_bounded(s, 65535) {
        Ok(n) => Ok(n as u16),
        Err(e) => Err(e),
    }
}

/// The one-character text of a decimal digit.
fn digit_text(d: u32) -> (r: &'static str)
    requires
        d < 10,
    ensures
        r@ == seq![digit_char(d as nat)],
{
    proof {
        reveal_strlit("0");
        reveal_strlit("1");
        reveal_strlit("2");
        reveal_strlit("3");
        reveal_strlit("4");
        reveal_strlit("5");
        reveal_strlit("6");
        reveal_strlit("7");
        reveal_strlit("8");
        reveal_strlit("9");
    }
    let r = if d == 0 {
        "0"
    } else if d == 1 {
        "1"
    } else if d == 2 {
        "2"
    } else if d == 3 {
        "3"
    } else if d == 4 {
        "4"
    } else if d == 5 {
        "5"
    } else if d == 6 {
        "6"
    } else if d == 7 {
        "7"
    } else if d == 8 {
        "8"
    } else {
        "9"
    };
    assert(r@ =~= seq![digit_char(d as nat)]);
    r
}

/// Appends the decimal representation of `n` to `out`.
pub fn push_decimal(out: &mut String, n: u32)
    ensures
        final(out)@ == old(out)@ + decimal_digits(n as nat),
    decreases n,
{
    if n >= 10 {
        push_decimal(out, n / 10);
    }
    out.append(digit_text(n % 10));
    assert(final(out)@ =~= old(out)@ + decimal_digits(n as nat));
}

/// `u32::to_string`: the decimal representation of `n`.
pub fn format_u32(n: u32) -> (r: String)
    ensures
        r@ == decimal_digits(n as nat),
{
    let mut out = String::new();
    push_decimal(&mut out, n);
    assert(out@ =~= decimal_digits(n as nat));
    out
}


proof fn lemma_scan_push(d: Seq<char>, c: char, acc: nat, max: nat, v: nat)
    requires
        scan_digits(d, acc, max) == Ok::<nat, IntParseError>(v),
        is_ascii_digit(c),
        v * 10 + digit_value(c) <= max,
    ensures
        scan_digits(d.push(c), acc, max) == Ok::<nat, IntParseError>(v * 10 + digit_value(c)),
    decreases d.len(),
{
    if d.len() == 0 {
        assert(d.push(c)[0] == c);
        assert(d.push(c).drop_first() =~= Seq::<char>::empty());
        assert(scan_digits(Seq::<char>::empty(), acc * 10 + digit_value(c), max) == Ok::<
            nat,
            IntParseError,
        >(acc * 10 + digit_value(c)));
    } else {
        assert(d.push(c)[0] == d[0]);
        assert(d.push(c).drop_first() =~= d.drop_first().push(c));
        lemma_scan_push(d.drop_first(), c, acc * 10 + digit_value(d[0]), max, v);
    }
}

proof fn lemma_digit_char(d: nat)
    requires
        d < 10,
    ensures
        is_ascii_digit(digit_char(d)),
        digit_value(digit_char(d)) == d,
{
}

proof fn lemma_decimal_digits_scan(n: nat, max: nat)
    requires
        n <= max,
    ensures
        scan_digits(decimal_digits(n), 0, max) == Ok::<nat, IntParseError>(n),
        decimal_digits(n).len() > 0,
        is_ascii_digit(decimal_digits(n)[0]),
    decreases n,
{
    lemma_digit_char(n % 10);
    if n < 10 {
        assert(seq![digit_char(n)].drop_first() =~= Seq::<char>::empty());
        assert(seq![digit_char(n)][0] == digit_char(n));
        assert(scan_digits(Seq::<char>::empty(), n, max) == Ok::<nat, IntParseError>(n));
    } else {
        lemma_decimal_digits_scan(n / 10, max);
        lemma_scan_push(decimal_digits(n / 10), digit_char(n % 10), 0, max, n / 10);
        assert(decimal_digits(n) == decimal_digits(n / 10).push(digit_char(n % 10)));
        assert(decimal_digits(n)[0] == decimal_digits(n / 10)[0]);
    }
}

/// Parsing what `format_u32` writes gives the number back: for every
/// `n` no greater than the target type's largest value `max`,
/// `parse_unsigned(decimal_digits(n), max) == Ok(n)`.
pub proof fn lemma_decimal_round_trip(n: nat, max: nat)
    requires
        n <= max,
    ensures
        parse_unsigned(decimal_digits(n), max) == Ok::<nat, IntParseError>(n),
{
    lemma_decimal_digits_scan(n, max);
}

/// `needle` occurs in `hay` as a contiguous run of characters.
pub open spec fn contains_seq(hay: Seq<char>, needle: Seq<char>) -> bool {
    exists|i: int|
        0 <= i && i + needle.len() <= hay.len() && #[trigger] hay.subrange(i, i + needle.len())
            == needle
}

fn matches_at(hay: &Vec<char>, needle: &Vec<char>, i: usize) -> (r: bool)
    requires
        i + needle@.len() <= hay@.len(),
    ensures
        r == (hay@.subrange(i as int, i + needle@.len()) == needle@),
{
    let m = needle.len();
    let mut k: usize = 0;
    while k < m
        invariant
            m == needle@.len(),
            i + m <= hay.len(),
            k <= m,
            forall|t: int| 0 <= t < k ==> hay@[i + t] == needle@[t],
        decreases m - k,
    {
        if hay[i + k] != needle[k] {
            assert(hay@.subrange(i as int, i + m)[k as int] != needle@[k as int]);
            return false;
        }
        k = k + 1;
    }
    assert(hay@.subrange(i as int, i + m) =~= needle@);
    true
}

/// `str::contains` with a text pattern.
pub fn contains_text(hay: &str, needle: &str) -> (r: bool)
    ensures
        r == contains_seq(hay@, needle@),
{
    let h = chars_of(hay);
    let nd = chars_of(needle);
    if nd.len() > h.len() {
        return false;
    }
    let last = h.len() - nd.len();
    let mut i: usize = 0;
    while i < last
        invariant
            h@ == hay@,
            nd@ == needle@,
            last == h@.len() - nd@.len(),
            i <= last,
            forall|j: int| 0 <= j < i ==> #[trigger] hay@.subrange(j, j + needle@.len()) != needle@,
        decreases last - i,
    {
        if matches_at(&h, &nd, i) {
            assert(hay@.subrange(i as int, i + needle@.len()) == needle@);
            return true;
        }
        i = i + 1;
    }
    let found = matches_at(&h, &nd, last);
    assert(forall|j: int| 0 <= j <= last && #[trigger] hay@.subrange(j, j + needle@.len()) == needle@ ==> j == last);
    found
}

} // verus!
