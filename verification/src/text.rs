//! Small operations on text that the parsers of this library share: trimming
//! white space, cutting at a delimiter, reading a decimal number.
//!
//! Positions count characters, not bytes.

use vstd::prelude::*;
use vstd::string::StrSliceExecFns;
use vstd::string::StringExecFns;

verus! {

/// Whether `c` is white space in the sense of Unicode's `White_Space`
/// property.
pub open spec fn spec_is_whitespace(c: char) -> bool {
    let n = c as u32;
    ||| (0x09 <= n && n <= 0x0d)
    ||| n == 0x20
    ||| n == 0x85
    ||| n == 0xa0
    ||| n == 0x1680
    ||| (0x2000 <= n && n <= 0x200a)
    ||| n == 0x2028
    ||| n == 0x2029
    ||| n == 0x202f
    ||| n == 0x205f
    ||| n == 0x3000
}

/// The first position at or after `from` that holds no white space, or the
/// length of `s` if there is none.
pub open spec fn spec_skip_whitespace(s: Seq<char>, from: int) -> int
    decreases s.len() - from,
{
    if from < 0 || from >= s.len() {
        s.len() as int
    } else if !spec_is_whitespace(s[from]) {
        from
    } else {
        spec_skip_whitespace(s, from + 1)
    }
}

/// The end of the text between `from` and `to` once trailing white space is
/// left off: the least end at or above `from` after which only white space
/// follows up to `to`.
pub open spec fn spec_trim_end_index(s: Seq<char>, from: int, to: int) -> int
    decreases to - from,
{
    if to <= from || to > s.len() {
        from
    } else if !spec_is_whitespace(s[to - 1]) {
        to
    } else {
        spec_trim_end_index(s, from, to - 1)
    }
}

/// `s` without leading and trailing white space.
pub open spec fn spec_trim(s: Seq<char>) -> Seq<char> {
    let start = spec_skip_whitespace(s, 0);
    let end = spec_trim_end_index(s, start, s.len() as int);
    s.subrange(start, end)
}

/// The first position at or after `from` that holds `c`, or the length of
/// `s` if there is none.
pub open spec fn spec_find(s: Seq<char>, c: char, from: int) -> int
    decreases s.len() - from,
{
    if from < 0 || from >= s.len() {
        s.len() as int
    } else if s[from] == c {
        from
    } else {
        spec_find(s, c, from + 1)
    }
}

/// The part of `s` before the first `c`, or all of `s` if it holds none.
pub open spec fn spec_before(s: Seq<char>, c: char) -> Seq<char> {
    s.take(spec_find(s, c, 0))
}

/// Whether `c` is one of the ten ASCII digits.
pub open spec fn spec_is_digit(c: char) -> bool {
    '0' <= c && c <= '9'
}

/// The value of the digit `c`.
pub open spec fn spec_digit_value(c: char) -> int {
    c as u32 as int - 0x30
}

/// Whether every character of `s` is an ASCII digit.
pub open spec fn spec_all_digits(s: Seq<char>) -> bool {
    forall|i: int| 0 <= i < s.len() ==> spec_is_digit(#[trigger] s[i])
}

/// The number that the digits of `s` write in base ten.
pub open spec fn spec_decimal_value(s: Seq<char>) -> int
    decreases s.len(),
{
    if s.len() == 0 {
        0
    } else {
        spec_decimal_value(s.drop_last()) * 10 + spec_digit_value(s.last())
    }
}

/// The digits of a number written as `[+]digits`: `s` without a leading plus
/// sign.
pub open spec fn spec_unsigned_digits(s: Seq<char>) -> Seq<char> {
    if s.len() > 0 && s[0] == '+' {
        s.drop_first()
    } else {
        s
    }
}

/// The number that `s` writes, if `s` is an optional plus sign followed by
/// at least one digit and nothing else, and the number fits 64 bits.
pub open spec fn spec_parse_u64(s: Seq<char>) -> Option<u64> {
    let digits = spec_unsigned_digits(s);
    if digits.len() > 0 && spec_all_digits(digits) && spec_decimal_value(digits) <= u64::MAX {
        Some(spec_decimal_value(digits) as u64)
    } else {
        None
    }
}

/// The texts that a list of strings holds.
pub open spec fn spec_texts(list: Seq<String>) -> Seq<Seq<char>> {
    list.map_values(|s: String| s@)
}

/// Copies a list of strings.
pub fn clone_texts(list: &Vec<String>) -> (copy: Vec<String>)
    ensures
        spec_texts(copy@) == spec_texts(list@),
        copy@.len() == list@.len(),
{
    let mut copy: Vec<String> = Vec::new();
    let mut at: usize = 0;
    while at < list.len()
        invariant
            at <= list.len(),
            copy@.len() == at,
            forall|i: int| 0 <= i < at ==> copy@[i]@ == list@[i]@,
        decreases list.len() - at,
    {
        copy.push(list[at].clone());
        at = at + 1;
    }
    assert(spec_texts(copy@) =~= spec_texts(list@));
    copy
}

/// Whether `text` is one of the strings of `list`.
pub fn contains_text(list: &Vec<String>, text: &str) -> (found: bool)
    ensures
        found == spec_texts(list@).contains(text@),
{
    let mut at: usize = 0;
    while at < list.len()
        invariant
            at <= list.len(),
            forall|i: int| 0 <= i < at ==> spec_texts(list@)[i] != text@,
        decreases list.len() - at,
    {
        if str_eq(list[at].as_str(), text) {
            assert(spec_texts(list@)[at as int] == text@);
            return true;
        }
        at = at + 1;
    }
    false
}

/// The digit that writes `d` in base ten or sixteen, lower case.
pub open spec fn spec_digit_char(d: int) -> char {
    "0123456789abcdef"@[d]
}

/// `n` written in base ten, without leading zeros.
pub open spec fn spec_decimal_text(n: nat) -> Seq<char>
    decreases n,
{
    if n < 10 {
        seq![spec_digit_char(n as int)]
    } else {
        spec_decimal_text(n / 10).push(spec_digit_char((n % 10) as int))
    }
}

/// `n` written in base ten, with a minus sign if it is negative.
pub open spec fn spec_signed_decimal_text(n: int) -> Seq<char> {
    if n < 0 {
        seq!['-'] + spec_decimal_text((-n) as nat)
    } else {
        spec_decimal_text(n as nat)
    }
}

/// `bytes` written in base sixteen, two lower-case digits to the byte.
pub open spec fn spec_hex(bytes: Seq<u8>) -> Seq<char>
    decreases bytes.len(),
{
    if bytes.len() == 0 {
        Seq::empty()
    } else {
        spec_hex(bytes.drop_last()).push(spec_digit_char(bytes.last() as int / 16)).push(
            spec_digit_char(bytes.last() as int % 16),
        )
    }
}

fn append_digit(out: &mut String, d: usize)
    requires
        d < 16,
    ensures
        final(out)@ == old(out)@.push(spec_digit_char(d as int)),
{
    proof {
        reveal_strlit("0123456789abcdef");
    }
    let ghost before = out@;
    out.append("0123456789abcdef".substring_char(d, d + 1));
    assert(out@ =~= before.push(spec_digit_char(d as int)));
}

/// Appends `n` in base ten to `out`.
pub fn append_decimal(out: &mut String, n: u64)
    ensures
        final(out)@ == old(out)@ + spec_decimal_text(n as nat),
    decreases n,
{
    let ghost before = out@;
    if n >= 10 {
        append_decimal(out, n / 10);
    }
    append_digit(out, (n % 10) as usize);
    assert(out@ =~= before + spec_decimal_text(n as nat));
}

/// Appends `n` in base ten to `out`, with a minus sign if it is negative.
pub fn append_signed_decimal(out: &mut String, n: i64)
    ensures
        final(out)@ == old(out)@ + spec_signed_decimal_text(n as int),
{
    let ghost before = out@;
    if n < 0 {
        proof {
            reveal_strlit("-");
        }
        out.append("-");
        assert(out@ =~= before + seq!['-']);
        let magnitude: u64 = if n == i64::MIN {
            0x8000_0000_0000_0000
        } else {
            (-n) as u64
        };
        append_decimal(out, magnitude);
        assert(out@ =~= before + spec_signed_decimal_text(n as int));
    } else {
        append_decimal(out, n as u64);
    }
}

/// Writes `bytes` in base sixteen, lower case.
pub fn hex_lower(bytes: &[u8]) -> (text: String)
    ensures
        text@ == spec_hex(bytes@),
        text@.len() == 2 * bytes@.len(),
{
    let mut text: String = String::new();
    let mut at: usize = 0;
    while at < bytes.len()
        invariant
            at <= bytes.len(),
            text@ == spec_hex(bytes@.take(at as int)),
            text@.len() == 2 * at,
        decreases bytes.len() - at,
    {
        let b: u8 = bytes[at];
        assert(bytes@.take(at + 1).drop_last() =~= bytes@.take(at as int));
        assert(bytes@.take(at + 1).last() == b);
        append_digit(&mut text, (b / 16) as usize);
        append_digit(&mut text, (b % 16) as usize);
        at = at + 1;
    }
    assert(bytes@.take(at as int) =~= bytes@);
    text
}

/// Whether `c` is white space.
pub fn is_whitespace(c: char) -> (yes: bool)
    ensures
        yes == spec_is_whitespace(c),
{
    let n: u32 = c as u32;
    (0x09 <= n && n <= 0x0d) || n == 0x20 || n == 0x85 || n == 0xa0 || n == 0x1680 || (0x2000 <= n
        && n <= 0x200a) || n == 0x2028 || n == 0x2029 || n == 0x202f || n == 0x205f || n == 0x3000
}

/// Removes leading and trailing white space.
pub fn trim(s: &str) -> (trimmed: &str)
    ensures
        trimmed@ == spec_trim(s@),
{
    let len: usize = s.unicode_len();
    let mut start: usize = 0;
    while start < len && is_whitespace(s.get_char(start))
        invariant
            start <= len,
            len == s@.len(),
            spec_skip_whitespace(s@, 0) == spec_skip_whitespace(s@, start as int),
        decreases len - start,
    {
        start = start + 1;
    }
    let mut end: usize = len;
    while end > start && is_whitespace(s.get_char(end - 1))
        invariant
            start <= end <= len,
            len == s@.len(),
            spec_trim_end_index(s@, start as int, len as int) == spec_trim_end_index(
                s@,
                start as int,
                end as int,
            ),
        decreases end - start,
    {
        end = end - 1;
    }
    s.substring_char(start, end)
}

/// Finds the first `c` at or after position `from`; the length of `s` if
/// there is none.
pub fn find(s: &str, c: char, from: usize) -> (at: usize)
    ensures
        at == spec_find(s@, c, from as int),
        from <= s@.len() ==> from <= at <= s@.len(),
        from > s@.len() ==> at == s@.len(),
{
    let len: usize = s.unicode_len();
    if from >= len {
        return len;
    }
    let mut at: usize = from;
    while at < len && s.get_char(at) != c
        invariant
            from <= at <= len,
            len == s@.len(),
            spec_find(s@, c, from as int) == spec_find(s@, c, at as int),
        decreases len - at,
    {
        at = at + 1;
    }
    at
}

/// Whether two texts are the same, character by character.
pub fn str_eq(a: &str, b: &str) -> (same: bool)
    ensures
        same == (a@ == b@),
{
    let len: usize = a.unicode_len();
    if b.unicode_len() != len {
        return false;
    }
    let mut at: usize = 0;
    while at < len
        invariant
            at <= len,
            len == a@.len(),
            len == b@.len(),
            forall|i: int| 0 <= i < at ==> a@[i] == b@[i],
        decreases len - at,
    {
        if a.get_char(at) != b.get_char(at) {
            return false;
        }
        at = at + 1;
    }
    assert(a@ =~= b@);
    true
}

/// Cuts `s` at the first `c`: returns what stands before it, or all of `s`
/// if `c` does not occur.
pub fn before(s: &str, c: char) -> (head: &str)
    ensures
        head@ == spec_before(s@, c),
{
    let len: usize = s.unicode_len();
    let mut at: usize = 0;
    while at < len && s.get_char(at) != c
        invariant
            at <= len,
            len == s@.len(),
            spec_find(s@, c, 0) == spec_find(s@, c, at as int),
        decreases len - at,
    {
        at = at + 1;
    }
    s.substring_char(0, at)
}

/// The extension of a run of digits by one more digit has ten times the
/// value plus the digit.
pub proof fn lemma_decimal_step(s: Seq<char>, n: int)
    requires
        0 <= n < s.len(),
    ensures
        spec_decimal_value(s.take(n + 1)) == spec_decimal_value(s.take(n)) * 10 + spec_digit_value(
            s[n],
        ),
{
    assert(s.take(n + 1).drop_last() =~= s.take(n));
    assert(s.take(n + 1).last() == s[n]);
}

/// The value of a run of digits never shrinks when the run is extended, so
/// a prefix that overflows settles the matter.
pub proof fn lemma_decimal_monotone(s: Seq<char>, n: int, m: int)
    requires
        0 <= n <= m <= s.len(),
        spec_all_digits(s),
    ensures
        0 <= spec_decimal_value(s.take(n)) <= spec_decimal_value(s.take(m)),
    decreases m,
{
    if m == 0 {
        assert(s.take(0).len() == 0);
    } else {
        if n == m {
            lemma_decimal_monotone(s, m - 1, m - 1);
        } else {
            lemma_decimal_monotone(s, n, m - 1);
        }
        lemma_decimal_step(s, m - 1);
        assert(spec_is_digit(s[m - 1]));
    }
}

/// Reads an unsigned decimal number: an optional plus sign, then digits
/// only. Anything else, an empty text, or a number that does not fit 64 bits
/// gives `None`.
pub fn parse_u64(s: &str) -> (value: Option<u64>)
    ensures
        value == spec_parse_u64(s@),
{
    let len: usize = s.unicode_len();
    let first: usize = if len > 0 && s.get_char(0) == '+' {
        1
    } else {
        0
    };
    let ghost digits = spec_unsigned_digits(s@);
    assert(digits =~= s@.skip(first as int));
    if first == len {
        return None;
    }
    let mut value: u64 = 0;
    let mut at: usize = first;
    while at < len
        invariant
            first <= at <= len,
            len == s@.len(),
            digits == s@.skip(first as int),
            digits == spec_unsigned_digits(s@),
            spec_all_digits(digits.take(at - first)),
            value == spec_decimal_value(digits.take(at - first)),
        decreases len - at,
    {
        let c: char = s.get_char(at);
        assert(digits[at - first] == c);
        if !('0' <= c && c <= '9') {
            assert(!spec_is_digit(digits[at - first]));
            return None;
        }
        let d: u64 = (c as u32 - 0x30) as u64;
        proof {
            lemma_decimal_step(digits, at - first);
            assert forall|i: int| 0 <= i < at - first + 1 implies spec_is_digit(
                #[trigger] digits.take(at - first + 1)[i],
            ) by {
                if i < at - first {
                    assert(digits.take(at - first)[i] == digits[i]);
                }
            }
        }
        if value > (u64::MAX - d) / 10 {
            proof {
                // The digits read so far already exceed the range, and the
                // rest can only add to them.
                let k = at - first + 1;
                assert(spec_decimal_value(digits.take(k)) > u64::MAX);
                if spec_all_digits(digits) {
                    lemma_decimal_monotone(digits, k, digits.len() as int);
                    assert(digits.take(digits.len() as int) =~= digits);
                }
            }
            return None;
        }
        value = value * 10 + d;
        at = at + 1;
    }
    proof {
        assert(digits.take(len - first) =~= digits);
    }
    Some(value)
}

} // verus!
