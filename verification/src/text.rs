//! Text primitives: comparison, prefixes, and decimal numbers.

use vstd::prelude::*;
use vstd::string::*;

verus! {

/// The characters of a text that may be absent.
pub open spec fn optional(text: Option<String>) -> Option<Seq<char>> {
    match text {
        Some(text) => Some(text@),
        None => None,
    }
}

/// `text` without the leading `prefix`, if it has one.
pub open spec fn without_prefix(text: Seq<char>, prefix: Seq<char>) -> Option<Seq<char>> {
    if prefix.is_prefix_of(text) {
        Some(text.skip(prefix.len() as int))
    } else {
        None
    }
}

/// Whether `c` is an ASCII decimal digit.
pub open spec fn is_digit(c: char) -> bool {
    '0' <= c && c <= '9'
}

/// Whether `s` is one digit or more, and nothing else.
pub open spec fn is_numeral(s: Seq<char>) -> bool {
    s.len() > 0 && forall|i: int| 0 <= i < s.len() ==> is_digit(#[trigger] s[i])
}

/// The number that a sequence of digits denotes in base ten.
pub open spec fn numeral_value(s: Seq<char>) -> int
    decreases s.len(),
{
    if s.len() == 0 {
        0
    } else {
        10 * numeral_value(s.drop_last()) + (s.last() as int - '0' as int)
    }
}

/// The integer that `s` denotes: a numeral, after at most one sign.
pub open spec fn integer_value(s: Seq<char>) -> Option<int> {
    if s.len() > 0 && s[0] == '-' {
        if is_numeral(s.skip(1)) {
            Some(-numeral_value(s.skip(1)))
        } else {
            None
        }
    } else {
        let digits = if s.len() > 0 && s[0] == '+' {
            s.skip(1)
        } else {
            s
        };
        if is_numeral(digits) {
            Some(numeral_value(digits))
        } else {
            None
        }
    }
}

/// Whether two texts are the same, character for character.
pub fn same_text(a: &str, b: &str) -> (same: bool)
    ensures
        same == (a@ == b@),
{
    a.to_owned() == b.to_owned()
}

/// The characters of `s`, in order.
pub(crate) fn characters(s: &str) -> (chars: Vec<char>)
    ensures
        chars@ == s@,
{
    let mut chars: Vec<char> = Vec::new();
    for c in it: s.chars()
        invariant
            it.seq() == s@,
            chars@ == s@.take(it.index() as int),
    {
        chars.push(c);
    }
    chars
}

/// Whether a text has this character in it.
pub fn contains_char(text: &str, wanted: char) -> (found: bool)
    ensures
        found == text@.contains(wanted),
{
    let chars: Vec<char> = characters(text);
    let mut i: usize = 0;
    while i < chars.len()
        invariant
            chars@ == text@,
            i <= chars.len(),
            forall|k: int| 0 <= k < i ==> text@[k] != wanted,
        decreases chars.len() - i,
    {
        if chars[i] == wanted {
            assert(text@[i as int] == wanted);
            return true;
        }
        i += 1;
    }
    false
}

/// What follows `prefix` in `text`, or `None` where `text` does not begin
/// with it.
pub fn strip_prefix<'a>(text: &'a str, prefix: &str) -> (rest: Option<&'a str>)
    ensures
        match rest {
            Some(rest) => without_prefix(text@, prefix@) == Some(rest@),
            None => without_prefix(text@, prefix@) is None,
        },
{
    let n: usize = prefix.unicode_len();
    let len: usize = text.unicode_len();
    if n > len {
        return None;
    }
    if !same_text(text.substring_char(0, n), prefix) {
        return None;
    }
    Some(text.substring_char(n, len))
}

/// A numeral is worth at least as much as any beginning of it.
pub(crate) proof fn lemma_numeral_grows(s: Seq<char>, n: int)
    requires
        is_numeral(s),
        0 <= n <= s.len(),
    ensures
        0 <= numeral_value(s.take(n)) <= numeral_value(s),
    decreases s.len(),
{
    if n < s.len() {
        let rest = s.drop_last();
        if rest.len() > 0 {
            assert(is_numeral(rest));
            lemma_numeral_grows(rest, n);
        }
        assert(rest.take(n) == s.take(n));
        assert(is_digit(s[s.len() - 1]));
    } else {
        assert(s.take(n) == s);
        if s.len() > 1 {
            assert(is_numeral(s.drop_last()));
            lemma_numeral_grows(s.drop_last(), s.len() - 1);
            assert(s.drop_last().take(s.len() - 1) == s.drop_last());
        }
        assert(is_digit(s[s.len() - 1]));
    }
}

/// The largest magnitude of an `i64`, that of `i64::MIN`.
const MAX_MAGNITUDE: u128 = 0x8000_0000_0000_0000;

/// The value of the numeral that starts at `start`, unless it is larger than
/// the magnitude of any `i64`.
fn parse_magnitude(chars: &Vec<char>, start: usize) -> (magnitude: Option<u128>)
    requires
        start <= chars.len(),
    ensures
        match magnitude {
            Some(m) => is_numeral(chars@.skip(start as int)) && m == numeral_value(
                chars@.skip(start as int),
            ) && m <= MAX_MAGNITUDE,
            None => !is_numeral(chars@.skip(start as int)) || numeral_value(
                chars@.skip(start as int),
            ) > MAX_MAGNITUDE,
        },
{
    let ghost digits = chars@.skip(start as int);
    if start == chars.len() {
        return None;
    }
    let mut value: u128 = 0;
    let mut i: usize = start;
    while i < chars.len()
        invariant
            start <= i <= chars.len(),
            start < chars.len(),
            digits == chars@.skip(start as int),
            forall|k: int| 0 <= k < i - start ==> is_digit(#[trigger] digits[k]),
            value == numeral_value(digits.take(i - start)),
            value <= MAX_MAGNITUDE,
        decreases chars.len() - i,
    {
        let c: char = chars[i];
        let ghost k = i - start;
        assert(digits[k] == c);
        if !('0' <= c && c <= '9') {
            assert(!is_digit(digits[k]));
            return None;
        }
        assert(digits.take(k + 1).drop_last() == digits.take(k));
        value = 10 * value + (c as u128 - '0' as u128);
        if value > MAX_MAGNITUDE {
            proof {
                if is_numeral(digits) {
                    lemma_numeral_grows(digits, k + 1);
                }
            }
            return None;
        }
        i += 1;
    }
    assert(digits.take(i - start) == digits);
    Some(value)
}

/// Reads a signed decimal integer: at most one sign, then digits alone. The
/// result is `None` for any other text and for a number outside `i64`.
pub fn parse_i64(s: &str) -> (number: Option<i64>)
    ensures
        match number {
            Some(n) => integer_value(s@) == Some(n as int),
            None => match integer_value(s@) {
                Some(v) => v < i64::MIN || v > i64::MAX,
                None => true,
            },
        },
{
    let chars: Vec<char> = characters(s);
    if chars.len() > 0 && chars[0] == '-' {
        match parse_magnitude(&chars, 1) {
            Some(m) => Some((-(m as i128)) as i64),
            None => None,
        }
    } else {
        let start: usize = if chars.len() > 0 && chars[0] == '+' {
            1
        } else {
            0
        };
        assert(start == 0 ==> chars@.skip(0) == s@);
        match parse_magnitude(&chars, start) {
            Some(m) => if m < MAX_MAGNITUDE {
                Some(m as i64)
            } else {
                None
            },
            None => None,
        }
    }
}

} // verus!
