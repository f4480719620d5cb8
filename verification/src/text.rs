//! Character-level text handling shared by the rest of the library.
//!
//! Strings are modelled as sequences of Unicode scalar values. The executable
//! functions work on `Vec<char>` so that indexing is constant-time; `to_chars`
//! and `from_chars` convert at the edges.

use vstd::prelude::*;
use vstd::string::*;

verus! {

/// The characters of `s`, one element per Unicode scalar value.
pub fn to_chars(s: &str) -> (out: Vec<char>)
    ensures
        out@ == s@,
{
    let mut out: Vec<char> = Vec::new();
    for c in it: s.chars()
        invariant
            out@ == it.seq().take(it.index() as int),
            it.seq() == s@,
    {
        out.push(c);
    }
    out
}

/// `String::push` of the standard library: appends one character to the end
/// of the string and leaves what was there before untouched.
#[verifier::external_body]
fn push_char(s: &mut String, c: char)
    ensures
        final(s)@ == old(s)@.push(c),
{
    s.push(c);
}

/// The string made of the characters of `v`, in order.
pub fn from_chars(v: &Vec<char>) -> (out: String)
    ensures
        out@ == v@,
{
    let mut out = String::new();
    let mut i: usize = 0;
    while i < v.len()
        invariant
            i <= v.len(),
            out@ == v@.take(i as int),
        decreases v.len() - i,
    {
        push_char(&mut out, v[i]);
        i += 1;
    }
    out
}

/// Appends the characters of `tail` to `out`.
pub fn extend_chars(out: &mut Vec<char>, tail: &Vec<char>)
    ensures
        final(out)@ == old(out)@ + tail@,
{
    let mut i: usize = 0;
    while i < tail.len()
        invariant
            i <= tail.len(),
            out@ == old(out)@ + tail@.take(i as int),
        decreases tail.len() - i,
    {
        out.push(tail[i]);
        i += 1;
    }
}

// ---------------------------------------------------------------------------
// Decimal numerals
// ---------------------------------------------------------------------------

/// The ASCII digit for `d`, meaningful for `d < 10`.
pub open spec fn digit(d: nat) -> char {
    (48 + d) as char
}

/// Whether `c` is one of `'0'` to `'9'`.
pub open spec fn is_digit(c: char) -> bool {
    '0' <= c <= '9'
}

/// The shortest decimal numeral of `n`: no sign, no leading zero except for
/// zero itself.
pub open spec fn decimal(n: nat) -> Seq<char>
    decreases n,
{
    if n < 10 {
        seq![digit(n)]
    } else {
        decimal(n / 10).push(digit(n % 10))
    }
}

/// Whether every character of `s` is a decimal digit.
pub open spec fn all_digits(s: Seq<char>) -> bool {
    forall|i: int| 0 <= i < s.len() ==> is_digit(#[trigger] s[i])
}

/// The number that a string of digits denotes in base ten; zero for the empty
/// string.
pub open spec fn digits_value(s: Seq<char>) -> nat
    decreases s.len(),
{
    if s.len() == 0 {
        0
    } else {
        (digits_value(s.drop_last()) * 10 + (s.last() as nat - 48)) as nat
    }
}

/// A numeral is never empty, holds digits only, and denotes its number.
pub proof fn lemma_decimal(n: nat)
    ensures
        decimal(n).len() >= 1,
        all_digits(decimal(n)),
        digits_value(decimal(n)) == n,
    decreases n,
{
    if n < 10 {
        let s = decimal(n);
        assert(s.drop_last().len() == 0);
        assert(digits_value(s.drop_last()) == 0);
        assert(s.last() == digit(n));
    } else {
        lemma_decimal(n / 10);
        let s = decimal(n);
        assert(s.drop_last() == decimal(n / 10));
        assert(s.last() == digit(n % 10));
    }
}

fn digit_of(d: u32) -> (c: char)
    requires
        d < 10,
    ensures
        c == digit(d as nat),
{
    if d == 0 {
        '0'
    } else if d == 1 {
        '1'
    } else if d == 2 {
        '2'
    } else if d == 3 {
        '3'
    } else if d == 4 {
        '4'
    } else if d == 5 {
        '5'
    } else if d == 6 {
        '6'
    } else if d == 7 {
        '7'
    } else if d == 8 {
        '8'
    } else {
        '9'
    }
}

/// Appends the decimal numeral of `n` to `out`.
pub fn push_decimal(out: &mut Vec<char>, n: u32)
    ensures
        final(out)@ == old(out)@ + decimal(n as nat),
    decreases n,
{
    if n >= 10 {
        push_decimal(out, n / 10);
    }
    out.push(digit_of(n % 10));
}

/// The decimal numeral of `n` as a string.
pub fn decimal_string(n: u32) -> (out: String)
    ensures
        out@ == decimal(n as nat),
{
    let mut chars: Vec<char> = Vec::new();
    push_decimal(&mut chars, n);
    from_chars(&chars)
}

/// What a string denotes as an unsigned 32-bit number: an optional `+`, then
/// one or more decimal digits whose value fits. Anything else denotes nothing.
pub open spec fn parsed_u32(s: Seq<char>) -> Option<u32> {
    let body = if s.len() > 0 && s[0] == '+' {
        s.skip(1)
    } else {
        s
    };
    if body.len() > 0 && all_digits(body) && digits_value(body) <= u32::MAX {
        Some(digits_value(body) as u32)
    } else {
        None
    }
}

proof fn lemma_digits_value_prefix(s: Seq<char>, k: int)
    requires
        all_digits(s),
        0 <= k <= s.len(),
    ensures
        digits_value(s.take(k)) <= digits_value(s),
    decreases s.len() - k,
{
    if k == s.len() {
        assert(s.take(k) == s);
    } else {
        lemma_digits_value_prefix(s, k + 1);
        let longer = s.take(k + 1);
        assert(longer.drop_last() == s.take(k));
        assert(is_digit(longer.last()));
    }
}

/// Reads an unsigned 32-bit number from `s`.
pub fn parse_u32(s: &str) -> (value: Option<u32>)
    ensures
        value == parsed_u32(s@),
{
    let chars = to_chars(s);
    let start: usize = if chars.len() > 0 && chars[0] == '+' {
        1
    } else {
        0
    };
    let ghost body = chars@.skip(start as int);
    assert(start == 0 ==> body == chars@);
    if start == chars.len() {
        return None;
    }
    let mut acc: u32 = 0;
    let mut i: usize = start;
    while i < chars.len()
        invariant
            start <= i <= chars.len(),
            chars@ == s@,
            start < chars.len(),
            start == 0 || start == 1,
            start == 1 <==> s@.len() > 0 && s@[0] == '+',
            body == chars@.skip(start as int),
            start == 0 ==> body == chars@,
            all_digits(body.take(i - start)),
            acc == digits_value(body.take(i - start)),
        decreases chars.len() - i,
    {
        let c = chars[i];
        let ghost next = body.take(i - start + 1);
        assert(next.drop_last() == body.take(i - start));
        assert(next.last() == c);
        if c < '0' || c > '9' {
            assert(!is_digit(body[i - start]));
            return None;
        }
        let d: u32 = c as u32 - 48;
        if acc > (u32::MAX - d) / 10 {
            proof {
                assert(all_digits(next));
                if all_digits(body) {
                    lemma_digits_value_prefix(body, i - start + 1);
                }
            }
            return None;
        }
        acc = acc * 10 + d;
        assert(all_digits(next));
        i += 1;
    }
    assert(body.take(i - start) == body);
    Some(acc)
}

// ---------------------------------------------------------------------------
// Substitution
// ---------------------------------------------------------------------------

/// Whether `pattern` occurs in `text` starting at position `at`.
pub open spec fn occurs_at(text: Seq<char>, pattern: Seq<char>, at: int) -> bool {
    &&& 0 <= at
    &&& at + pattern.len() <= text.len()
    &&& text.subrange(at, at + pattern.len()) == pattern
}

/// `text` with every occurrence of `pattern` replaced by `replacement`.
/// Occurrences are found from left to right and do not overlap; an empty
/// pattern occurs nowhere.
pub open spec fn replaced(text: Seq<char>, pattern: Seq<char>, replacement: Seq<char>) -> Seq<char>
    decreases text.len(),
{
    if pattern.len() == 0 || text.len() < pattern.len() {
        text
    } else if occurs_at(text, pattern, 0) {
        replacement + replaced(text.skip(pattern.len() as int), pattern, replacement)
    } else {
        seq![text[0]] + replaced(text.skip(1), pattern, replacement)
    }
}

/// Whether `pattern` occurs in `text` at `at`, for a pattern that fits there.
fn occurs_here(text: &Vec<char>, pattern: &Vec<char>, at: usize) -> (found: bool)
    requires
        at + pattern.len() <= text.len(),
    ensures
        found == occurs_at(text@, pattern@, at as int),
{
    let mut j: usize = 0;
    while j < pattern.len()
        invariant
            j <= pattern.len(),
            at + pattern.len() <= text.len(),
            text@.subrange(at as int, at + j) == pattern@.take(j as int),
        decreases pattern.len() - j,
    {
        if text[at + j] != pattern[j] {
            assert(text@.subrange(at as int, at + pattern.len())[j as int] != pattern@[j as int]);
            return false;
        }
        assert(text@.subrange(at as int, at + j + 1) == text@.subrange(at as int, at + j).push(
            text@[at + j],
        ));
        assert(pattern@.take(j + 1) == pattern@.take(j as int).push(pattern@[j as int]));
        j += 1;
    }
    assert(pattern@.take(j as int) == pattern@);
    true
}

/// Replaces every occurrence of `pattern` in `text`, on character vectors.
pub fn replace_chars(text: &Vec<char>, pattern: &Vec<char>, replacement: &Vec<char>) -> (out: Vec<
    char,
>)
    ensures
        out@ == replaced(text@, pattern@, replacement@),
{
    let mut out: Vec<char> = Vec::new();
    let mut i: usize = 0;
    if pattern.len() == 0 {
        extend_chars(&mut out, text);
        return out;
    }
    assert(text@.skip(0) == text@);
    while i < text.len()
        invariant
            i <= text.len(),
            pattern.len() > 0,
            out@ + replaced(text@.skip(i as int), pattern@, replacement@) == replaced(
                text@,
                pattern@,
                replacement@,
            ),
        decreases text.len() - i,
    {
        let ghost rest = text@.skip(i as int);
        if text.len() - i < pattern.len() {
            assert(replaced(rest, pattern@, replacement@) == rest);
            let ghost before = out@;
            while i < text.len()
                invariant
                    i <= text.len(),
                    out@ + text@.skip(i as int) == before + rest,
                decreases text.len() - i,
            {
                assert(text@.skip(i as int) == seq![text@[i as int]] + text@.skip(i + 1));
                out.push(text[i]);
                i += 1;
            }
            assert(text@.skip(i as int) == Seq::<char>::empty());
            assert(replaced(text@.skip(i as int), pattern@, replacement@) == Seq::<char>::empty());
        } else {
            let found = occurs_here(text, pattern, i);
            assert(rest.subrange(0, pattern@.len() as int) == text@.subrange(
                i as int,
                i + pattern@.len(),
            ));
            if found {
                assert(rest.skip(pattern@.len() as int) == text@.skip(i + pattern@.len()));
                extend_chars(&mut out, replacement);
                i += pattern.len();
            } else {
                assert(rest.skip(1) == text@.skip(i + 1));
                out.push(text[i]);
                i += 1;
            }
        }
    }
    assert(text@.skip(i as int) == Seq::<char>::empty());
    out
}

/// Replaces every occurrence of `pattern` in `text` by `replacement`.
pub fn replace_all(text: &str, pattern: &str, replacement: &str) -> (out: String)
    ensures
        out@ == replaced(text@, pattern@, replacement@),
{
    let text = to_chars(text);
    let pattern = to_chars(pattern);
    let replacement = to_chars(replacement);
    from_chars(&replace_chars(&text, &pattern, &replacement))
}

} // verus!
