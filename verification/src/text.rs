//! Text helpers: comparison, concatenation and decimal numerals.

use vstd::prelude::*;

verus! {

/// Whether two string slices hold the same characters.
pub fn text_eq(a: &str, b: &str) -> (same: bool)
    ensures
        same == (a@ == b@),
{
    let left = a.to_owned();
    let right = b.to_owned();
    left == right
}

/// The two slices joined into one owned string.
pub fn join(a: &str, b: &str) -> (joined: String)
    ensures
        joined@ == a@ + b@,
{
    let mut joined = a.to_owned();
    joined.append(b);
    joined
}

/// The character that writes the decimal digit `d`.
pub open spec fn digit_char(d: int) -> char {
    if d == 0 {
        '0'
    } else if d == 1 {
        '1'
    } else if d == 2 {
        '2'
    } else if d == 3 {
        '3'
    } else if d == 4 {
        '4'
    } else if d == 5 {
        '5'
    } else if d == 6 {
        '6'
    } else if d == 7 {
        '7'
    } else if d == 8 {
        '8'
    } else {
        '9'
    }
}

/// The decimal numeral of `n`, without leading zeros.
pub open spec fn decimal(n: nat) -> Seq<char>
    decreases n,
{
    if n < 10 {
        seq![digit_char(n as int)]
    } else {
        decimal(n / 10).push(digit_char((n % 10) as int))
    }
}

/// The decimal numeral of `n`, with a minus sign when `n` is negative.
pub open spec fn signed_decimal(n: int) -> Seq<char> {
    if n < 0 {
        seq!['-'] + decimal((-n) as nat)
    } else {
        decimal(n as nat)
    }
}

/// A decimal numeral has as many characters as the number has digits.
pub proof fn lemma_decimal_len(n: nat)
    ensures
        decimal(n).len() >= 1,
        n < 10 <==> decimal(n).len() == 1,
        n >= 10 ==> decimal(n).len() == decimal(n / 10).len() + 1,
    decreases n,
{
    if n >= 10 {
        lemma_decimal_len(n / 10);
    }
}

/// Every number from 100000 to 999999 is written with six characters.
pub proof fn lemma_six_digits(n: nat)
    requires
        100_000 <= n <= 999_999,
    ensures
        decimal(n).len() == 6,
{
    lemma_decimal_len(n);
    lemma_decimal_len(n / 10);
    lemma_decimal_len(n / 10 / 10);
    lemma_decimal_len(n / 10 / 10 / 10);
    lemma_decimal_len(n / 10 / 10 / 10 / 10);
    lemma_decimal_len(n / 10 / 10 / 10 / 10 / 10);
}

fn digit_text(d: u64) -> (text: &'static str)
    requires
        d < 10,
    ensures
        text@ == seq![digit_char(d as int)],
{
    proof {
        reveal_strlit("0");
        reveal_strlit("1");
        reveal_strlit("2");
        reveal_strlit("3");
        reveal_strlit("4");
        reveal_strlit("5");
        reveal_strlit("6");
        reveal_strlit("7");
        reveal_strlit("8");
        reveal_strlit("9");
    }
    let text = if d == 0 {
        "0"
    } else if d == 1 {
        "1"
    } else if d == 2 {
        "2"
    } else if d == 3 {
        "3"
    } else if d == 4 {
        "4"
    } else if d == 5 {
        "5"
    } else if d == 6 {
        "6"
    } else if d == 7 {
        "7"
    } else if d == 8 {
        "8"
    } else {
        "9"
    };
    assert(text@ =~= seq![digit_char(d as int)]);
    text
}

fn append_decimal(out: &mut String, n: u64)
    ensures
        final(out)@ == old(out)@ + decimal(n as nat),
    decreases n,
{
    if n >= 10 {
        append_decimal(out, n / 10);
    }
    out.append(digit_text(n % 10));
    assert(out@ =~= old(out)@ + decimal(n as nat));
}

/// Writes `n` in decimal.
pub fn u64_to_string(n: u64) -> (text: String)
    ensures
        text@ == decimal(n as nat),
{
    let mut text = String::new();
    append_decimal(&mut text, n);
    assert(text@ =~= decimal(n as nat));
    text
}

/// Writes `n` in decimal, with a minus sign when it is negative.
pub fn i64_to_string(n: i64) -> (text: String)
    ensures
        text@ == signed_decimal(n as int),
{
    if n < 0 {
        let magnitude: u64 = if n == i64::MIN {
            9_223_372_036_854_775_808u64
        } else {
            (-n) as u64
        };
        let mut text = "-".to_owned();
        proof {
            reveal_strlit("-");
        }
        append_decimal(&mut text, magnitude);
        assert(text@ =~= signed_decimal(n as int));
        text
    } else {
        u64_to_string(n as u64)
    }
}

/// The characters of a string slice.
pub fn chars_of(s: &str) -> (chars: Vec<char>)
    ensures
        chars@ == s@,
{
    let mut chars: Vec<char> = Vec::new();
    for c in iter: s.chars()
        invariant
            iter.seq() == s@,
            chars@ == s@.take(iter.index() as int),
    {
        chars.push(c);
        assert(s@.take(iter.index() + 1) =~= s@.take(iter.index() as int).push(c));
    }
    assert(s@.take(s@.len() as int) =~= s@);
    chars
}

/// Whether `text` begins with `prefix`.
pub open spec fn starts_with(text: Seq<char>, prefix: Seq<char>) -> bool {
    prefix.len() <= text.len() && text.subrange(0, prefix.len() as int) == prefix
}

/// Whether the characters `text` begin with those of `prefix`.
pub fn has_prefix(text: &Vec<char>, prefix: &Vec<char>) -> (found: bool)
    ensures
        found == starts_with(text@, prefix@),
{
    if prefix.len() > text.len() {
        return false;
    }
    let mut i: usize = 0;
    while i < prefix.len()
        invariant
            i <= prefix.len() <= text.len(),
            forall|j: int| 0 <= j < i ==> text[j] == prefix[j],
        decreases prefix.len() - i,
    {
        if text[i] != prefix[i] {
            assert(text@.subrange(0, prefix.len() as int)[i as int] != prefix@[i as int]);
            return false;
        }
        i += 1;
    }
    assert(text@.subrange(0, prefix.len() as int) =~= prefix@);
    true
}

/// The value of the decimal digit `c`, if it is one.
pub open spec fn digit_value(c: char) -> Option<int> {
    if c == '0' {
        Some(0)
    } else if c == '1' {
        Some(1)
    } else if c == '2' {
        Some(2)
    } else if c == '3' {
        Some(3)
    } else if c == '4' {
        Some(4)
    } else if c == '5' {
        Some(5)
    } else if c == '6' {
        Some(6)
    } else if c == '7' {
        Some(7)
    } else if c == '8' {
        Some(8)
    } else if c == '9' {
        Some(9)
    } else {
        None
    }
}

/// The number that a non-empty run of decimal digits writes; `None` for
/// the empty text and for a text with another character in it.
pub open spec fn digits_value(text: Seq<char>) -> Option<int>
    decreases text.len(),
{
    if text.len() == 0 {
        None
    } else if text.len() == 1 {
        digit_value(text[0])
    } else {
        match (digits_value(text.drop_last()), digit_value(text.last())) {
            (Some(high), Some(low)) => Some(high * 10 + low),
            _ => None,
        }
    }
}

/// The integer that `text` writes: decimal digits after an optional `+`
/// or `-`.
pub open spec fn integer_value(text: Seq<char>) -> Option<int> {
    if text.len() > 0 && text[0] == '-' {
        match digits_value(text.drop_first()) {
            Some(v) => Some(-v),
            None => None,
        }
    } else if text.len() > 0 && text[0] == '+' {
        digits_value(text.drop_first())
    } else {
        digits_value(text)
    }
}

/// The integer that `text` writes, where it lies between `low` and `high`.
pub open spec fn integer_within(text: Seq<char>, low: int, high: int) -> Option<int> {
    match integer_value(text) {
        Some(v) => if low <= v <= high {
            Some(v)
        } else {
            None
        },
        None => None,
    }
}

fn digit_of(c: char) -> (d: Option<i128>)
    ensures
        match d {
            Some(v) => digit_value(c) == Some(v as int) && 0 <= v <= 9,
            None => digit_value(c).is_none(),
        },
{
    if c == '0' {
        Some(0)
    } else if c == '1' {
        Some(1)
    } else if c == '2' {
        Some(2)
    } else if c == '3' {
        Some(3)
    } else if c == '4' {
        Some(4)
    } else if c == '5' {
        Some(5)
    } else if c == '6' {
        Some(6)
    } else if c == '7' {
        Some(7)
    } else if c == '8' {
        Some(8)
    } else if c == '9' {
        Some(9)
    } else {
        None
    }
}

/// A run of digits is worth at least as much as any shorter run it begins
/// with, and nothing negative.
proof fn lemma_digits_grow(text: Seq<char>)
    requires
        text.len() >= 1,
        digits_value(text).is_some(),
    ensures
        digits_value(text).unwrap() >= 0,
        text.len() >= 2 ==> digits_value(text.drop_last()).is_some() && digits_value(text).unwrap()
            >= digits_value(text.drop_last()).unwrap(),
    decreases text.len(),
{
    if text.len() >= 2 {
        lemma_digits_grow(text.drop_last());
    }
}

/// The largest magnitude that a 64-bit integer can have.
pub const MAGNITUDE_LIMIT: i128 = 9_223_372_036_854_775_808i128;

/// Reads the number that the digits from position `start` on write, where
/// it does not exceed `MAGNITUDE_LIMIT`.
fn parse_digits(chars: &Vec<char>, start: usize) -> (parsed: Option<i128>)
    requires
        start < chars.len(),
    ensures
        match parsed {
            Some(v) => digits_value(chars@.subrange(start as int, chars.len() as int)) == Some(
                v as int,
            ) && 0 <= v <= MAGNITUDE_LIMIT,
            None => match digits_value(chars@.subrange(start as int, chars.len() as int)) {
                Some(v) => v > MAGNITUDE_LIMIT,
                None => true,
            },
        },
{
    let n = chars.len();
    let ghost digits = chars@.subrange(start as int, n as int);
    let mut value: i128 = 0;
    let mut overflow = false;
    let mut i: usize = start;
    while i < n
        invariant
            start <= i <= n,
            n == chars@.len(),
            digits == chars@.subrange(start as int, n as int),
            0 <= value <= MAGNITUDE_LIMIT,
            i > start ==> digits_value(digits.take(i - start)).is_some(),
            i > start && !overflow ==> digits_value(digits.take(i - start)) == Some(value as int),
            i > start && overflow ==> digits_value(digits.take(i - start)).unwrap()
                > MAGNITUDE_LIMIT,
            i == start ==> value == 0 && !overflow,
        decreases n - i,
    {
        let ghost upto = digits.take(i - start + 1);
        proof {
            assert(upto.last() == chars@[i as int]);
            assert(upto.drop_last() =~= digits.take(i - start));
        }
        match digit_of(chars[i]) {
            None => {
                proof {
                    assert(digits_value(upto).is_none());
                    lemma_digits_end(digits, i - start + 1);
                }
                return None;
            },
            Some(d) => {
                assert(digits_value(upto).is_some());
                if !overflow {
                    let next: i128 = value * 10 + d;
                    if next > MAGNITUDE_LIMIT {
                        overflow = true;
                    } else {
                        value = next;
                    }
                } else {
                    proof {
                        lemma_digits_grow(upto);
                    }
                }
            },
        }
        i += 1;
    }
    proof {
        assert(digits.take(n - start) =~= digits);
    }
    if overflow {
        None
    } else {
        Some(value)
    }
}

/// Reads the integer that `text` writes, where it lies between `low` and
/// `high`: decimal digits after an optional `+` or `-`, leading zeros
/// allowed, nothing before or after.
pub fn parse_integer(text: &str, low: i64, high: i64) -> (parsed: Option<i64>)
    ensures
        match parsed {
            Some(v) => integer_within(text@, low as int, high as int) == Some(v as int),
            None => integer_within(text@, low as int, high as int).is_none(),
        },
{
    let chars = chars_of(text);
    let n = chars.len();
    if n == 0 {
        return None;
    }
    let negative = chars[0] == '-';
    let start: usize = if chars[0] == '-' || chars[0] == '+' {
        1
    } else {
        0
    };
    if start == n {
        assert(chars@.drop_first().len() == 0);
        return None;
    }
    proof {
        if start == 1 {
            assert(chars@.subrange(start as int, n as int) =~= chars@.drop_first());
        } else {
            assert(chars@.subrange(start as int, n as int) =~= chars@);
        }
    }
    let value = match parse_digits(&chars, start) {
        Some(value) => value,
        None => {
            return None;
        },
    };
    let signed: i128 = if negative {
        -value
    } else {
        value
    };
    if signed < low as i128 || signed > high as i128 {
        None
    } else {
        Some(signed as i64)
    }
}

/// A text with a character that is no digit among its first `upto`
/// characters writes no number.
proof fn lemma_digits_end(text: Seq<char>, upto: int)
    requires
        1 <= upto <= text.len(),
        digits_value(text.take(upto)).is_none(),
    ensures
        digits_value(text).is_none(),
    decreases text.len() - upto,
{
    if upto < text.len() {
        assert(text.take(upto + 1).drop_last() =~= text.take(upto));
        lemma_digits_end(text, upto + 1);
    } else {
        assert(text.take(upto) =~= text);
    }
}

/// An optional instant as a value.
pub open spec fn instant_view(t: Option<i64>) -> Option<int> {
    match t {
        Some(t) => Some(t as int),
        None => None,
    }
}

/// An optional text as a value.
pub open spec fn text_view(t: Option<String>) -> Option<Seq<char>> {
    match t {
        Some(t) => Some(t@),
        None => None,
    }
}

/// A copy of an optional text.
pub fn clone_text(text: &Option<String>) -> (copy: Option<String>)
    ensures
        text_view(copy) == text_view(*text),
{
    match text {
        Some(t) => Some(t.clone()),
        None => None,
    }
}

} // verus!
