//! The decimal forms of numbers.
//!
//! A text denotes an unsigned 64-bit integer when it is an optional `+`
//! followed by one or more ASCII digits whose value fits in 64 bits. Nothing
//! else is accepted: no blanks, no `-`, no underscores, no digits of other
//! scripts.
//!
//! A text is a numeral with a fraction or an exponent when it is an optional
//! sign, then digits with at most one point among them and at least one digit
//! in all, then optionally `e` or `E`, an optional sign and one or more
//! digits. Words such as `inf` and `NaN` are no numerals.

use vstd::prelude::*;
use vstd::utf8::is_ascii_chars;
use crate::text::{ascii_bytes, ascii_text};

verus! {

/// Whether `c` is one of the ten ASCII digits.
pub open spec fn is_digit(c: char) -> bool {
    '0' <= c <= '9'
}

/// The number that the digit `c` stands for.
pub open spec fn digit_value(c: char) -> nat
    recommends
        is_digit(c),
{
    (c as int - '0' as int) as nat
}

/// Whether `s` holds digits only.
pub open spec fn all_digits(s: Seq<char>) -> bool {
    forall|i: int| 0 <= i < s.len() ==> is_digit(#[trigger] s[i])
}

/// The number that a sequence of digits denotes, most significant digit first.
pub open spec fn decimal_value(s: Seq<char>) -> nat
    decreases s.len(),
{
    if s.len() == 0 {
        0
    } else {
        decimal_value(s.drop_last()) * 10 + digit_value(s.last())
    }
}

/// The text without its leading `+`, if it has one.
pub open spec fn without_plus(s: Seq<char>) -> Seq<char> {
    if s.len() > 0 && s[0] == '+' {
        s.subrange(1, s.len() as int)
    } else {
        s
    }
}

/// The unsigned 64-bit integer that `s` denotes, if it denotes one.
pub open spec fn unsigned_decimal(s: Seq<char>) -> Option<u64> {
    let digits = without_plus(s);
    if digits.len() > 0 && all_digits(digits) && decimal_value(digits) <= u64::MAX {
        Some(decimal_value(digits) as u64)
    } else {
        None
    }
}

/// A sequence of digits denotes at least what any of its prefixes denotes.
pub proof fn lemma_decimal_value_prefix(s: Seq<char>, n: int)
    requires
        0 <= n <= s.len(),
    ensures
        decimal_value(s.take(n)) <= decimal_value(s),
    decreases s.len() - n,
{
    if n == s.len() {
        assert(s.take(n) =~= s);
    } else {
        lemma_decimal_value_prefix(s, n + 1);
        assert(s.take(n + 1).drop_last() =~= s.take(n));
    }
}

/// Reads an unsigned 64-bit integer in decimal form.
pub fn parse_unsigned(s: &str) -> (value: Option<u64>)
    ensures
        value == unsigned_decimal(s@),
{
    let bytes = match ascii_bytes(s) {
        Some(b) => b,
        None => {
            proof {
                // A character outside ASCII is neither `+` nor a digit.
                let k = choose|k: int| 0 <= k < s@.len() && !('\0' <= #[trigger] s@[k] <= '\u{7f}');
                let digits = without_plus(s@);
                if digits.len() > 0 && all_digits(digits) {
                    if s@[0] == '+' {
                        assert(digits[k - 1] == s@[k]);
                    } else {
                        assert(digits[k] == s@[k]);
                    }
                }
            }
            return None;
        },
    };
    let start: usize = if bytes.len() > 0 && bytes[0] == 43 {
        1
    } else {
        0
    };
    let ghost digits = without_plus(s@);
    assert(digits.len() == bytes@.len() - start);
    if start == bytes.len() {
        return None;
    }
    let mut acc: u64 = 0;
    let mut i: usize = start;
    while i < bytes.len()
        invariant
            start <= i <= bytes.len(),
            bytes@.len() == s@.len(),
            digits == without_plus(s@),
            digits.len() == bytes@.len() - start,
            forall|j: int|
                0 <= j < bytes@.len() ==> #[trigger] bytes@[j] as int == s@[j] as int,
            forall|j: int| 0 <= j < digits.len() ==> #[trigger] digits[j] == s@[start + j],
            all_digits(digits.take(i - start)),
            acc == decimal_value(digits.take(i - start)),
        decreases bytes.len() - i,
    {
        let b: u8 = bytes[i];
        let ghost k: int = i - start;
        assert(bytes@[i as int] as int == s@[i as int] as int);
        if b < 48 || b > 57 {
            assert(!is_digit(digits[k]));
            return None;
        }
        let d: u64 = (b - 48) as u64;
        assert(digits.take(k + 1).drop_last() =~= digits.take(k));
        assert(decimal_value(digits.take(k + 1)) == acc * 10 + d);
        if acc > (u64::MAX - d) / 10 {
            proof {
                lemma_decimal_value_prefix(digits, k + 1);
            }
            return None;
        }
        acc = acc * 10 + d;
        i = i + 1;
    }
    assert(digits.take(i - start) =~= digits);
    Some(acc)
}

/// The text without its leading sign, if it has one.
pub open spec fn without_sign(s: Seq<char>) -> Seq<char> {
    if s.len() > 0 && (s[0] == '+' || s[0] == '-') {
        s.subrange(1, s.len() as int)
    } else {
        s
    }
}

/// The position of the first character of `s` that is `a` or `b`; the
/// length of `s` where it holds neither.
pub open spec fn first_of(s: Seq<char>, a: char, b: char) -> int
    decreases s.len(),
{
    if s.len() == 0 {
        0
    } else if s[0] == a || s[0] == b {
        0
    } else {
        1 + first_of(s.drop_first(), a, b)
    }
}

/// Whether `s` is the part of a numeral before its exponent: digits with at
/// most one point before, among or after them, and at least one digit.
pub open spec fn is_significand(s: Seq<char>) -> bool {
    let point = first_of(s, '.', '.');
    if point == s.len() {
        s.len() > 0 && all_digits(s)
    } else {
        let whole = s.subrange(0, point);
        let fraction = s.subrange(point + 1, s.len() as int);
        all_digits(whole) && all_digits(fraction) && whole.len() + fraction.len() > 0
    }
}

/// Whether `s` is what follows the `e` of a numeral: an optional sign and one
/// or more digits.
pub open spec fn is_exponent(s: Seq<char>) -> bool {
    without_sign(s).len() > 0 && all_digits(without_sign(s))
}

/// Whether `s` is a decimal numeral: an optional sign, a significand, and
/// optionally `e` or `E` with an exponent.
pub open spec fn is_decimal_numeral(s: Seq<char>) -> bool {
    let body = without_sign(s);
    let e = first_of(body, 'e', 'E');
    &&& is_significand(body.subrange(0, e))
    &&& e == body.len() || is_exponent(body.subrange(e + 1, body.len() as int))
}

/// Where the first of two characters stands: within the text or at its end,
/// on one of the two where within, and behind none of them.
pub proof fn lemma_first_of(s: Seq<char>, a: char, b: char)
    ensures
        0 <= first_of(s, a, b) <= s.len(),
        first_of(s, a, b) < s.len() ==> s[first_of(s, a, b)] == a || s[first_of(s, a, b)] == b,
        forall|k: int| 0 <= k < first_of(s, a, b) ==> s[k] != a && s[k] != b,
    decreases s.len(),
{
    if s.len() > 0 && !(s[0] == a || s[0] == b) {
        let rest = s.drop_first();
        lemma_first_of(rest, a, b);
        assert forall|k: int| 0 <= k < first_of(s, a, b) implies s[k] != a && s[k] != b by {
            if k > 0 {
                assert(s[k] == rest[k - 1]);
            }
        }
    }
}

/// Whether `c` can stand in a numeral at all.
pub open spec fn is_numeral_char(c: char) -> bool {
    is_digit(c) || c == '+' || c == '-' || c == '.' || c == 'e' || c == 'E'
}

/// A numeral holds signs, digits, a point and the letter `e` only.
pub proof fn lemma_numeral_chars(s: Seq<char>)
    requires
        is_decimal_numeral(s),
    ensures
        forall|i: int| 0 <= i < s.len() ==> is_numeral_char(#[trigger] s[i]),
{
    let body = without_sign(s);
    let shift = s.len() - body.len();
    let e = first_of(body, 'e', 'E');
    lemma_first_of(body, 'e', 'E');
    let significand = body.subrange(0, e);
    let point = first_of(significand, '.', '.');
    lemma_first_of(significand, '.', '.');
    assert forall|i: int| 0 <= i < s.len() implies is_numeral_char(#[trigger] s[i]) by {
        let j = i - shift;
        if j < 0 {
        } else if j < e {
            assert(s[i] == significand[j]);
            if point == significand.len() {
            } else if j < point {
                assert(significand[j] == significand.subrange(0, point)[j]);
            } else if j > point {
                assert(significand[j] == significand.subrange(
                    point + 1,
                    significand.len() as int,
                )[j - point - 1]);
            }
        } else if j > e {
            let exponent = body.subrange(e + 1, body.len() as int);
            let k = j - e - 1;
            assert(s[i] == exponent[k]);
            let digits = without_sign(exponent);
            if digits.len() < exponent.len() {
                if k > 0 {
                    assert(exponent[k] == digits[k - 1]);
                }
            } else {
                assert(exponent[k] == digits[k]);
            }
        }
    }
}

/// Finds the first of two bytes between two positions.
fn find_first(bytes: &[u8], from: usize, to: usize, a: u8, b: u8) -> (at: usize)
    requires
        from <= to <= bytes@.len(),
    ensures
        from <= at <= to,
        at - from == first_of(
            ascii_text(bytes@).subrange(from as int, to as int),
            a as char,
            b as char,
        ),
{
    let ghost text = ascii_text(bytes@);
    let mut i: usize = from;
    while i < to
        invariant
            from <= i <= to <= bytes@.len(),
            text == ascii_text(bytes@),
            first_of(text.subrange(from as int, to as int), a as char, b as char) == (i - from)
                + first_of(text.subrange(i as int, to as int), a as char, b as char),
        decreases to - i,
    {
        let ghost rest = text.subrange(i as int, to as int);
        assert(rest[0] == bytes@[i as int] as char);
        assert(rest.drop_first() =~= text.subrange(i + 1, to as int));
        if bytes[i] == a || bytes[i] == b {
            return i;
        }
        i = i + 1;
    }
    i
}

/// Decides whether the bytes between two positions are digits only.
fn digits_only(bytes: &[u8], from: usize, to: usize) -> (only: bool)
    requires
        from <= to <= bytes@.len(),
    ensures
        only == all_digits(ascii_text(bytes@).subrange(from as int, to as int)),
{
    let ghost part = ascii_text(bytes@).subrange(from as int, to as int);
    let mut i: usize = from;
    while i < to
        invariant
            from <= i <= to <= bytes@.len(),
            part == ascii_text(bytes@).subrange(from as int, to as int),
            forall|k: int| 0 <= k < i - from ==> is_digit(#[trigger] part[k]),
        decreases to - i,
    {
        assert(part[i - from] == bytes@[i as int] as char);
        if bytes[i] < 48 || bytes[i] > 57 {
            assert(!is_digit(part[i - from]));
            return false;
        }
        i = i + 1;
    }
    true
}

/// Decides whether the bytes between two positions are a significand.
fn significand_between(bytes: &[u8], from: usize, to: usize) -> (fits: bool)
    requires
        from <= to <= bytes@.len(),
    ensures
        fits == is_significand(ascii_text(bytes@).subrange(from as int, to as int)),
{
    let ghost text = ascii_text(bytes@);
    let ghost part = text.subrange(from as int, to as int);
    let point = find_first(bytes, from, to, 46, 46);
    if point == to {
        to > from && digits_only(bytes, from, to)
    } else {
        assert(part.subrange(0, point - from) =~= text.subrange(from as int, point as int));
        assert(part.subrange(point - from + 1, part.len() as int) =~= text.subrange(
            point + 1,
            to as int,
        ));
        let whole = digits_only(bytes, from, point);
        let fraction = digits_only(bytes, point + 1, to);
        whole && fraction && (point - from) + (to - point - 1) > 0
    }
}

/// Decides whether the bytes between two positions are an exponent.
fn exponent_between(bytes: &[u8], from: usize, to: usize) -> (fits: bool)
    requires
        from <= to <= bytes@.len(),
    ensures
        fits == is_exponent(ascii_text(bytes@).subrange(from as int, to as int)),
{
    let ghost text = ascii_text(bytes@);
    let ghost part = text.subrange(from as int, to as int);
    let digits_from: usize = if from < to && (bytes[from] == 43 || bytes[from] == 45) {
        from + 1
    } else {
        from
    };
    assert(from == to || part[0] == bytes@[from as int] as char);
    assert(without_sign(part) =~= text.subrange(digits_from as int, to as int));
    digits_from < to && digits_only(bytes, digits_from, to)
}

/// Decides whether a text is a decimal numeral.
pub fn has_numeral_form(s: &str) -> (numeral: bool)
    ensures
        numeral == is_decimal_numeral(s@),
{
    let bytes = match ascii_bytes(s) {
        Some(b) => b,
        None => {
            proof {
                if is_decimal_numeral(s@) {
                    lemma_numeral_chars(s@);
                    assert(is_ascii_chars(s@));
                }
            }
            return false;
        },
    };
    let n = bytes.len();
    let ghost text = ascii_text(bytes@);
    let start: usize = if n > 0 && (bytes[0] == 43 || bytes[0] == 45) {
        1
    } else {
        0
    };
    let ghost body = without_sign(text);
    assert(n == 0 || text[0] == bytes@[0] as char);
    assert(body =~= text.subrange(start as int, n as int));
    let e = find_first(bytes, start, n, 101, 69);
    assert(body.subrange(0, e - start) =~= text.subrange(start as int, e as int));
    if !significand_between(bytes, start, e) {
        return false;
    }
    if e == n {
        return true;
    }
    assert(body.subrange(e - start + 1, body.len() as int) =~= text.subrange(e + 1, n as int));
    exponent_between(bytes, e + 1, n)
}

} // verus!
