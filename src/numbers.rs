//! Lenient reading of integer query parameters.

use vstd::prelude::*;
use vstd::string::*;

verus! {

pub open spec fn is_digit(c: char) -> bool {
    '0' <= c && c <= '9'
}

pub open spec fn digit_value(c: char) -> int {
    (c as u32) as int - 48
}

/// The value of a sequence of decimal digits, most significant first.
pub open spec fn digits_value(s: Seq<char>) -> int
    decreases s.len(),
{
    if s.len() == 0 {
        0
    } else {
        digits_value(s.drop_last()) * 10 + digit_value(s.last())
    }
}

pub open spec fn is_negative(s: Seq<char>) -> bool {
    s.len() > 0 && s[0] == '-'
}

/// The text after an optional sign.
pub open spec fn unsigned_part(s: Seq<char>) -> Seq<char> {
    if s.len() > 0 && (s[0] == '-' || s[0] == '+') {
        s.drop_first()
    } else {
        s
    }
}

/// An optional sign followed by one or more decimal digits.
pub open spec fn is_decimal(s: Seq<char>) -> bool {
    let d = unsigned_part(s);
    d.len() > 0 && forall|i: int| 0 <= i < d.len() ==> #[trigger] is_digit(d[i])
}

pub open spec fn decimal_value(s: Seq<char>) -> int {
    if is_negative(s) {
        -digits_value(unsigned_part(s))
    } else {
        digits_value(unsigned_part(s))
    }
}

/// A base-10 signed 64-bit integer: the text is decimal and its value fits.
pub open spec fn spec_parse_i64(s: Seq<char>) -> Option<i64> {
    if is_decimal(s) && i64::MIN <= decimal_value(s) <= i64::MAX {
        Some(decimal_value(s) as i64)
    } else {
        None
    }
}

/// The integer a parameter gives, or the default where it is absent or is
/// not an integer.
pub open spec fn number_or(text: Option<Seq<char>>, default: Option<i64>) -> Option<i64> {
    match text {
        Some(t) => match spec_parse_i64(t) {
            Some(v) => Some(v),
            None => default,
        },
        None => default,
    }
}

pub open spec fn opt_view(text: Option<&str>) -> Option<Seq<char>> {
    match text {
        Some(t) => Some(t@),
        None => None,
    }
}

const MAGNITUDE_LIMIT: u128 = 9223372036854775808;

/// Reads a base-10 signed 64-bit integer: an optional `+` or `-` and one or
/// more digits, nothing else, and a value in range.
pub fn parse_i64(text: &str) -> (r: Option<i64>)
    ensures
        r == spec_parse_i64(text@),
{
    let n = text.unicode_len();
    let mut start: usize = 0;
    let mut neg = false;
    if n > 0 {
        let c = text.get_char(0);
        if c == '-' {
            neg = true;
            start = 1;
        } else if c == '+' {
            start = 1;
        }
    }
    let ghost d = unsigned_part(text@);
    assert(d =~= text@.subrange(start as int, n as int));
    assert(neg == is_negative(text@));
    if start == n {
        return None;
    }
    let mut i: usize = start;
    let mut acc: u128 = 0;
    let mut big = false;
    while i < n
        invariant
            start <= i <= n,
            n == text@.len(),
            d =~= text@.subrange(start as int, n as int),
            d == unsigned_part(text@),
            neg == is_negative(text@),
            forall|k: int| 0 <= k < i - start ==> #[trigger] is_digit(d[k]),
            big ==> digits_value(d.subrange(0, i - start)) > MAGNITUDE_LIMIT,
            !big ==> acc == digits_value(d.subrange(0, i - start)) && acc <= MAGNITUDE_LIMIT,
        decreases n - i,
    {
        let c = text.get_char(i);
        assert(c == d[i - start]);
        if !('0' <= c && c <= '9') {
            assert(!is_digit(d[i - start]));
            assert(d == unsigned_part(text@));
            assert(!is_decimal(text@));
            return None;
        }
        let ghost prev = d.subrange(0, i - start);
        let ghost next = d.subrange(0, i + 1 - start);
        assert(next.drop_last() =~= prev);
        assert(next.last() == c);
        let v: u128 = (c as u32 - 48) as u128;
        if !big {
            let m = acc * 10 + v;
            if m > MAGNITUDE_LIMIT {
                big = true;
            } else {
                acc = m;
            }
        }
        i = i + 1;
    }
    assert(d.subrange(0, n - start) =~= d);
    assert(is_decimal(text@));
    if big {
        None
    } else if neg {
        Some((0 - (acc as i128)) as i64)
    } else if acc < MAGNITUDE_LIMIT {
        Some(acc as i64)
    } else {
        None
    }
}

/// The integer that an optional parameter gives, falling back to `default`
/// where it is absent or unparseable; a malformed number is no error.
pub fn get_number_or(text: Option<&str>, default: Option<i64>) -> (r: Option<i64>)
    ensures
        r == number_or(opt_view(text), default),
{
    if let Some(t) = text {
        if let Some(v) = parse_i64(t) {
            return Some(v);
        }
    }
    default
}

} // verus!
