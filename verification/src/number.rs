//! Reading a captured digit run as a number.

use vstd::prelude::*;
use vstd::string::*;

verus! {

/// The ASCII code of the plus sign.
const PLUS: u8 = 43;

/// The ASCII code of the digit zero.
const ZERO: u8 = 48;

/// The ASCII code of the digit nine.
const NINE: u8 = 57;

/// An ASCII decimal digit.
pub open spec fn is_digit(c: char) -> bool {
    '0' <= c && c <= '9'
}

/// The number that a decimal digit stands for.
pub open spec fn digit_value(c: char) -> int {
    c as int - '0' as int
}

/// Every character of `s` is an ASCII decimal digit.
pub open spec fn all_digits(s: Seq<char>) -> bool {
    forall|i: int| 0 <= i < s.len() ==> is_digit(#[trigger] s[i])
}

/// The number that a string of decimal digits denotes, most significant
/// digit first. The empty string denotes zero.
pub open spec fn digits_value(s: Seq<char>) -> int
    decreases s.len(),
{
    if s.len() == 0 {
        0
    } else {
        10 * digits_value(s.drop_last()) + digit_value(s.last())
    }
}

/// The text without its leading plus sign, if it has one.
pub open spec fn unsigned_part(s: Seq<char>) -> Seq<char> {
    if s.len() > 0 && s[0] == '+' {
        s.drop_first()
    } else {
        s
    }
}

/// The number below 256 that a text denotes in decimal, if it denotes one.
///
/// A text denotes a number when it is an optional plus sign followed by one
/// or more ASCII digits and nothing else, and the digits' value fits in eight
/// bits. Leading zeros are allowed; a minus sign, blanks and digits of other
/// scripts are not.
pub open spec fn decimal(s: Seq<char>) -> Option<u8> {
    let digits = unsigned_part(s);
    if digits.len() > 0 && all_digits(digits) && digits_value(digits) <= 255 {
        Some(digits_value(digits) as u8)
    } else {
        None
    }
}

/// A string of digits denotes at least what any of its prefixes denotes.
pub proof fn lemma_digits_value_prefix(s: Seq<char>, k: int)
    requires
        all_digits(s),
        0 <= k <= s.len(),
    ensures
        0 <= digits_value(s.take(k)) <= digits_value(s),
    decreases s.len() - k,
{
    if k == s.len() {
        assert(s.take(k) =~= s);
        lemma_digits_value_nonnegative(s);
    } else {
        lemma_digits_value_prefix(s, k + 1);
        assert(s.take(k + 1).drop_last() =~= s.take(k));
        lemma_digits_value_nonnegative(s.take(k));
    }
}

/// A string of digits denotes no negative number.
pub proof fn lemma_digits_value_nonnegative(s: Seq<char>)
    requires
        all_digits(s),
    ensures
        0 <= digits_value(s),
    decreases s.len(),
{
    if s.len() > 0 {
        lemma_digits_value_nonnegative(s.drop_last());
    }
}

/// Reads a text as a decimal number below 256.
///
/// Returns the number that the text denotes, and `None` where it denotes
/// none: on the empty text, on a character that is no ASCII digit (a plus
/// sign in front excepted), and on a value above 255.
pub fn parse_number(text: &str) -> (r: Option<u8>)
    ensures
        r == decimal(text@),
{
    if !text.is_ascii() {
        proof {
            let s = text@;
            let i = choose|i: int| 0 <= i < s.len() && !('\0' <= #[trigger] s[i] <= '\u{7f}');
            let digits = unsigned_part(s);
            let at = if digits.len() == s.len() {
                i
            } else {
                i - 1
            };
            assert(digits[at] == s[i] && !is_digit(digits[at]));
        }
        return None;
    }
    proof {
        is_ascii_spec_bytes(text);
    }
    let bytes = text.as_bytes();
    let n: usize = bytes.len();
    let mut i: usize = 0;
    if n > 0 && bytes[0] == PLUS {
        i = 1;
    }
    let first: usize = i;
    let ghost digits = unsigned_part(text@);
    if i == n {
        return None;
    }
    let mut value: u8 = 0;
    while i < n
        invariant
            first <= i <= n,
            n == text@.len(),
            n == bytes@.len(),
            is_ascii(text),
            bytes@ == text.spec_bytes(),
            digits == unsigned_part(text@),
            digits == text@.skip(first as int),
            all_digits(digits.take(i - first)),
            value == digits_value(digits.take(i - first)),
        decreases n - i,
    {
        let b: u8 = bytes[i];
        let ghost k = i - first;
        assert(b == text@[i as int] as u8) by {
            is_ascii_spec_bytes(text);
        }
        assert(digits.take(k + 1).drop_last() =~= digits.take(k));
        if b < ZERO || b > NINE {
            assert(!is_digit(digits[k]));
            return None;
        }
        let d: u8 = b - ZERO;
        assert forall|j: int| 0 <= j < k + 1 implies is_digit(#[trigger] digits.take(k + 1)[j]) by {
            if j < k {
                assert(digits.take(k + 1)[j] == digits.take(k)[j]);
            }
        }
        if value > 25u8 || (value == 25u8 && d > 5u8) {
            proof {
                if all_digits(digits) {
                    lemma_digits_value_prefix(digits, k + 1);
                }
            }
            return None;
        }
        value = value * 10u8 + d;
        i = i + 1;
    }
    assert(digits.take(i - first) =~= digits);
    Some(value)
}

} // verus!
