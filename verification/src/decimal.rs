//! Decimal numerals: reading a `u64` from text and writing one as text.

use crate::text::{push_text, string_of};
use vstd::prelude::*;

verus! {

/// Whether `c` is one of the ten ASCII digits.
pub open spec fn is_digit(c: char) -> bool {
    '0' <= c && c <= '9'
}

/// The value of an ASCII digit.
pub open spec fn digit_value(c: char) -> nat {
    (c as nat - '0' as nat) as nat
}

/// Whether every character of `s` is an ASCII digit.
pub open spec fn all_digits(s: Seq<char>) -> bool {
    forall|i: int| 0 <= i < s.len() ==> is_digit(#[trigger] s[i])
}

/// The number that a run of digits denotes in base ten; zero for the empty run.
pub open spec fn digits_value(s: Seq<char>) -> nat
    decreases s.len(),
{
    if s.len() == 0 {
        0
    } else {
        10 * digits_value(s.drop_last()) + digit_value(s.last())
    }
}

/// The digits of a numeral: the text without one leading plus sign, if it has one.
pub open spec fn numeral_digits(s: Seq<char>) -> Seq<char> {
    if s.len() > 0 && s[0] == '+' {
        s.drop_first()
    } else {
        s
    }
}

/// The `u64` that a text denotes: an optional plus sign, then one or more
/// ASCII digits whose value fits in 64 bits. Any other text denotes none.
pub open spec fn parsed_u64(s: Seq<char>) -> Option<u64> {
    let digits = numeral_digits(s);
    if digits.len() > 0 && all_digits(digits) && digits_value(digits) <= u64::MAX {
        Some(digits_value(digits) as u64)
    } else {
        None
    }
}

/// A longer run of digits denotes at least as much as each of its prefixes.
pub proof fn lemma_digits_value_monotonic(s: Seq<char>, i: int, j: int)
    requires
        0 <= i <= j <= s.len(),
    ensures
        digits_value(s.take(i)) <= digits_value(s.take(j)),
    decreases j - i,
{
    if i < j {
        lemma_digits_value_monotonic(s, i, j - 1);
        assert(s.take(j).drop_last() =~= s.take(j - 1));
    }
}

/// The value of the digit `c`, or `None` where `c` is no ASCII digit.
pub fn digit_of(c: char) -> (r: Option<u64>)
    ensures
        r is Some == is_digit(c),
        r is Some ==> r->0 == digit_value(c),
{
    let code: u32 = c as u32;
    if 48 <= code && code <= 57 {
        Some((code - 48) as u64)
    } else {
        None
    }
}

/// Reads the number that a run of digits denotes, from position `start` on.
/// Returns `None` where the run is empty, holds another character, or denotes
/// more than fits in 64 bits.
pub(crate) fn parse_digits(chars: &Vec<char>, start: usize) -> (r: Option<u64>)
    requires
        start <= chars.len(),
    ensures
        ({
            let digits = chars@.skip(start as int);
            if digits.len() > 0 && all_digits(digits) && digits_value(digits) <= u64::MAX {
                r == Some(digits_value(digits) as u64)
            } else {
                r is None
            }
        }),
{
    let ghost digits = chars@.skip(start as int);
    if start == chars.len() {
        return None;
    }
    let mut value: u64 = 0;
    let mut i: usize = start;
    assert(digits.take(0) =~= Seq::<char>::empty());
    while i < chars.len()
        invariant
            start <= i <= chars.len(),
            digits == chars@.skip(start as int),
            all_digits(digits.take(i - start)),
            value == digits_value(digits.take(i - start)),
        decreases chars.len() - i,
    {
        let ghost k = i - start;
        assert(digits[k] == chars@[i as int]);
        assert(digits.take(k + 1).drop_last() =~= digits.take(k));
        assert(digits.take(k + 1).last() == digits[k]);
        match digit_of(chars[i]) {
            None => {
                assert(!is_digit(digits[k]));
                return None;
            },
            Some(d) => {
                assert(all_digits(digits.take(k + 1))) by {
                    assert forall|j: int| 0 <= j < k + 1 implies is_digit(
                        #[trigger] digits.take(k + 1)[j],
                    ) by {
                        if j < k {
                            assert(digits.take(k)[j] == digits.take(k + 1)[j]);
                        }
                    }
                }
                let next = match value.checked_mul(10) {
                    Some(tens) => tens.checked_add(d),
                    None => None,
                };
                match next {
                    Some(n) => {
                        value = n;
                    },
                    None => {
                        proof {
                            lemma_digits_value_monotonic(digits, k + 1, digits.len() as int);
                            assert(digits.take(digits.len() as int) =~= digits);
                        }
                        return None;
                    },
                }
            },
        }
        i += 1;
    }
    assert(digits.take(i - start) =~= digits);
    Some(value)
}

/// Reads a `u64` from its decimal numeral, as `parsed_u64` defines it.
pub fn parse_u64(chars: &Vec<char>) -> (r: Option<u64>)
    ensures
        r == parsed_u64(chars@),
{
    if chars.len() > 0 && chars[0] == '+' {
        assert(chars@.skip(1) =~= chars@.drop_first());
        parse_digits(chars, 1)
    } else {
        assert(chars@.skip(0) =~= chars@);
        parse_digits(chars, 0)
    }
}

/// The digit that stands for a value below ten.
pub open spec fn digit_char(d: nat) -> char {
    if d == 0 {
        '0'
    } else if d == 1 {
        '1'
    } else if d == 2 {
        '2'
    } else if d == 3 {
        '3'
    } else if d == 4 {
        '4'
    } else if d == 5 {
        '5'
    } else if d == 6 {
        '6'
    } else if d == 7 {
        '7'
    } else if d == 8 {
        '8'
    } else {
        '9'
    }
}

/// The decimal numeral of `n`, without leading zeros; `0` for zero.
pub open spec fn decimal_digits(n: nat) -> Seq<char>
    decreases n,
{
    if n < 10 {
        seq![digit_char(n)]
    } else {
        decimal_digits(n / 10).push(digit_char(n % 10))
    }
}

fn digit_char_exec(d: u64) -> (c: char)
    requires
        d < 10,
    ensures
        c == digit_char(d as nat),
{
    if d == 0 {
        '0'
    } else if d == 1 {
        '1'
    } else if d == 2 {
        '2'
    } else if d == 3 {
        '3'
    } else if d == 4 {
        '4'
    } else if d == 5 {
        '5'
    } else if d == 6 {
        '6'
    } else if d == 7 {
        '7'
    } else if d == 8 {
        '8'
    } else {
        '9'
    }
}

/// Appends the decimal numeral of `n` to `out`.
pub fn push_decimal(out: &mut Vec<char>, n: u64)
    ensures
        final(out)@ == old(out)@ + decimal_digits(n as nat),
    decreases n,
{
    if n >= 10 {
        push_decimal(out, n / 10);
    }
    out.push(digit_char_exec(n % 10));
    assert(final(out)@ =~= old(out)@ + decimal_digits(n as nat));
}

/// Appends the decimal numeral of `n` to the string `s`.
pub fn push_number(s: &mut String, n: u64)
    ensures
        final(s)@ == old(s)@ + decimal_digits(n as nat),
{
    let mut digits: Vec<char> = Vec::new();
    push_decimal(&mut digits, n);
    assert(digits@ =~= decimal_digits(n as nat));
    push_text(s, string_of(&digits).as_str());
}

/// The decimal numeral of an integer: a minus sign before the numeral of its
/// size where it is negative.
pub open spec fn signed_digits(n: int) -> Seq<char> {
    if n < 0 {
        seq!['-'] + decimal_digits((-n) as nat)
    } else {
        decimal_digits(n as nat)
    }
}

/// Appends the decimal numeral of the integer `n` to the string `s`.
pub fn push_signed(s: &mut String, n: i64)
    ensures
        final(s)@ == old(s)@ + signed_digits(n as int),
{
    if n < 0 {
        let size: u64 = (-(n + 1)) as u64 + 1;
        crate::text::push_char(s, '-');
        push_number(s, size);
        assert(final(s)@ =~= old(s)@ + signed_digits(n as int));
    } else {
        push_number(s, n as u64);
    }
}

} // verus!
