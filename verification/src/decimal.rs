//! Unsigned numbers written in decimal: how a number is spelled, how a
//! spelling is read, and that reading undoes spelling.

use vstd::prelude::*;
use crate::strings::chars_of;

verus! {

/// `c` is one of `'0'..='9'`.
pub open spec fn is_digit(c: char) -> bool {
    '0' <= c && c <= '9'
}

/// The number that the digit `c` stands for.
pub open spec fn digit_value(c: char) -> nat {
    (c as int - '0' as int) as nat
}

/// The digit that stands for `d`, for `d` below ten.
pub open spec fn digit_char(d: nat) -> char {
    (d + '0' as nat) as char
}

/// Every character of `s` is a decimal digit.
pub open spec fn all_digits(s: Seq<char>) -> bool {
    forall|i: int| 0 <= i < s.len() ==> is_digit(#[trigger] s[i])
}

/// The number that a run of digits spells, most significant digit first.
/// The empty run spells zero.
pub open spec fn digits_value(s: Seq<char>) -> nat
    decreases s.len(),
{
    if s.len() == 0 {
        0
    } else {
        10 * digits_value(s.drop_last()) + digit_value(s.last())
    }
}

/// The shortest decimal spelling of `n`: no leading zero, and `"0"` for zero.
pub open spec fn decimal(n: nat) -> Seq<char>
    decreases n,
{
    if n < 10 {
        seq![digit_char(n)]
    } else {
        decimal(n / 10).push(digit_char(n % 10))
    }
}

/// What reading `s` as an unsigned integer no larger than `max` gives: an
/// optional `'+'`, then one or more digits and nothing else. Anything
/// different, or a number above `max`, reads as `None`.
pub open spec fn unsigned_of(s: Seq<char>, max: nat) -> Option<nat> {
    let digits = if s.len() > 0 && s[0] == '+' {
        s.skip(1)
    } else {
        s
    };
    if digits.len() > 0 && all_digits(digits) && digits_value(digits) <= max {
        Some(digits_value(digits))
    } else {
        None
    }
}

/// A spelling made by [`decimal`] is a non-empty run of digits.
pub proof fn lemma_decimal_is_digits(n: nat)
    ensures
        decimal(n).len() > 0,
        all_digits(decimal(n)),
    decreases n,
{
    if n >= 10 {
        lemma_decimal_is_digits(n / 10);
    }
}

/// Reading the spelling of `n` gives `n` back.
pub proof fn lemma_decimal_round_trip(n: nat)
    ensures
        digits_value(decimal(n)) == n,
    decreases n,
{
    if n < 10 {
        let s = decimal(n);
        assert(s.drop_last().len() == 0);
        assert(digits_value(s.drop_last()) == 0);
    } else {
        lemma_decimal_round_trip(n / 10);
        let s = decimal(n);
        assert(s.drop_last() == decimal(n / 10));
    }
}

/// A spelling made by [`decimal`] reads back through [`unsigned_of`] whenever
/// the number is within the bound.
pub proof fn lemma_unsigned_of_decimal(n: nat, max: nat)
    ensures
        unsigned_of(decimal(n), max) == (if n <= max {
            Some(n)
        } else {
            None
        }),
{
    lemma_decimal_is_digits(n);
    lemma_decimal_round_trip(n);
    assert(is_digit(decimal(n)[0]));
}

/// A run of digits spells at least what any of its beginnings spells.
pub proof fn lemma_digits_value_grows(s: Seq<char>, k: int)
    requires
        0 <= k <= s.len(),
    ensures
        digits_value(s.take(k)) <= digits_value(s),
    decreases s.len(),
{
    if k == s.len() {
        assert(s.take(k) == s);
    } else {
        lemma_digits_value_grows(s.drop_last(), k);
        assert(s.drop_last().take(k) == s.take(k));
    }
}

/// Appends the shortest decimal spelling of `n` to `out`.
pub fn push_decimal(out: &mut String, n: u64)
    ensures
        final(out)@ == old(out)@ + decimal(n as nat),
{
    // Digits come off the low end first, so they are kept and written
    // back to front once the leading digit is known.
    let mut low: Vec<char> = Vec::new();
    let mut rest: u64 = n;
    while rest >= 10
        invariant
            decimal(n as nat) == decimal(rest as nat) + low@.reverse(),
        decreases rest,
    {
        let c: char = ((rest % 10) as u8 + 48) as char;
        proof {
            assert(decimal(rest as nat) == decimal((rest / 10) as nat).push(c));
            assert(low@.push(c).reverse() == seq![c] + low@.reverse());
            assert(decimal((rest / 10) as nat).push(c) + low@.reverse() == decimal(
                (rest / 10) as nat,
            ) + (seq![c] + low@.reverse()));
        }
        low.push(c);
        rest = rest / 10;
    }
    let first: char = (rest as u8 + 48) as char;
    out.push(first);
    let ghost head = old(out)@.push(first);
    assert(old(out)@ + decimal(n as nat) == head + low@.reverse()) by {
        assert(decimal(rest as nat) == seq![first]);
        assert(old(out)@ + (seq![first] + low@.reverse()) == head + low@.reverse());
    }
    let mut i: usize = low.len();
    while i > 0
        invariant
            i <= low.len(),
            out@ == head + low@.reverse().take(low.len() - i),
        decreases i,
    {
        i = i - 1;
        out.push(low[i]);
        assert(low@.reverse().take(low.len() - i) == low@.reverse().take(low.len() - i - 1).push(
            low@[i as int],
        ));
    }
    assert(low@.reverse().take(low.len() as int) == low@.reverse());
}

/// The shortest decimal spelling of `n` as a string of its own.
pub fn decimal_string(n: u64) -> (r: String)
    ensures
        r@ == decimal(n as nat),
{
    let mut out = String::new();
    push_decimal(&mut out, n);
    assert(Seq::<char>::empty() + decimal(n as nat) == decimal(n as nat));
    out
}

/// Reads `text` as an unsigned decimal integer no larger than `max`: an
/// optional `'+'` and then digits only. Signs other than `'+'`, blanks,
/// separators and an empty text do not read.
pub fn parse_unsigned(text: &str, max: u64) -> (r: Option<u64>)
    ensures
        match unsigned_of(text@, max as nat) {
            Some(n) => r == Some(n as u64),
            None => r is None,
        },
{
    let chars = chars_of(text);
    let start: usize = if chars.len() > 0 && chars[0] == '+' {
        1
    } else {
        0
    };
    let ghost digits = chars@.skip(start as int);
    assert(digits == if text@.len() > 0 && text@[0] == '+' {
        text@.skip(1)
    } else {
        text@
    });
    if start == chars.len() {
        return None;
    }
    let mut value: u64 = 0;
    let mut i: usize = start;
    while i < chars.len()
        invariant
            start <= i <= chars.len(),
            start < chars.len(),
            digits == chars@.skip(start as int),
            digits == if text@.len() > 0 && text@[0] == '+' {
                text@.skip(1)
            } else {
                text@
            },
            all_digits(digits.take(i - start)),
            value == digits_value(digits.take(i - start)),
            value <= max,
        decreases chars.len() - i,
    {
        let c: char = chars[i];
        let ghost upto = digits.take(i - start + 1);
        assert(upto.drop_last() == digits.take(i - start));
        assert(upto.last() == c);
        if !(c >= '0' && c <= '9') {
            assert(!is_digit(digits[i - start]));
            return None;
        }
        let d: u64 = (c as u8 - 48) as u64;
        if value > max / 10 || (value == max / 10 && d > max % 10) {
            proof {
                assert(digits_value(upto) > max);
                if all_digits(digits) {
                    lemma_digits_value_grows(digits, i - start + 1);
                }
            }
            return None;
        }
        value = value * 10 + d;
        i = i + 1;
    }
    assert(digits.take(i - start) == digits);
    Some(value)
}

} // verus!
