//! What verified code here needs to know about `String` beyond what `vstd`
//! already says, and small verified helpers built on it.

use vstd::prelude::*;
use vstd::std_specs::iter::IteratorSpec;
use crate::ascii::{fold_case, fold_text, same_ignoring_case, to_lower};

verus! {

/// `String::push` appends the one character to the end of the string and
/// leaves what was there untouched.
pub assume_specification[ String::push ](s: &mut String, ch: char)
    ensures
        final(s)@ == old(s)@.push(ch),
;

/// The characters of `text`, in order, as a vector that can be indexed.
pub fn chars_of(text: &str) -> (chars: Vec<char>)
    ensures
        chars@ == text@,
{
    let mut chars: Vec<char> = Vec::new();
    for c in it: text.chars()
        invariant
            it.seq() == text@,
            chars@ == text@.take(it.index() as int),
    {
        chars.push(c);
        assert(text@.take(it.index() + 1) == text@.take(it.index() as int).push(c));
    }
    assert(text@.take(text@.len() as int) == text@);
    chars
}

/// Compares two texts without regard to the case of their ASCII letters.
/// Letters outside ASCII are compared as they are.
pub fn eq_ignoring_case(a: &str, b: &str) -> (r: bool)
    ensures
        r == same_ignoring_case(a@, b@),
{
    let mut rest_a = a.chars();
    let mut rest_b = b.chars();
    let ghost mut n: int = 0;
    loop
        invariant
            0 <= n <= a@.len(),
            n <= b@.len(),
            rest_a.remaining() == a@.skip(n),
            rest_b.remaining() == b@.skip(n),
            fold_text(a@.take(n)) == fold_text(b@.take(n)),
        decreases a@.len() - n,
    {
        let next_a = rest_a.next();
        let next_b = rest_b.next();
        match (next_a, next_b) {
            (None, None) => {
                assert(a@.take(n) == a@);
                assert(b@.take(n) == b@);
                return true;
            },
            (Some(x), Some(y)) => {
                if to_lower(x) != to_lower(y) {
                    assert(fold_text(a@)[n] != fold_text(b@)[n]);
                    return false;
                }
                proof {
                    assert(a@.take(n + 1) == a@.take(n).push(x));
                    assert(b@.take(n + 1) == b@.take(n).push(y));
                    assert(fold_text(a@.take(n + 1)) == fold_text(a@.take(n)).push(fold_case(x)));
                    assert(fold_text(b@.take(n + 1)) == fold_text(b@.take(n)).push(fold_case(y)));
                    assert(a@.skip(n).drop_first() == a@.skip(n + 1));
                    assert(b@.skip(n).drop_first() == b@.skip(n + 1));
                    n = n + 1;
                }
            },
            _ => {
                assert(fold_text(a@).len() != fold_text(b@).len());
                return false;
            },
        }
    }
}

} // verus!
