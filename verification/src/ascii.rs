//! ASCII letters seen as positions in a 26-letter alphabet.
//!
//! Both ciphers act on single characters through [`rotate`]: a letter moves a
//! number of places round its own alphabet (upper or lower case), and every
//! other character stays what it is.

use vstd::prelude::*;

verus! {

/// Number of letters in the alphabet.
pub const ALPHABET: u8 = 26;

/// `c` is one of `'A'..='Z'`.
pub open spec fn is_upper(c: char) -> bool {
    'A' <= c && c <= 'Z'
}

/// `c` is one of `'a'..='z'`.
pub open spec fn is_lower(c: char) -> bool {
    'a' <= c && c <= 'z'
}

/// `c` is an ASCII letter of either case.
pub open spec fn is_letter(c: char) -> bool {
    is_upper(c) || is_lower(c)
}

/// The first letter of the alphabet that `c` belongs to.
pub open spec fn base(c: char) -> int {
    if is_upper(c) {
        'A' as int
    } else {
        'a' as int
    }
}

/// Position of the letter `c` in its alphabet, `0` for `'A'` and `'a'`.
pub open spec fn position(c: char) -> int {
    c as int - base(c)
}

/// The letter `c` moved `amount` places round its alphabet. `amount` may be
/// negative or larger than the alphabet; a character that is no ASCII letter
/// is returned unchanged.
pub open spec fn rotate(c: char, amount: int) -> char {
    if is_letter(c) {
        (base(c) + (position(c) + amount) % 26) as char
    } else {
        c
    }
}

/// `c` with an ASCII upper-case letter replaced by its lower-case form.
pub open spec fn fold_case(c: char) -> char {
    if is_upper(c) {
        (c as int + 32) as char
    } else {
        c
    }
}

/// A whole text with ASCII case folded away.
pub open spec fn fold_text(text: Seq<char>) -> Seq<char> {
    text.map_values(|c: char| fold_case(c))
}

/// Two texts are equal up to the case of their ASCII letters.
pub open spec fn same_ignoring_case(a: Seq<char>, b: Seq<char>) -> bool {
    fold_text(a) == fold_text(b)
}

/// Rotation keeps a letter a letter of the same case, and leaves the rest alone.
pub proof fn lemma_rotate_keeps_case(c: char, amount: int)
    ensures
        is_upper(rotate(c, amount)) == is_upper(c),
        is_lower(rotate(c, amount)) == is_lower(c),
        is_letter(rotate(c, amount)) == is_letter(c),
        is_letter(c) ==> 0 <= position(rotate(c, amount)) < 26,
        is_letter(c) ==> position(rotate(c, amount)) == (position(c) + amount) % 26,
{
}

/// Rotating twice is rotating once by the sum.
pub proof fn lemma_rotate_twice(c: char, first: int, second: int)
    ensures
        rotate(rotate(c, first), second) == rotate(c, first + second),
{
    lemma_rotate_keeps_case(c, first);
    if is_letter(c) {
        let p = position(c);
        assert(((p + first) % 26 + second) % 26 == (p + first + second) % 26);
    }
}

/// Amounts that agree modulo 26 rotate alike.
pub proof fn lemma_rotate_periodic(c: char, a: int, b: int)
    requires
        a % 26 == b % 26,
    ensures
        rotate(c, a) == rotate(c, b),
{
    if is_letter(c) {
        let p = position(c);
        assert((p + a) % 26 == (p + b) % 26);
    }
}

/// Rotating by a multiple of 26 changes nothing.
pub proof fn lemma_rotate_full_turn(c: char, amount: int)
    requires
        amount % 26 == 0,
    ensures
        rotate(c, amount) == c,
{
    if is_letter(c) {
        let p = position(c);
        assert((p + amount) % 26 == p);
    }
}

/// Rotating back by the same amount restores the character.
pub proof fn lemma_rotate_back(c: char, amount: int)
    ensures
        rotate(rotate(c, amount), -amount) == c,
{
    lemma_rotate_twice(c, amount, -amount);
    lemma_rotate_full_turn(c, 0);
}

/// Tells whether `c` is an ASCII letter.
pub fn is_ascii_letter(c: char) -> (r: bool)
    ensures
        r == is_letter(c),
{
    (c >= 'A' && c <= 'Z') || (c >= 'a' && c <= 'z')
}

/// Position of an ASCII letter in its alphabet.
pub fn letter_position(c: char) -> (r: u8)
    requires
        is_letter(c),
    ensures
        r == position(c),
        r < 26,
{
    if c >= 'A' && c <= 'Z' {
        c as u8 - 65
    } else {
        c as u8 - 97
    }
}

/// Moves a letter `amount` places forward round its alphabet, keeping its
/// case. Any `amount` is accepted; only its remainder modulo 26 matters.
pub fn rotate_char(c: char, amount: u8) -> (r: char)
    ensures
        r == rotate(c, amount as int),
{
    let step: u8 = amount % ALPHABET;
    if c >= 'A' && c <= 'Z' {
        let offset: u8 = c as u8 - 65;
        assert((offset + step) % 26 == (offset + amount) % 26);
        ((offset + step) % ALPHABET + 65) as char
    } else if c >= 'a' && c <= 'z' {
        let offset: u8 = c as u8 - 97;
        assert((offset + step) % 26 == (offset + amount) % 26);
        ((offset + step) % ALPHABET + 97) as char
    } else {
        c
    }
}

/// ASCII lower-case form of `c`.
pub fn to_lower(c: char) -> (r: char)
    ensures
        r == fold_case(c),
{
    if c >= 'A' && c <= 'Z' {
        (c as u8 + 32) as char
    } else {
        c
    }
}

} // verus!
