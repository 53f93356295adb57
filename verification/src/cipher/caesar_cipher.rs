//! The Caesar cipher: every letter moves the same number of places.

use vstd::prelude::*;
use crate::ascii::{rotate, rotate_char, ALPHABET};
use crate::ascii::{lemma_rotate_back, lemma_rotate_periodic};
use crate::cipher::cipher_traits::CipherTraits;

verus! {

/// The shift that a requested shift of any sign and size comes down to: its
/// remainder on division by 26, which is never negative.
pub open spec fn normalized(shift: int) -> nat {
    (shift % 26) as nat
}

/// `text` with every ASCII letter moved `amount` places round its alphabet
/// and every other character kept.
pub open spec fn shift_text(text: Seq<char>, amount: int) -> Seq<char> {
    text.map_values(|c: char| rotate(c, amount))
}

/// A Caesar cipher. Its shift is fixed when it is made and lies in `0..26`.
#[derive(Debug, Clone, Copy, PartialEq, Eq, Structural)]
pub struct Caesar {
    shift: u8,
}

impl View for Caesar {
    type V = nat;

    /// The number of places by which encryption moves a letter.
    closed spec fn view(&self) -> nat {
        self.shift as nat
    }
}

impl Caesar {
    #[verifier::type_invariant]
    spec fn shift_in_alphabet(&self) -> bool {
        self.shift < 26
    }

    /// The cipher that shifts by `shift`, brought into `0..26`. A negative
    /// shift counts backwards from the end of the alphabet.
    pub fn new(shift: i32) -> (r: Caesar)
        ensures
            r@ == normalized(shift as int),
    {
        let remainder: i32 = shift % 26;
        let places: i32 = if remainder < 0 {
            remainder + 26
        } else {
            remainder
        };
        Caesar { shift: places as u8 }
    }

    /// The number of places by which encryption moves a letter.
    pub fn shift(&self) -> (r: u8)
        ensures
            r == self@,
            r < 26,
    {
        proof {
            use_type_invariant(self);
        }
        self.shift
    }

    /// One character moved `amount` places forward where it is an ASCII
    /// letter, unchanged where it is not.
    pub fn shift_char(c: char, amount: u8) -> (r: char)
        ensures
            r == rotate(c, amount as int),
    {
        rotate_char(c, amount)
    }

    /// `text` with each of its characters shifted by `amount`.
    fn shift_all(text: &str, amount: u8) -> (r: String)
        ensures
            r@ == shift_text(text@, amount as int),
    {
        let mut out = String::new();
        for c in it: text.chars()
            invariant
                it.seq() == text@,
                out@ == shift_text(text@.take(it.index() as int), amount as int),
        {
            out.push(Self::shift_char(c, amount));
            assert(text@.take(it.index() + 1) == text@.take(it.index() as int).push(c));
            assert(shift_text(text@.take(it.index() as int).push(c), amount as int) == shift_text(
                text@.take(it.index() as int),
                amount as int,
            ).push(rotate(c, amount as int)));
        }
        assert(text@.take(text@.len() as int) == text@);
        out
    }
}

impl Default for Caesar {
    /// The cipher that shifts by nothing.
    fn default() -> (r: Caesar)
        ensures
            r@ == 0,
    {
        Caesar { shift: 0 }
    }
}

impl CipherTraits for Caesar {
    open spec fn encrypted(&self, plain_text: Seq<char>) -> Seq<char> {
        shift_text(plain_text, self@ as int)
    }

    open spec fn decrypted(&self, cipher_text: Seq<char>) -> Seq<char> {
        shift_text(cipher_text, -(self@ as int))
    }

    fn encrypt(&self, plain_text: &str) -> (r: String) {
        Self::shift_all(plain_text, self.shift)
    }

    fn decrypt(&self, cipher_text: &str) -> (r: String) {
        proof {
            use_type_invariant(self);
        }
        let back: u8 = ALPHABET - self.shift;
        let r = Self::shift_all(cipher_text, back);
        proof {
            lemma_shift_text_periodic(cipher_text@, back as int, -(self@ as int));
        }
        r
    }
}

/// Shifts that agree modulo 26 give the same text.
pub proof fn lemma_shift_text_periodic(text: Seq<char>, a: int, b: int)
    requires
        a % 26 == b % 26,
    ensures
        shift_text(text, a) == shift_text(text, b),
{
    assert forall|i: int| 0 <= i < text.len() implies rotate(text[i], a) == rotate(text[i], b) by {
        lemma_rotate_periodic(text[i], a, b);
    }
    assert(shift_text(text, a) =~= shift_text(text, b));
}

/// Decrypting what a cipher encrypted gives the text back, whatever the shift
/// and whatever the text holds.
pub proof fn lemma_decrypt_undoes_encrypt(cipher: Caesar, text: Seq<char>)
    ensures
        cipher.decrypted(cipher.encrypted(text)) == text,
{
    let amount = cipher@ as int;
    assert forall|i: int| 0 <= i < text.len() implies rotate(rotate(text[i], amount), -amount)
        == text[i] by {
        lemma_rotate_back(text[i], amount);
    }
    assert(shift_text(shift_text(text, amount), -amount) =~= text);
}

/// Encrypting what a cipher decrypted gives the text back as well.
pub proof fn lemma_encrypt_undoes_decrypt(cipher: Caesar, text: Seq<char>)
    ensures
        cipher.encrypted(cipher.decrypted(text)) == text,
{
    let amount = cipher@ as int;
    assert forall|i: int| 0 <= i < text.len() implies rotate(rotate(text[i], -amount), amount)
        == text[i] by {
        lemma_rotate_back(text[i], -amount);
    }
    assert(shift_text(shift_text(text, -amount), amount) =~= text);
}

/// Decryption is encryption by the complement of the shift, `(26 - shift) mod
/// 26`, and so it is what the cipher made for the negated shift encrypts to.
pub proof fn lemma_decrypt_is_inverse_encrypt(cipher: Caesar, text: Seq<char>)
    ensures
        cipher.decrypted(text) == shift_text(text, (26 - cipher@) % 26),
        cipher.decrypted(text) == shift_text(text, normalized(-(cipher@ as int)) as int),
{
    let amount = cipher@ as int;
    lemma_shift_text_periodic(text, -amount, (26 - amount) % 26);
    lemma_shift_text_periodic(text, -amount, normalized(-amount) as int);
}

} // verus!
