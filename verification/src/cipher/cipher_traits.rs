//! What every cipher of this library can do.

use vstd::prelude::*;
use crate::ascii::same_ignoring_case;
use crate::strings::eq_ignoring_case;

verus! {

/// A cipher turns plain text into cipher text and back. What each direction
/// yields is a function of the cipher and the text alone.
pub trait CipherTraits {
    /// The cipher text for `plain_text`.
    spec fn encrypted(&self, plain_text: Seq<char>) -> Seq<char>;

    /// The plain text for `cipher_text`.
    spec fn decrypted(&self, cipher_text: Seq<char>) -> Seq<char>;

    fn encrypt(&self, plain_text: &str) -> (r: String)
        ensures
            r@ == self.encrypted(plain_text@),
    ;

    fn decrypt(&self, cipher_text: &str) -> (r: String)
        ensures
            r@ == self.decrypted(cipher_text@),
    ;

    /// Whether `guess` is the plain text of `cipher_text`, whatever the case
    /// of its ASCII letters.
    fn validate_solution(&self, cipher_text: &str, guess: &str) -> (r: bool)
        ensures
            r == same_ignoring_case(self.decrypted(cipher_text@), guess@),
    {
        let plain = self.decrypt(cipher_text);
        eq_ignoring_case(plain.as_str(), guess)
    }
}

} // verus!
