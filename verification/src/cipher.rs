//! Classical substitution ciphers behind one common contract.

pub mod caesar_cipher;
pub mod cipher_traits;
pub mod vigenere_cipher;
