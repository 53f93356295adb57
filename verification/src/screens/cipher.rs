//! The cipher screen: one text, shown under a Caesar and a Vigenère cipher.

use vstd::prelude::*;
use crate::cipher::caesar_cipher::{normalized, shift_text, Caesar};
use crate::cipher::cipher_traits::CipherTraits;
use crate::cipher::vigenere_cipher::{key_of, transformed, Vigenere};

verus! {

/// What the cipher screen can report.
#[derive(Debug, Clone)]
pub enum CipherMessage {
    /// The Caesar shift goes up by one.
    Increment,
    /// The Caesar shift goes down by one.
    Decrement,
    /// The Vigenère keyword was edited; this is the new keyword.
    ContentChanged(String),
    /// The text to encrypt was edited; this is the new text.
    InputChanged(String),
}

/// All that the cipher screen shows and remembers.
#[derive(Debug)]
pub struct CipherState {
    pub caesar_cipher: Caesar,
    /// The cipher for the keyword, or none while the keyword has no letter.
    pub vigenere_cipher: Option<Vigenere>,
    pub vigenere_keyword: String,
    pub to_encrypt: String,
    pub caesar_encrypted: String,
    pub vigenere_encrypted: String,
}

/// The cipher screen's state as plain values. Of the stored Vigenère cipher
/// it holds both the key and the keyword that the cipher was made from.
pub struct CipherView {
    pub shift: nat,
    pub key: Option<Seq<nat>>,
    pub cipher_keyword: Option<Seq<char>>,
    pub keyword: Seq<char>,
    pub to_encrypt: Seq<char>,
    pub caesar_encrypted: Seq<char>,
    pub vigenere_encrypted: Seq<char>,
}

impl View for CipherState {
    type V = CipherView;

    open spec fn view(&self) -> CipherView {
        CipherView {
            shift: self.caesar_cipher@,
            key: match self.vigenere_cipher {
                Some(cipher) => Some(cipher@),
                None => None,
            },
            cipher_keyword: match self.vigenere_cipher {
                Some(cipher) => Some(cipher.keyword_text()),
                None => None,
            },
            keyword: self.vigenere_keyword@,
            to_encrypt: self.to_encrypt@,
            caesar_encrypted: self.caesar_encrypted@,
            vigenere_encrypted: self.vigenere_encrypted@,
        }
    }
}

/// The key that the screen works with for a keyword: the keyword's key, or
/// none where the keyword has no letter.
pub open spec fn key_for(keyword: Seq<char>) -> Option<Seq<nat>> {
    if key_of(keyword).len() > 0 {
        Some(key_of(keyword))
    } else {
        None
    }
}

/// The keyword inside the cipher that the screen stores for a keyword: the
/// keyword itself, or none where no cipher can be made from it.
pub open spec fn cipher_keyword_for(keyword: Seq<char>) -> Option<Seq<char>> {
    if key_of(keyword).len() > 0 {
        Some(keyword)
    } else {
        None
    }
}

/// What the screen shows as the Vigenère encryption of `text`: without a
/// key, the text itself.
pub open spec fn vigenere_shown(key: Option<Seq<nat>>, text: Seq<char>) -> Seq<char> {
    match key {
        Some(key) => transformed(key, text, false),
        None => text,
    }
}

/// The state that follows `state` on `message`. A change of the shift
/// renews the Caesar output, a change of the keyword the Vigenère cipher
/// and its output, a change of the text both outputs. The stored Vigenère
/// cipher, key and keyword, changes on a change of the keyword and on
/// nothing else.
pub open spec fn cipher_step(state: CipherView, message: CipherMessage) -> CipherView {
    match message {
        CipherMessage::Increment => {
            let shift = normalized(state.shift as int + 1);
            CipherView {
                shift,
                caesar_encrypted: shift_text(state.to_encrypt, shift as int),
                ..state
            }
        },
        CipherMessage::Decrement => {
            let shift = normalized(state.shift as int - 1);
            CipherView {
                shift,
                caesar_encrypted: shift_text(state.to_encrypt, shift as int),
                ..state
            }
        },
        CipherMessage::ContentChanged(keyword) => CipherView {
            key: key_for(keyword@),
            cipher_keyword: cipher_keyword_for(keyword@),
            keyword: keyword@,
            vigenere_encrypted: vigenere_shown(key_for(keyword@), state.to_encrypt),
            ..state
        },
        CipherMessage::InputChanged(input) => CipherView {
            to_encrypt: input@,
            caesar_encrypted: shift_text(input@, state.shift as int),
            vigenere_encrypted: vigenere_shown(state.key, input@),
            ..state
        },
    }
}

/// What is shown fits what was entered: the shift is within the alphabet,
/// the stored cipher is the one for the keyword, and both outputs are the
/// encryptions of the text.
pub open spec fn consistent(state: CipherView) -> bool {
    &&& state.shift < 26
    &&& state.key == key_for(state.keyword)
    &&& state.cipher_keyword == cipher_keyword_for(state.keyword)
    &&& state.caesar_encrypted == shift_text(state.to_encrypt, state.shift as int)
    &&& state.vigenere_encrypted == vigenere_shown(state.key, state.to_encrypt)
}

/// No message makes a consistent state inconsistent.
pub proof fn lemma_step_keeps_consistent(state: CipherView, message: CipherMessage)
    requires
        consistent(state),
    ensures
        consistent(cipher_step(state, message)),
{
}

/// The cipher screen as it opens: shift 0, no keyword, no text.
pub open spec fn opening_ciphers() -> CipherView {
    CipherView {
        shift: 0,
        key: None,
        cipher_keyword: None,
        keyword: Seq::empty(),
        to_encrypt: Seq::empty(),
        caesar_encrypted: Seq::empty(),
        vigenere_encrypted: Seq::empty(),
    }
}

impl Default for CipherState {
    /// The screen as it opens, which is consistent.
    fn default() -> (r: CipherState)
        ensures
            r@ == opening_ciphers(),
            consistent(r@),
    {
        let r = CipherState {
            caesar_cipher: Caesar::default(),
            vigenere_cipher: None,
            vigenere_keyword: String::new(),
            to_encrypt: String::new(),
            caesar_encrypted: String::new(),
            vigenere_encrypted: String::new(),
        };
        proof {
            assert(key_of(Seq::<char>::empty()).len() == 0) by {
                Seq::<char>::empty().lemma_filter_len(|c: char| crate::ascii::is_letter(c));
            }
            assert(shift_text(Seq::<char>::empty(), 0) == Seq::<char>::empty());
        }
        r
    }
}

impl CipherState {
    /// Takes `message` in: the state afterwards is [`cipher_step`] of the
    /// state before.
    pub fn update(&mut self, message: CipherMessage)
        ensures
            final(self)@ == cipher_step(old(self)@, message),
    {
        match message {
            CipherMessage::Increment => {
                self.caesar_cipher = Caesar::new(self.caesar_cipher.shift() as i32 + 1);
                self.caesar_encrypted = self.caesar_cipher.encrypt(self.to_encrypt.as_str());
            },
            CipherMessage::Decrement => {
                self.caesar_cipher = Caesar::new(self.caesar_cipher.shift() as i32 - 1);
                self.caesar_encrypted = self.caesar_cipher.encrypt(self.to_encrypt.as_str());
            },
            CipherMessage::ContentChanged(keyword) => {
                self.vigenere_cipher = match Vigenere::new(keyword.as_str()) {
                    Ok(cipher) => Some(cipher),
                    Err(_) => None,
                };
                self.vigenere_keyword = keyword;
                self.vigenere_encrypted = match &self.vigenere_cipher {
                    Some(cipher) => cipher.encrypt(self.to_encrypt.as_str()),
                    None => self.to_encrypt.clone(),
                };
            },
            CipherMessage::InputChanged(input) => {
                self.to_encrypt = input;
                self.caesar_encrypted = self.caesar_cipher.encrypt(self.to_encrypt.as_str());
                self.vigenere_encrypted = match &self.vigenere_cipher {
                    Some(cipher) => cipher.encrypt(self.to_encrypt.as_str()),
                    None => self.to_encrypt.clone(),
                };
            },
        }
    }
}

} // verus!
