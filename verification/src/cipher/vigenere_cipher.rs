//! The Vigenère cipher: the letters of a keyword, used in turn, say how far
//! each letter of the text moves.

use vstd::prelude::*;
use vstd::arithmetic::div_mod::{lemma_add_mod_noop, lemma_mod_bound, lemma_mod_self_0, lemma_small_mod};
use crate::ascii::{is_letter, position, rotate};
use crate::ascii::{is_ascii_letter, letter_position, rotate_char, ALPHABET};
use crate::ascii::{lemma_rotate_back, lemma_rotate_full_turn, lemma_rotate_keeps_case, lemma_rotate_periodic};
use crate::cipher::cipher_traits::CipherTraits;

verus! {

/// Why a Vigenère cipher could not be made.
#[derive(Debug, Clone, Copy, PartialEq, Eq, Structural)]
pub enum VigenereError {
    /// The keyword holds no ASCII letter.
    EmptyKey,
}

/// The letters of `text`, in order, without anything else.
pub open spec fn letters(text: Seq<char>) -> Seq<char> {
    text.filter(|c: char| is_letter(c))
}

/// The key that a keyword stands for: the alphabet positions of its ASCII
/// letters, whatever their case, with every other character left out.
pub open spec fn key_of(keyword: Seq<char>) -> Seq<nat> {
    letters(keyword).map_values(|c: char| position(c) as nat)
}

/// The number of ASCII letters among the first `i` characters of `text`.
pub open spec fn letters_before(text: Seq<char>, i: int) -> nat {
    letters(text.take(i)).len()
}

/// The key entry that applies at index `i` of `text`: letters take the
/// entries in turn and start over at the end of the key; characters that are
/// no letters take none.
pub open spec fn key_at(key: Seq<nat>, text: Seq<char>, i: int) -> int {
    key[(letters_before(text, i) % key.len()) as int] as int
}

/// `text` under the key: each letter rotated forward by its key entry to
/// encrypt, backward to decrypt, in its own case; every other character kept.
pub open spec fn transformed(key: Seq<nat>, text: Seq<char>, decrypt: bool) -> Seq<char> {
    Seq::new(
        text.len(),
        |i: int|
            rotate(
                text[i],
                if decrypt {
                    -key_at(key, text, i)
                } else {
                    key_at(key, text, i)
                },
            ),
    )
}

/// A key as numbers, entry by entry.
pub open spec fn key_values(key: Seq<u8>) -> Seq<nat> {
    key.map_values(|k: u8| k as nat)
}

/// Taking one more character of a text adds one letter to the count where
/// that character is a letter.
pub proof fn lemma_letters_before_next(text: Seq<char>, i: int)
    requires
        0 <= i < text.len(),
    ensures
        letters_before(text, i + 1) == letters_before(text, i) + if is_letter(text[i]) {
            1nat
        } else {
            0nat
        },
        letters(text.take(i + 1)) == if is_letter(text[i]) {
            letters(text.take(i)).push(text[i])
        } else {
            letters(text.take(i))
        },
{
    assert(text.take(i + 1) == text.take(i).push(text[i]));
    text.take(i).lemma_filter_push(text[i], |c: char| is_letter(c));
}

/// Counting one letter more moves one entry on in the key, and from the last
/// entry back to the first.
pub proof fn lemma_next_turn(count: nat, len: nat)
    requires
        len > 0,
    ensures
        (count + 1) % len == if count % len + 1 == len {
            0
        } else {
            count % len + 1
        },
{
    lemma_mod_bound(count as int, len as int);
    lemma_add_mod_noop(count as int, 1, len as int);
    if len > 1 {
        lemma_small_mod(1, len);
        if count % len + 1 == len {
            lemma_mod_self_0(len as int);
        } else {
            lemma_small_mod(count % len + 1, len);
        }
    }
}

/// Transforming changes no character's kind, so the letters of the result
/// stand where the letters of the text stood.
pub proof fn lemma_transformed_keeps_letters(
    key: Seq<nat>,
    text: Seq<char>,
    decrypt: bool,
    i: int,
)
    requires
        0 <= i <= text.len(),
    ensures
        letters_before(transformed(key, text, decrypt), i) == letters_before(text, i),
    decreases i,
{
    let out = transformed(key, text, decrypt);
    if i == 0 {
        assert(out.take(0) == Seq::<char>::empty());
        assert(text.take(0) == Seq::<char>::empty());
    } else {
        lemma_transformed_keeps_letters(key, text, decrypt, i - 1);
        lemma_letters_before_next(out, i - 1);
        lemma_letters_before_next(text, i - 1);
        lemma_rotate_keeps_case(text[i - 1], key_at(key, text, i - 1));
        lemma_rotate_keeps_case(text[i - 1], -key_at(key, text, i - 1));
    }
}

/// Decrypting with the key that encrypted gives the text back, and
/// encrypting what was decrypted does too.
pub proof fn lemma_transformed_round_trip(key: Seq<nat>, text: Seq<char>, decrypt: bool)
    ensures
        transformed(key, transformed(key, text, decrypt), !decrypt) == text,
{
    let there = transformed(key, text, decrypt);
    let back = transformed(key, there, !decrypt);
    assert forall|i: int| 0 <= i < text.len() implies back[i] == text[i] by {
        lemma_transformed_keeps_letters(key, text, decrypt, i);
        let amount = key_at(key, text, i);
        assert(key_at(key, there, i) == amount);
        lemma_rotate_back(text[i], amount);
        lemma_rotate_back(text[i], -amount);
    }
    assert(back =~= text);
}

/// For every keyword with a letter in it, decrypting what its cipher
/// encrypted gives the text back.
pub proof fn lemma_decrypt_undoes_encrypt(keyword: Seq<char>, text: Seq<char>)
    requires
        key_of(keyword).len() > 0,
    ensures
        transformed(key_of(keyword), transformed(key_of(keyword), text, false), true) == text,
{
    lemma_transformed_round_trip(key_of(keyword), text, false);
}

/// A key whose entries are all multiples of 26 changes nothing.
pub proof fn lemma_idle_key_keeps_text(key: Seq<nat>, text: Seq<char>, decrypt: bool)
    requires
        key.len() > 0,
        forall|j: int| 0 <= j < key.len() ==> #[trigger] key[j] % 26 == 0,
    ensures
        transformed(key, text, decrypt) == text,
{
    assert forall|i: int| 0 <= i < text.len() implies transformed(key, text, decrypt)[i]
        == text[i] by {
        let j = (letters_before(text, i) % key.len()) as int;
        assert(key[j] % 26 == 0);
        lemma_rotate_full_turn(text[i], key_at(key, text, i));
        lemma_rotate_full_turn(text[i], -key_at(key, text, i));
    }
    assert(transformed(key, text, decrypt) =~= text);
}

/// A keyword made of the letter A alone, in either case and of any length,
/// leaves every text as it is.
pub proof fn lemma_all_a_keyword_is_identity(keyword: Seq<char>, text: Seq<char>, decrypt: bool)
    requires
        keyword.len() > 0,
        forall|i: int| 0 <= i < keyword.len() ==> keyword[i] == 'A' || keyword[i] == 'a',
    ensures
        transformed(key_of(keyword), text, decrypt) == text,
{
    lemma_all_letters_kept(keyword);
    let key = key_of(keyword);
    assert forall|j: int| 0 <= j < key.len() implies #[trigger] key[j] % 26 == 0 by {
        assert(key[j] == position(keyword[j]) as nat);
    }
    lemma_idle_key_keeps_text(key, text, decrypt);
}

/// A text of letters only is its own sequence of letters.
pub proof fn lemma_all_letters_kept(text: Seq<char>)
    requires
        forall|i: int| 0 <= i < text.len() ==> is_letter(#[trigger] text[i]),
    ensures
        letters(text) == text,
    decreases text.len(),
{
    if text.len() == 0 {
        assert(letters(text).len() <= text.len()) by {
            text.lemma_filter_len(|c: char| is_letter(c));
        }
    } else {
        lemma_all_letters_kept(text.drop_last());
        assert(text == text.drop_last().push(text.last()));
        text.drop_last().lemma_filter_push(text.last(), |c: char| is_letter(c));
    }
}

/// `plain_text` under a key given as numbers below 26, one per keyword
/// letter. The key must not be empty.
pub fn vigenere_transform(plain_text: &str, keyword: &[u8], decrypt: bool) -> (r: String)
    requires
        keyword@.len() > 0,
        forall|j: int| 0 <= j < keyword@.len() ==> keyword@[j] < 26,
    ensures
        r@ == transformed(key_values(keyword@), plain_text@, decrypt),
{
    let ghost key = key_values(keyword@);
    let ghost goal = transformed(key, plain_text@, decrypt);
    let mut result = String::new();
    // Where the next letter stands in the key; it starts over at the end.
    let mut key_index: usize = 0;
    proof {
        plain_text@.take(0).lemma_filter_len(|c: char| is_letter(c));
        lemma_small_mod(0, keyword@.len());
    }
    for c in it: plain_text.chars()
        invariant
            it.seq() == plain_text@,
            keyword@.len() > 0,
            forall|j: int| 0 <= j < keyword@.len() ==> keyword@[j] < 26,
            key == key_values(keyword@),
            goal == transformed(key, plain_text@, decrypt),
            key_index == letters_before(plain_text@, it.index() as int) % keyword@.len(),
            result@ == goal.take(it.index() as int),
    {
        let ghost i = it.index() as int;
        proof {
            lemma_letters_before_next(plain_text@, i);
            lemma_next_turn(letters_before(plain_text@, i), keyword@.len());
            assert(goal.take(i + 1) == goal.take(i).push(goal[i]));
        }
        if is_ascii_letter(c) {
            let entry: u8 = keyword[key_index];
            assert(entry == key_at(key, plain_text@, i));
            let amount: u8 = if decrypt {
                ALPHABET - entry
            } else {
                entry
            };
            proof {
                if decrypt {
                    lemma_rotate_periodic(c, amount as int, -(entry as int));
                }
            }
            result.push(rotate_char(c, amount));
            key_index = if key_index + 1 == keyword.len() {
                0
            } else {
                key_index + 1
            };
        } else {
            result.push(c);
        }
    }
    assert(goal.take(plain_text@.len() as int) == goal);
    result
}

/// A Vigenère cipher. It is made from a keyword with at least one ASCII
/// letter and keeps both the keyword and the key that the keyword stands for.
#[derive(Debug)]
pub struct Vigenere {
    keyword: String,
    key: Vec<u8>,
}

impl View for Vigenere {
    type V = Seq<nat>;

    /// The key: one alphabet position for each letter of the keyword.
    closed spec fn view(&self) -> Seq<nat> {
        key_values(self.key@)
    }
}

impl Vigenere {
    /// The key is the key of the keyword and is not empty. This holds of
    /// every cipher that exists.
    #[verifier::type_invariant]
    pub closed spec fn well_formed(&self) -> bool {
        &&& self.key@.len() > 0
        &&& key_values(self.key@) == key_of(self.keyword@)
    }

    /// The keyword as it was given, with whatever else it held besides
    /// letters.
    pub closed spec fn keyword_text(&self) -> Seq<char> {
        self.keyword@
    }

    /// The cipher for `keyword`. Case and everything that is no ASCII letter
    /// are of no account to the key; a keyword without any letter is refused.
    pub fn new(keyword: &str) -> (r: Result<Vigenere, VigenereError>)
        ensures
            key_of(keyword@).len() == 0 ==> r == Err::<Vigenere, VigenereError>(
                VigenereError::EmptyKey,
            ),
            key_of(keyword@).len() > 0 ==> r is Ok && r->Ok_0@ == key_of(keyword@)
                && r->Ok_0.keyword_text() == keyword@,
    {
        let mut key: Vec<u8> = Vec::new();
        for c in it: keyword.chars()
            invariant
                it.seq() == keyword@,
                key_values(key@) == key_of(keyword@.take(it.index() as int)),
        {
            proof {
                lemma_letters_before_next(keyword@, it.index() as int);
            }
            if is_ascii_letter(c) {
                let entry = letter_position(c);
                proof {
                    let before = letters(keyword@.take(it.index() as int));
                    before.lemma_push_map_commute(|c: char| position(c) as nat, c);
                    key@.lemma_push_map_commute(|k: u8| k as nat, entry);
                }
                key.push(entry);
            }
        }
        assert(keyword@.take(keyword@.len() as int) == keyword@);
        if key.len() == 0 {
            return Err(VigenereError::EmptyKey);
        }
        Ok(Vigenere { keyword: keyword.to_owned(), key })
    }

    /// The keyword that the cipher was made from.
    pub fn keyword(&self) -> (r: &str)
        ensures
            r@ == self.keyword_text(),
    {
        self.keyword.as_str()
    }

    /// `plain_text` encrypted, or decrypted where `decrypt` is set.
    pub fn transform(&self, plain_text: &str, decrypt: bool) -> (r: String)
        ensures
            r@ == transformed(self@, plain_text@, decrypt),
    {
        proof {
            use_type_invariant(self);
            assert forall|j: int| 0 <= j < self.key@.len() implies self.key@[j] < 26 by {
                lemma_key_of_in_alphabet(self.keyword@, j);
                assert(key_values(self.key@)[j] == self.key@[j] as nat);
            }
        }
        vigenere_transform(plain_text, self.key.as_slice(), decrypt)
    }

    /// What holds of the key of every cipher that was made: it is the key of
    /// the cipher's keyword, it is not empty, and its entries are below 26.
    pub proof fn lemma_key(&self)
        requires
            self.well_formed(),
        ensures
            self@ == key_of(self.keyword_text()),
            self@.len() > 0,
            forall|j: int| 0 <= j < self@.len() ==> self@[j] < 26,
    {
        assert forall|j: int| 0 <= j < self@.len() implies self@[j] < 26 by {
            lemma_key_of_in_alphabet(self.keyword@, j);
        }
    }
}

/// Every entry of a keyword's key is an alphabet position.
pub proof fn lemma_key_of_in_alphabet(keyword: Seq<char>, j: int)
    requires
        0 <= j < key_of(keyword).len(),
    ensures
        key_of(keyword)[j] < 26,
{
    keyword.lemma_filter_pred(|c: char| is_letter(c), j);
}

impl CipherTraits for Vigenere {
    open spec fn encrypted(&self, plain_text: Seq<char>) -> Seq<char> {
        transformed(self@, plain_text, false)
    }

    open spec fn decrypted(&self, cipher_text: Seq<char>) -> Seq<char> {
        transformed(self@, cipher_text, true)
    }

    fn encrypt(&self, plain_text: &str) -> (r: String) {
        self.transform(plain_text, false)
    }

    fn decrypt(&self, cipher_text: &str) -> (r: String) {
        self.transform(cipher_text, true)
    }
}

} // verus!
