use cipher_fence::cipher::cipher_traits::CipherTraits;
use cipher_fence::cipher::vigenere_cipher::{vigenere_transform, Vigenere, VigenereError};

#[test]
fn empty_key_fails() {
    let err = Vigenere::new("").unwrap_err();
    assert_eq!(err, VigenereError::EmptyKey);
}

#[test]
fn vigenere_cipher_vigenere_encrypt_upper_key_encrypts_correctly() {
    let v = Vigenere::new("AAAAAAAAAAAAAAAAAAAAAAAAAA").unwrap();
    let plain = "ABCDEFGHIJKLMNOPQRSTUVWXYZ";
    let expected = "ABCDEFGHIJKLMNOPQRSTUVWXYZ";
    let encrypted = v.encrypt(plain);
    assert_eq!(expected, encrypted);
}

#[test]
fn vigenere_cipher_vigenere_encrypt_key_longer_than_message_encrypts_correctly() {
    let v = Vigenere::new("aaaaaaaaaaaaaaaaaaaaaaaaaaaaaaaaaaaaaaaaaaaa").unwrap();
    let plain = "ABCDEFGHIJKLMNOPQRSTUVWXYZ";
    let expected = "ABCDEFGHIJKLMNOPQRSTUVWXYZ";
    let encrypted = v.encrypt(plain);
    assert_eq!(expected, encrypted);
}

#[test]
fn vigenere_cipher_vigenere_encrypt_key_shorter_than_message_encrypts_correctly() {
    let v = Vigenere::new("b").unwrap();
    let plain = "ABCDEFGHIJKLMNOPQRSTUVWXYZ";
    let expected = "BCDEFGHIJKLMNOPQRSTUVWXYZA";
    let encrypted = v.encrypt(plain);
    assert_eq!(expected, encrypted);
}

#[test]
fn vigenere_cipher_vigenere_encrypt_decrypt() {
    let v = Vigenere::new("KEY").unwrap();
    let plain = "Attack at dawn!";
    let encrypted = v.encrypt(plain);
    let decrypted = v.decrypt(&encrypted);
    assert_eq!(decrypted, plain);
}

#[test]
fn vigenere_keyword_without_letters_fails() {
    assert_eq!(Vigenere::new("1234 !?").unwrap_err(), VigenereError::EmptyKey);
    assert_eq!(Vigenere::new(" ").unwrap_err(), VigenereError::EmptyKey);
    assert_eq!(Vigenere::new("\u{e9}\u{df}").unwrap_err(), VigenereError::EmptyKey);
}

#[test]
fn vigenere_known_cipher_text() {
    let v = Vigenere::new("LEMON").unwrap();
    assert_eq!(v.encrypt("ATTACKATDAWN"), "LXFOPVEFRNHR");
    assert_eq!(v.decrypt("LXFOPVEFRNHR"), "ATTACKATDAWN");
}

#[test]
fn vigenere_key_advances_on_letters_only() {
    let v = Vigenere::new("KEY").unwrap();
    assert_eq!(v.encrypt("Attack at dawn!"), "Kxrkgi kx bkal!");
    assert_eq!(v.encrypt("A t-t,a.c k"), "K x-r,k.g i");
    assert_eq!(v.decrypt("Kxrkgi kx bkal!"), "Attack at dawn!");
}

#[test]
fn vigenere_keeps_the_case_of_the_text() {
    let upper = Vigenere::new("KEY").unwrap();
    let lower = Vigenere::new("key").unwrap();
    let mixed = Vigenere::new("kEy").unwrap();
    let text = "Attack AT Dawn";
    assert_eq!(upper.encrypt(text), "Kxrkgi KX Bkal");
    assert_eq!(lower.encrypt(text), "Kxrkgi KX Bkal");
    assert_eq!(mixed.encrypt(text), "Kxrkgi KX Bkal");
}

#[test]
fn vigenere_key_ignores_what_is_no_letter() {
    let plain = Vigenere::new("KEY").unwrap();
    let noisy = Vigenere::new(" K-3 e!\u{e9}Y ").unwrap();
    let text = "Attack at dawn!";
    assert_eq!(noisy.encrypt(text), plain.encrypt(text));
    assert_eq!(noisy.decrypt(text), plain.decrypt(text));
    assert_eq!(noisy.keyword(), " K-3 e!\u{e9}Y ");
}

#[test]
fn vigenere_keeps_its_keyword() {
    let v = Vigenere::new("Noggle").unwrap();
    assert_eq!(v.keyword(), "Noggle");
}

#[test]
fn vigenere_leaves_letters_outside_ascii_alone() {
    let v = Vigenere::new("b").unwrap();
    assert_eq!(v.encrypt("\u{e9}a\u{3a9}b 9"), "\u{e9}b\u{3a9}c 9");
    assert_eq!(v.decrypt("\u{e9}b\u{3a9}c 9"), "\u{e9}a\u{3a9}b 9");
}

#[test]
fn vigenere_all_a_key_is_identity() {
    let text = "The quick brown fox jumps over the lazy dog. 123 \u{e4}";
    let mut keyword = String::new();
    let mut n = 0;
    while n < 40 {
        keyword.push(if n % 3 == 0 { 'a' } else { 'A' });
        let v = Vigenere::new(&keyword).unwrap();
        assert_eq!(v.encrypt(text), text);
        assert_eq!(v.decrypt(text), text);
        n += 1;
    }
}

#[test]
fn vigenere_round_trip_for_many_keywords() {
    let text = "The quick brown fox jumps over the lazy dog. 123 \u{e4}\u{f6} ZzYy";
    let keywords = ["a", "Z", "KEY", "Noggle", "x y z", "abcdefghijklmnopqrstuvwxyz", "Qq-1-Ww"];
    for keyword in keywords {
        let v = Vigenere::new(keyword).unwrap();
        assert_eq!(v.decrypt(&v.encrypt(text)), text);
        assert_eq!(v.encrypt(&v.decrypt(text)), text);
    }
}

#[test]
fn vigenere_transform_selects_the_direction() {
    let v = Vigenere::new("KEY").unwrap();
    assert_eq!(v.transform("Attack at dawn!", false), v.encrypt("Attack at dawn!"));
    assert_eq!(v.transform("Kxrkgi kx bkal!", true), v.decrypt("Kxrkgi kx bkal!"));
    assert_eq!(v.transform("Kxrkgi kx bkal!", true), "Attack at dawn!");
}

#[test]
fn vigenere_transform_on_a_plain_key() {
    let key = [10u8, 4, 24];
    assert_eq!(vigenere_transform("Attack at dawn!", &key, false), "Kxrkgi kx bkal!");
    assert_eq!(vigenere_transform("Kxrkgi kx bkal!", &key, true), "Attack at dawn!");
    assert_eq!(vigenere_transform("", &key, false), "");
    assert_eq!(vigenere_transform("zz", &[25u8], false), "yy");
    assert_eq!(vigenere_transform("aa", &[25u8], true), "bb");
}

#[test]
fn vigenere_validate_solution_ignores_ascii_case() {
    let v = Vigenere::new("KEY").unwrap();
    assert!(v.validate_solution("Kxrkgi kx bkal!", "Attack at dawn!"));
    assert!(v.validate_solution("Kxrkgi kx bkal!", "ATTACK AT DAWN!"));
    assert!(v.validate_solution("Kxrkgi kx bkal!", "attack at dawn!"));
    assert!(!v.validate_solution("Kxrkgi kx bkal!", "Attack at dusk!"));
    assert!(!v.validate_solution("Kxrkgi kx bkal!", "Attack at dawn"));
}

#[test]
fn vigenere_encrypt_upper_key_encrypts_correctly() {
    let v = Vigenere::new("AAAAAAAAAAAAAAAAAAAAAAAAAA").unwrap();
    let plain = "ABCDEFGHIJKLMNOPQRSTUVWXYZ";
    let expected = "ABCDEFGHIJKLMNOPQRSTUVWXYZ";
    let encrypted = v.encrypt(plain);
    assert_eq!(expected, encrypted);
}

#[test]
fn vigenere_encrypt_key_longer_than_message_encrypts_correctly() {
    let v = Vigenere::new("aaaaaaaaaaaaaaaaaaaaaaaaaaaaaaaaaaaaaaaaaaaa").unwrap();
    let plain = "ABCDEFGHIJKLMNOPQRSTUVWXYZ";
    let expected = "ABCDEFGHIJKLMNOPQRSTUVWXYZ";
    let encrypted = v.encrypt(plain);
    assert_eq!(expected, encrypted);
}

#[test]
fn vigenere_encrypt_key_shorter_than_message_encrypts_correctly() {
    let v = Vigenere::new("b").unwrap();
    let plain = "ABCDEFGHIJKLMNOPQRSTUVWXYZ";
    let expected = "BCDEFGHIJKLMNOPQRSTUVWXYZA";
    let encrypted = v.encrypt(plain);
    assert_eq!(expected, encrypted);
}

#[test]
fn vigenere_encrypt_decrypt() {
    let v = Vigenere::new("KEY").unwrap();
    let plain = "Attack at dawn!";
    let encrypted = v.encrypt(plain);
    let decrypted = v.decrypt(&encrypted);
    assert_eq!(decrypted, plain);
}
