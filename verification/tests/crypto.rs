use aes_gcm::aead::{Aead, KeyInit};
use chat_server::crypto::{
    drawn, from_hex, generate_key, generate_nonce, open_message, read_plaintext, seal_message, to_hex,
    DecryptError, KEY_LEN, MAX_PLAINTEXT, NONCE_LEN,
};

fn key_a() -> Vec<u8> {
    vec![7u8; 32]
}

fn key_b() -> Vec<u8> {
    vec![9u8; 32]
}

fn nonce() -> Vec<u8> {
    vec![1u8; 12]
}

#[test]
fn sizes_are_those_of_the_cipher() {
    assert_eq!(KEY_LEN, 32);
    assert_eq!(NONCE_LEN, 12);
    assert_eq!(MAX_PLAINTEXT, 1u64 << 36);
}

#[test]
fn hex_encoding_is_lowercase_two_digits_a_byte() {
    assert_eq!(to_hex(&vec![1, 2, 3, 15, 16]), "0102030f10");
    assert_eq!(to_hex(&vec![0x00, 0xff, 0xa5]), "00ffa5");
    assert_eq!(to_hex(&vec![]), "");
}

#[test]
fn hex_decoding_takes_both_cases() {
    assert_eq!(from_hex("0102030f10"), Some(vec![1, 2, 3, 15, 16]));
    assert_eq!(from_hex("0102030F10"), Some(vec![1, 2, 3, 15, 16]));
    assert_eq!(from_hex("f9B4Ca"), Some(vec![0xf9, 0xb4, 0xca]));
    assert_eq!(from_hex(""), Some(vec![]));
}

#[test]
fn hex_decoding_refuses_odd_length_and_other_characters() {
    assert_eq!(from_hex("123"), None);
    assert_eq!(from_hex("foo"), None);
    assert_eq!(from_hex("0g"), None);
    assert_eq!(from_hex("éé"), None);
    assert_eq!(from_hex("é"), None);
    assert_eq!(from_hex(" 00"), None);
}

#[test]
fn hex_round_trip_of_every_byte() {
    let all: Vec<u8> = (0u8..=255).collect();
    assert_eq!(from_hex(&to_hex(&all)), Some(all));
}

#[test]
fn generated_key_and_nonce_have_their_lengths() {
    let key = generate_key().expect("random source");
    let nonce = generate_nonce().expect("random source");
    assert_eq!(key.len(), 32);
    assert_eq!(nonce.len(), 12);
    assert_ne!(generate_key().expect("random source"), key);
}

#[test]
fn a_draw_gives_the_buffer_only_where_the_source_filled_it() {
    assert_eq!(drawn(vec![1, 2, 3], Ok(())), Some(vec![1, 2, 3]));
    assert_eq!(drawn(vec![], Ok(())), Some(vec![]));
    assert_eq!(drawn(vec![1, 2, 3], Err(rand::Error::new("no source"))), None);
}

#[test]
fn seal_matches_the_published_vector() {
    let zero_key = vec![0u8; 32];
    let zero_nonce = vec![0u8; 12];
    let sealed = seal_message(&zero_key, &zero_nonce, "").unwrap();
    assert_eq!(sealed.nonce_hex, "000000000000000000000000");
    assert_eq!(sealed.ciphertext_hex, "530f8afbc74536b9a963b4f1c4cb738b");
    let block = "\0".repeat(16);
    let sealed = seal_message(&zero_key, &zero_nonce, &block).unwrap();
    assert_eq!(
        sealed.ciphertext_hex,
        "cea7403d4d606b6e074ec5d3baf39d18d0d1c8a799996bf0265b98b5d48ab919"
    );
}

#[test]
fn sealed_message_opens_under_the_same_key() {
    let sealed = seal_message(&key_a(), &nonce(), "привет, bob").unwrap();
    assert_eq!(sealed.nonce_hex, to_hex(&nonce()));
    assert_ne!(sealed.ciphertext_hex, to_hex(&"привет, bob".as_bytes().to_vec()));
    assert_eq!(
        open_message(&key_a(), &sealed.nonce_hex, &sealed.ciphertext_hex),
        Ok("привет, bob".to_string())
    );
}

#[test]
fn sealed_message_does_not_open_under_another_key() {
    let sealed = seal_message(&key_a(), &nonce(), "hello").unwrap();
    assert_eq!(
        open_message(&key_b(), &sealed.nonce_hex, &sealed.ciphertext_hex),
        Err(DecryptError::Authentication)
    );
}

#[test]
fn changed_ciphertext_does_not_open() {
    let sealed = seal_message(&key_a(), &nonce(), "hello").unwrap();
    let mut bytes = from_hex(&sealed.ciphertext_hex).unwrap();
    bytes[0] ^= 1;
    assert_eq!(
        open_message(&key_a(), &sealed.nonce_hex, &to_hex(&bytes)),
        Err(DecryptError::Authentication)
    );
    assert_eq!(
        open_message(&key_a(), &to_hex(&vec![2u8; 12]), &sealed.ciphertext_hex),
        Err(DecryptError::Authentication)
    );
    assert_eq!(open_message(&key_a(), &sealed.nonce_hex, ""), Err(DecryptError::Authentication));
}

#[test]
fn open_reports_each_malformed_field() {
    let sealed = seal_message(&key_a(), &nonce(), "hello").unwrap();
    assert_eq!(
        open_message(&key_a(), "zz", &sealed.ciphertext_hex),
        Err(DecryptError::NonceNotHex)
    );
    assert_eq!(
        open_message(&key_a(), "0102", &sealed.ciphertext_hex),
        Err(DecryptError::NonceLength)
    );
    assert_eq!(
        open_message(&key_a(), &sealed.nonce_hex, "xyz"),
        Err(DecryptError::CiphertextNotHex)
    );
    assert_eq!(open_message(&key_a(), "zz", "xyz"), Err(DecryptError::NonceNotHex));
    assert_eq!(open_message(&key_a(), "0102", "xyz"), Err(DecryptError::NonceLength));
}

#[test]
fn open_reports_plaintext_that_is_no_text() {
    let cipher = aes_gcm::Aes256Gcm::new_from_slice(&key_a()).unwrap();
    let sealed = cipher
        .encrypt(aes_gcm::Nonce::from_slice(&nonce()), [0xffu8, 0xfe, 0x41].as_ref())
        .unwrap();
    assert_eq!(
        open_message(&key_a(), &to_hex(&nonce()), &to_hex(&sealed)),
        Err(DecryptError::NotText)
    );
}

#[test]
fn plaintext_is_read_as_utf8() {
    assert_eq!(read_plaintext("héllo".as_bytes().to_vec()), Ok("héllo".to_string()));
    assert_eq!(read_plaintext(vec![]), Ok(String::new()));
    assert_eq!(read_plaintext(vec![0xff, 0xfe]), Err(DecryptError::NotText));
    assert_eq!(read_plaintext(vec![0xed, 0xa0, 0x80]), Err(DecryptError::NotText));
    assert_eq!(read_plaintext(vec![0xc0, 0x80]), Err(DecryptError::NotText));
}
