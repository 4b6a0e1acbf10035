//! The private-chat cipher: 32-byte keys and 12-byte nonces from the operating
//! system's random source, hexadecimal transport encoding, and AES-256-GCM
//! sealing and opening of message bodies.

use vstd::prelude::*;
use vstd::string::*;
use vstd::utf8::*;
use aes_gcm::aead::{Aead, KeyInit};
use rand::RngCore;

verus! {

/// Bytes in a private-chat key.
pub const KEY_LEN: usize = 32;

/// Bytes in a message nonce.
pub const NONCE_LEN: usize = 12;

/// The longest plaintext, in bytes, that the cipher seals.
pub const MAX_PLAINTEXT: u64 = 0x10_0000_0000;

#[verifier::external_type_specification]
#[verifier::external_body]
pub struct ExFromHexError(hex::FromHexError);

#[verifier::external_type_specification]
#[verifier::external_body]
pub struct ExAeadError(aes_gcm::Error);

#[verifier::external_type_specification]
#[verifier::external_body]
pub struct ExRandError(rand::Error);

#[verifier::external_type_specification]
#[verifier::external_body]
pub struct ExFromUtf8Error(std::string::FromUtf8Error);

/// The ciphertext, tag included, that AES-256-GCM gives for `plaintext` under
/// `key` and `nonce` with no associated data.
pub uninterp spec fn sealed(key: Seq<u8>, nonce: Seq<u8>, plaintext: Seq<u8>) -> Seq<u8>;

/// What AES-256-GCM recovers from `ciphertext` under `key` and `nonce` with no
/// associated data: the plaintext, or nothing where the tag does not match.
pub uninterp spec fn opened(key: Seq<u8>, nonce: Seq<u8>, ciphertext: Seq<u8>) -> Option<Seq<u8>>;

/// The lowercase hexadecimal digit for `n`, where `0 <= n < 16`.
pub open spec fn hex_digit(n: int) -> char {
    if n < 10 {
        (48 + n) as u8 as char
    } else {
        (87 + n) as u8 as char
    }
}

/// The value of the hexadecimal digit `c`, in either case; nothing for another character.
pub open spec fn hex_value(c: char) -> Option<int> {
    let u = c as u32 as int;
    if 48 <= u <= 57 {
        Some(u - 48)
    } else if 97 <= u <= 102 {
        Some(u - 87)
    } else if 65 <= u <= 70 {
        Some(u - 55)
    } else {
        None
    }
}

/// `bytes` written as lowercase hexadecimal, two digits a byte.
pub open spec fn hex_digits(bytes: Seq<u8>) -> Seq<char> {
    Seq::new(
        2 * bytes.len(),
        |i: int|
            if i % 2 == 0 {
                hex_digit(bytes[i / 2] as int / 16)
            } else {
                hex_digit(bytes[i / 2] as int % 16)
            },
    )
}

/// Whether `s` is hexadecimal: an even number of digits and nothing else.
pub open spec fn is_hex(s: Seq<char>) -> bool {
    &&& s.len() % 2 == 0
    &&& forall|i: int| 0 <= i < s.len() ==> (#[trigger] hex_value(s[i])) is Some
}

/// The bytes that the hexadecimal text `s` stands for.
pub open spec fn hex_bytes(s: Seq<char>) -> Seq<u8> {
    Seq::new(
        s.len() / 2,
        |i: int| (16 * hex_value(s[2 * i]).unwrap() + hex_value(s[2 * i + 1]).unwrap()) as u8,
    )
}

/// `hex::encode`: each byte becomes two lowercase hexadecimal digits.
#[verifier::external_body]
fn hex_encode(bytes: &[u8]) -> (r: String)
    ensures
        r@ == hex_digits(bytes@),
{
    hex::encode(bytes)
}

/// `hex::decode`: succeeds exactly on an even number of hexadecimal digits of
/// either case, and then gives the bytes they stand for.
#[verifier::external_body]
fn hex_decode(s: &str) -> (r: Result<Vec<u8>, hex::FromHexError>)
    ensures
        r is Ok <==> is_hex(s@),
        r matches Ok(bytes) ==> bytes@ == hex_bytes(s@),
{
    hex::decode(s)
}

/// `OsRng::try_fill_bytes`: overwrites the buffer with bytes from the
/// operating system, or reports that the source failed. The length stays.
/// For an empty buffer the source is not asked, and the call succeeds.
#[verifier::external_body]
fn fill_random(buffer: &mut Vec<u8>) -> (r: Result<(), rand::Error>)
    ensures
        final(buffer)@.len() == old(buffer)@.len(),
        old(buffer)@.len() == 0 ==> r is Ok,
{
    rand::rngs::OsRng.try_fill_bytes(buffer.as_mut_slice())
}

/// `Aes256Gcm::encrypt` without associated data: fails only on a plaintext
/// longer than the cipher admits, and else gives `sealed` of the arguments.
#[verifier::external_body]
fn aes_seal(key: &[u8], nonce: &[u8], plaintext: &[u8]) -> (r: Result<Vec<u8>, aes_gcm::Error>)
    requires
        key@.len() == KEY_LEN,
        nonce@.len() == NONCE_LEN,
    ensures
        r is Ok <==> plaintext@.len() <= MAX_PLAINTEXT,
        r matches Ok(c) ==> c@ == sealed(key@, nonce@, plaintext@),
{
    let cipher = aes_gcm::Aes256Gcm::new(aes_gcm::Key::<aes_gcm::Aes256Gcm>::from_slice(key));
    cipher.encrypt(aes_gcm::Nonce::from_slice(nonce), plaintext)
}

/// `Aes256Gcm::decrypt` without associated data: gives `opened` of the
/// arguments, and recovers every plaintext that was sealed under the same key
/// and nonce.
#[verifier::external_body]
fn aes_open(key: &[u8], nonce: &[u8], ciphertext: &[u8]) -> (r: Result<Vec<u8>, aes_gcm::Error>)
    requires
        key@.len() == KEY_LEN,
        nonce@.len() == NONCE_LEN,
    ensures
        r is Ok <==> opened(key@, nonce@, ciphertext@) is Some,
        r matches Ok(p) ==> Some(p@) == opened(key@, nonce@, ciphertext@),
        forall|p: Seq<u8>|
            p.len() <= MAX_PLAINTEXT && #[trigger] sealed(key@, nonce@, p) == ciphertext@ ==> r is Ok
                && r.unwrap()@ == p,
{
    let cipher = aes_gcm::Aes256Gcm::new(aes_gcm::Key::<aes_gcm::Aes256Gcm>::from_slice(key));
    cipher.decrypt(aes_gcm::Nonce::from_slice(nonce), ciphertext)
}

/// `String::from_utf8`: succeeds exactly on well-formed UTF-8, and then gives
/// the characters that the bytes encode.
pub assume_specification[ String::from_utf8 ](bytes: Vec<u8>) -> (r: Result<
    String,
    std::string::FromUtf8Error,
>)
    ensures
        r is Ok <==> valid_utf8(bytes@),
        r matches Ok(s) ==> s@ == decode_utf8(bytes@),
;

/// Why a private message could not be sealed.
#[derive(Debug, Clone, Copy, PartialEq, Eq, Structural)]
pub enum EncryptError {
    /// The message is longer than the cipher admits.
    TooLong,
}

/// Why a received private message could not be read.
#[derive(Debug, Clone, Copy, PartialEq, Eq, Structural)]
pub enum DecryptError {
    /// The nonce field is not hexadecimal.
    NonceNotHex,
    /// The nonce does not have 12 bytes.
    NonceLength,
    /// The ciphertext field is not hexadecimal.
    CiphertextNotHex,
    /// The authentication tag does not match: wrong key, or a changed message.
    Authentication,
    /// The plaintext is not UTF-8 text.
    NotText,
}

/// A sealed message body as it travels: nonce and ciphertext in hexadecimal.
#[derive(Debug, Clone, PartialEq, Eq)]
pub struct SealedMessage {
    pub nonce_hex: String,
    pub ciphertext_hex: String,
}

/// `n` bytes from the operating system's random source; nothing where the
/// source fails, which it cannot where no byte is asked for.
fn random_bytes(n: usize) -> (r: Option<Vec<u8>>)
    ensures
        r matches Some(b) ==> b@.len() == n,
        n == 0 ==> r is Some,
{
    let mut buffer: Vec<u8> = Vec::new();
    let mut i: usize = 0;
    while i < n
        invariant
            i <= n,
            buffer@.len() == i,
        decreases n - i,
    {
        buffer.push(0u8);
        i += 1;
    }
    let outcome = fill_random(&mut buffer);
    drawn(buffer, outcome)
}

/// A fresh private-chat key of 32 random bytes; nothing where the random
/// source fails.
pub fn generate_key() -> (r: Option<Vec<u8>>)
    ensures
        r matches Some(k) ==> k@.len() == KEY_LEN,
{
    random_bytes(KEY_LEN)
}

/// A fresh message nonce of 12 random bytes; nothing where the random source
/// fails.
pub fn generate_nonce() -> (r: Option<Vec<u8>>)
    ensures
        r matches Some(n) ==> n@.len() == NONCE_LEN,
{
    random_bytes(NONCE_LEN)
}

/// What a draw from the random source gives: the buffer where the source
/// filled it, nothing where the source failed.
pub fn drawn(buffer: Vec<u8>, outcome: Result<(), rand::Error>) -> (r: Option<Vec<u8>>)
    ensures
        outcome is Ok ==> r == Some(buffer),
        outcome is Err ==> r is None,
{
    match outcome {
        Ok(_) => Some(buffer),
        Err(_) => None,
    }
}

/// `bytes` in lowercase hexadecimal.
pub fn to_hex(bytes: &Vec<u8>) -> (r: String)
    ensures
        r@ == hex_digits(bytes@),
{
    hex_encode(bytes.as_slice())
}

/// The bytes that the hexadecimal text `s` stands for; nothing where `s` is
/// not hexadecimal.
pub fn from_hex(s: &str) -> (r: Option<Vec<u8>>)
    ensures
        r is Some <==> is_hex(s@),
        r matches Some(b) ==> b@ == hex_bytes(s@),
{
    match hex_decode(s) {
        Ok(bytes) => Some(bytes),
        Err(_) => None,
    }
}

/// What `seal_message` gives for a key, a nonce and a text.
pub open spec fn seal_outcome(key: Seq<u8>, nonce: Seq<u8>, text: Seq<char>) -> Result<
    (Seq<char>, Seq<char>),
    EncryptError,
> {
    if encode_utf8(text).len() <= MAX_PLAINTEXT {
        Ok((hex_digits(nonce), hex_digits(sealed(key, nonce, encode_utf8(text)))))
    } else {
        Err(EncryptError::TooLong)
    }
}

/// What `open_message` gives for a key and the two hexadecimal fields.
pub open spec fn open_outcome(key: Seq<u8>, nonce_hex: Seq<char>, ciphertext_hex: Seq<char>) -> Result<
    Seq<char>,
    DecryptError,
> {
    if !is_hex(nonce_hex) {
        Err(DecryptError::NonceNotHex)
    } else if hex_bytes(nonce_hex).len() != NONCE_LEN {
        Err(DecryptError::NonceLength)
    } else if !is_hex(ciphertext_hex) {
        Err(DecryptError::CiphertextNotHex)
    } else {
        match opened(key, hex_bytes(nonce_hex), hex_bytes(ciphertext_hex)) {
            None => Err(DecryptError::Authentication),
            Some(plain) => if valid_utf8(plain) {
                Ok(decode_utf8(plain))
            } else {
                Err(DecryptError::NotText)
            },
        }
    }
}

/// The text that opened bytes hold: the characters that they encode, where
/// they are well-formed UTF-8.
pub fn read_plaintext(plain: Vec<u8>) -> (r: Result<String, DecryptError>)
    ensures
        valid_utf8(plain@) ==> (r matches Ok(t) && t@ == decode_utf8(plain@)),
        !valid_utf8(plain@) ==> r == Err::<String, DecryptError>(DecryptError::NotText),
{
    match String::from_utf8(plain) {
        Ok(text) => Ok(text),
        Err(_) => Err(DecryptError::NotText),
    }
}

/// Seals the UTF-8 bytes of `text` under `key` and `nonce`, and gives nonce
/// and ciphertext in hexadecimal.
pub fn seal_message(key: &Vec<u8>, nonce: &Vec<u8>, text: &str) -> (r: Result<
    SealedMessage,
    EncryptError,
>)
    requires
        key@.len() == KEY_LEN,
        nonce@.len() == NONCE_LEN,
    ensures
        r matches Ok(m) ==> seal_outcome(key@, nonce@, text@) == Ok::<
            (Seq<char>, Seq<char>),
            EncryptError,
        >((m.nonce_hex@, m.ciphertext_hex@)),
        r matches Err(e) ==> seal_outcome(key@, nonce@, text@) == Err::<
            (Seq<char>, Seq<char>),
            EncryptError,
        >(e),
{
    match aes_seal(key.as_slice(), nonce.as_slice(), text.as_bytes()) {
        Ok(ciphertext) => Ok(
            SealedMessage { nonce_hex: to_hex(nonce), ciphertext_hex: to_hex(&ciphertext) },
        ),
        Err(_) => Err(EncryptError::TooLong),
    }
}

/// Reads a sealed message body: decodes the two hexadecimal fields, opens the
/// ciphertext under `key`, and decodes the plaintext as UTF-8. A message that
/// `seal_message` made under the same key comes back as it was written.
pub fn open_message(key: &Vec<u8>, nonce_hex: &str, ciphertext_hex: &str) -> (r: Result<
    String,
    DecryptError,
>)
    requires
        key@.len() == KEY_LEN,
    ensures
        r matches Ok(t) ==> open_outcome(key@, nonce_hex@, ciphertext_hex@) == Ok::<
            Seq<char>,
            DecryptError,
        >(t@),
        r matches Err(e) ==> open_outcome(key@, nonce_hex@, ciphertext_hex@) == Err::<
            Seq<char>,
            DecryptError,
        >(e),
        forall|nonce: Seq<u8>, text: Seq<char>|
            nonce.len() == NONCE_LEN && #[trigger] seal_outcome(key@, nonce, text) == Ok::<
                (Seq<char>, Seq<char>),
                EncryptError,
            >((nonce_hex@, ciphertext_hex@)) ==> (r matches Ok(t) && t@ == text),
{
    let nonce = match from_hex(nonce_hex) {
        Some(n) => n,
        None => {
            proof {
                lemma_seal_outcome_is_hex(key@, nonce_hex@, ciphertext_hex@);
            }
            return Err(DecryptError::NonceNotHex);
        },
    };
    if nonce.len() != NONCE_LEN {
        proof {
            lemma_seal_outcome_is_hex(key@, nonce_hex@, ciphertext_hex@);
        }
        return Err(DecryptError::NonceLength);
    }
    let ciphertext = match from_hex(ciphertext_hex) {
        Some(c) => c,
        None => {
            proof {
                lemma_seal_outcome_is_hex(key@, nonce_hex@, ciphertext_hex@);
            }
            return Err(DecryptError::CiphertextNotHex);
        },
    };
    proof {
        lemma_seal_outcome_is_hex(key@, nonce_hex@, ciphertext_hex@);
    }
    match aes_open(key.as_slice(), nonce.as_slice(), ciphertext.as_slice()) {
        Err(_) => Err(DecryptError::Authentication),
        Ok(plain) => {
            proof {
                assert forall|n: Seq<u8>, text: Seq<char>|
                    n.len() == NONCE_LEN && #[trigger] seal_outcome(key@, n, text) == Ok::<
                        (Seq<char>, Seq<char>),
                        EncryptError,
                    >((nonce_hex@, ciphertext_hex@)) implies plain@ == encode_utf8(text) by {
                    lemma_hex_round_trip(n);
                    lemma_hex_round_trip(sealed(key@, n, encode_utf8(text)));
                    assert(sealed(key@, nonce@, encode_utf8(text)) == ciphertext@);
                }
                assert forall|text: Seq<char>| plain@ == encode_utf8(text) implies valid_utf8(
                    plain@,
                ) && decode_utf8(plain@) == text by {
                    encode_utf8_valid_utf8(text);
                    encode_utf8_decode_utf8(text);
                }
            }
            read_plaintext(plain)
        },
    }
}

/// Hexadecimal text decodes to the bytes it was written from.
pub proof fn lemma_hex_round_trip(bytes: Seq<u8>)
    ensures
        is_hex(hex_digits(bytes)),
        hex_bytes(hex_digits(bytes)) == bytes,
{
    let s = hex_digits(bytes);
    assert forall|i: int| 0 <= i < s.len() implies (#[trigger] hex_value(s[i])) is Some by {
        lemma_hex_digit_value(bytes[i / 2] as int / 16);
        lemma_hex_digit_value(bytes[i / 2] as int % 16);
    }
    assert forall|i: int| 0 <= i < bytes.len() implies hex_bytes(s)[i] == bytes[i] by {
        lemma_hex_digit_value(bytes[i] as int / 16);
        lemma_hex_digit_value(bytes[i] as int % 16);
        assert(s[2 * i] == hex_digit(bytes[i] as int / 16));
        assert(s[2 * i + 1] == hex_digit(bytes[i] as int % 16));
    }
    assert(hex_bytes(s) =~= bytes);
}

/// A hexadecimal digit has the value it was written for.
pub proof fn lemma_hex_digit_value(n: int)
    requires
        0 <= n < 16,
    ensures
        hex_value(hex_digit(n)) == Some(n),
{
    let c = hex_digit(n);
    if n < 10 {
        assert(((48 + n) as u8 as char) as u32 == 48 + n);
    } else {
        assert(((87 + n) as u8 as char) as u32 == 87 + n);
    }
}

/// What `seal_message` gives is hexadecimal, with a nonce field of 12 bytes.
proof fn lemma_seal_outcome_is_hex(key: Seq<u8>, nonce_hex: Seq<char>, ciphertext_hex: Seq<char>)
    ensures
        forall|nonce: Seq<u8>, text: Seq<char>|
            nonce.len() == NONCE_LEN && #[trigger] seal_outcome(key, nonce, text) == Ok::<
                (Seq<char>, Seq<char>),
                EncryptError,
            >((nonce_hex, ciphertext_hex)) ==> {
                &&& is_hex(nonce_hex)
                &&& hex_bytes(nonce_hex) == nonce
                &&& is_hex(ciphertext_hex)
                &&& hex_bytes(ciphertext_hex) == sealed(key, nonce, encode_utf8(text))
                &&& encode_utf8(text).len() <= MAX_PLAINTEXT
            },
{
    assert forall|nonce: Seq<u8>, text: Seq<char>|
        nonce.len() == NONCE_LEN && #[trigger] seal_outcome(key, nonce, text) == Ok::<
            (Seq<char>, Seq<char>),
            EncryptError,
        >((nonce_hex, ciphertext_hex)) implies {
        &&& is_hex(nonce_hex)
        &&& hex_bytes(nonce_hex) == nonce
        &&& is_hex(ciphertext_hex)
        &&& hex_bytes(ciphertext_hex) == sealed(key, nonce, encode_utf8(text))
        &&& encode_utf8(text).len() <= MAX_PLAINTEXT
    } by {
        lemma_hex_round_trip(nonce);
        lemma_hex_round_trip(sealed(key, nonce, encode_utf8(text)));
    }
}

} // verus!
