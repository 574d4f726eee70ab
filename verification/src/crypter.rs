//! Encryption of access tokens at rest with ChaCha20-Poly1305.
//!
//! An encrypted token is the 12-byte nonce followed by the sealed bytes of
//! the token's UTF-8 encoding.

use crate::user::UserServiceError;
use chacha20poly1305::aead::{Aead, AeadCore, KeyInit, OsRng};
use chacha20poly1305::{ChaCha20Poly1305, Key, Nonce};
use vstd::prelude::*;
use vstd::utf8::{decode_utf8, encode_utf8, valid_utf8};

verus! {

/// Length of a ChaCha20-Poly1305 nonce, in bytes.
pub const NONCE_LEN: usize = 12;

/// What ChaCha20-Poly1305 seals `plaintext` into under `key` and `nonce`
/// (no associated data), or `None` when it refuses.
pub uninterp spec fn chacha_seal(key: Seq<u8>, nonce: Seq<u8>, plaintext: Seq<u8>) -> Option<Seq<u8>>;

/// What ChaCha20-Poly1305 opens `sealed` into under `key` and `nonce` (no
/// associated data), or `None` when the bytes do not authenticate.
pub uninterp spec fn chacha_open(key: Seq<u8>, nonce: Seq<u8>, sealed: Seq<u8>) -> Option<Seq<u8>>;

/// The plain view of optional bytes.
pub open spec fn opt_bytes(v: Option<Vec<u8>>) -> Option<Seq<u8>> {
    match v {
        Some(b) => Some(b@),
        None => None,
    }
}

/// A fresh nonce from `ChaCha20Poly1305::generate_nonce` with the operating
/// system's random source.  The bytes are random: the contract only states
/// their number.
#[verifier::external_body]
fn generate_nonce() -> (n: Vec<u8>)
    ensures
        n@.len() == NONCE_LEN,
{
    ChaCha20Poly1305::generate_nonce(&mut OsRng).to_vec()
}

/// Length of a ChaCha20-Poly1305 authentication tag, in bytes.
pub const TAG_LEN: usize = 16;

/// Can ChaCha20-Poly1305 seal a message of `len` bytes: fewer than
/// `u32::MAX` whole 64-byte blocks?
pub open spec fn sealable_len(len: nat) -> bool {
    len / 64 < 0xffff_ffff
}

/// `Aead::encrypt` of ChaCha20-Poly1305; the contract names its result and
/// states what the crate's source shows of it: it refuses exactly the
/// messages of `u32::MAX` or more 64-byte blocks, and otherwise returns the
/// encrypted bytes followed by the 16-byte tag.
#[verifier::external_body]
fn seal(key: &[u8; 32], nonce: &[u8], plaintext: &[u8]) -> (r: Option<Vec<u8>>)
    requires
        nonce@.len() == NONCE_LEN,
    ensures
        opt_bytes(r) == chacha_seal(key@, nonce@, plaintext@),
        r is Some == sealable_len(plaintext@.len()),
        r matches Some(c) ==> c@.len() == plaintext@.len() + TAG_LEN,
{
    let cipher = ChaCha20Poly1305::new(Key::from_slice(key));
    cipher.encrypt(Nonce::from_slice(nonce), plaintext).ok()
}

/// `Aead::decrypt` of ChaCha20-Poly1305.  The contract names its result and
/// states the property the crate exists for: bytes sealed under a key and a
/// nonce open, under the same key and nonce, into what was sealed.
#[verifier::external_body]
fn open(key: &[u8; 32], nonce: &[u8], sealed: &[u8]) -> (r: Option<Vec<u8>>)
    requires
        nonce@.len() == NONCE_LEN,
    ensures
        opt_bytes(r) == chacha_open(key@, nonce@, sealed@),
        forall|p: Seq<u8>| #[trigger] chacha_seal(key@, nonce@, p) == Some(sealed@)
            ==> opt_bytes(r) == Some(p),
{
    let cipher = ChaCha20Poly1305::new(Key::from_slice(key));
    cipher.decrypt(Nonce::from_slice(nonce), sealed).ok()
}

/// `String::from_utf8`: the text the bytes encode, or `None` when they are
/// not UTF-8.
#[verifier::external_body]
fn string_from_utf8(bytes: Vec<u8>) -> (r: Option<String>)
    ensures
        r is Some == valid_utf8(bytes@),
        r matches Some(s) ==> s@ == decode_utf8(bytes@),
{
    String::from_utf8(bytes).ok()
}

/// The token that `encrypted` holds under `key`: the first 12 bytes are the
/// nonce, the rest opens into the UTF-8 encoding of the token.
pub open spec fn decrypted(key: Seq<u8>, encrypted: Seq<u8>) -> Option<Seq<char>> {
    if encrypted.len() < NONCE_LEN {
        None
    } else {
        match chacha_open(key, encrypted.take(NONCE_LEN as int), encrypted.skip(NONCE_LEN as int)) {
            Some(p) => if valid_utf8(p) {
                Some(decode_utf8(p))
            } else {
                None
            },
            None => None,
        }
    }
}

/// Does `encrypted` hold `token` sealed under `key`?
pub open spec fn seals_token(key: Seq<u8>, token: Seq<char>, encrypted: Seq<u8>) -> bool {
    &&& encrypted.len() >= NONCE_LEN
    &&& chacha_seal(key, encrypted.take(NONCE_LEN as int), encode_utf8(token)) == Some(
        encrypted.skip(NONCE_LEN as int),
    )
}

/// Encrypts `token` under `key` with a fresh nonce: the result is the nonce
/// followed by the sealed UTF-8 bytes of the token, 12 + n + 16 bytes for a
/// token of n bytes.  Only a token too long for the cipher is refused.
pub fn encrypt_token(key: &[u8; 32], token: &str) -> (r: Result<Vec<u8>, UserServiceError>)
    ensures
        r is Ok == sealable_len(encode_utf8(token@).len()),
        r matches Ok(e) ==> seals_token(key@, token@, e@) && e@.len() == NONCE_LEN
            + encode_utf8(token@).len() + TAG_LEN,
        r matches Err(e) ==> e == UserServiceError::EncryptionError,
{
    let nonce = generate_nonce();
    match seal(key, nonce.as_slice(), token.as_bytes()) {
        Some(ciphertext) => {
            let mut encrypted = nonce;
            let ghost n = encrypted@;
            let mut i: usize = 0;
            while i < ciphertext.len()
                invariant
                    i <= ciphertext.len(),
                    encrypted@ == n + ciphertext@.take(i as int),
                decreases ciphertext.len() - i,
            {
                encrypted.push(ciphertext[i]);
                assert(n + ciphertext@.take(i + 1) =~= (n + ciphertext@.take(i as int)).push(
                    ciphertext@[i as int],
                ));
                i = i + 1;
            }
            assert(ciphertext@.take(ciphertext.len() as int) =~= ciphertext@);
            assert(encrypted@.take(NONCE_LEN as int) =~= n);
            assert(encrypted@.skip(NONCE_LEN as int) =~= ciphertext@);
            Ok(encrypted)
        },
        None => Err(UserServiceError::EncryptionError),
    }
}

/// Decrypts what `encrypt_token` made under `key`.  Input shorter than a
/// nonce, bytes that do not authenticate and plaintext that is not UTF-8 are
/// refused.  Bytes that seal a token under `key` give that token back.
pub fn decrypt_token(key: &[u8; 32], encrypted: &[u8]) -> (r: Result<String, UserServiceError>)
    ensures
        match decrypted(key@, encrypted@) {
            Some(t) => r matches Ok(s) && s@ == t,
            None => r == Err::<String, UserServiceError>(UserServiceError::EncryptionError),
        },
        forall|t: Seq<char>| #[trigger] seals_token(key@, t, encrypted@) ==> (r matches Ok(s)
            && s@ == t),
{
    if encrypted.len() < NONCE_LEN {
        return Err(UserServiceError::EncryptionError);
    }
    let (nonce, ciphertext) = encrypted.split_at(NONCE_LEN);
    assert(nonce@ =~= encrypted@.take(NONCE_LEN as int));
    assert(ciphertext@ =~= encrypted@.skip(NONCE_LEN as int));
    match open(key, nonce, ciphertext) {
        Some(plaintext) => {
            proof {
                broadcast use vstd::utf8::encode_utf8_valid_utf8, vstd::utf8::encode_utf8_decode_utf8;
            }
            match string_from_utf8(plaintext) {
                Some(s) => Ok(s),
                None => Err(UserServiceError::EncryptionError),
            }
        },
        None => Err(UserServiceError::EncryptionError),
    }
}

} // verus!
