//! AES-256-GCM sealing and opening of byte strings, and UTF-8 decoding of the result.
use vstd::prelude::*;
use vstd::utf8::*;

use aes_gcm::aead::generic_array::GenericArray;
use aes_gcm::aead::{Aead, AeadCore, KeyInit, OsRng};
use aes_gcm::{Aes256Gcm, Nonce};

verus! {

/// Length in bytes of an AES-256 key.
pub const KEY_LEN: usize = 32;

/// Length in bytes of an AES-GCM nonce.
pub const NONCE_LEN: usize = 12;

/// Longest plaintext that AES-GCM seals (`aes_gcm::P_MAX`, 2^36 bytes).
pub const MAX_PLAINTEXT_LEN: u64 = 0x10_0000_0000;

/// The ciphertext, tag appended, that AES-256-GCM makes of `plaintext` under `key` and
/// `nonce`, with no associated data.
pub uninterp spec fn aes256_gcm_seal(key: Seq<u8>, nonce: Seq<u8>, plaintext: Seq<u8>) -> Seq<u8>;

/// The plaintext that AES-256-GCM recovers from `ciphertext` under `key` and `nonce`, with no
/// associated data; `None` when the tag does not authenticate it.
pub uninterp spec fn aes256_gcm_open(key: Seq<u8>, nonce: Seq<u8>, ciphertext: Seq<u8>) -> Option<Seq<u8>>;

#[verifier::external_type_specification]
#[verifier::external_body]
pub struct ExAeadError(aes_gcm::Error);

#[verifier::external_type_specification]
#[verifier::external_body]
pub struct ExFromUtf8Error(std::string::FromUtf8Error);

/// `Aead::encrypt` of `Aes256Gcm` (built with `KeyInit::new` from `key`): fails exactly when
/// the plaintext is longer than `P_MAX`, the only check in `encrypt_in_place_detached` when
/// there is no associated data, and otherwise gives the sealed ciphertext, which
/// `Aead::decrypt` under the same key and nonce opens to the plaintext.
#[verifier::external_body]
pub(crate) fn aes256_gcm_encrypt(key: &[u8], nonce: &[u8], plaintext: &[u8]) -> (res: Result<Vec<u8>, aes_gcm::Error>)
    requires
        key@.len() == KEY_LEN,
        nonce@.len() == NONCE_LEN,
    ensures
        res is Ok <==> plaintext@.len() <= MAX_PLAINTEXT_LEN,
        res matches Ok(ciphertext) ==> ciphertext@ == aes256_gcm_seal(key@, nonce@, plaintext@),
        res matches Ok(ciphertext) ==> aes256_gcm_open(key@, nonce@, ciphertext@) == Some(plaintext@),
{
    let cipher = Aes256Gcm::new(GenericArray::from_slice(key));
    cipher.encrypt(Nonce::from_slice(nonce), plaintext)
}

/// `Aead::decrypt` of `Aes256Gcm` (built with `KeyInit::new` from `key`): gives the opened
/// plaintext when the tag authenticates the ciphertext and fails otherwise. A ciphertext that
/// `encrypt` sealed under the same key and nonce opens to the plaintext it was sealed from.
#[verifier::external_body]
pub(crate) fn aes256_gcm_decrypt(key: &[u8], nonce: &[u8], ciphertext: &[u8]) -> (res: Result<Vec<u8>, aes_gcm::Error>)
    requires
        key@.len() == KEY_LEN,
        nonce@.len() == NONCE_LEN,
    ensures
        res is Ok <==> aes256_gcm_open(key@, nonce@, ciphertext@) is Some,
        res matches Ok(plaintext) ==> aes256_gcm_open(key@, nonce@, ciphertext@) == Some(plaintext@),
        res is Ok ==> forall|plaintext: Seq<u8>|
            plaintext.len() <= MAX_PLAINTEXT_LEN && #[trigger] aes256_gcm_seal(key@, nonce@, plaintext) == ciphertext@
                ==> aes256_gcm_open(key@, nonce@, ciphertext@) == Some(plaintext),
        res is Err ==> forall|plaintext: Seq<u8>|
            plaintext.len() <= MAX_PLAINTEXT_LEN ==> #[trigger] aes256_gcm_seal(key@, nonce@, plaintext) != ciphertext@,
{
    let cipher = Aes256Gcm::new(GenericArray::from_slice(key));
    cipher.decrypt(Nonce::from_slice(nonce), ciphertext)
}

/// `AeadCore::generate_nonce` of `Aes256Gcm` with `OsRng`: a fresh random nonce of
/// `NONCE_LEN` bytes. Which bytes come out is left open.
#[verifier::external_body]
pub(crate) fn random_nonce() -> (nonce: Vec<u8>)
    ensures
        nonce@.len() == NONCE_LEN,
{
    Aes256Gcm::generate_nonce(&mut OsRng).to_vec()
}

/// `String::from_utf8`: succeeds exactly on well-formed UTF-8 and then holds the characters
/// that the bytes encode.
#[verifier::external_body]
pub(crate) fn string_from_utf8(bytes: Vec<u8>) -> (res: Result<String, std::string::FromUtf8Error>)
    ensures
        res is Ok <==> valid_utf8(bytes@),
        res matches Ok(text) ==> text@ == decode_utf8(bytes@),
{
    String::from_utf8(bytes)
}

} // verus!
