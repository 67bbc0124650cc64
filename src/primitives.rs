//! The outside primitives this library builds on, each behind one trusted item:
//! random bytes, PBKDF2-HMAC-SHA256, AES-256-CBC with PKCS#7 padding, base64
//! and UTF-8 decoding.
use vstd::prelude::*;
use vstd::utf8::*;
use block_modes::BlockMode;
use base64::Engine;

verus! {

#[verifier::external_type_specification]
#[verifier::external_body]
pub struct ExDecodeError(base64::DecodeError);

#[verifier::external_type_specification]
#[verifier::external_body]
pub struct ExInvalidKeyIvLength(block_modes::InvalidKeyIvLength);

#[verifier::external_type_specification]
#[verifier::external_body]
pub struct ExBlockModeError(block_modes::BlockModeError);

#[verifier::external_type_specification]
#[verifier::external_body]
pub struct ExFromUtf8Error(std::string::FromUtf8Error);

/// The key that PBKDF2 with HMAC-SHA256 derives from a password and a salt.
pub uninterp spec fn pbkdf2_hmac_sha256_of(
    password: Seq<u8>,
    salt: Seq<u8>,
    rounds: u32,
    key_len: nat,
) -> Seq<u8>;

/// The AES-256-CBC ciphertext, PKCS#7 padded, of a plaintext under a key and an IV.
pub uninterp spec fn aes256_cbc_encrypt_of(key: Seq<u8>, iv: Seq<u8>, plaintext: Seq<u8>) -> Seq<u8>;

/// The AES-256-CBC decryption of a ciphertext with its PKCS#7 padding removed,
/// or `None` when the padding is not valid.
pub uninterp spec fn aes256_cbc_decrypt_of(key: Seq<u8>, iv: Seq<u8>, ciphertext: Seq<u8>) -> Option<Seq<u8>>;

/// The standard, padded base64 encoding of a byte sequence.
pub uninterp spec fn base64_encode_of(bytes: Seq<u8>) -> Seq<char>;

/// The bytes that a text stands for in standard, padded base64, or `None` when
/// the text is not valid base64.
pub uninterp spec fn base64_decode_of(text: Seq<char>) -> Option<Seq<u8>>;

/// Relies on `rand::thread_rng` and `Rng::fill`: a buffer of `len` bytes drawn
/// from the thread-local cryptographically secure generator. Nothing is
/// promised of the bytes themselves.
#[verifier::external_body]
pub(crate) fn random_bytes(len: usize) -> (r: Vec<u8>)
    requires
        len <= usize::MAX / 2,
    ensures
        r@.len() == len,
{
    let mut buf = vec![0u8; len];
    rand::Rng::fill(&mut rand::thread_rng(), &mut buf[..]);
    buf
}

/// Relies on `pbkdf2::pbkdf2_hmac::<sha2::Sha256>`: fills a buffer of
/// `key_len` bytes with the key derived from `password` and `salt` in
/// `rounds` iterations; HMAC takes a key of any length, so it does not fail.
#[verifier::external_body]
pub(crate) fn pbkdf2_hmac_sha256(password: &[u8], salt: &[u8], rounds: u32, key_len: usize) -> (r: Vec<u8>)
    requires
        key_len <= 0x7fff_ffff,
    ensures
        r@ == pbkdf2_hmac_sha256_of(password@, salt@, rounds, key_len as nat),
        r@.len() == key_len,
{
    let mut key = vec![0u8; key_len];
    pbkdf2::pbkdf2_hmac::<sha2::Sha256>(password, salt, rounds, &mut key);
    key
}

/// Relies on `block_modes::Cbc::<aes::Aes256, Pkcs7>`: `new_from_slices`
/// accepts exactly a 32-byte key and a 16-byte IV, and `encrypt_vec` pads the
/// plaintext to the next whole 16-byte block (always adding 1 to 16 bytes)
/// and encrypts it, so that `decrypt_vec` with the same key and IV gives the
/// plaintext back.
#[verifier::external_body]
pub(crate) fn aes256_cbc_encrypt(key: &[u8], iv: &[u8], plaintext: &[u8]) -> (r: Result<Vec<u8>, block_modes::InvalidKeyIvLength>)
    requires
        plaintext@.len() + 16 <= usize::MAX / 2,
    ensures
        r is Ok <==> (key@.len() == 32 && iv@.len() == 16),
        r matches Ok(c) ==> c@ == aes256_cbc_encrypt_of(key@, iv@, plaintext@),
        r matches Ok(c) ==> c@.len() == 16 * (plaintext@.len() / 16 + 1),
        r matches Ok(c) ==> aes256_cbc_decrypt_of(key@, iv@, c@) == Some(plaintext@),
{
    match block_modes::Cbc::<aes::Aes256, block_modes::block_padding::Pkcs7>::new_from_slices(key, iv) {
        Ok(cipher) => Ok(cipher.encrypt_vec(plaintext)),
        Err(e) => Err(e),
    }
}

/// Relies on `block_modes::Cbc::<aes::Aes256, Pkcs7>`: `new_from_slices`
/// accepts exactly a 32-byte key and a 16-byte IV, and `decrypt_vec` decrypts
/// and strips the PKCS#7 padding, failing when the padding is not valid.
#[verifier::external_body]
pub(crate) fn aes256_cbc_decrypt(key: &[u8], iv: &[u8], ciphertext: &[u8]) -> (r: Result<Result<Vec<u8>, block_modes::BlockModeError>, block_modes::InvalidKeyIvLength>)
    ensures
        r is Ok <==> (key@.len() == 32 && iv@.len() == 16),
        r matches Ok(d) ==> (d is Ok <==> aes256_cbc_decrypt_of(key@, iv@, ciphertext@) is Some),
        r matches Ok(Ok(p)) ==> aes256_cbc_decrypt_of(key@, iv@, ciphertext@) == Some(p@),
{
    match block_modes::Cbc::<aes::Aes256, block_modes::block_padding::Pkcs7>::new_from_slices(key, iv) {
        Ok(cipher) => Ok(cipher.decrypt_vec(ciphertext)),
        Err(e) => Err(e),
    }
}

/// Relies on `base64::engine::general_purpose::STANDARD.encode`: four
/// characters for every started group of three bytes, which `decode` with the
/// same engine turns back into the bytes.
#[verifier::external_body]
pub(crate) fn base64_encode(bytes: &[u8]) -> (r: String)
    requires
        4 * (bytes@.len() / 3) + 4 <= usize::MAX / 2,
    ensures
        r@ == base64_encode_of(bytes@),
        r@.len() == 4 * ((bytes@.len() + 2) / 3),
        base64_decode_of(r@) == Some(bytes@),
{
    base64::engine::general_purpose::STANDARD.encode(bytes)
}

/// Relies on `base64::engine::general_purpose::STANDARD.decode`: the bytes
/// that the text encodes, or an error when it is not valid base64.
#[verifier::external_body]
pub(crate) fn base64_decode(text: &str) -> (r: Result<Vec<u8>, base64::DecodeError>)
    ensures
        r is Ok <==> base64_decode_of(text@) is Some,
        r matches Ok(b) ==> base64_decode_of(text@) == Some(b@),
{
    base64::engine::general_purpose::STANDARD.decode(text)
}

/// Relies on `String::from_utf8`: it succeeds exactly on valid UTF-8 and then
/// holds the text those bytes encode.
pub assume_specification[ std::string::String::from_utf8 ](vec: Vec<u8>) -> (r: Result<String, std::string::FromUtf8Error>)
    ensures
        r is Ok <==> valid_utf8(vec@),
        r matches Ok(s) ==> s@ == decode_utf8(vec@),
;

} // verus!
