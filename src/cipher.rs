//! Password-based encryption of text into base64 tokens and back.
use vstd::prelude::*;
use vstd::utf8::*;
use crate::primitives::{
    aes256_cbc_decrypt, aes256_cbc_decrypt_of, aes256_cbc_encrypt, aes256_cbc_encrypt_of,
    base64_decode, base64_decode_of, base64_encode, base64_encode_of, pbkdf2_hmac_sha256,
    pbkdf2_hmac_sha256_of, random_bytes,
};
use crate::token::{
    ciphertext_of, iv_of, lemma_split_packed, pack_token, packed, salt_of, split_token,
    HEADER_SIZE, INITIALIZATION_VECTOR_SIZE, SALT_SIZE,
};

verus! {

broadcast use group_utf8_lib;

/// Length in bytes of the AES-256 key derived from the password.
pub const KEY_LENGTH: usize = 32;

/// PBKDF2 iterations used to derive a key.
pub const ITERATIONS: u32 = 4096;

/// Why encrypting or decrypting failed.
#[derive(Debug, Clone, Copy, PartialEq, Eq, Structural)]
pub enum CipherError {
    /// The token is not valid base64.
    Decode,
    /// The decoded token is shorter than a salt and an IV.
    Format,
    /// The block cipher refused the key or the IV.
    CipherInit,
    /// The padding of the decrypted data is not valid: wrong password or
    /// damaged token.
    Padding,
    /// The decrypted bytes are not UTF-8.
    Encoding,
}

/// The key derived from a password and a salt.
pub open spec fn derived_key(password: Seq<u8>, salt: Seq<u8>) -> Seq<u8> {
    pbkdf2_hmac_sha256_of(password, salt, ITERATIONS, KEY_LENGTH as nat)
}

/// The token bytes for a plaintext sealed under a password with a given salt and IV.
pub open spec fn sealed(password: Seq<u8>, text: Seq<char>, salt: Seq<u8>, iv: Seq<u8>) -> Seq<u8> {
    packed(salt, iv, aes256_cbc_encrypt_of(derived_key(password, salt), iv, encode_utf8(text)))
}

/// The token text for a plaintext sealed under a password with a given salt and IV.
pub open spec fn token(password: Seq<u8>, text: Seq<char>, salt: Seq<u8>, iv: Seq<u8>) -> Seq<char> {
    base64_encode_of(sealed(password, text, salt, iv))
}

/// What opening token bytes under a password gives.
pub open spec fn opened_bytes(password: Seq<u8>, bytes: Seq<u8>) -> Result<Seq<char>, CipherError> {
    if bytes.len() < HEADER_SIZE {
        Err(CipherError::Format)
    } else {
        match aes256_cbc_decrypt_of(
            derived_key(password, salt_of(bytes)),
            iv_of(bytes),
            ciphertext_of(bytes),
        ) {
            None => Err(CipherError::Padding),
            Some(plain) => if valid_utf8(plain) {
                Ok(decode_utf8(plain))
            } else {
                Err(CipherError::Encoding)
            },
        }
    }
}

/// What opening a token text under a password gives.
pub open spec fn opened(password: Seq<u8>, text: Seq<char>) -> Result<Seq<char>, CipherError> {
    match base64_decode_of(text) {
        None => Err(CipherError::Decode),
        Some(bytes) => opened_bytes(password, bytes),
    }
}

/// Length of the token text for a plaintext of `text_bytes` UTF-8 bytes: the
/// header, the plaintext padded to the next whole 16-byte block, in base64.
pub open spec fn token_len(text_bytes: nat) -> nat {
    (4 * ((HEADER_SIZE + 16 * (text_bytes / 16 + 1) + 2) / 3)) as nat
}

/// A result with its text seen as characters.
pub open spec fn outcome(r: Result<String, CipherError>) -> Result<Seq<char>, CipherError> {
    match r {
        Ok(s) => Ok(s@),
        Err(e) => Err(e),
    }
}

/// Encrypts and decrypts text under one password.
pub struct AES256<'a> {
    password: &'a [u8],
}

impl<'a> AES256<'a> {
    /// The password that this instance derives its keys from.
    pub closed spec fn password(&self) -> Seq<u8> {
        self.password@
    }

    /// Makes an instance for `password`; any password, the empty one too, is
    /// accepted.
    pub fn new(password: &'a [u8]) -> (r: Self)
        ensures
            r.password() == password@,
    {
        AES256 { password }
    }

    /// Encrypts `text` under a fresh random salt and IV. The token decrypts
    /// back to `text` under the same password. The bound on the text's length
    /// keeps the token's length within what a buffer can hold.
    pub fn encrypt(&self, text: &str) -> (r: Result<String, CipherError>)
        requires
            encode_utf8(text@).len() <= usize::MAX / 4,
        ensures
            r is Ok,
            r matches Ok(t) ==> exists|salt: Seq<u8>, iv: Seq<u8>|
                salt.len() == SALT_SIZE && iv.len() == INITIALIZATION_VECTOR_SIZE
                    && #[trigger] token(self.password(), text@, salt, iv) == t@,
            r matches Ok(t) ==> t@.len() == token_len(encode_utf8(text@).len()),
            r matches Ok(t) ==> opened(self.password(), t@) == Ok::<Seq<char>, CipherError>(text@),
    {
        let salt = self.generate_random_salt();
        let iv = self.generate_random_initialization_vector();
        self.encrypt_with(text, salt.as_slice(), iv.as_slice())
    }

    /// Encrypts `text` with the given salt and IV in place of random ones.
    pub fn encrypt_with(&self, text: &str, salt: &[u8], iv: &[u8]) -> (r: Result<String, CipherError>)
        requires
            encode_utf8(text@).len() <= usize::MAX / 4,
            salt@.len() == SALT_SIZE,
            iv@.len() == INITIALIZATION_VECTOR_SIZE,
        ensures
            r is Ok,
            r matches Ok(t) ==> t@ == token(self.password(), text@, salt@, iv@),
            r matches Ok(t) ==> t@.len() == token_len(encode_utf8(text@).len()),
            r matches Ok(t) ==> opened(self.password(), t@) == Ok::<Seq<char>, CipherError>(text@),
    {
        let key = self.generate_key(salt);
        let plain = text.as_bytes();
        let ciphertext = match aes256_cbc_encrypt(key.as_slice(), iv, plain) {
            Ok(c) => c,
            Err(_) => {
                return Err(CipherError::CipherInit);
            },
        };
        let bytes = pack_token(salt, iv, ciphertext.as_slice());
        let t = base64_encode(bytes.as_slice());
        proof {
            lemma_split_packed(salt@, iv@, ciphertext@);
        }
        Ok(t)
    }

    /// Decrypts a token made by `encrypt` under the same password.
    pub fn decrypt(&self, encrypted_text: &str) -> (r: Result<String, CipherError>)
        ensures
            outcome(r) == opened(self.password(), encrypted_text@),
    {
        match base64_decode(encrypted_text) {
            Ok(bytes) => self.decrypt_bytes(bytes.as_slice()),
            Err(_) => Err(CipherError::Decode),
        }
    }

    /// Decrypts the decoded bytes of a token.
    pub fn decrypt_bytes(&self, bytes: &[u8]) -> (r: Result<String, CipherError>)
        ensures
            outcome(r) == opened_bytes(self.password(), bytes@),
    {
        let (salt, iv, ciphertext) = match split_token(bytes) {
            Some(parts) => parts,
            None => {
                return Err(CipherError::Format);
            },
        };
        let key = self.generate_key(salt);
        match aes256_cbc_decrypt(key.as_slice(), iv, ciphertext) {
            Ok(Ok(plain)) => match std::string::String::from_utf8(plain) {
                Ok(s) => Ok(s),
                Err(_) => Err(CipherError::Encoding),
            },
            Ok(Err(_)) => Err(CipherError::Padding),
            Err(_) => Err(CipherError::CipherInit),
        }
    }

    fn generate_random_salt(&self) -> (r: Vec<u8>)
        ensures
            r@.len() == SALT_SIZE,
    {
        random_bytes(SALT_SIZE)
    }

    fn generate_random_initialization_vector(&self) -> (r: Vec<u8>)
        ensures
            r@.len() == INITIALIZATION_VECTOR_SIZE,
    {
        random_bytes(INITIALIZATION_VECTOR_SIZE)
    }

    fn generate_key(&self, salt: &[u8]) -> (r: Vec<u8>)
        ensures
            r@ == derived_key(self.password(), salt@),
            r@.len() == KEY_LENGTH,
    {
        pbkdf2_hmac_sha256(self.password, salt, ITERATIONS, KEY_LENGTH)
    }
}

} // verus!
