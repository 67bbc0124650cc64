use base64::Engine;
use rust_aes256::{CipherError, AES256};

fn decode(token: &str) -> Vec<u8> {
    base64::engine::general_purpose::STANDARD.decode(token).unwrap()
}

fn encode(bytes: &[u8]) -> String {
    base64::engine::general_purpose::STANDARD.encode(bytes)
}

#[test]
fn test_success() {
    let password: &str = "secret";
    let original: &str = "Original string";

    let aes256: AES256 = AES256::new(password.as_bytes());
    let encrypted: String = aes256.encrypt(&original).expect("Unable to encrypt original message");
    let decrypted: String = aes256.decrypt(&encrypted).expect("Unable to decrypt encrypted message");

    assert_eq!(original, decrypted);
}

#[test]
#[should_panic(expected = "Unable to decrypt encrypted message")]
fn test_failure() {
    let password: &str = "secret";
    let original: &str = "Original string";

    let aes256: AES256 = AES256::new(password.as_bytes());
    let encrypted: String = aes256.encrypt(&original).expect("Unable to encrypt original message");
    let broken: String = encrypted.to_lowercase();
    let _: String = aes256.decrypt(&broken).expect("Unable to decrypt encrypted message");
}

#[test]
fn two_encryptions_differ_and_both_round_trip() {
    let aes256 = AES256::new(b"secret");
    let first = aes256.encrypt("same text").unwrap();
    let second = aes256.encrypt("same text").unwrap();
    assert_ne!(first, second);
    assert_eq!(aes256.decrypt(&first), Ok("same text".to_string()));
    assert_eq!(aes256.decrypt(&second), Ok("same text".to_string()));
}

#[test]
fn wrong_password_fails() {
    let token = AES256::new(b"first password").encrypt("Original string").unwrap();
    let r = AES256::new(b"second password").decrypt(&token);
    assert!(matches!(r, Err(CipherError::Padding) | Err(CipherError::Encoding)));
}

#[test]
fn lowercased_token_does_not_decrypt() {
    let aes256 = AES256::new(b"secret");
    let token = aes256.encrypt("Original string").unwrap();
    let r = aes256.decrypt(&token.to_lowercase());
    assert!(r.is_err());
}

#[test]
fn invalid_base64_is_a_decode_error() {
    let aes256 = AES256::new(b"secret");
    assert_eq!(aes256.decrypt("not base64!"), Err(CipherError::Decode));
    assert_eq!(aes256.decrypt("A"), Err(CipherError::Decode));
}

#[test]
fn short_token_is_a_format_error() {
    let aes256 = AES256::new(b"secret");
    assert_eq!(aes256.decrypt(""), Err(CipherError::Format));
    assert_eq!(aes256.decrypt("AAAA"), Err(CipherError::Format));
    assert_eq!(aes256.decrypt(&encode(&[7u8; 23])), Err(CipherError::Format));
    assert_eq!(aes256.decrypt_bytes(&[0u8; 10]), Err(CipherError::Format));
}

#[test]
fn header_without_whole_block_is_a_padding_error() {
    let aes256 = AES256::new(b"secret");
    assert_eq!(aes256.decrypt_bytes(&[0u8; 24]), Err(CipherError::Padding));
    assert_eq!(aes256.decrypt_bytes(&[0u8; 29]), Err(CipherError::Padding));
}

#[test]
fn empty_plaintext_round_trips() {
    let aes256 = AES256::new(b"secret");
    let token = aes256.encrypt("").unwrap();
    assert_eq!(decode(&token).len(), 24 + 16);
    assert_eq!(aes256.decrypt(&token), Ok(String::new()));
}

#[test]
fn empty_password_is_accepted() {
    let aes256 = AES256::new(b"");
    let token = aes256.encrypt("text").unwrap();
    assert_eq!(aes256.decrypt(&token), Ok("text".to_string()));
}

#[test]
fn token_for_fifteen_bytes_has_one_block() {
    let aes256 = AES256::new("secret".as_bytes());
    let token = aes256.encrypt("Original string").unwrap();
    assert_eq!(decode(&token).len(), 40);
    assert_eq!(token.len(), 56);
    assert_eq!(aes256.decrypt(&token), Ok("Original string".to_string()));
}

#[test]
fn token_for_sixteen_bytes_has_two_blocks() {
    let aes256 = AES256::new(b"secret");
    let token = aes256.encrypt("Original strings").unwrap();
    assert_eq!(decode(&token).len(), 56);
    assert_eq!(token.len(), 76);
    assert_eq!(aes256.decrypt(&token), Ok("Original strings".to_string()));
}

#[test]
fn non_ascii_text_round_trips() {
    let aes256 = AES256::new(b"secret");
    let text = "grüße, 世界 — ✓";
    let token = aes256.encrypt(text).unwrap();
    assert_eq!(aes256.decrypt(&token), Ok(text.to_string()));
}

#[test]
fn chosen_salt_and_iv_lead_the_token() {
    let aes256 = AES256::new(b"secret");
    let salt = [1u8, 2, 3, 4, 5, 6, 7, 8];
    let iv = [9u8; 16];
    let token = aes256.encrypt_with("Original string", &salt, &iv).unwrap();
    let bytes = decode(&token);
    assert_eq!(&bytes[..8], &salt);
    assert_eq!(&bytes[8..24], &iv);
    assert_eq!(bytes.len(), 40);
    assert_ne!(&bytes[24..], b"Original string\x01");
    assert_eq!(aes256.decrypt_bytes(&bytes), Ok("Original string".to_string()));
}

#[test]
fn chosen_salt_and_iv_give_the_same_token() {
    let aes256 = AES256::new(b"secret");
    let salt = [3u8; 8];
    let iv = [4u8; 16];
    let first = aes256.encrypt_with("text", &salt, &iv).unwrap();
    let second = aes256.encrypt_with("text", &salt, &iv).unwrap();
    assert_eq!(first, second);
}

#[test]
fn key_depends_on_password_and_salt() {
    let iv = [4u8; 16];
    let a = AES256::new(b"one").encrypt_with("text", &[3u8; 8], &iv).unwrap();
    let b = AES256::new(b"two").encrypt_with("text", &[3u8; 8], &iv).unwrap();
    let c = AES256::new(b"one").encrypt_with("text", &[5u8; 8], &iv).unwrap();
    assert_ne!(decode(&a)[24..], decode(&b)[24..]);
    assert_ne!(decode(&a)[24..], decode(&c)[24..]);
}

#[test]
fn invalid_utf8_after_decryption_is_an_encoding_error() {
    let aes256 = AES256::new(b"secret");
    let salt = [1u8; 8];
    let iv = [2u8; 16];
    let token = aes256.encrypt_with("aaaaaaaaaaaaaaa", &salt, &iv).unwrap();
    let mut bytes = decode(&token);
    // flipping an IV bit flips the same bit of the first plaintext block
    bytes[8] ^= b'a' ^ 0xff;
    assert_eq!(aes256.decrypt_bytes(&bytes), Err(CipherError::Encoding));
    assert_eq!(aes256.decrypt(&encode(&bytes)), Err(CipherError::Encoding));
}
