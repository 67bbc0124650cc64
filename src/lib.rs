//! Password-based encryption of text into self-contained base64 tokens.

pub mod cipher;
pub mod primitives;
pub mod token;

pub use cipher::{AES256, CipherError};
