//! The token layout: `salt ‖ iv ‖ ciphertext`, with fixed-size salt and IV.
use vstd::prelude::*;

verus! {

/// Bytes of random salt at the start of every token.
pub const SALT_SIZE: usize = 8;

/// Bytes of the CBC initialization vector that follow the salt.
pub const INITIALIZATION_VECTOR_SIZE: usize = 16;

/// Bytes before the ciphertext starts: salt and IV.
pub const HEADER_SIZE: usize = SALT_SIZE + INITIALIZATION_VECTOR_SIZE;

/// The token bytes made of a salt, an IV and a ciphertext, in that order.
pub open spec fn packed(salt: Seq<u8>, iv: Seq<u8>, ciphertext: Seq<u8>) -> Seq<u8> {
    salt + iv + ciphertext
}

/// The salt of a token that holds at least a header.
pub open spec fn salt_of(bytes: Seq<u8>) -> Seq<u8> {
    bytes.subrange(0, SALT_SIZE as int)
}

/// The IV of a token that holds at least a header.
pub open spec fn iv_of(bytes: Seq<u8>) -> Seq<u8> {
    bytes.subrange(SALT_SIZE as int, HEADER_SIZE as int)
}

/// The ciphertext of a token that holds at least a header.
pub open spec fn ciphertext_of(bytes: Seq<u8>) -> Seq<u8> {
    bytes.subrange(HEADER_SIZE as int, bytes.len() as int)
}

/// Lays out `salt ‖ iv ‖ ciphertext` in one buffer.
pub fn pack_token(salt: &[u8], iv: &[u8], ciphertext: &[u8]) -> (r: Vec<u8>)
    requires
        salt@.len() + iv@.len() + ciphertext@.len() <= usize::MAX,
    ensures
        r@ == packed(salt@, iv@, ciphertext@),
{
    let mut r: Vec<u8> = Vec::new();
    r.extend_from_slice(salt);
    r.extend_from_slice(iv);
    r.extend_from_slice(ciphertext);
    assert(r@ =~= packed(salt@, iv@, ciphertext@));
    r
}

/// Cuts token bytes into salt, IV and ciphertext; `None` when they are too
/// short to hold a salt and an IV.
pub fn split_token(bytes: &[u8]) -> (r: Option<(&[u8], &[u8], &[u8])>)
    ensures
        r is Some <==> bytes@.len() >= HEADER_SIZE,
        r matches Some((s, i, c)) ==> s@ == salt_of(bytes@) && i@ == iv_of(bytes@)
            && c@ == ciphertext_of(bytes@),
{
    if bytes.len() < HEADER_SIZE {
        None
    } else {
        let salt = &bytes[0..SALT_SIZE];
        let iv = &bytes[SALT_SIZE..HEADER_SIZE];
        let ciphertext = &bytes[HEADER_SIZE..bytes.len()];
        Some((salt, iv, ciphertext))
    }
}

/// Splitting what was packed gives back the three parts.
pub proof fn lemma_split_packed(salt: Seq<u8>, iv: Seq<u8>, ciphertext: Seq<u8>)
    requires
        salt.len() == SALT_SIZE,
        iv.len() == INITIALIZATION_VECTOR_SIZE,
    ensures
        packed(salt, iv, ciphertext).len() >= HEADER_SIZE,
        salt_of(packed(salt, iv, ciphertext)) == salt,
        iv_of(packed(salt, iv, ciphertext)) == iv,
        ciphertext_of(packed(salt, iv, ciphertext)) == ciphertext,
{
    let b = packed(salt, iv, ciphertext);
    assert(salt_of(b) =~= salt);
    assert(iv_of(b) =~= iv);
    assert(ciphertext_of(b) =~= ciphertext);
}

} // verus!
