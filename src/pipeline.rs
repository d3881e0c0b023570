use vstd::prelude::*;
use vstd::string::*;

use crate::cipher::{
    open_in_place, opened, seal_in_place, sealed, CipherKey, KEY_LEN, MAX_SEAL_LEN, NONCE_LEN,
    TAG_LEN,
};
use crate::error::EncryptError;
use crate::paths::{decrypted_path, decrypted_path_of, encrypted_path, encrypted_path_of};

verus! {

/// A file to be written: where, and with which bytes.
pub struct Artifact {
    pub path: String,
    pub contents: Vec<u8>,
}

/// What encrypting `plain` with `password` and `nonce` gives: `None` when the
/// password is not a 32-byte key, the nonce is not 12 bytes long, or `plain`
/// is too long for AES-GCM.
pub open spec fn encryption(password: Seq<u8>, nonce: Seq<u8>, plain: Seq<u8>) -> Option<Seq<u8>> {
    if password.len() == KEY_LEN && nonce.len() == NONCE_LEN && plain.len() <= MAX_SEAL_LEN {
        Some(sealed(password, nonce, plain))
    } else {
        None
    }
}

/// What decrypting `data` with `password` and `nonce` gives: `None` when the
/// password is not a 32-byte key, the nonce is not 12 bytes long, or `data`
/// does not authenticate under them.
pub open spec fn decryption(password: Seq<u8>, nonce: Seq<u8>, data: Seq<u8>) -> Option<Seq<u8>> {
    if password.len() == KEY_LEN && nonce.len() == NONCE_LEN {
        opened(password, nonce, data)
    } else {
        None
    }
}

/// Encrypts `contents`, the bytes read from the file at `file_path`, with the
/// bytes of `password` as key. The artifact holds the ciphertext followed by
/// the tag, and its path is `file_path` with ".enc" appended.
///
/// Decrypting the artifact's bytes with the same password and nonce gives
/// `contents` back.
pub fn encrypt(
    password: &str,
    file_path: &str,
    nonce: &[u8],
    contents: Vec<u8>,
) -> (r: Result<Artifact, EncryptError>)
    ensures
        r is Ok <==> encryption(password.spec_bytes(), nonce@, contents@) is Some,
        r matches Ok(a) ==> encryption(password.spec_bytes(), nonce@, contents@) == Some(a.contents@),
        r matches Ok(a) ==> a.path@ == encrypted_path_of(file_path@),
        r matches Ok(a) ==> a.contents@.len() == contents@.len() + TAG_LEN,
        r matches Ok(a) ==> decryption(password.spec_bytes(), nonce@, a.contents@) == Some(contents@),
        r matches Err(e) ==> e == EncryptError::AeadError,
        password.spec_bytes().len() != KEY_LEN ==> r is Err,
        nonce@.len() != NONCE_LEN ==> r is Err,
{
    let key = match CipherKey::new(password.as_bytes()) {
        Ok(k) => k,
        Err(e) => return Err(e),
    };
    let mut buf = contents;
    match seal_in_place(&key, nonce, &mut buf) {
        Ok(()) => Ok(Artifact { path: encrypted_path(file_path), contents: buf }),
        Err(e) => Err(e),
    }
}

/// Decrypts `contents`, the bytes read from the file at `file_path`, with the
/// bytes of `password` as key. The artifact holds the plaintext, and its path
/// is `file_path` up to its last '.' (all of it when it holds none).
///
/// Fails with `AeadError`, and gives no artifact, when the password or the
/// nonce has the wrong length or the contents do not authenticate. Contents
/// that decrypt are exactly the sealing of the plaintext they give.
pub fn decrypt(
    password: &str,
    file_path: &str,
    nonce: &[u8],
    contents: Vec<u8>,
) -> (r: Result<Artifact, EncryptError>)
    ensures
        r is Ok <==> decryption(password.spec_bytes(), nonce@, contents@) is Some,
        r matches Ok(a) ==> decryption(password.spec_bytes(), nonce@, contents@) == Some(a.contents@),
        r matches Ok(a) ==> a.path@ == decrypted_path_of(file_path@),
        r matches Ok(a) ==> a.contents@.len() + TAG_LEN == contents@.len(),
        r matches Ok(a) ==> sealed(password.spec_bytes(), nonce@, a.contents@) == contents@,
        r matches Err(e) ==> e == EncryptError::AeadError,
        password.spec_bytes().len() != KEY_LEN ==> r is Err,
        nonce@.len() != NONCE_LEN ==> r is Err,
        contents@.len() < TAG_LEN ==> r is Err,
{
    let key = match CipherKey::new(password.as_bytes()) {
        Ok(k) => k,
        Err(e) => return Err(e),
    };
    let mut buf = contents;
    match open_in_place(&key, nonce, &mut buf) {
        Ok(()) => Ok(Artifact { path: decrypted_path(file_path), contents: buf }),
        Err(e) => Err(e),
    }
}

/// Encryption is deterministic: the same password, nonce and plaintext always
/// give the same bytes.
pub proof fn lemma_encryption_deterministic(
    password: Seq<u8>,
    nonce: Seq<u8>,
    plain: Seq<u8>,
    first: Seq<u8>,
    second: Seq<u8>,
)
    requires
        encryption(password, nonce, plain) == Some(first),
        encryption(password, nonce, plain) == Some(second),
    ensures
        first == second,
{
}

} // verus!
