use vstd::prelude::*;

use crate::error::EncryptError;

verus! {

/// Length in bytes of an AES-256-GCM key.
pub const KEY_LEN: usize = 32;

/// Length in bytes of an AES-256-GCM nonce.
pub const NONCE_LEN: usize = 12;

/// Length in bytes of the authentication tag that sealing appends.
pub const TAG_LEN: usize = 16;

/// The longest input that AES-256-GCM seals under one nonce: 2^32 - 2 blocks
/// of 16 bytes, as NIST SP 800-38D allows.
pub const MAX_SEAL_LEN: u64 = 68719476704;

#[verifier::external_type_specification]
#[verifier::external_body]
pub struct ExUnspecified(ring::error::Unspecified);

#[verifier::external_type_specification]
#[verifier::external_body]
pub struct ExLessSafeKey(ring::aead::LessSafeKey);

#[verifier::external_type_specification]
#[verifier::external_body]
pub struct ExNonce(ring::aead::Nonce);

/// What AES-256-GCM makes of `plain` under `key` and `nonce`, with empty
/// associated data: the ciphertext followed by the 16-byte tag.
pub uninterp spec fn sealed(key: Seq<u8>, nonce: Seq<u8>, plain: Seq<u8>) -> Seq<u8>;

/// What AES-256-GCM makes of `data` (ciphertext followed by tag) under `key`
/// and `nonce`, with empty associated data: the plaintext when the tag
/// authenticates the ciphertext, `None` otherwise.
pub uninterp spec fn opened(key: Seq<u8>, nonce: Seq<u8>, data: Seq<u8>) -> Option<Seq<u8>>;

/// Relies on `ring::aead::UnboundKey::new` with `AES_256_GCM`, which fails
/// exactly when the key material is not 32 bytes long, and on
/// `LessSafeKey::new`, which only rewraps the key. The key is paired with the
/// material it was made from.
#[verifier::external_body]
fn ring_key(material: &[u8]) -> (r: Result<CipherKey, ring::error::Unspecified>)
    ensures
        r is Ok <==> material@.len() == KEY_LEN,
        r matches Ok(k) ==> k@ == material@,
{
    let key = ring::aead::UnboundKey::new(&ring::aead::AES_256_GCM, material)?;
    Ok(CipherKey { inner: ring::aead::LessSafeKey::new(key), material: Ghost(material@) })
}

/// Relies on `ring::aead::Nonce::try_assume_unique_for_key`, which fails
/// exactly when the value is not 12 bytes long. The nonce is paired with the
/// value it was made from.
#[verifier::external_body]
fn ring_nonce(value: &[u8]) -> (r: Result<CipherNonce, ring::error::Unspecified>)
    ensures
        r is Ok <==> value@.len() == NONCE_LEN,
        r matches Ok(n) ==> n@ == value@,
{
    let inner = ring::aead::Nonce::try_assume_unique_for_key(value)?;
    Ok(CipherNonce { inner, bytes: Ghost(value@) })
}

/// Relies on `LessSafeKey::seal_in_place_append_tag` with empty associated
/// data. It fails, before it writes anything, only when the input is longer
/// than AES-GCM allows; otherwise it encrypts the buffer in place and extends
/// it by the 16-byte tag. That opening the result with the same key and nonce
/// gives the input back is the correctness of the AEAD that it implements.
#[verifier::external_body]
fn ring_seal(
    key: &CipherKey,
    nonce: CipherNonce,
    buf: &mut Vec<u8>,
) -> (r: Result<(), ring::error::Unspecified>)
    ensures
        r is Ok <==> old(buf)@.len() <= MAX_SEAL_LEN,
        r is Ok ==> final(buf)@ == sealed(key@, nonce@, old(buf)@),
        r is Ok ==> final(buf)@.len() == old(buf)@.len() + TAG_LEN,
        r is Ok ==> opened(key@, nonce@, final(buf)@) == Some(old(buf)@),
{
    key.inner.seal_in_place_append_tag(nonce.inner, ring::aead::Aad::empty(), buf)
}

/// Relies on `LessSafeKey::open_in_place` with empty associated data. It
/// fails when the buffer is shorter than the 16-byte tag or when the tag does
/// not authenticate the bytes before it; otherwise it decrypts those bytes in
/// place and returns them, as the first `len - 16` bytes of the buffer. The
/// buffer keeps its length either way. Since the tag is computed from the
/// ciphertext, and the ciphertext from the plaintext, a buffer that opens is
/// exactly the sealing of what it opens to.
#[verifier::external_body]
fn ring_open(
    key: &CipherKey,
    nonce: CipherNonce,
    buf: &mut Vec<u8>,
) -> (r: Result<usize, ring::error::Unspecified>)
    ensures
        final(buf)@.len() == old(buf)@.len(),
        old(buf)@.len() < TAG_LEN ==> r is Err,
        r is Ok <==> opened(key@, nonce@, old(buf)@) is Some,
        r matches Ok(n) ==> n + TAG_LEN == old(buf)@.len(),
        r matches Ok(n) ==> opened(key@, nonce@, old(buf)@) == Some(final(buf)@.subrange(0, n as int)),
        r matches Ok(n) ==> sealed(key@, nonce@, final(buf)@.subrange(0, n as int)) == old(buf)@,
{
    match key.inner.open_in_place(nonce.inner, ring::aead::Aad::empty(), buf.as_mut_slice()) {
        Ok(plain) => Ok(plain.len()),
        Err(e) => Err(e),
    }
}

/// An AES-256-GCM key, built from raw key material.
///
/// `material` is the byte sequence that `inner` was made from; `ring_key` is
/// the only place that builds one.
pub struct CipherKey {
    inner: ring::aead::LessSafeKey,
    material: Ghost<Seq<u8>>,
}

/// A 12-byte nonce, to be used for one sealing or opening.
///
/// `bytes` is the value that `inner` was made from; `ring_nonce` is the only
/// place that builds one.
struct CipherNonce {
    inner: ring::aead::Nonce,
    bytes: Ghost<Seq<u8>>,
}

impl View for CipherKey {
    type V = Seq<u8>;

    /// The key material, used as is: no derivation is applied.
    closed spec fn view(&self) -> Seq<u8> {
        self.material@
    }
}

impl View for CipherNonce {
    type V = Seq<u8>;

    closed spec fn view(&self) -> Seq<u8> {
        self.bytes@
    }
}

impl CipherKey {
    /// Builds a key from `password`, whose bytes are the key itself. Fails
    /// with `AeadError` unless it is exactly 32 bytes long.
    pub fn new(password: &[u8]) -> (r: Result<CipherKey, EncryptError>)
        ensures
            r is Ok <==> password@.len() == KEY_LEN,
            r matches Ok(k) ==> k@ == password@,
            r matches Err(e) ==> e == EncryptError::AeadError,
    {
        match ring_key(password) {
            Ok(key) => Ok(key),
            Err(e) => Err(EncryptError::from(e)),
        }
    }
}

impl CipherNonce {
    /// Takes `value` as a nonce. Fails with `AeadError` unless it is exactly
    /// 12 bytes long.
    fn new(value: &[u8]) -> (r: Result<CipherNonce, EncryptError>)
        ensures
            r is Ok <==> value@.len() == NONCE_LEN,
            r matches Ok(n) ==> n@ == value@,
            r matches Err(e) ==> e == EncryptError::AeadError,
    {
        match ring_nonce(value) {
            Ok(nonce) => Ok(nonce),
            Err(e) => Err(EncryptError::from(e)),
        }
    }
}

/// Seals `buf` in place under `key` and `nonce`, with empty associated data:
/// the buffer becomes the ciphertext followed by the 16-byte tag.
///
/// Fails with `AeadError` when the nonce is not 12 bytes long or the buffer is
/// longer than AES-GCM can seal. The output is a function of the key, the
/// nonce and the input alone, and opening it gives the input back.
pub fn seal_in_place(
    key: &CipherKey,
    nonce: &[u8],
    buf: &mut Vec<u8>,
) -> (r: Result<(), EncryptError>)
    ensures
        r is Ok <==> nonce@.len() == NONCE_LEN && old(buf)@.len() <= MAX_SEAL_LEN,
        r is Ok ==> final(buf)@ == sealed(key@, nonce@, old(buf)@),
        r is Ok ==> final(buf)@.len() == old(buf)@.len() + TAG_LEN,
        r is Ok ==> opened(key@, nonce@, final(buf)@) == Some(old(buf)@),
        r matches Err(e) ==> e == EncryptError::AeadError,
{
    let nonce = CipherNonce::new(nonce)?;
    match ring_seal(key, nonce, buf) {
        Ok(()) => Ok(()),
        Err(e) => Err(EncryptError::from(e)),
    }
}

/// Opens `buf` in place under `key` and `nonce`, with empty associated data:
/// when its last 16 bytes authenticate the bytes before them, the buffer
/// becomes the plaintext, one tag shorter.
///
/// Fails with `AeadError` when the nonce is not 12 bytes long or the buffer
/// does not authenticate. On failure the buffer is emptied, so that nothing
/// decrypted from an unauthenticated input is left in it.
pub fn open_in_place(
    key: &CipherKey,
    nonce: &[u8],
    buf: &mut Vec<u8>,
) -> (r: Result<(), EncryptError>)
    ensures
        r is Ok <==> nonce@.len() == NONCE_LEN && opened(key@, nonce@, old(buf)@) is Some,
        r is Ok ==> opened(key@, nonce@, old(buf)@) == Some(final(buf)@),
        r is Ok ==> sealed(key@, nonce@, final(buf)@) == old(buf)@,
        r is Ok ==> final(buf)@.len() + TAG_LEN == old(buf)@.len(),
        old(buf)@.len() < TAG_LEN ==> r is Err,
        r matches Err(e) ==> e == EncryptError::AeadError,
        r is Err ==> final(buf)@.len() == 0,
{
    let nonce = match CipherNonce::new(nonce) {
        Ok(n) => n,
        Err(e) => {
            buf.clear();
            return Err(e);
        },
    };
    match ring_open(key, nonce, buf) {
        Ok(n) => {
            buf.truncate(n);
            Ok(())
        },
        Err(e) => {
            buf.clear();
            Err(EncryptError::from(e))
        },
    }
}

} // verus!
