//! The four AEAD primitives, as the `aes-gcm` and `chacha20poly1305` crates
//! provide them.
//!
//! Nothing in this module is proved. Each primitive is known to the rest of
//! the library by three names: for what sealing gives, for the tag that
//! belongs to a ciphertext, and for what opening gives. Three facts tie them,
//! under one key, nonce and associated data: sealing returns the tag that
//! belongs to the ciphertext it leaves, and opening succeeds exactly on that
//! tag; what was sealed opens to what it was sealed from; and what opens is
//! the sealing of what it opens to.

use aes_gcm::aead::generic_array::GenericArray;
use aes_gcm::{AeadInPlace, Aes128Gcm, Aes256Gcm, KeyInit};
use chacha20poly1305::{ChaCha20Poly1305, ChaCha8Poly1305};
use vstd::prelude::*;

verus! {

/// Length in bytes of the nonce of every primitive.
pub const NONCE_LEN: usize = 12;

/// The longest plaintext and the longest associated data, in bytes, that
/// AES-GCM takes.
pub const AES_GCM_MAX_LEN: u64 = 0x10_0000_0000;

/// The number of 64-byte keystream blocks of ChaCha: its block counter has
/// 32 bits, and the last value is not used.
pub const CHACHA_MAX_BLOCKS: u64 = 0xffff_ffff;

/// The longest message, in bytes, that ChaCha-Poly1305 takes: the first
/// keystream block is kept for the authenticator's key.
pub const CHACHA_MAX_LEN: u64 = (CHACHA_MAX_BLOCKS - 1) * 64;

/// Ciphertext followed by tag, as AES-128-GCM seals `plaintext`.
pub uninterp spec fn aes128_gcm_sealed(
    key: Seq<u8>,
    nonce: Seq<u8>,
    aad: Seq<u8>,
    plaintext: Seq<u8>,
) -> Seq<u8>;

/// The tag that AES-128-GCM computes for `ciphertext`.
pub uninterp spec fn aes128_gcm_tag(
    key: Seq<u8>,
    nonce: Seq<u8>,
    aad: Seq<u8>,
    ciphertext: Seq<u8>,
) -> Seq<u8>;

/// The plaintext that AES-128-GCM opens `sealed` to, a ciphertext followed by
/// its tag, or `None` where the tag does not authenticate it.
pub uninterp spec fn aes128_gcm_opened(
    key: Seq<u8>,
    nonce: Seq<u8>,
    aad: Seq<u8>,
    sealed: Seq<u8>,
) -> Option<Seq<u8>>;

/// Ciphertext followed by tag, as AES-256-GCM seals `plaintext`.
pub uninterp spec fn aes256_gcm_sealed(
    key: Seq<u8>,
    nonce: Seq<u8>,
    aad: Seq<u8>,
    plaintext: Seq<u8>,
) -> Seq<u8>;

/// The tag that AES-256-GCM computes for `ciphertext`.
pub uninterp spec fn aes256_gcm_tag(
    key: Seq<u8>,
    nonce: Seq<u8>,
    aad: Seq<u8>,
    ciphertext: Seq<u8>,
) -> Seq<u8>;

/// The plaintext that AES-256-GCM opens `sealed` to, a ciphertext followed by
/// its tag, or `None` where the tag does not authenticate it.
pub uninterp spec fn aes256_gcm_opened(
    key: Seq<u8>,
    nonce: Seq<u8>,
    aad: Seq<u8>,
    sealed: Seq<u8>,
) -> Option<Seq<u8>>;

/// Ciphertext followed by tag, as ChaCha20-Poly1305 seals `plaintext`.
pub uninterp spec fn chacha20_poly1305_sealed(
    key: Seq<u8>,
    nonce: Seq<u8>,
    aad: Seq<u8>,
    plaintext: Seq<u8>,
) -> Seq<u8>;

/// The tag that ChaCha20-Poly1305 computes for `ciphertext`.
pub uninterp spec fn chacha20_poly1305_tag(
    key: Seq<u8>,
    nonce: Seq<u8>,
    aad: Seq<u8>,
    ciphertext: Seq<u8>,
) -> Seq<u8>;

/// The plaintext that ChaCha20-Poly1305 opens `sealed` to, a ciphertext followed by
/// its tag, or `None` where the tag does not authenticate it.
pub uninterp spec fn chacha20_poly1305_opened(
    key: Seq<u8>,
    nonce: Seq<u8>,
    aad: Seq<u8>,
    sealed: Seq<u8>,
) -> Option<Seq<u8>>;

/// Ciphertext followed by tag, as ChaCha8-Poly1305 seals `plaintext`.
pub uninterp spec fn chacha8_poly1305_sealed(
    key: Seq<u8>,
    nonce: Seq<u8>,
    aad: Seq<u8>,
    plaintext: Seq<u8>,
) -> Seq<u8>;

/// The tag that ChaCha8-Poly1305 computes for `ciphertext`.
pub uninterp spec fn chacha8_poly1305_tag(
    key: Seq<u8>,
    nonce: Seq<u8>,
    aad: Seq<u8>,
    ciphertext: Seq<u8>,
) -> Seq<u8>;

/// The plaintext that ChaCha8-Poly1305 opens `sealed` to, a ciphertext followed by
/// its tag, or `None` where the tag does not authenticate it.
pub uninterp spec fn chacha8_poly1305_opened(
    key: Seq<u8>,
    nonce: Seq<u8>,
    aad: Seq<u8>,
    sealed: Seq<u8>,
) -> Option<Seq<u8>>;

/// Calls `encrypt_in_place_detached` of `aes_gcm::Aes128Gcm`. Trusted:
/// the buffer keeps its length and receives the ciphertext; the tag returned
/// is the one that the primitive computes for that ciphertext; both are
/// functions of the four inputs alone; and what was sealed opens again to the
/// plaintext. The key has the primitive's length, and
/// message and associated data are within the lengths that it takes, so that
/// it reports no error.
#[verifier::external_body]
pub(crate) fn aes128_gcm_seal(
    key: &[u8],
    nonce: &[u8; 12],
    aad: &[u8],
    buf: &mut [u8],
) -> (tag: [u8; 16])
    requires
        key@.len() == 16,
        aad@.len() <= AES_GCM_MAX_LEN,
        old(buf)@.len() <= AES_GCM_MAX_LEN,
    ensures
        final(buf)@.len() == old(buf)@.len(),
        final(buf)@ + tag@ == aes128_gcm_sealed(key@, nonce@, aad@, old(buf)@),
        tag@ == aes128_gcm_tag(key@, nonce@, aad@, final(buf)@),
        aes128_gcm_opened(key@, nonce@, aad@, final(buf)@ + tag@) == Some(old(buf)@),
{
    let cipher = Aes128Gcm::new(GenericArray::from_slice(key));
    let nonce = GenericArray::from_slice(nonce);
    cipher.encrypt_in_place_detached(nonce, aad, buf).unwrap().into()
}

/// Calls `decrypt_in_place_detached` of `aes_gcm::Aes128Gcm`. Trusted:
/// the buffer keeps its length; the call succeeds exactly where the tag
/// authenticates the ciphertext, and then leaves the plaintext in the buffer;
/// the outcome is a function of the five inputs alone. For a ciphertext that
/// is short enough to come from sealing, the tag authenticates it exactly
/// where it is the tag that the primitive computes for it, and the plaintext
/// left behind then seals to the ciphertext and tag that were opened. A
/// longer ciphertext is refused or opened, without panic.
#[verifier::external_body]
pub(crate) fn aes128_gcm_open(
    key: &[u8],
    nonce: &[u8; 12],
    aad: &[u8],
    buf: &mut [u8],
    tag: &[u8],
) -> (ok: bool)
    requires
        key@.len() == 16,
        tag@.len() == 16,
        aad@.len() <= AES_GCM_MAX_LEN,
    ensures
        final(buf)@.len() == old(buf)@.len(),
        ok == aes128_gcm_opened(key@, nonce@, aad@, old(buf)@ + tag@).is_some(),
        ok ==> final(buf)@ == aes128_gcm_opened(
            key@,
            nonce@,
            aad@,
            old(buf)@ + tag@,
        ).unwrap(),
        old(buf)@.len() <= AES_GCM_MAX_LEN ==> ok == (tag@ == aes128_gcm_tag(
            key@,
            nonce@,
            aad@,
            old(buf)@,
        )),
        ok && old(buf)@.len() <= AES_GCM_MAX_LEN ==> aes128_gcm_sealed(
            key@,
            nonce@,
            aad@,
            final(buf)@,
        ) == old(buf)@ + tag@,
{
    let cipher = Aes128Gcm::new(GenericArray::from_slice(key));
    let nonce = GenericArray::from_slice(nonce);
    let tag = GenericArray::from_slice(tag);
    cipher.decrypt_in_place_detached(nonce, aad, buf, tag).is_ok()
}

/// Calls `encrypt_in_place_detached` of `aes_gcm::Aes256Gcm`. Trusted:
/// the buffer keeps its length and receives the ciphertext; the tag returned
/// is the one that the primitive computes for that ciphertext; both are
/// functions of the four inputs alone; and what was sealed opens again to the
/// plaintext. The key has the primitive's length, and
/// message and associated data are within the lengths that it takes, so that
/// it reports no error.
#[verifier::external_body]
pub(crate) fn aes256_gcm_seal(
    key: &[u8],
    nonce: &[u8; 12],
    aad: &[u8],
    buf: &mut [u8],
) -> (tag: [u8; 16])
    requires
        key@.len() == 32,
        aad@.len() <= AES_GCM_MAX_LEN,
        old(buf)@.len() <= AES_GCM_MAX_LEN,
    ensures
        final(buf)@.len() == old(buf)@.len(),
        final(buf)@ + tag@ == aes256_gcm_sealed(key@, nonce@, aad@, old(buf)@),
        tag@ == aes256_gcm_tag(key@, nonce@, aad@, final(buf)@),
        aes256_gcm_opened(key@, nonce@, aad@, final(buf)@ + tag@) == Some(old(buf)@),
{
    let cipher = Aes256Gcm::new(GenericArray::from_slice(key));
    let nonce = GenericArray::from_slice(nonce);
    cipher.encrypt_in_place_detached(nonce, aad, buf).unwrap().into()
}

/// Calls `decrypt_in_place_detached` of `aes_gcm::Aes256Gcm`. Trusted:
/// the buffer keeps its length; the call succeeds exactly where the tag
/// authenticates the ciphertext, and then leaves the plaintext in the buffer;
/// the outcome is a function of the five inputs alone. For a ciphertext that
/// is short enough to come from sealing, the tag authenticates it exactly
/// where it is the tag that the primitive computes for it, and the plaintext
/// left behind then seals to the ciphertext and tag that were opened. A
/// longer ciphertext is refused or opened, without panic.
#[verifier::external_body]
pub(crate) fn aes256_gcm_open(
    key: &[u8],
    nonce: &[u8; 12],
    aad: &[u8],
    buf: &mut [u8],
    tag: &[u8],
) -> (ok: bool)
    requires
        key@.len() == 32,
        tag@.len() == 16,
        aad@.len() <= AES_GCM_MAX_LEN,
    ensures
        final(buf)@.len() == old(buf)@.len(),
        ok == aes256_gcm_opened(key@, nonce@, aad@, old(buf)@ + tag@).is_some(),
        ok ==> final(buf)@ == aes256_gcm_opened(
            key@,
            nonce@,
            aad@,
            old(buf)@ + tag@,
        ).unwrap(),
        old(buf)@.len() <= AES_GCM_MAX_LEN ==> ok == (tag@ == aes256_gcm_tag(
            key@,
            nonce@,
            aad@,
            old(buf)@,
        )),
        ok && old(buf)@.len() <= AES_GCM_MAX_LEN ==> aes256_gcm_sealed(
            key@,
            nonce@,
            aad@,
            final(buf)@,
        ) == old(buf)@ + tag@,
{
    let cipher = Aes256Gcm::new(GenericArray::from_slice(key));
    let nonce = GenericArray::from_slice(nonce);
    let tag = GenericArray::from_slice(tag);
    cipher.decrypt_in_place_detached(nonce, aad, buf, tag).is_ok()
}

/// Calls `encrypt_in_place_detached` of `chacha20poly1305::ChaCha20Poly1305`. Trusted:
/// the buffer keeps its length and receives the ciphertext; the tag returned
/// is the one that the primitive computes for that ciphertext; both are
/// functions of the four inputs alone; and what was sealed opens again to the
/// plaintext. The key has the primitive's length, and
/// the message is within the keystream that is left after the
/// authenticator's key was taken, so that the call neither reports an error
/// nor panics.
#[verifier::external_body]
pub(crate) fn chacha20_poly1305_seal(
    key: &[u8],
    nonce: &[u8; 12],
    aad: &[u8],
    buf: &mut [u8],
) -> (tag: [u8; 16])
    requires
        key@.len() == 32,
        old(buf)@.len() <= CHACHA_MAX_LEN,
    ensures
        final(buf)@.len() == old(buf)@.len(),
        final(buf)@ + tag@ == chacha20_poly1305_sealed(key@, nonce@, aad@, old(buf)@),
        tag@ == chacha20_poly1305_tag(key@, nonce@, aad@, final(buf)@),
        chacha20_poly1305_opened(key@, nonce@, aad@, final(buf)@ + tag@) == Some(old(buf)@),
{
    let cipher = ChaCha20Poly1305::new(GenericArray::from_slice(key));
    let nonce = GenericArray::from_slice(nonce);
    cipher.encrypt_in_place_detached(nonce, aad, buf).unwrap().into()
}

/// Calls `decrypt_in_place_detached` of `chacha20poly1305::ChaCha20Poly1305`. Trusted:
/// the buffer keeps its length; the call succeeds exactly where the tag is
/// the one that the primitive computes for the ciphertext, and then leaves
/// the plaintext in the buffer; the outcome is a function of the five inputs
/// alone; and the plaintext left behind seals to the ciphertext and tag that
/// were opened. The ciphertext is within the keystream that is left after the
/// authenticator's key was taken: on a longer one that authenticates, the
/// call panics.
#[verifier::external_body]
pub(crate) fn chacha20_poly1305_open(
    key: &[u8],
    nonce: &[u8; 12],
    aad: &[u8],
    buf: &mut [u8],
    tag: &[u8],
) -> (ok: bool)
    requires
        key@.len() == 32,
        tag@.len() == 16,
        old(buf)@.len() <= CHACHA_MAX_LEN,
    ensures
        final(buf)@.len() == old(buf)@.len(),
        ok == chacha20_poly1305_opened(key@, nonce@, aad@, old(buf)@ + tag@).is_some(),
        ok ==> final(buf)@ == chacha20_poly1305_opened(
            key@,
            nonce@,
            aad@,
            old(buf)@ + tag@,
        ).unwrap(),
        ok == (tag@ == chacha20_poly1305_tag(key@, nonce@, aad@, old(buf)@)),
        ok ==> chacha20_poly1305_sealed(key@, nonce@, aad@, final(buf)@) == old(buf)@ + tag@,
{
    let cipher = ChaCha20Poly1305::new(GenericArray::from_slice(key));
    let nonce = GenericArray::from_slice(nonce);
    let tag = GenericArray::from_slice(tag);
    cipher.decrypt_in_place_detached(nonce, aad, buf, tag).is_ok()
}

/// Calls `encrypt_in_place_detached` of `chacha20poly1305::ChaCha8Poly1305`. Trusted:
/// the buffer keeps its length and receives the ciphertext; the tag returned
/// is the one that the primitive computes for that ciphertext; both are
/// functions of the four inputs alone; and what was sealed opens again to the
/// plaintext. The key has the primitive's length, and
/// the message is within the keystream that is left after the
/// authenticator's key was taken, so that the call neither reports an error
/// nor panics.
#[verifier::external_body]
pub(crate) fn chacha8_poly1305_seal(
    key: &[u8],
    nonce: &[u8; 12],
    aad: &[u8],
    buf: &mut [u8],
) -> (tag: [u8; 16])
    requires
        key@.len() == 32,
        old(buf)@.len() <= CHACHA_MAX_LEN,
    ensures
        final(buf)@.len() == old(buf)@.len(),
        final(buf)@ + tag@ == chacha8_poly1305_sealed(key@, nonce@, aad@, old(buf)@),
        tag@ == chacha8_poly1305_tag(key@, nonce@, aad@, final(buf)@),
        chacha8_poly1305_opened(key@, nonce@, aad@, final(buf)@ + tag@) == Some(old(buf)@),
{
    let cipher = ChaCha8Poly1305::new(GenericArray::from_slice(key));
    let nonce = GenericArray::from_slice(nonce);
    cipher.encrypt_in_place_detached(nonce, aad, buf).unwrap().into()
}

/// Calls `decrypt_in_place_detached` of `chacha20poly1305::ChaCha8Poly1305`. Trusted:
/// the buffer keeps its length; the call succeeds exactly where the tag is
/// the one that the primitive computes for the ciphertext, and then leaves
/// the plaintext in the buffer; the outcome is a function of the five inputs
/// alone; and the plaintext left behind seals to the ciphertext and tag that
/// were opened. The ciphertext is within the keystream that is left after the
/// authenticator's key was taken: on a longer one that authenticates, the
/// call panics.
#[verifier::external_body]
pub(crate) fn chacha8_poly1305_open(
    key: &[u8],
    nonce: &[u8; 12],
    aad: &[u8],
    buf: &mut [u8],
    tag: &[u8],
) -> (ok: bool)
    requires
        key@.len() == 32,
        tag@.len() == 16,
        old(buf)@.len() <= CHACHA_MAX_LEN,
    ensures
        final(buf)@.len() == old(buf)@.len(),
        ok == chacha8_poly1305_opened(key@, nonce@, aad@, old(buf)@ + tag@).is_some(),
        ok ==> final(buf)@ == chacha8_poly1305_opened(
            key@,
            nonce@,
            aad@,
            old(buf)@ + tag@,
        ).unwrap(),
        ok == (tag@ == chacha8_poly1305_tag(key@, nonce@, aad@, old(buf)@)),
        ok ==> chacha8_poly1305_sealed(key@, nonce@, aad@, final(buf)@) == old(buf)@ + tag@,
{
    let cipher = ChaCha8Poly1305::new(GenericArray::from_slice(key));
    let nonce = GenericArray::from_slice(nonce);
    let tag = GenericArray::from_slice(tag);
    cipher.decrypt_in_place_detached(nonce, aad, buf, tag).is_ok()
}

} // verus!
