//! What a sealed packet is: the protocol, stated over byte sequences.
//!
//! A packet is sealed under a sub-key derived from the master key and the
//! packet's salt, with an all-zero nonce and no associated data. The AES-GCM
//! algorithms also derive from the session identifier; the ChaCha-Poly1305
//! algorithms do not.

use crate::kdf::{spec_key_material, spec_sub_key};
use crate::kind::CipherKind;
use crate::kind::TAG_LEN;
use crate::primitive::{
    aes128_gcm_opened, aes128_gcm_sealed, aes128_gcm_tag, aes256_gcm_opened, aes256_gcm_sealed,
    aes256_gcm_tag, chacha20_poly1305_opened, chacha20_poly1305_sealed, chacha20_poly1305_tag,
    chacha8_poly1305_opened, chacha8_poly1305_sealed, chacha8_poly1305_tag, AES_GCM_MAX_LEN,
    CHACHA_MAX_LEN, NONCE_LEN,
};
use vstd::prelude::*;

verus! {

/// The longest plaintext, in bytes, that a packet can carry: what every
/// algorithm seals without error.
pub const MAX_PLAINTEXT_LEN: u64 = AES_GCM_MAX_LEN;

/// The nonce of every packet: twelve zero bytes.
pub open spec fn spec_zero_nonce() -> Seq<u8> {
    Seq::new(NONCE_LEN as nat, |i: int| 0u8)
}

/// The session identifier as far as the algorithm derives from it.
pub open spec fn spec_session_input(kind: CipherKind, session_id: u64) -> Option<u64> {
    if kind.spec_is_aead2022_aes_gcm() {
        Some(session_id)
    } else {
        None
    }
}

/// The bytes that are hashed to derive the sub-key of one packet.
pub open spec fn spec_packet_material(
    kind: CipherKind,
    key: Seq<u8>,
    session_id: u64,
    salt: Seq<u8>,
) -> Seq<u8> {
    spec_key_material(key, salt, spec_session_input(kind, session_id))
}

/// The sub-key of one packet.
pub open spec fn spec_packet_key(
    kind: CipherKind,
    key: Seq<u8>,
    session_id: u64,
    salt: Seq<u8>,
) -> Seq<u8> {
    spec_sub_key(key, salt, spec_session_input(kind, session_id), kind.spec_key_len())
}

/// Ciphertext and tag of `plaintext` under a sub-key.
pub open spec fn spec_seal(kind: CipherKind, sub_key: Seq<u8>, plaintext: Seq<u8>) -> Seq<u8> {
    match kind {
        CipherKind::AEAD2022_BLAKE3_AES_128_GCM => aes128_gcm_sealed(
            sub_key,
            spec_zero_nonce(),
            Seq::empty(),
            plaintext,
        ),
        CipherKind::AEAD2022_BLAKE3_AES_256_GCM => aes256_gcm_sealed(
            sub_key,
            spec_zero_nonce(),
            Seq::empty(),
            plaintext,
        ),
        CipherKind::AEAD2022_BLAKE3_CHACHA20_POLY1305 => chacha20_poly1305_sealed(
            sub_key,
            spec_zero_nonce(),
            Seq::empty(),
            plaintext,
        ),
        CipherKind::AEAD2022_BLAKE3_CHACHA8_POLY1305 => chacha8_poly1305_sealed(
            sub_key,
            spec_zero_nonce(),
            Seq::empty(),
            plaintext,
        ),
        _ => Seq::empty(),
    }
}

/// The tag that belongs to `ciphertext` under a sub-key.
pub open spec fn spec_expected_tag(
    kind: CipherKind,
    sub_key: Seq<u8>,
    ciphertext: Seq<u8>,
) -> Seq<u8> {
    match kind {
        CipherKind::AEAD2022_BLAKE3_AES_128_GCM => aes128_gcm_tag(
            sub_key,
            spec_zero_nonce(),
            Seq::empty(),
            ciphertext,
        ),
        CipherKind::AEAD2022_BLAKE3_AES_256_GCM => aes256_gcm_tag(
            sub_key,
            spec_zero_nonce(),
            Seq::empty(),
            ciphertext,
        ),
        CipherKind::AEAD2022_BLAKE3_CHACHA20_POLY1305 => chacha20_poly1305_tag(
            sub_key,
            spec_zero_nonce(),
            Seq::empty(),
            ciphertext,
        ),
        CipherKind::AEAD2022_BLAKE3_CHACHA8_POLY1305 => chacha8_poly1305_tag(
            sub_key,
            spec_zero_nonce(),
            Seq::empty(),
            ciphertext,
        ),
        _ => Seq::empty(),
    }
}

/// Whether a ChaCha-Poly1305 packet is short enough to be opened: its
/// ciphertext is within what the primitive takes.
pub open spec fn spec_chacha_can_open(sealed: Seq<u8>) -> bool {
    sealed.len() - TAG_LEN <= CHACHA_MAX_LEN
}

/// The plaintext of a ciphertext with its tag under a sub-key, or `None`
/// where the tag does not authenticate it. A ChaCha-Poly1305 packet that is
/// longer than the primitive takes is never authentic.
pub open spec fn spec_open(kind: CipherKind, sub_key: Seq<u8>, sealed: Seq<u8>) -> Option<
    Seq<u8>,
> {
    match kind {
        CipherKind::AEAD2022_BLAKE3_AES_128_GCM => aes128_gcm_opened(
            sub_key,
            spec_zero_nonce(),
            Seq::empty(),
            sealed,
        ),
        CipherKind::AEAD2022_BLAKE3_AES_256_GCM => aes256_gcm_opened(
            sub_key,
            spec_zero_nonce(),
            Seq::empty(),
            sealed,
        ),
        CipherKind::AEAD2022_BLAKE3_CHACHA20_POLY1305 => if spec_chacha_can_open(sealed) {
            chacha20_poly1305_opened(sub_key, spec_zero_nonce(), Seq::empty(), sealed)
        } else {
            None
        },
        CipherKind::AEAD2022_BLAKE3_CHACHA8_POLY1305 => if spec_chacha_can_open(sealed) {
            chacha8_poly1305_opened(sub_key, spec_zero_nonce(), Seq::empty(), sealed)
        } else {
            None
        },
        _ => None,
    }
}

/// The packet that carries `plaintext`: its ciphertext, then its tag.
pub open spec fn spec_sealed_packet(
    kind: CipherKind,
    key: Seq<u8>,
    session_id: u64,
    salt: Seq<u8>,
    plaintext: Seq<u8>,
) -> Seq<u8> {
    spec_seal(kind, spec_packet_key(kind, key, session_id, salt), plaintext)
}

/// The plaintext that `packet` carries, or `None` where it is not authentic.
pub open spec fn spec_opened_packet(
    kind: CipherKind,
    key: Seq<u8>,
    session_id: u64,
    salt: Seq<u8>,
    packet: Seq<u8>,
) -> Option<Seq<u8>> {
    spec_open(kind, spec_packet_key(kind, key, session_id, salt), packet)
}

/// The tag that belongs to `ciphertext` in the packet of one salt.
pub open spec fn spec_packet_tag(
    kind: CipherKind,
    key: Seq<u8>,
    session_id: u64,
    salt: Seq<u8>,
    ciphertext: Seq<u8>,
) -> Seq<u8> {
    spec_expected_tag(kind, spec_packet_key(kind, key, session_id, salt), ciphertext)
}

/// The part of a packet buffer before the tag.
pub open spec fn spec_body(buf: Seq<u8>) -> Seq<u8> {
    buf.subrange(0, buf.len() - 16)
}

/// The last sixteen bytes of a packet buffer.
pub open spec fn spec_tag(buf: Seq<u8>) -> Seq<u8> {
    buf.subrange(buf.len() - 16, buf.len() as int)
}

/// The nonce of every packet.
pub fn zero_nonce() -> (nonce: [u8; 12])
    ensures
        nonce@ == spec_zero_nonce(),
{
    let nonce = [0u8; 12];
    assert(nonce@ =~= spec_zero_nonce());
    nonce
}

/// Writes a tag over a sixteen-byte region.
pub fn write_tag(dst: &mut [u8], tag: &[u8; 16])
    requires
        old(dst)@.len() == 16,
    ensures
        final(dst)@ == tag@,
{
    let mut i: usize = 0;
    while i < 16
        invariant
            i <= 16,
            dst@.len() == 16,
            forall|j: int| 0 <= j < i ==> dst@[j] == tag@[j],
        decreases 16 - i,
    {
        dst[i] = tag[i];
        i += 1;
    }
    assert(dst@ =~= tag@);
}

} // verus!
