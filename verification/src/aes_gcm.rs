//! The two AES-GCM datagram ciphers.

use crate::kdf::derive_sub_key;
use crate::kind::{CipherKind, TAG_LEN};
use crate::packet::{
    spec_body, spec_opened_packet, spec_packet_tag, spec_sealed_packet, spec_tag, write_tag,
    zero_nonce, MAX_PLAINTEXT_LEN,
};
use crate::primitive::{aes128_gcm_open, aes128_gcm_seal, aes256_gcm_open, aes256_gcm_seal};
use vstd::pervasive::unreached;
use vstd::prelude::*;
use vstd::slice::slice_to_vec;

verus! {

/// AES-GCM datagram cipher with a 128-bit or a 256-bit key.
///
/// It binds every packet to its session: the session identifier enters the
/// derivation of each sub-key.
pub struct Cipher {
    kind: CipherKind,
    key: Vec<u8>,
    session_id: u64,
}

impl Cipher {
    #[verifier::type_invariant]
    spec fn wf(self) -> bool {
        self.kind.spec_is_aead2022_aes_gcm() && self.key@.len() == self.kind.spec_key_len()
    }

    /// The algorithm.
    pub closed spec fn spec_kind(self) -> CipherKind {
        self.kind
    }

    /// The master key.
    pub closed spec fn spec_key(self) -> Seq<u8> {
        self.key@
    }

    /// The session that the cipher belongs to.
    pub closed spec fn spec_session_id(self) -> u64 {
        self.session_id
    }

    /// The packet that carries `plaintext` under `salt`.
    pub open spec fn spec_sealed(self, salt: Seq<u8>, plaintext: Seq<u8>) -> Seq<u8> {
        spec_sealed_packet(
            self.spec_kind(),
            self.spec_key(),
            self.spec_session_id(),
            salt,
            plaintext,
        )
    }

    /// The plaintext that `packet` carries under `salt`, or `None` where it
    /// is not authentic.
    pub open spec fn spec_opened(self, salt: Seq<u8>, packet: Seq<u8>) -> Option<Seq<u8>> {
        spec_opened_packet(self.spec_kind(), self.spec_key(), self.spec_session_id(), salt, packet)
    }

    /// The tag that belongs to `ciphertext` under `salt`.
    pub open spec fn spec_expected_tag(self, salt: Seq<u8>, ciphertext: Seq<u8>) -> Seq<u8> {
        spec_packet_tag(
            self.spec_kind(),
            self.spec_key(),
            self.spec_session_id(),
            salt,
            ciphertext,
        )
    }

    /// Builds the cipher of one session from its master key.
    pub fn new(kind: CipherKind, key: &[u8], session_id: u64) -> (cipher: Cipher)
        requires
            kind.spec_is_aead2022_aes_gcm(),
            key@.len() == kind.spec_key_len(),
        ensures
            cipher.spec_kind() == kind,
            cipher.spec_key() == key@,
            cipher.spec_session_id() == session_id,
    {
        Cipher { kind, key: slice_to_vec(key), session_id }
    }

    /// The algorithm.
    pub fn kind(&self) -> (kind: CipherKind)
        ensures
            kind == self.spec_kind(),
            kind.spec_is_aead2022_aes_gcm(),
    {
        proof {
            use_type_invariant(self);
        }
        self.kind
    }

    /// Seals the packet in `buf`: the plaintext before its last 16 bytes is
    /// replaced by the ciphertext, and the last 16 bytes by the tag.
    pub fn encrypt_packet(&self, salt: &[u8], buf: &mut [u8])
        requires
            old(buf)@.len() >= TAG_LEN,
            old(buf)@.len() - TAG_LEN <= MAX_PLAINTEXT_LEN,
        ensures
            final(buf)@ == self.spec_sealed(salt@, spec_body(old(buf)@)),
            final(buf)@.len() == old(buf)@.len(),
            self.spec_opened(salt@, final(buf)@) == Some(spec_body(old(buf)@)),
            spec_tag(final(buf)@) == self.spec_expected_tag(salt@, spec_body(final(buf)@)),
    {
        proof {
            use_type_invariant(self);
        }
        let sub_key = derive_sub_key(
            self.key.as_slice(),
            salt,
            Some(self.session_id),
            self.kind.key_len(),
        );
        let nonce = zero_nonce();
        let aad: [u8; 0] = [];
        assert(aad@ =~= Seq::<u8>::empty());
        let n = buf.len();
        let (body, tail) = buf.split_at_mut(n - TAG_LEN);
        let tag = match self.kind {
            CipherKind::AEAD2022_BLAKE3_AES_128_GCM => aes128_gcm_seal(
                sub_key.as_slice(),
                &nonce,
                aad.as_slice(),
                body,
            ),
            CipherKind::AEAD2022_BLAKE3_AES_256_GCM => aes256_gcm_seal(
                sub_key.as_slice(),
                &nonce,
                aad.as_slice(),
                body,
            ),
            _ => unreached(),
        };
        write_tag(tail, &tag);
        assert(spec_body(body@ + tail@) =~= body@);
        assert(spec_tag(body@ + tail@) =~= tail@);
    }

    /// Opens the packet in `buf`. Where its last 16 bytes authenticate what
    /// stands before them, that is replaced by the plaintext and the result
    /// is `true`. Otherwise the result is `false`, and `buf` holds nothing
    /// that a caller may use.
    pub fn decrypt_packet(&self, salt: &[u8], buf: &mut [u8]) -> (ok: bool)
        requires
            old(buf)@.len() >= TAG_LEN,
        ensures
            final(buf)@.len() == old(buf)@.len(),
            ok == self.spec_opened(salt@, old(buf)@).is_some(),
            ok ==> final(buf)@ == self.spec_opened(salt@, old(buf)@).unwrap() + spec_tag(
                old(buf)@,
            ),
            ok && old(buf)@.len() - TAG_LEN <= MAX_PLAINTEXT_LEN ==> self.spec_sealed(
                salt@,
                spec_body(final(buf)@),
            ) == old(buf)@,
            old(buf)@.len() - TAG_LEN <= MAX_PLAINTEXT_LEN ==> ok == (spec_tag(old(buf)@)
                == self.spec_expected_tag(salt@, spec_body(old(buf)@))),
    {
        proof {
            use_type_invariant(self);
        }
        let sub_key = derive_sub_key(
            self.key.as_slice(),
            salt,
            Some(self.session_id),
            self.kind.key_len(),
        );
        let nonce = zero_nonce();
        let aad: [u8; 0] = [];
        assert(aad@ =~= Seq::<u8>::empty());
        let n = buf.len();
        let ghost packet = buf@;
        let (body, tail) = buf.split_at_mut(n - TAG_LEN);
        assert(body@ + tail@ =~= packet);
        let ok = match self.kind {
            CipherKind::AEAD2022_BLAKE3_AES_128_GCM => aes128_gcm_open(
                sub_key.as_slice(),
                &nonce,
                aad.as_slice(),
                body,
                tail,
            ),
            CipherKind::AEAD2022_BLAKE3_AES_256_GCM => aes256_gcm_open(
                sub_key.as_slice(),
                &nonce,
                aad.as_slice(),
                body,
                tail,
            ),
            _ => unreached(),
        };
        assert(spec_body(body@ + tail@) =~= body@);
        assert(spec_tag(packet) =~= tail@);
        ok
    }
}

} // verus!
