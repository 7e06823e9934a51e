//! The ChaCha8-Poly1305 datagram cipher.

use crate::kdf::derive_sub_key;
use crate::kind::{CipherKind, TAG_LEN};
use crate::packet::{
    spec_body, spec_chacha_can_open, spec_opened_packet, spec_packet_tag, spec_sealed_packet,
    spec_tag, write_tag, zero_nonce, MAX_PLAINTEXT_LEN,
};
use crate::primitive::{chacha8_poly1305_open, chacha8_poly1305_seal, CHACHA_MAX_LEN};
use vstd::prelude::*;
use vstd::slice::slice_to_vec;

verus! {

/// ChaCha8-Poly1305 datagram cipher.
///
/// It derives every sub-key from the master key and the packet's salt alone:
/// no session identifier enters.
///
/// This is the reduced-round algorithm, one of the extra ciphers.
pub struct Cipher {
    key: Vec<u8>,
}

impl Cipher {
    #[verifier::type_invariant]
    spec fn wf(self) -> bool {
        self.key@.len() == 32
    }

    /// The algorithm.
    pub open spec fn spec_kind() -> CipherKind {
        CipherKind::AEAD2022_BLAKE3_CHACHA8_POLY1305
    }

    /// The master key.
    pub closed spec fn spec_key(self) -> Seq<u8> {
        self.key@
    }

    /// The packet that carries `plaintext` under `salt`. It is the same for
    /// every session identifier.
    pub open spec fn spec_sealed(self, salt: Seq<u8>, plaintext: Seq<u8>) -> Seq<u8> {
        spec_sealed_packet(Self::spec_kind(), self.spec_key(), 0, salt, plaintext)
    }

    /// The plaintext that `packet` carries under `salt`, or `None` where it
    /// is not authentic. It is the same for every session identifier.
    pub open spec fn spec_opened(self, salt: Seq<u8>, packet: Seq<u8>) -> Option<Seq<u8>> {
        spec_opened_packet(Self::spec_kind(), self.spec_key(), 0, salt, packet)
    }

    /// The tag that belongs to `ciphertext` under `salt`. It is the same for
    /// every session identifier.
    pub open spec fn spec_expected_tag(self, salt: Seq<u8>, ciphertext: Seq<u8>) -> Seq<u8> {
        spec_packet_tag(Self::spec_kind(), self.spec_key(), 0, salt, ciphertext)
    }

    /// Builds the cipher from its master key.
    pub fn new(key: &[u8]) -> (cipher: Cipher)
        requires
            key@.len() == Self::spec_kind().spec_key_len(),
        ensures
            cipher.spec_key() == key@,
    {
        Cipher { key: slice_to_vec(key) }
    }

    /// Seals the packet in `buf`: the plaintext before its last 16 bytes is
    /// replaced by the ciphertext, and the last 16 bytes by the tag.
    pub fn encrypt_packet(&self, salt: &[u8], buf: &mut [u8])
        requires
            old(buf)@.len() >= TAG_LEN,
            old(buf)@.len() - TAG_LEN <= MAX_PLAINTEXT_LEN,
        ensures
            final(buf)@ == self.spec_sealed(salt@, spec_body(old(buf)@)),
            final(buf)@.len() == old(buf)@.len(),
            self.spec_opened(salt@, final(buf)@) == Some(spec_body(old(buf)@)),
            spec_tag(final(buf)@) == self.spec_expected_tag(salt@, spec_body(final(buf)@)),
    {
        proof {
            use_type_invariant(self);
        }
        let sub_key = derive_sub_key(self.key.as_slice(), salt, None, 32);
        let nonce = zero_nonce();
        let aad: [u8; 0] = [];
        assert(aad@ =~= Seq::<u8>::empty());
        let n = buf.len();
        let (body, tail) = buf.split_at_mut(n - TAG_LEN);
        let tag = chacha8_poly1305_seal(sub_key.as_slice(), &nonce, aad.as_slice(), body);
        write_tag(tail, &tag);
        assert(spec_body(body@ + tail@) =~= body@);
        assert(spec_tag(body@ + tail@) =~= tail@);
    }

    /// Opens the packet in `buf`. Where its last 16 bytes authenticate what
    /// stands before them, that is replaced by the plaintext and the result
    /// is `true`. Otherwise the result is `false`, and `buf` holds nothing
    /// that a caller may use. A packet that is longer than the primitive
    /// takes is refused unread.
    pub fn decrypt_packet(&self, salt: &[u8], buf: &mut [u8]) -> (ok: bool)
        requires
            old(buf)@.len() >= TAG_LEN,
        ensures
            final(buf)@.len() == old(buf)@.len(),
            ok == self.spec_opened(salt@, old(buf)@).is_some(),
            ok ==> final(buf)@ == self.spec_opened(salt@, old(buf)@).unwrap() + spec_tag(
                old(buf)@,
            ),
            ok ==> self.spec_sealed(salt@, spec_body(final(buf)@)) == old(buf)@,
            ok == (spec_chacha_can_open(old(buf)@) && spec_tag(old(buf)@)
                == self.spec_expected_tag(salt@, spec_body(old(buf)@))),
    {
        proof {
            use_type_invariant(self);
        }
        let n = buf.len();
        if (n - TAG_LEN) as u64 > CHACHA_MAX_LEN {
            return false;
        }
        let sub_key = derive_sub_key(self.key.as_slice(), salt, None, 32);
        let nonce = zero_nonce();
        let aad: [u8; 0] = [];
        assert(aad@ =~= Seq::<u8>::empty());
        let ghost packet = buf@;
        let (body, tail) = buf.split_at_mut(n - TAG_LEN);
        assert(body@ + tail@ =~= packet);
        let ok = chacha8_poly1305_open(sub_key.as_slice(), &nonce, aad.as_slice(), body, tail);
        assert(spec_body(body@ + tail@) =~= body@);
        assert(spec_tag(packet) =~= tail@);
        ok
    }
}

} // verus!
