//! The datagram cipher that callers hold.
//!
//! [`UdpCipher`] is one type for every AEAD-2022 datagram algorithm. Which
//! algorithm it runs is fixed when it is built; after that each packet is
//! sealed or opened on its own, from the salt that it carries.

pub use crate::aes_gcm::Cipher as AesGcmCipher;
pub use crate::chacha20_poly1305::Cipher as ChaCha20Poly1305Cipher;
pub use crate::chacha8_poly1305::Cipher as ChaCha8Poly1305Cipher;
use crate::kdf::{lemma_material_separates_salts, lemma_material_separates_sessions};
use crate::kind::{CipherCategory, CipherKind, EXTRA_CIPHERS, TAG_LEN};
use crate::packet::{
    spec_body, spec_opened_packet, spec_packet_key, spec_packet_material, spec_packet_tag,
    spec_sealed_packet, spec_session_input, spec_tag, MAX_PLAINTEXT_LEN,
};
use vstd::pervasive::unreached;
use vstd::prelude::*;

verus! {

/// Why no cipher was built.
#[derive(Clone, Copy, Debug, PartialEq, Eq, Structural)]
pub enum CipherError {
    /// The identifier names no AEAD-2022 datagram algorithm, or one that is
    /// not enabled.
    UnsupportedKind,
    /// The master key does not have the length that the algorithm takes.
    InvalidKeyLength,
}

/// Why no cipher can be built for `kind` from a master key of `key_len`
/// bytes, or `None` where one can. An identifier outside the enabled AEAD-2022
/// datagram algorithms is refused first, then a key of the wrong length.
pub open spec fn spec_refusal(kind: CipherKind, key_len: nat) -> Option<CipherError> {
    if !kind.spec_is_udp_selectable(EXTRA_CIPHERS) {
        Some(CipherError::UnsupportedKind)
    } else if key_len != kind.spec_key_len() {
        Some(CipherError::InvalidKeyLength)
    } else {
        None
    }
}

/// The algorithm in use, with its key material.
pub enum CipherVariant {
    /// AES-128-GCM or AES-256-GCM.
    AesGcm(AesGcmCipher),
    /// ChaCha20-Poly1305.
    ChaCha20Poly1305(ChaCha20Poly1305Cipher),
    /// ChaCha8-Poly1305, one of the extra ciphers.
    ChaCha8Poly1305(ChaCha8Poly1305Cipher),
}

impl CipherVariant {
    /// The algorithm.
    pub open spec fn spec_kind(self) -> CipherKind {
        match self {
            CipherVariant::AesGcm(c) => c.spec_kind(),
            CipherVariant::ChaCha20Poly1305(_) => ChaCha20Poly1305Cipher::spec_kind(),
            CipherVariant::ChaCha8Poly1305(_) => ChaCha8Poly1305Cipher::spec_kind(),
        }
    }

    /// The master key.
    pub open spec fn spec_key(self) -> Seq<u8> {
        match self {
            CipherVariant::AesGcm(c) => c.spec_key(),
            CipherVariant::ChaCha20Poly1305(c) => c.spec_key(),
            CipherVariant::ChaCha8Poly1305(c) => c.spec_key(),
        }
    }

    /// The session identifier, where the algorithm keeps one.
    pub open spec fn spec_session(self) -> Option<u64> {
        match self {
            CipherVariant::AesGcm(c) => Some(c.spec_session_id()),
            CipherVariant::ChaCha20Poly1305(_) => None,
            CipherVariant::ChaCha8Poly1305(_) => None,
        }
    }

    /// The packet that carries `plaintext` under `salt`.
    pub open spec fn spec_sealed(self, salt: Seq<u8>, plaintext: Seq<u8>) -> Seq<u8> {
        match self {
            CipherVariant::AesGcm(c) => c.spec_sealed(salt, plaintext),
            CipherVariant::ChaCha20Poly1305(c) => c.spec_sealed(salt, plaintext),
            CipherVariant::ChaCha8Poly1305(c) => c.spec_sealed(salt, plaintext),
        }
    }

    /// The plaintext that `packet` carries under `salt`, or `None` where it
    /// is not authentic.
    pub open spec fn spec_opened(self, salt: Seq<u8>, packet: Seq<u8>) -> Option<Seq<u8>> {
        match self {
            CipherVariant::AesGcm(c) => c.spec_opened(salt, packet),
            CipherVariant::ChaCha20Poly1305(c) => c.spec_opened(salt, packet),
            CipherVariant::ChaCha8Poly1305(c) => c.spec_opened(salt, packet),
        }
    }

    /// The tag that belongs to `ciphertext` under `salt`.
    pub open spec fn spec_expected_tag(self, salt: Seq<u8>, ciphertext: Seq<u8>) -> Seq<u8> {
        match self {
            CipherVariant::AesGcm(c) => c.spec_expected_tag(salt, ciphertext),
            CipherVariant::ChaCha20Poly1305(c) => c.spec_expected_tag(salt, ciphertext),
            CipherVariant::ChaCha8Poly1305(c) => c.spec_expected_tag(salt, ciphertext),
        }
    }

    /// Selects the algorithm that `kind` names and hands it the master key.
    pub fn new(kind: CipherKind, key: &[u8], session_id: u64) -> (variant: CipherVariant)
        requires
            kind.spec_is_udp_selectable(EXTRA_CIPHERS),
            key@.len() == kind.spec_key_len(),
        ensures
            variant.spec_kind() == kind,
            variant.spec_key() == key@,
            variant.spec_session() == spec_session_input(kind, session_id),
    {
        match kind {
            CipherKind::AEAD2022_BLAKE3_AES_128_GCM | CipherKind::AEAD2022_BLAKE3_AES_256_GCM => {
                CipherVariant::AesGcm(AesGcmCipher::new(kind, key, session_id))
            },
            CipherKind::AEAD2022_BLAKE3_CHACHA20_POLY1305 => {
                CipherVariant::ChaCha20Poly1305(ChaCha20Poly1305Cipher::new(key))
            },
            CipherKind::AEAD2022_BLAKE3_CHACHA8_POLY1305 => {
                CipherVariant::ChaCha8Poly1305(ChaCha8Poly1305Cipher::new(key))
            },
            _ => unreached(),
        }
    }

    /// Seals the packet in `buf` with the algorithm in use.
    pub fn encrypt_packet(&self, salt: &[u8], buf: &mut [u8])
        requires
            old(buf)@.len() >= TAG_LEN,
            old(buf)@.len() - TAG_LEN <= MAX_PLAINTEXT_LEN,
        ensures
            final(buf)@ == self.spec_sealed(salt@, spec_body(old(buf)@)),
            final(buf)@.len() == old(buf)@.len(),
            self.spec_opened(salt@, final(buf)@) == Some(spec_body(old(buf)@)),
            spec_tag(final(buf)@) == self.spec_expected_tag(salt@, spec_body(final(buf)@)),
    {
        match self {
            CipherVariant::AesGcm(c) => c.encrypt_packet(salt, buf),
            CipherVariant::ChaCha20Poly1305(c) => c.encrypt_packet(salt, buf),
            CipherVariant::ChaCha8Poly1305(c) => c.encrypt_packet(salt, buf),
        }
    }

    /// Opens the packet in `buf` with the algorithm in use.
    pub fn decrypt_packet(&self, salt: &[u8], buf: &mut [u8]) -> (ok: bool)
        requires
            old(buf)@.len() >= TAG_LEN,
        ensures
            final(buf)@.len() == old(buf)@.len(),
            ok == self.spec_opened(salt@, old(buf)@).is_some(),
            ok ==> final(buf)@ == self.spec_opened(salt@, old(buf)@).unwrap() + spec_tag(
                old(buf)@,
            ),
            ok && old(buf)@.len() - TAG_LEN <= MAX_PLAINTEXT_LEN ==> self.spec_sealed(
                salt@,
                spec_body(final(buf)@),
            ) == old(buf)@,
            old(buf)@.len() - TAG_LEN <= MAX_PLAINTEXT_LEN ==> ok == (spec_tag(old(buf)@)
                == self.spec_expected_tag(salt@, spec_body(old(buf)@))),
    {
        match self {
            CipherVariant::AesGcm(c) => c.decrypt_packet(salt, buf),
            CipherVariant::ChaCha20Poly1305(c) => c.decrypt_packet(salt, buf),
            CipherVariant::ChaCha8Poly1305(c) => c.decrypt_packet(salt, buf),
        }
    }
}

/// What a [`UdpCipher`] was built from.
pub ghost struct UdpCipherView {
    pub kind: CipherKind,
    pub key: Seq<u8>,
    pub session_id: u64,
}

/// AEAD-2022 datagram cipher.
pub struct UdpCipher {
    cipher: CipherVariant,
    kind: CipherKind,
    session_id: u64,
}

impl View for UdpCipher {
    type V = UdpCipherView;

    closed spec fn view(&self) -> UdpCipherView {
        UdpCipherView {
            kind: self.kind,
            key: self.cipher.spec_key(),
            session_id: self.session_id,
        }
    }
}

impl UdpCipher {
    #[verifier::type_invariant]
    spec fn wf(self) -> bool {
        &&& spec_refusal(self.kind, self.cipher.spec_key().len()) is None
        &&& self.cipher.spec_kind() == self.kind
        &&& self.cipher.spec_session() == spec_session_input(self.kind, self.session_id)
    }

    /// The sub-key under which the packet with this salt is sealed.
    pub open spec fn spec_sub_key(self, salt: Seq<u8>) -> Seq<u8> {
        spec_packet_key(self@.kind, self@.key, self@.session_id, salt)
    }

    /// The packet that carries `plaintext` under `salt`: ciphertext, then tag.
    pub open spec fn spec_sealed(self, salt: Seq<u8>, plaintext: Seq<u8>) -> Seq<u8> {
        spec_sealed_packet(self@.kind, self@.key, self@.session_id, salt, plaintext)
    }

    /// The plaintext that `packet` carries under `salt`, or `None` where it
    /// is not authentic.
    pub open spec fn spec_opened(self, salt: Seq<u8>, packet: Seq<u8>) -> Option<Seq<u8>> {
        spec_opened_packet(self@.kind, self@.key, self@.session_id, salt, packet)
    }

    /// The tag that belongs to `ciphertext` in the packet of `salt`.
    pub open spec fn spec_expected_tag(self, salt: Seq<u8>, ciphertext: Seq<u8>) -> Seq<u8> {
        spec_packet_tag(self@.kind, self@.key, self@.session_id, salt, ciphertext)
    }

    /// Builds the cipher of one session.
    ///
    /// `kind` is an AEAD-2022 datagram algorithm that is enabled, and `key`
    /// has the length that it takes: nothing refuses them.
    /// [`UdpCipher::try_new`] tests both.
    pub fn new(kind: CipherKind, key: &[u8], session_id: u64) -> (cipher: UdpCipher)
        requires
            kind.spec_is_udp_selectable(EXTRA_CIPHERS),
            key@.len() == kind.spec_key_len(),
        ensures
            cipher@ == (UdpCipherView { kind, key: key@, session_id }),
    {
        UdpCipher { cipher: CipherVariant::new(kind, key, session_id), kind, session_id }
    }

    /// Builds the cipher of one session, or says why it cannot be built.
    ///
    /// An identifier outside the enabled AEAD-2022 datagram algorithms is
    /// refused first, then a key of the wrong length.
    pub fn try_new(kind: CipherKind, key: &[u8], session_id: u64) -> (r: Result<
        UdpCipher,
        CipherError,
    >)
        ensures
            match r {
                Ok(cipher) => {
                    &&& spec_refusal(kind, key@.len()) is None
                    &&& cipher@ == (UdpCipherView { kind, key: key@, session_id })
                },
                Err(e) => spec_refusal(kind, key@.len()) == Some(e),
            },
    {
        if !kind.is_udp_selectable(EXTRA_CIPHERS) {
            Err(CipherError::UnsupportedKind)
        } else if key.len() != kind.key_len() {
            Err(CipherError::InvalidKeyLength)
        } else {
            Ok(UdpCipher::new(kind, key, session_id))
        }
    }

    /// The algorithm, as given when the cipher was built. A cipher exists
    /// only for an algorithm and a key that nothing refuses.
    pub fn kind(&self) -> (kind: CipherKind)
        ensures
            kind == self@.kind,
            spec_refusal(kind, self@.key.len()) is None,
    {
        proof {
            use_type_invariant(self);
        }
        self.kind
    }

    /// The family of the cipher: always AEAD-2022.
    pub fn category(&self) -> (category: CipherCategory)
        ensures
            category == CipherCategory::Aead2022,
            category == self@.kind.spec_category(),
    {
        proof {
            use_type_invariant(self);
        }
        CipherCategory::Aead2022
    }

    /// Seals the packet in `buf`, in place.
    ///
    /// On entry `buf` holds the plaintext followed by 16 bytes of room for
    /// the tag. On return it holds the ciphertext followed by the tag that
    /// belongs to it, sealed under the sub-key of `salt`; that packet opens
    /// again, under the same salt, to the plaintext.
    pub fn encrypt_packet(&self, salt: &[u8], buf: &mut [u8])
        requires
            old(buf)@.len() >= TAG_LEN,
            old(buf)@.len() - TAG_LEN <= MAX_PLAINTEXT_LEN,
        ensures
            final(buf)@ == self.spec_sealed(salt@, spec_body(old(buf)@)),
            final(buf)@.len() == old(buf)@.len(),
            self.spec_opened(salt@, final(buf)@) == Some(spec_body(old(buf)@)),
            spec_tag(final(buf)@) == self.spec_expected_tag(salt@, spec_body(final(buf)@)),
    {
        proof {
            use_type_invariant(self);
        }
        self.cipher.encrypt_packet(salt, buf)
    }

    /// Opens the packet in `buf`, in place.
    ///
    /// On entry `buf` holds a ciphertext followed by its 16-byte tag. Where
    /// the packet is authentic under the sub-key of `salt`, the result is
    /// `true` and the plaintext stands where the ciphertext stood. Otherwise
    /// the result is `false`, and `buf` holds nothing that a caller may use.
    ///
    /// A packet that is no longer than sealing can make it is authentic
    /// exactly where its tag is the one that belongs to its ciphertext, and
    /// it is then the packet that seals the plaintext it opens to.
    pub fn decrypt_packet(&self, salt: &[u8], buf: &mut [u8]) -> (ok: bool)
        requires
            old(buf)@.len() >= TAG_LEN,
        ensures
            final(buf)@.len() == old(buf)@.len(),
            ok == self.spec_opened(salt@, old(buf)@).is_some(),
            ok ==> final(buf)@ == self.spec_opened(salt@, old(buf)@).unwrap() + spec_tag(
                old(buf)@,
            ),
            ok && old(buf)@.len() - TAG_LEN <= MAX_PLAINTEXT_LEN ==> self.spec_sealed(
                salt@,
                spec_body(final(buf)@),
            ) == old(buf)@,
            old(buf)@.len() - TAG_LEN <= MAX_PLAINTEXT_LEN ==> ok == (spec_tag(old(buf)@)
                == self.spec_expected_tag(salt@, spec_body(old(buf)@))),
    {
        proof {
            use_type_invariant(self);
        }
        self.cipher.decrypt_packet(salt, buf)
    }
}

/// Construction fails on every input that is not a cipher's: for an
/// identifier outside the enabled AEAD-2022 datagram algorithms the refusal is
/// `UnsupportedKind`, whatever the key; for an enabled one with a key of
/// another length than it takes it is `InvalidKeyLength`; and only an enabled
/// identifier with a key of its length is not refused. `new` takes no input
/// that is refused, and `try_new` returns the refusal.
pub proof fn lemma_construction_fails(kind: CipherKind, key: Seq<u8>)
    ensures
        !kind.spec_is_udp_selectable(EXTRA_CIPHERS) ==> spec_refusal(kind, key.len()) == Some(
            CipherError::UnsupportedKind,
        ),
        kind.spec_is_udp_selectable(EXTRA_CIPHERS) && key.len() != kind.spec_key_len()
            ==> spec_refusal(kind, key.len()) == Some(CipherError::InvalidKeyLength),
        spec_refusal(kind, key.len()) is None <==> kind.spec_is_udp_selectable(EXTRA_CIPHERS)
            && key.len() == kind.spec_key_len(),
        spec_refusal(kind, key.len()) is None ==> kind.spec_is_aead2022() && (key.len() == 16
            || key.len() == 32),
{
}

/// A packet with a changed tag is refused. Let `packet` be what
/// `encrypt_packet` leaves under `salt`, so that its tag is the one that
/// belongs to its ciphertext; let `forged` hold the same ciphertext and
/// another tag; and let `ok` be what `decrypt_packet` returns for `forged`
/// under the same salt, as its contract describes it. Then `ok` is `false`.
pub proof fn lemma_forged_tag_is_refused(
    cipher: UdpCipher,
    salt: Seq<u8>,
    packet: Seq<u8>,
    forged: Seq<u8>,
    ok: bool,
)
    requires
        packet.len() >= TAG_LEN,
        packet.len() - TAG_LEN <= MAX_PLAINTEXT_LEN,
        spec_tag(packet) == cipher.spec_expected_tag(salt, spec_body(packet)),
        forged.len() == packet.len(),
        spec_body(forged) == spec_body(packet),
        spec_tag(forged) != spec_tag(packet),
        ok == (spec_tag(forged) == cipher.spec_expected_tag(salt, spec_body(forged))),
    ensures
        !ok,
{
}

/// Sealing and opening undo each other. Let `packet` be what
/// `encrypt_packet` leaves for `plaintext` under `salt`, and let `ok` and
/// `left` be what `decrypt_packet` returns and leaves for that packet under
/// the same salt, each as the function's contract describes it. Then `ok` is
/// `true`, and `left` holds `plaintext` before its last 16 bytes.
pub proof fn lemma_round_trip(
    cipher: UdpCipher,
    salt: Seq<u8>,
    plaintext: Seq<u8>,
    packet: Seq<u8>,
    ok: bool,
    left: Seq<u8>,
)
    requires
        packet.len() == plaintext.len() + TAG_LEN,
        packet == cipher.spec_sealed(salt, plaintext),
        cipher.spec_opened(salt, packet) == Some(plaintext),
        left.len() == packet.len(),
        ok == cipher.spec_opened(salt, packet).is_some(),
        ok ==> left == cipher.spec_opened(salt, packet).unwrap() + spec_tag(packet),
    ensures
        ok,
        spec_body(left) == plaintext,
{
    assert(spec_body(plaintext + spec_tag(packet)) =~= plaintext);
}

/// Sealing is reproducible: two ciphers built from the same algorithm, key
/// and session identifier derive the same sub-key from a salt, seal a
/// plaintext to the same packet, open a packet to the same result and expect
/// the same tag for a ciphertext.
pub proof fn lemma_same_inputs_same_packet(
    a: UdpCipher,
    b: UdpCipher,
    salt: Seq<u8>,
    plaintext: Seq<u8>,
    packet: Seq<u8>,
)
    requires
        a@ == b@,
    ensures
        a.spec_sub_key(salt) == b.spec_sub_key(salt),
        a.spec_sealed(salt, plaintext) == b.spec_sealed(salt, plaintext),
        a.spec_opened(salt, packet) == b.spec_opened(salt, packet),
        a.spec_expected_tag(salt, packet) == b.spec_expected_tag(salt, packet),
{
}

/// The ChaCha-Poly1305 algorithms do not depend on the session: two ciphers
/// of one such algorithm and one key, whatever their session identifiers,
/// derive the same sub-key from a salt, seal a plaintext to the same packet,
/// open a packet to the same result and expect the same tag for a ciphertext.
pub proof fn lemma_stream_ciphers_ignore_session(
    a: UdpCipher,
    b: UdpCipher,
    salt: Seq<u8>,
    plaintext: Seq<u8>,
    packet: Seq<u8>,
)
    requires
        a@.kind.spec_is_aead2022_chacha(),
        a@.kind == b@.kind,
        a@.key == b@.key,
    ensures
        a.spec_sub_key(salt) == b.spec_sub_key(salt),
        a.spec_sealed(salt, plaintext) == b.spec_sealed(salt, plaintext),
        a.spec_opened(salt, packet) == b.spec_opened(salt, packet),
        a.spec_expected_tag(salt, packet) == b.spec_expected_tag(salt, packet),
{
}

/// The AES-GCM algorithms bind a packet to its session: two ciphers of one
/// such algorithm and one key, with distinct session identifiers, hash
/// distinct bytes to derive the sub-key of a salt.
pub proof fn lemma_block_ciphers_separate_sessions(a: UdpCipher, b: UdpCipher, salt: Seq<u8>)
    requires
        a@.kind.spec_is_aead2022_aes_gcm(),
        a@.kind == b@.kind,
        a@.key == b@.key,
        a@.session_id != b@.session_id,
    ensures
        spec_packet_material(a@.kind, a@.key, a@.session_id, salt) != spec_packet_material(
            b@.kind,
            b@.key,
            b@.session_id,
            salt,
        ),
{
    lemma_material_separates_sessions(a@.key, salt, a@.session_id, b@.session_id);
}

/// Every algorithm hashes distinct bytes to derive the sub-keys of two
/// distinct salts.
pub proof fn lemma_salts_separate_packets(cipher: UdpCipher, salt_a: Seq<u8>, salt_b: Seq<u8>)
    requires
        salt_a != salt_b,
    ensures
        spec_packet_material(cipher@.kind, cipher@.key, cipher@.session_id, salt_a)
            != spec_packet_material(cipher@.kind, cipher@.key, cipher@.session_id, salt_b),
{
    lemma_material_separates_salts(
        cipher@.key,
        salt_a,
        salt_b,
        spec_session_input(cipher@.kind, cipher@.session_id),
    );
}

} // verus!
