//! Algorithm identifiers and the sizes that go with them.

use vstd::prelude::*;

verus! {

/// Length in bytes of the authentication tag of every AEAD-2022 algorithm.
pub const TAG_LEN: usize = 16;

/// Whether the reduced-round ChaCha8-Poly1305 algorithm can be selected.
///
/// With `false`, a request for it is refused exactly as a request for an
/// algorithm outside the AEAD-2022 family is.
pub const EXTRA_CIPHERS: bool = true;

/// Family of a cipher, as call sites need to tell them apart.
#[derive(Clone, Copy, Debug, PartialEq, Eq, Structural)]
pub enum CipherCategory {
    /// No encryption.
    Plain,
    /// Connection-oriented AEAD ciphers.
    Aead,
    /// AEAD-2022 ciphers.
    Aead2022,
}

/// Identifier of a cipher on the wire.
#[allow(non_camel_case_types)]
#[derive(Clone, Copy, Debug, PartialEq, Eq, Structural)]
pub enum CipherKind {
    /// No encryption.
    NONE,
    /// AES-128-GCM of the connection-oriented AEAD family.
    AES_128_GCM,
    /// AES-256-GCM of the connection-oriented AEAD family.
    AES_256_GCM,
    /// ChaCha20-Poly1305 of the connection-oriented AEAD family.
    CHACHA20_POLY1305,
    /// AEAD-2022 with AES-128-GCM.
    AEAD2022_BLAKE3_AES_128_GCM,
    /// AEAD-2022 with AES-256-GCM.
    AEAD2022_BLAKE3_AES_256_GCM,
    /// AEAD-2022 with ChaCha20-Poly1305.
    AEAD2022_BLAKE3_CHACHA20_POLY1305,
    /// AEAD-2022 with the reduced-round ChaCha8-Poly1305, one of the extra
    /// ciphers.
    AEAD2022_BLAKE3_CHACHA8_POLY1305,
}

impl CipherKind {
    /// The two AEAD-2022 algorithms built on AES-GCM.
    pub open spec fn spec_is_aead2022_aes_gcm(self) -> bool {
        self == CipherKind::AEAD2022_BLAKE3_AES_128_GCM || self
            == CipherKind::AEAD2022_BLAKE3_AES_256_GCM
    }

    /// The two AEAD-2022 algorithms built on a ChaCha stream cipher.
    pub open spec fn spec_is_aead2022_chacha(self) -> bool {
        self == CipherKind::AEAD2022_BLAKE3_CHACHA20_POLY1305 || self
            == CipherKind::AEAD2022_BLAKE3_CHACHA8_POLY1305
    }

    /// Membership in the AEAD-2022 family, whatever is enabled.
    pub open spec fn spec_is_aead2022(self) -> bool {
        self.spec_is_aead2022_aes_gcm() || self.spec_is_aead2022_chacha()
    }

    /// Family of the cipher.
    pub open spec fn spec_category(self) -> CipherCategory {
        match self {
            CipherKind::NONE => CipherCategory::Plain,
            CipherKind::AES_128_GCM
            | CipherKind::AES_256_GCM
            | CipherKind::CHACHA20_POLY1305 => CipherCategory::Aead,
            CipherKind::AEAD2022_BLAKE3_AES_128_GCM
            | CipherKind::AEAD2022_BLAKE3_AES_256_GCM
            | CipherKind::AEAD2022_BLAKE3_CHACHA20_POLY1305
            | CipherKind::AEAD2022_BLAKE3_CHACHA8_POLY1305 => CipherCategory::Aead2022,
        }
    }

    /// Length in bytes of the master key, of the salt and of every sub-key.
    pub open spec fn spec_key_len(self) -> usize {
        match self {
            CipherKind::NONE => 0,
            CipherKind::AES_128_GCM | CipherKind::AEAD2022_BLAKE3_AES_128_GCM => 16,
            CipherKind::AES_256_GCM
            | CipherKind::CHACHA20_POLY1305
            | CipherKind::AEAD2022_BLAKE3_AES_256_GCM
            | CipherKind::AEAD2022_BLAKE3_CHACHA20_POLY1305
            | CipherKind::AEAD2022_BLAKE3_CHACHA8_POLY1305 => 32,
        }
    }

    /// Length in bytes of the authentication tag.
    pub open spec fn spec_tag_len(self) -> usize {
        match self {
            CipherKind::NONE => 0,
            _ => TAG_LEN,
        }
    }

    /// Whether a datagram cipher can be built for this identifier when the
    /// extra ciphers are, or are not, enabled.
    pub open spec fn spec_is_udp_selectable(self, extra_ciphers: bool) -> bool {
        match self {
            CipherKind::AEAD2022_BLAKE3_AES_128_GCM
            | CipherKind::AEAD2022_BLAKE3_AES_256_GCM
            | CipherKind::AEAD2022_BLAKE3_CHACHA20_POLY1305 => true,
            CipherKind::AEAD2022_BLAKE3_CHACHA8_POLY1305 => extra_ciphers,
            _ => false,
        }
    }

    /// Family of the cipher.
    #[verifier::when_used_as_spec(spec_category)]
    pub fn category(self) -> (c: CipherCategory)
        ensures
            c == self.spec_category(),
    {
        match self {
            CipherKind::NONE => CipherCategory::Plain,
            CipherKind::AES_128_GCM
            | CipherKind::AES_256_GCM
            | CipherKind::CHACHA20_POLY1305 => CipherCategory::Aead,
            CipherKind::AEAD2022_BLAKE3_AES_128_GCM
            | CipherKind::AEAD2022_BLAKE3_AES_256_GCM
            | CipherKind::AEAD2022_BLAKE3_CHACHA20_POLY1305
            | CipherKind::AEAD2022_BLAKE3_CHACHA8_POLY1305 => CipherCategory::Aead2022,
        }
    }

    /// Length in bytes of the master key, and of every sub-key derived from it.
    #[verifier::when_used_as_spec(spec_key_len)]
    pub fn key_len(self) -> (n: usize)
        ensures
            n == self.spec_key_len(),
    {
        match self {
            CipherKind::NONE => 0,
            CipherKind::AES_128_GCM | CipherKind::AEAD2022_BLAKE3_AES_128_GCM => 16,
            CipherKind::AES_256_GCM
            | CipherKind::CHACHA20_POLY1305
            | CipherKind::AEAD2022_BLAKE3_AES_256_GCM
            | CipherKind::AEAD2022_BLAKE3_CHACHA20_POLY1305
            | CipherKind::AEAD2022_BLAKE3_CHACHA8_POLY1305 => 32,
        }
    }

    /// Length in bytes of the per-packet salt: that of the key.
    pub fn salt_len(self) -> (n: usize)
        ensures
            n == self.spec_key_len(),
    {
        self.key_len()
    }

    /// Length in bytes of the authentication tag.
    #[verifier::when_used_as_spec(spec_tag_len)]
    pub fn tag_len(self) -> (n: usize)
        ensures
            n == self.spec_tag_len(),
    {
        match self {
            CipherKind::NONE => 0,
            _ => TAG_LEN,
        }
    }

    /// Whether the identifier names an AEAD-2022 algorithm.
    #[verifier::when_used_as_spec(spec_is_aead2022)]
    pub fn is_aead2022(self) -> (b: bool)
        ensures
            b == self.spec_is_aead2022(),
    {
        match self {
            CipherKind::AEAD2022_BLAKE3_AES_128_GCM
            | CipherKind::AEAD2022_BLAKE3_AES_256_GCM
            | CipherKind::AEAD2022_BLAKE3_CHACHA20_POLY1305
            | CipherKind::AEAD2022_BLAKE3_CHACHA8_POLY1305 => true,
            _ => false,
        }
    }

    /// Whether a datagram cipher can be built for this identifier.
    ///
    /// The three standard AEAD-2022 algorithms always can; the reduced-round
    /// one only where `extra_ciphers` is set; nothing else can.
    #[verifier::when_used_as_spec(spec_is_udp_selectable)]
    pub fn is_udp_selectable(self, extra_ciphers: bool) -> (b: bool)
        ensures
            b == self.spec_is_udp_selectable(extra_ciphers),
    {
        match self {
            CipherKind::AEAD2022_BLAKE3_AES_128_GCM
            | CipherKind::AEAD2022_BLAKE3_AES_256_GCM
            | CipherKind::AEAD2022_BLAKE3_CHACHA20_POLY1305 => true,
            CipherKind::AEAD2022_BLAKE3_CHACHA8_POLY1305 => extra_ciphers,
            _ => false,
        }
    }
}

} // verus!
