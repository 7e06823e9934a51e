//! Per-datagram authenticated encryption for the AEAD-2022 UDP relay protocol.
//!
//! Every packet carries a fresh salt. From the master key and that salt (and,
//! for the AES-GCM algorithms, the session identifier) a one-time sub-key is
//! derived, under which the packet is sealed with an all-zero nonce. No state
//! is carried from one packet to the next.

pub mod aes_gcm;
pub mod chacha20_poly1305;
pub mod chacha8_poly1305;
pub mod kdf;
pub mod kind;
pub mod packet;
pub mod primitive;
pub mod udp;

pub use kind::{CipherCategory, CipherKind};
pub use udp::{CipherError, UdpCipher};
