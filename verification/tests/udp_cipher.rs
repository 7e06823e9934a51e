use aead2022_udp::{CipherCategory, CipherError, CipherKind, UdpCipher};

const KINDS: [CipherKind; 4] = [
    CipherKind::AEAD2022_BLAKE3_AES_128_GCM,
    CipherKind::AEAD2022_BLAKE3_AES_256_GCM,
    CipherKind::AEAD2022_BLAKE3_CHACHA20_POLY1305,
    CipherKind::AEAD2022_BLAKE3_CHACHA8_POLY1305,
];

const MESSAGE: &[u8] = b"hello, datagram";

const SESSION: u64 = 0x0102_0304_0506_0708;

fn key_of(kind: CipherKind) -> Vec<u8> {
    (0..kind.key_len()).map(|i| i as u8).collect()
}

fn salt_of(kind: CipherKind) -> Vec<u8> {
    (0..kind.salt_len()).map(|i| (kind.salt_len() + i) as u8).collect()
}

fn seal(cipher: &UdpCipher, salt: &[u8], plaintext: &[u8]) -> Vec<u8> {
    let mut buf = plaintext.to_vec();
    buf.extend_from_slice(&[0u8; 16]);
    cipher.encrypt_packet(salt, &mut buf);
    buf
}

#[test]
fn end_to_end_ping_with_zero_key() {
    let key = [0u8; 32];
    let salt = [1u8; 32];
    let cipher = UdpCipher::new(CipherKind::AEAD2022_BLAKE3_AES_256_GCM, &key, 0);

    let mut buf = b"ping".to_vec();
    buf.extend_from_slice(&[0u8; 16]);
    cipher.encrypt_packet(&salt, &mut buf);
    assert_eq!(buf.len(), 20);
    assert_eq!(
        buf,
        vec![
            0xd6, 0xf9, 0xa9, 0x80, 0xb3, 0x9e, 0xef, 0x0c, 0xc7, 0x03, 0x65, 0x92, 0x84, 0xa8,
            0x7a, 0xba, 0x9f, 0x1e, 0x5f, 0x6a,
        ]
    );

    let mut opened = buf.clone();
    assert!(cipher.decrypt_packet(&salt, &mut opened));
    assert_eq!(&opened[..4], b"ping");

    let mut forged = buf.clone();
    forged[19] ^= 0x01;
    assert!(!cipher.decrypt_packet(&salt, &mut forged));
}

#[test]
fn sealed_packet_of_aes_128_gcm() {
    let kind = CipherKind::AEAD2022_BLAKE3_AES_128_GCM;
    let cipher = UdpCipher::new(kind, &key_of(kind), SESSION);
    assert_eq!(
        seal(&cipher, &salt_of(kind), MESSAGE),
        vec![
            0xb3, 0x9e, 0x9f, 0x76, 0xfd, 0xec, 0x51, 0x25, 0x81, 0xf3, 0xc4, 0x5e, 0x2d, 0xa9,
            0xb4, 0x4c, 0x95, 0xbd, 0x86, 0x44, 0xd6, 0x6b, 0x87, 0xf0, 0x29, 0xa9, 0xe4, 0x91,
            0x8f, 0x23, 0xd2,
        ]
    );
}

#[test]
fn sealed_packet_of_aes_256_gcm() {
    let kind = CipherKind::AEAD2022_BLAKE3_AES_256_GCM;
    let cipher = UdpCipher::new(kind, &key_of(kind), SESSION);
    assert_eq!(
        seal(&cipher, &salt_of(kind), MESSAGE),
        vec![
            0x8d, 0x7d, 0x50, 0x22, 0x22, 0x4a, 0x34, 0xae, 0xa7, 0xa5, 0x84, 0xea, 0xd5, 0x2c,
            0x69, 0xf4, 0x97, 0x9f, 0xcf, 0xd1, 0xfe, 0x79, 0x41, 0xc2, 0xca, 0x65, 0x9a, 0xb1,
            0x81, 0x7b, 0x65,
        ]
    );
}

#[test]
fn sealed_packet_of_chacha20_poly1305() {
    let kind = CipherKind::AEAD2022_BLAKE3_CHACHA20_POLY1305;
    let cipher = UdpCipher::new(kind, &key_of(kind), SESSION);
    assert_eq!(
        seal(&cipher, &salt_of(kind), MESSAGE),
        vec![
            0xc2, 0x96, 0x54, 0x7a, 0x47, 0xb1, 0x62, 0xe0, 0x32, 0x7d, 0x8e, 0x87, 0x37, 0x37,
            0x6e, 0xdf, 0x52, 0xcd, 0x5e, 0x8c, 0x1e, 0xe0, 0x6b, 0xac, 0x9f, 0xb7, 0x1e, 0x87,
            0xcf, 0x66, 0xf0,
        ]
    );
}

#[test]
fn sealed_packet_of_chacha8_poly1305() {
    let kind = CipherKind::AEAD2022_BLAKE3_CHACHA8_POLY1305;
    let cipher = UdpCipher::new(kind, &key_of(kind), SESSION);
    assert_eq!(
        seal(&cipher, &salt_of(kind), MESSAGE),
        vec![
            0x59, 0x10, 0xf7, 0xdc, 0xda, 0x0e, 0x6c, 0xc6, 0x37, 0x7b, 0x76, 0x0a, 0xba, 0xb7,
            0x7e, 0x37, 0xc6, 0x83, 0xad, 0x97, 0x8c, 0x4b, 0x00, 0x0a, 0xd6, 0x58, 0xfc, 0xdc,
            0xe4, 0x94, 0xf6,
        ]
    );
}

#[test]
fn empty_plaintext_seals_to_a_bare_tag() {
    let kind = CipherKind::AEAD2022_BLAKE3_AES_256_GCM;
    let cipher = UdpCipher::new(kind, &key_of(kind), SESSION);
    let salt = salt_of(kind);
    let packet = seal(&cipher, &salt, b"");
    assert_eq!(
        packet,
        vec![
            0xfa, 0x66, 0x4b, 0xb6, 0xbb, 0x2d, 0x59, 0x61, 0x90, 0xc4, 0xaa, 0x04, 0x15, 0xe2,
            0xda, 0xda,
        ]
    );
    let mut opened = packet.clone();
    assert!(cipher.decrypt_packet(&salt, &mut opened));
}

#[test]
fn round_trip_for_every_algorithm() {
    for kind in KINDS {
        let cipher = UdpCipher::new(kind, &key_of(kind), SESSION);
        let salt = salt_of(kind);
        for len in [0usize, 1, 15, 16, 17, 63, 64, 65, 1400] {
            let plaintext: Vec<u8> = (0..len).map(|i| (i * 7 + 3) as u8).collect();
            let mut buf = seal(&cipher, &salt, &plaintext);
            assert_eq!(buf.len(), len + 16);
            if len >= 16 {
                assert_ne!(&buf[..len], &plaintext[..]);
            }
            assert!(cipher.decrypt_packet(&salt, &mut buf));
            assert_eq!(&buf[..len], &plaintext[..]);
        }
    }
}

#[test]
fn opening_leaves_the_tag_in_place() {
    for kind in KINDS {
        let cipher = UdpCipher::new(kind, &key_of(kind), SESSION);
        let salt = salt_of(kind);
        let packet = seal(&cipher, &salt, MESSAGE);
        let mut buf = packet.clone();
        assert!(cipher.decrypt_packet(&salt, &mut buf));
        assert_eq!(&buf[MESSAGE.len()..], &packet[MESSAGE.len()..]);
    }
}

#[test]
fn an_opened_packet_seals_to_itself() {
    for kind in KINDS {
        let cipher = UdpCipher::new(kind, &key_of(kind), SESSION);
        let salt = salt_of(kind);
        let packet = seal(&cipher, &salt, MESSAGE);
        let mut buf = packet.clone();
        assert!(cipher.decrypt_packet(&salt, &mut buf));
        cipher.encrypt_packet(&salt, &mut buf);
        assert_eq!(buf, packet);
    }
}

#[test]
fn any_flipped_bit_is_rejected() {
    for kind in KINDS {
        let cipher = UdpCipher::new(kind, &key_of(kind), SESSION);
        let salt = salt_of(kind);
        let packet = seal(&cipher, &salt, b"ping");
        for byte in 0..packet.len() {
            for bit in 0..8 {
                let mut forged = packet.clone();
                forged[byte] ^= 1 << bit;
                assert!(!cipher.decrypt_packet(&salt, &mut forged));
            }
        }
    }
}

#[test]
fn a_bad_packet_does_not_disturb_the_next() {
    for kind in KINDS {
        let cipher = UdpCipher::new(kind, &key_of(kind), SESSION);
        let salt = salt_of(kind);
        let mut garbage = vec![0x5au8; 40];
        assert!(!cipher.decrypt_packet(&salt, &mut garbage));
        let mut bare = vec![0u8; 16];
        assert!(!cipher.decrypt_packet(&salt, &mut bare));
        let mut good = seal(&cipher, &salt, MESSAGE);
        assert!(cipher.decrypt_packet(&salt, &mut good));
        assert_eq!(&good[..MESSAGE.len()], MESSAGE);
    }
}

#[test]
fn another_salt_does_not_open_the_packet() {
    for kind in KINDS {
        let cipher = UdpCipher::new(kind, &key_of(kind), SESSION);
        let salt = salt_of(kind);
        let mut other = salt.clone();
        other[0] ^= 0x80;
        let mut buf = seal(&cipher, &salt, MESSAGE);
        assert!(!cipher.decrypt_packet(&other, &mut buf));
    }
}

#[test]
fn another_key_does_not_open_the_packet() {
    for kind in KINDS {
        let key = key_of(kind);
        let mut other_key = key.clone();
        other_key[0] ^= 0x01;
        let salt = salt_of(kind);
        let mut buf = seal(&UdpCipher::new(kind, &key, SESSION), &salt, MESSAGE);
        assert!(!UdpCipher::new(kind, &other_key, SESSION).decrypt_packet(&salt, &mut buf));
    }
}

#[test]
fn distinct_salts_give_distinct_packets() {
    for kind in KINDS {
        let cipher = UdpCipher::new(kind, &key_of(kind), SESSION);
        let salt_a = salt_of(kind);
        let mut salt_b = salt_a.clone();
        let last = salt_b.len() - 1;
        salt_b[last] ^= 0x01;
        let a = seal(&cipher, &salt_a, MESSAGE);
        let b = seal(&cipher, &salt_b, MESSAGE);
        assert_ne!(a, b);
        assert_ne!(&a[..MESSAGE.len()], &b[..MESSAGE.len()]);
    }
}

#[test]
fn aes_gcm_packets_depend_on_the_session() {
    for kind in [
        CipherKind::AEAD2022_BLAKE3_AES_128_GCM,
        CipherKind::AEAD2022_BLAKE3_AES_256_GCM,
    ] {
        let key = key_of(kind);
        let salt = salt_of(kind);
        let a = seal(&UdpCipher::new(kind, &key, 1), &salt, MESSAGE);
        let b = seal(&UdpCipher::new(kind, &key, 2), &salt, MESSAGE);
        assert_ne!(a, b);
        let mut buf = a.clone();
        assert!(!UdpCipher::new(kind, &key, 2).decrypt_packet(&salt, &mut buf));
    }
}

#[test]
fn session_of_the_ping_example_matters() {
    let key = [0u8; 32];
    let salt = [1u8; 32];
    let cipher = UdpCipher::new(CipherKind::AEAD2022_BLAKE3_AES_256_GCM, &key, 1);
    assert_eq!(
        seal(&cipher, &salt, b"ping"),
        vec![
            0x62, 0x69, 0xa9, 0x77, 0x83, 0x17, 0xf1, 0x20, 0xe6, 0x25, 0x33, 0x9b, 0xfc, 0x71,
            0xa9, 0xc9, 0x69, 0xf7, 0xca, 0xf6,
        ]
    );
}

#[test]
fn chacha_packets_do_not_depend_on_the_session() {
    for kind in [
        CipherKind::AEAD2022_BLAKE3_CHACHA20_POLY1305,
        CipherKind::AEAD2022_BLAKE3_CHACHA8_POLY1305,
    ] {
        let key = key_of(kind);
        let salt = salt_of(kind);
        let a = seal(&UdpCipher::new(kind, &key, 1), &salt, MESSAGE);
        let b = seal(&UdpCipher::new(kind, &key, u64::MAX), &salt, MESSAGE);
        assert_eq!(a, b);
        let mut buf = a.clone();
        assert!(UdpCipher::new(kind, &key, 77).decrypt_packet(&salt, &mut buf));
        assert_eq!(&buf[..MESSAGE.len()], MESSAGE);
    }
}

#[test]
fn sealing_twice_gives_the_same_packet() {
    for kind in KINDS {
        let key = key_of(kind);
        let salt = salt_of(kind);
        let first = UdpCipher::new(kind, &key, SESSION);
        let second = UdpCipher::new(kind, &key, SESSION);
        let a = seal(&first, &salt, MESSAGE);
        assert_eq!(a, seal(&first, &salt, MESSAGE));
        assert_eq!(a, seal(&second, &salt, MESSAGE));
    }
}

#[test]
fn the_two_chacha_algorithms_differ() {
    let k20 = CipherKind::AEAD2022_BLAKE3_CHACHA20_POLY1305;
    let k8 = CipherKind::AEAD2022_BLAKE3_CHACHA8_POLY1305;
    let key = key_of(k20);
    let salt = salt_of(k20);
    let a = seal(&UdpCipher::new(k20, &key, 0), &salt, MESSAGE);
    let mut b = seal(&UdpCipher::new(k8, &key, 0), &salt, MESSAGE);
    assert_ne!(a, b);
    assert!(!UdpCipher::new(k20, &key, 0).decrypt_packet(&salt, &mut b));
}

#[test]
fn kind_and_category_of_a_cipher() {
    for kind in KINDS {
        let cipher = UdpCipher::new(kind, &key_of(kind), 0);
        assert_eq!(cipher.kind(), kind);
        assert_eq!(cipher.category(), CipherCategory::Aead2022);
        assert_eq!(cipher.category(), kind.category());
    }
}

#[test]
fn try_new_builds_every_algorithm() {
    for kind in KINDS {
        let key = key_of(kind);
        let salt = salt_of(kind);
        let cipher = match UdpCipher::try_new(kind, &key, SESSION) {
            Ok(cipher) => cipher,
            Err(e) => panic!("{:?} was refused: {:?}", kind, e),
        };
        assert_eq!(cipher.kind(), kind);
        assert_eq!(
            seal(&cipher, &salt, MESSAGE),
            seal(&UdpCipher::new(kind, &key, SESSION), &salt, MESSAGE)
        );
    }
}

#[test]
fn try_new_refuses_other_kinds() {
    for kind in [
        CipherKind::NONE,
        CipherKind::AES_128_GCM,
        CipherKind::AES_256_GCM,
        CipherKind::CHACHA20_POLY1305,
    ] {
        let key = vec![0u8; kind.key_len()];
        assert_eq!(
            UdpCipher::try_new(kind, &key, 0).err(),
            Some(CipherError::UnsupportedKind)
        );
    }
}

#[test]
fn try_new_refuses_keys_of_the_wrong_length() {
    for kind in KINDS {
        for len in [0usize, 1, 15, 16, 17, 31, 32, 33, 64] {
            let key = vec![7u8; len];
            let built = UdpCipher::try_new(kind, &key, 0);
            if len == kind.key_len() {
                assert!(built.is_ok());
            } else {
                assert_eq!(built.err(), Some(CipherError::InvalidKeyLength));
            }
        }
    }
}

#[test]
fn an_unsupported_kind_is_reported_before_the_key() {
    assert_eq!(
        UdpCipher::try_new(CipherKind::AES_128_GCM, &[0u8; 3], 0).err(),
        Some(CipherError::UnsupportedKind)
    );
}
