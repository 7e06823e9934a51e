use aead2022_udp::kdf::{
    derive_sub_key, key_material, truncate_digest, u64_be_bytes, DIGEST_LEN, SUBKEY_CONTEXT,
};

#[test]
fn big_endian_bytes_of_a_session() {
    assert_eq!(u64_be_bytes(0), [0u8; 8]);
    assert_eq!(u64_be_bytes(1), [0, 0, 0, 0, 0, 0, 0, 1]);
    assert_eq!(
        u64_be_bytes(0x0102_0304_0506_0708),
        [0x01, 0x02, 0x03, 0x04, 0x05, 0x06, 0x07, 0x08]
    );
    assert_eq!(u64_be_bytes(u64::MAX), [0xff; 8]);
    assert_eq!(u64_be_bytes(0xff00_0000_0000_0000), [0xff, 0, 0, 0, 0, 0, 0, 0]);
    for x in [0u64, 1, 255, 256, 0xdead_beef, 1 << 63, u64::MAX - 1] {
        assert_eq!(u64_be_bytes(x), x.to_be_bytes());
    }
}

#[test]
fn material_without_a_session() {
    assert_eq!(key_material(&[1, 2, 3], &[9, 8], None), vec![1, 2, 3, 9, 8]);
    assert_eq!(key_material(&[], &[], None), Vec::<u8>::new());
}

#[test]
fn material_with_a_session() {
    assert_eq!(
        key_material(&[1, 2, 3], &[9, 8], Some(0x0a0b)),
        vec![1, 2, 3, 9, 8, 0, 0, 0, 0, 0, 0, 0x0a, 0x0b]
    );
    assert_eq!(key_material(&[], &[], Some(0)), vec![0u8; 8]);
}

#[test]
fn digest_is_cut_from_the_front() {
    let mut digest = [0u8; 32];
    for (i, b) in digest.iter_mut().enumerate() {
        *b = i as u8;
    }
    assert_eq!(truncate_digest(&digest, 0), Vec::<u8>::new());
    assert_eq!(truncate_digest(&digest, 16), (0u8..16).collect::<Vec<u8>>());
    assert_eq!(truncate_digest(&digest, DIGEST_LEN), digest.to_vec());
}

#[test]
fn sub_keys_of_known_inputs() {
    let key16: Vec<u8> = (0u8..16).collect();
    let salt16: Vec<u8> = (0x10u8..0x20).collect();
    let key32: Vec<u8> = (0u8..32).collect();
    let salt32: Vec<u8> = (0x20u8..0x40).collect();
    let session = 0x0102_0304_0506_0708u64;
    assert_eq!(
        derive_sub_key(&key16, &salt16, Some(session), 16),
        vec![
            0xb8, 0x20, 0x8b, 0xed, 0x66, 0x84, 0x6b, 0xcb, 0xb2, 0x87, 0x6c, 0x8c, 0x9d, 0xb9,
            0x90, 0xda,
        ]
    );
    assert_eq!(
        derive_sub_key(&key16, &salt16, Some(session), 32),
        vec![
            0xb8, 0x20, 0x8b, 0xed, 0x66, 0x84, 0x6b, 0xcb, 0xb2, 0x87, 0x6c, 0x8c, 0x9d, 0xb9,
            0x90, 0xda, 0x1d, 0xa0, 0xa6, 0xc3, 0x9b, 0xbe, 0xaf, 0x13, 0x26, 0x86, 0xbb, 0xab,
            0x1a, 0x5e, 0x1b, 0xb4,
        ]
    );
    assert_eq!(
        derive_sub_key(&key32, &salt32, Some(session), 32),
        vec![
            0x02, 0x21, 0x51, 0x55, 0xa9, 0x88, 0xca, 0xd8, 0xb3, 0x9f, 0xfd, 0x51, 0xbd, 0x5b,
            0xdb, 0x58, 0x28, 0x5f, 0xed, 0x05, 0xb7, 0x5f, 0x2b, 0x56, 0x4d, 0x23, 0x39, 0x9d,
            0x99, 0x32, 0x27, 0x8d,
        ]
    );
    assert_eq!(
        derive_sub_key(&key32, &salt32, None, 32),
        vec![
            0x37, 0x4f, 0xca, 0x03, 0xe4, 0xda, 0xe7, 0xf9, 0x98, 0xfd, 0x7e, 0x59, 0xc1, 0xed,
            0xfc, 0xc8, 0xe3, 0x19, 0x7f, 0x4d, 0xb1, 0xc1, 0x9c, 0xa1, 0x67, 0x1b, 0xe3, 0xb6,
            0x6a, 0x92, 0xdd, 0xda,
        ]
    );
}

#[test]
fn sub_key_is_the_blake3_derivation() {
    let key = [3u8; 32];
    let salt = [5u8; 32];
    let mut material = key.to_vec();
    material.extend_from_slice(&salt);
    material.extend_from_slice(&42u64.to_be_bytes());
    let digest = blake3::derive_key(SUBKEY_CONTEXT, &material);
    assert_eq!(derive_sub_key(&key, &salt, Some(42), 32), digest.to_vec());
    assert_eq!(derive_sub_key(&key, &salt, Some(42), 16), digest[..16].to_vec());
}

#[test]
fn sub_key_is_reproducible() {
    let key = [3u8; 32];
    let salt = [5u8; 32];
    assert_eq!(
        derive_sub_key(&key, &salt, Some(9), 32),
        derive_sub_key(&key, &salt, Some(9), 32)
    );
    assert_eq!(
        derive_sub_key(&key, &salt, None, 32),
        derive_sub_key(&key, &salt, None, 32)
    );
}

#[test]
fn sub_key_depends_on_every_input() {
    let key = [3u8; 32];
    let salt = [5u8; 32];
    let base = derive_sub_key(&key, &salt, Some(9), 32);
    assert_ne!(base, key.to_vec());
    assert_ne!(base, derive_sub_key(&[4u8; 32], &salt, Some(9), 32));
    assert_ne!(base, derive_sub_key(&key, &[6u8; 32], Some(9), 32));
    assert_ne!(base, derive_sub_key(&key, &salt, Some(10), 32));
    assert_ne!(base, derive_sub_key(&key, &salt, None, 32));
}
