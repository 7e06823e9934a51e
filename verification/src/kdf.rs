//! Derivation of the one-time sub-key of a packet.
//!
//! The sub-key is the leading part of a BLAKE3 key-derivation digest over the
//! master key, the packet's salt and, for the algorithms that bind packets to
//! their session, the session identifier in big-endian order.

use vstd::prelude::*;

verus! {

/// Length in bytes of a BLAKE3 digest.
pub const DIGEST_LEN: usize = 32;

/// Context string under which every sub-key is derived.
pub const SUBKEY_CONTEXT: &'static str = "shadowsocks 2022 session subkey";

/// The digest that BLAKE3 in key-derivation mode gives for a context string
/// and key material.
pub uninterp spec fn blake3_key_digest(context: Seq<char>, material: Seq<u8>) -> Seq<u8>;

/// The eight bytes of `x`, most significant first.
pub open spec fn spec_u64_be_bytes(x: u64) -> Seq<u8> {
    seq![
        (x / 0x100_0000_0000_0000) as u8,
        (x / 0x1_0000_0000_0000 % 0x100) as u8,
        (x / 0x100_0000_0000 % 0x100) as u8,
        (x / 0x1_0000_0000 % 0x100) as u8,
        (x / 0x100_0000 % 0x100) as u8,
        (x / 0x1_0000 % 0x100) as u8,
        (x / 0x100 % 0x100) as u8,
        (x % 0x100) as u8,
    ]
}

/// The number that eight bytes spell, most significant first.
pub open spec fn spec_be_value(b: Seq<u8>) -> int
    recommends
        b.len() == 8,
{
    b[0] * 0x100_0000_0000_0000 + b[1] * 0x1_0000_0000_0000 + b[2] * 0x100_0000_0000 + b[3]
        * 0x1_0000_0000 + b[4] * 0x100_0000 + b[5] * 0x1_0000 + b[6] * 0x100 + b[7]
}

/// What is hashed for one packet: the master key, then the salt, then the
/// session identifier where there is one.
pub open spec fn spec_key_material(key: Seq<u8>, salt: Seq<u8>, session_id: Option<u64>) -> Seq<
    u8,
> {
    match session_id {
        Some(id) => key + salt + spec_u64_be_bytes(id),
        None => key + salt,
    }
}

/// The leading `len` bytes of a digest.
pub open spec fn spec_truncate(digest: Seq<u8>, len: usize) -> Seq<u8> {
    digest.subrange(0, len as int)
}

/// The sub-key of `len` bytes for one packet.
pub open spec fn spec_sub_key(
    key: Seq<u8>,
    salt: Seq<u8>,
    session_id: Option<u64>,
    len: usize,
) -> Seq<u8> {
    spec_truncate(
        blake3_key_digest(SUBKEY_CONTEXT@, spec_key_material(key, salt, session_id)),
        len,
    )
}

/// Big-endian encoding of a session identifier.
pub fn u64_be_bytes(x: u64) -> (bytes: [u8; 8])
    ensures
        bytes@ == spec_u64_be_bytes(x),
{
    let bytes: [u8; 8] = [
        (x / 0x100_0000_0000_0000) as u8,
        (x / 0x1_0000_0000_0000 % 0x100) as u8,
        (x / 0x100_0000_0000 % 0x100) as u8,
        (x / 0x1_0000_0000 % 0x100) as u8,
        (x / 0x100_0000 % 0x100) as u8,
        (x / 0x1_0000 % 0x100) as u8,
        (x / 0x100 % 0x100) as u8,
        (x % 0x100) as u8,
    ];
    assert(bytes@ =~= spec_u64_be_bytes(x));
    bytes
}

/// Appends `src` to `dst`.
fn append(dst: &mut Vec<u8>, src: &[u8])
    ensures
        final(dst)@ == old(dst)@ + src@,
{
    let ghost before = dst@;
    let mut i: usize = 0;
    while i < src.len()
        invariant
            i <= src@.len(),
            dst@ == before + src@.subrange(0, i as int),
        decreases src@.len() - i,
    {
        dst.push(src[i]);
        i += 1;
        assert(dst@ =~= before + src@.subrange(0, i as int));
    }
    assert(dst@ =~= before + src@);
}

/// Builds the bytes that are hashed for one packet.
pub fn key_material(key: &[u8], salt: &[u8], session_id: Option<u64>) -> (material: Vec<u8>)
    ensures
        material@ == spec_key_material(key@, salt@, session_id),
{
    let mut material: Vec<u8> = Vec::new();
    append(&mut material, key);
    append(&mut material, salt);
    match session_id {
        Some(id) => {
            let id_bytes = u64_be_bytes(id);
            append(&mut material, id_bytes.as_slice());
        },
        None => {},
    }
    assert(material@ =~= spec_key_material(key@, salt@, session_id));
    material
}

/// Calls `blake3::derive_key`. Trusted: the digest is the one that BLAKE3's
/// key-derivation mode defines for this context and key material; it depends
/// on nothing else.
#[verifier::external_body]
fn blake3_derive_key(context: &str, material: &[u8]) -> (digest: [u8; 32])
    ensures
        digest@ == blake3_key_digest(context@, material@),
{
    blake3::derive_key(context, material)
}

/// Cuts a digest down to a key of `len` bytes.
pub fn truncate_digest(digest: &[u8; 32], len: usize) -> (sub_key: Vec<u8>)
    requires
        len <= DIGEST_LEN,
    ensures
        sub_key@ == spec_truncate(digest@, len),
        sub_key@.len() == len,
{
    let mut sub_key: Vec<u8> = Vec::new();
    let mut i: usize = 0;
    while i < len
        invariant
            i <= len <= DIGEST_LEN,
            sub_key@ == digest@.subrange(0, i as int),
        decreases len - i,
    {
        sub_key.push(digest[i]);
        i += 1;
        assert(sub_key@ =~= digest@.subrange(0, i as int));
    }
    sub_key
}

/// Derives the sub-key of `len` bytes for one packet.
///
/// The result is a function of the master key, the salt and the session
/// identifier alone: the same inputs always give the same sub-key.
pub fn derive_sub_key(key: &[u8], salt: &[u8], session_id: Option<u64>, len: usize) -> (sub_key:
    Vec<u8>)
    requires
        len <= DIGEST_LEN,
    ensures
        sub_key@ == spec_sub_key(key@, salt@, session_id, len),
        sub_key@.len() == len,
{
    let material = key_material(key, salt, session_id);
    let digest = blake3_derive_key(SUBKEY_CONTEXT, material.as_slice());
    truncate_digest(&digest, len)
}

/// Decoding undoes encoding: the big-endian bytes of `x` spell `x`.
pub proof fn lemma_be_bytes_round_trip(x: u64)
    ensures
        spec_u64_be_bytes(x).len() == 8,
        spec_be_value(spec_u64_be_bytes(x)) == x,
{
    let q1 = x / 0x100;
    let q2 = q1 / 0x100;
    let q3 = q2 / 0x100;
    let q4 = q3 / 0x100;
    let q5 = q4 / 0x100;
    let q6 = q5 / 0x100;
    let q7 = q6 / 0x100;
    assert(q2 == x / 0x1_0000);
    assert(q3 == x / 0x100_0000);
    assert(q4 == x / 0x1_0000_0000);
    assert(q5 == x / 0x100_0000_0000);
    assert(q6 == x / 0x1_0000_0000_0000);
    assert(q7 == x / 0x100_0000_0000_0000);
    assert(q7 < 0x100);
    let b = spec_u64_be_bytes(x);
    assert(b[0] == q7);
    assert(b[1] == q6 % 0x100);
    assert(b[2] == q5 % 0x100);
    assert(b[3] == q4 % 0x100);
    assert(b[4] == q3 % 0x100);
    assert(b[5] == q2 % 0x100);
    assert(b[6] == q1 % 0x100);
    assert(b[7] == x % 0x100);
}

/// Two session identifiers with the same encoding are the same.
pub proof fn lemma_be_bytes_injective(x: u64, y: u64)
    requires
        spec_u64_be_bytes(x) == spec_u64_be_bytes(y),
    ensures
        x == y,
{
    lemma_be_bytes_round_trip(x);
    lemma_be_bytes_round_trip(y);
}

/// Under one master key, packets of distinct sessions hash distinct bytes,
/// also where their salts are equal.
pub proof fn lemma_material_separates_sessions(key: Seq<u8>, salt: Seq<u8>, a: u64, b: u64)
    requires
        a != b,
    ensures
        spec_key_material(key, salt, Some(a)) != spec_key_material(key, salt, Some(b)),
{
    let ma = spec_key_material(key, salt, Some(a));
    let mb = spec_key_material(key, salt, Some(b));
    if ma == mb {
        let n = (key + salt).len() as int;
        assert(ma.subrange(n, n + 8) =~= spec_u64_be_bytes(a));
        assert(mb.subrange(n, n + 8) =~= spec_u64_be_bytes(b));
        lemma_be_bytes_injective(a, b);
    }
}

/// Under one master key and session, packets with distinct salts hash
/// distinct bytes.
pub proof fn lemma_material_separates_salts(
    key: Seq<u8>,
    salt_a: Seq<u8>,
    salt_b: Seq<u8>,
    session_id: Option<u64>,
)
    requires
        salt_a != salt_b,
    ensures
        spec_key_material(key, salt_a, session_id) != spec_key_material(key, salt_b, session_id),
{
    let ma = spec_key_material(key, salt_a, session_id);
    let mb = spec_key_material(key, salt_b, session_id);
    if ma == mb {
        let k = key.len() as int;
        assert(ma.len() == mb.len());
        assert(salt_a.len() == salt_b.len());
        assert(ma.subrange(k, k + salt_a.len()) =~= salt_a);
        assert(mb.subrange(k, k + salt_b.len()) =~= salt_b);
    }
}

} // verus!
