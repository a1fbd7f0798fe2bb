//! Keyed-hash message authentication with SHA-256 (RFC 2104).

use sha2::{Digest, Sha256};
use vstd::prelude::*;

verus! {

/// Block size of SHA-256, in bytes.
pub const BLOCK_SIZE: usize = 64;

/// Length of a SHA-256 digest, in bytes.
pub const DIGEST_SIZE: usize = 32;

/// The SHA-256 digest of a byte sequence.
pub uninterp spec fn sha256_of(message: Seq<u8>) -> Seq<u8>;

/// `k` zero-padded on the right to one block.
pub open spec fn zero_pad(k: Seq<u8>) -> Seq<u8> {
    Seq::new(BLOCK_SIZE as nat, |i: int| if i < k.len() { k[i] } else { 0u8 })
}

/// The key as HMAC uses it: hashed first when longer than a block, then zero-padded.
pub open spec fn normalized_key(key: Seq<u8>) -> Seq<u8> {
    if key.len() > BLOCK_SIZE {
        zero_pad(sha256_of(key))
    } else {
        zero_pad(key)
    }
}

/// Each byte of `k` XOR-ed with `b`.
pub open spec fn xor_with(k: Seq<u8>, b: u8) -> Seq<u8> {
    Seq::new(k.len(), |i: int| k[i] ^ b)
}

/// HMAC-SHA256 of `message` under `key`: `H(K ^ opad || H(K ^ ipad || message))`.
pub open spec fn hmac_sha256_spec(key: Seq<u8>, message: Seq<u8>) -> Seq<u8> {
    let k = normalized_key(key);
    sha256_of(xor_with(k, 0x5c) + sha256_of(xor_with(k, 0x36) + message))
}

/// Compute the SHA-256 HMAC of `message` using `key`.
pub fn hmac_sha256(key: Vec<u8>, message: Vec<u8>) -> (r: Vec<u8>)
    ensures
        r@ == hmac_sha256_spec(key@, message@),
        r@.len() == DIGEST_SIZE,
{
    let mut message = message;
    let mut key_norm: Vec<u8> = vec![0u8; BLOCK_SIZE];
    if key.len() > BLOCK_SIZE {
        let d = sha256_digest(&key);
        sum(&mut key_norm, d);
    } else {
        sum(&mut key_norm, key);
    }
    assert(key_norm@ =~= normalized_key(key@));

    let mut outer_padding = key_norm.clone();
    xor(&mut outer_padding, vec![0x5cu8; BLOCK_SIZE]);
    let mut inner_padding = key_norm.clone();
    xor(&mut inner_padding, vec![0x36u8; BLOCK_SIZE]);
    assert(outer_padding@ =~= xor_with(key_norm@, 0x5c));
    assert(inner_padding@ =~= xor_with(key_norm@, 0x36));

    inner_padding.append(&mut message);
    let mut inner_digest = sha256_digest(&inner_padding);
    outer_padding.append(&mut inner_digest);
    sha256_digest(&outer_padding)
}

/// Relies on sha2::Sha256 (new, update, finalize): the SHA-256 digest of
/// `message`, which is always 32 bytes long.
#[verifier::external_body]
fn sha256_digest(message: &Vec<u8>) -> (r: Vec<u8>)
    ensures
        r@ == sha256_of(message@),
        r@.len() == DIGEST_SIZE,
{
    let mut hasher = Sha256::new();
    hasher.update(message);
    hasher.finalize().to_vec()
}

/// Adds `vec_b` element-wise into `vec_a`, over their common length.
fn sum(vec_a: &mut Vec<u8>, vec_b: Vec<u8>)
    requires
        forall|i: int|
            0 <= i < old(vec_a)@.len() && i < vec_b@.len() ==> old(vec_a)@[i] + vec_b@[i] <= 255,
    ensures
        final(vec_a)@.len() == old(vec_a)@.len(),
        forall|i: int|
            0 <= i < old(vec_a)@.len() ==> final(vec_a)@[i] == if i < vec_b@.len() {
                (old(vec_a)@[i] + vec_b@[i]) as u8
            } else {
                old(vec_a)@[i]
            },
{
    let n = if vec_a.len() < vec_b.len() { vec_a.len() } else { vec_b.len() };
    let mut i: usize = 0;
    while i < n
        invariant
            n <= vec_a@.len(),
            n <= vec_b@.len(),
            i <= n,
            vec_a@.len() == old(vec_a)@.len(),
            n == old(vec_a)@.len() || n == vec_b@.len(),
            forall|j: int|
                0 <= j < old(vec_a)@.len() && j < vec_b@.len() ==> old(vec_a)@[j] + vec_b@[j] <= 255,
            forall|j: int|
                0 <= j < vec_a@.len() ==> vec_a@[j] == if j < i {
                    (old(vec_a)@[j] + vec_b@[j]) as u8
                } else {
                    old(vec_a)@[j]
                },
        decreases n - i,
    {
        let v = vec_a[i] + vec_b[i];
        vec_a.set(i, v);
        i = i + 1;
    }
}

/// XORs `vec_b` element-wise into `vec_a`, over their common length.
fn xor(vec_a: &mut Vec<u8>, vec_b: Vec<u8>)
    ensures
        final(vec_a)@.len() == old(vec_a)@.len(),
        forall|i: int|
            0 <= i < old(vec_a)@.len() ==> final(vec_a)@[i] == if i < vec_b@.len() {
                old(vec_a)@[i] ^ vec_b@[i]
            } else {
                old(vec_a)@[i]
            },
{
    let n = if vec_a.len() < vec_b.len() { vec_a.len() } else { vec_b.len() };
    let mut i: usize = 0;
    while i < n
        invariant
            n <= vec_a@.len(),
            n <= vec_b@.len(),
            i <= n,
            vec_a@.len() == old(vec_a)@.len(),
            n == old(vec_a)@.len() || n == vec_b@.len(),
            forall|j: int|
                0 <= j < vec_a@.len() ==> vec_a@[j] == if j < i {
                    old(vec_a)@[j] ^ vec_b@[j]
                } else {
                    old(vec_a)@[j]
                },
        decreases n - i,
    {
        let v = vec_a[i] ^ vec_b[i];
        vec_a.set(i, v);
        i = i + 1;
    }
}

} // verus!
