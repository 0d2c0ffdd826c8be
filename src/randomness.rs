//! The randomness source: 16 bytes derived from a seed, the caller and a
//! value that tells operations within one context apart.

use vstd::prelude::*;
use parity_scale_codec::Encode;
use crate::kitty::AccountId;

verus! {

/// The 128-bit Blake2 digest of `data`.
pub uninterp spec fn blake2_128_of(data: Seq<u8>) -> Seq<u8>;

/// `256` to the power `i`.
pub open spec fn pow256(i: nat) -> int
    decreases i,
{
    if i == 0 {
        1
    } else {
        256 * pow256((i - 1) as nat)
    }
}

/// The `n` low bytes of `x`, least significant first.
pub open spec fn le_bytes(x: int, n: nat) -> Seq<u8> {
    Seq::new(n, |i: int| ((x / pow256(i as nat)) % 256) as u8)
}

/// The bytes that are hashed: the seed, then the caller and the
/// distinguisher in little-endian order.
pub open spec fn random_payload(seed: Seq<u8>, sender: AccountId, distinguisher: u32) -> Seq<u8> {
    seed + le_bytes(sender as int, 8) + le_bytes(distinguisher as int, 4)
}

/// What the randomness source yields for a context.
pub open spec fn random_bytes(seed: Seq<u8>, sender: AccountId, distinguisher: u32) -> Seq<u8> {
    blake2_128_of(random_payload(seed, sender, distinguisher))
}

/// Relies on `parity_scale_codec::Encode` for a triple: the three fields'
/// encodings one after another, a byte array as its bytes and each integer
/// as its little-endian bytes.
#[verifier::external_body]
fn encode_payload(seed: &[u8; 32], sender: AccountId, distinguisher: u32) -> (r: Vec<u8>)
    ensures
        r@ == random_payload(seed@, sender, distinguisher),
{
    (*seed, sender, distinguisher).encode()
}

/// Relies on `sp_io::hashing::blake2_128`: the 16-byte Blake2b digest of the
/// input, which depends on the bytes alone.
#[verifier::external_body]
fn blake2_128(data: &[u8]) -> (r: [u8; 16])
    ensures
        r@ == blake2_128_of(data@),
{
    sp_io::hashing::blake2_128(data)
}

/// Derives 16 bytes from a random seed, the caller and a distinguishing
/// value, by hashing their encoding.
pub fn random_value(seed: &[u8; 32], sender: AccountId, distinguisher: u32) -> (r: [u8; 16])
    ensures
        r@ == random_bytes(seed@, sender, distinguisher),
{
    let payload = encode_payload(seed, sender, distinguisher);
    blake2_128(payload.as_slice())
}

} // verus!
