//! Derivation of the message a successor key signs from its predecessor key.
use vstd::prelude::*;

use crate::bytes::{le_value, lemma_le_bytes_len, lemma_le_value_of_bytes, lemma_pow256_32};
use crate::curve::{
    g1_generator_times, g1_mul_generator, g1_valid, is_scalar, scalar_bytes,
    scalar_from_le_bytes_mod_order, scalar_modulus, sha384, sha384_of,
};

verus! {

/// The scalar a predecessor key hashes to: its SHA-384 digest, read little-endian,
/// reduced modulo the group order.
pub open spec fn message_scalar(predecessor: Seq<u8>) -> Seq<u8> {
    scalar_bytes(le_value(sha384_of(predecessor)) % scalar_modulus())
}

/// The message a successor signs: the G1 generator times the predecessor's scalar.
pub open spec fn message_of(predecessor: Seq<u8>) -> Seq<u8> {
    g1_generator_times(message_scalar(predecessor))
}

/// The canonical encoding of a value below the group order is a scalar.
pub proof fn lemma_reduced_is_scalar(n: nat)
    requires
        n < scalar_modulus(),
    ensures
        is_scalar(scalar_bytes(n)),
        crate::bytes::le_value(scalar_bytes(n)) == n,
{
    lemma_pow256_32();
    lemma_le_bytes_len(n, 32);
    lemma_le_value_of_bytes(n, 32);
}

/// Maps a predecessor's public-key bytes to the G1 element its successor must sign.
pub fn derive_message(predecessor: &[u8]) -> (r: Vec<u8>)
    ensures
        r@ == message_of(predecessor@),
        g1_valid(r@),
{
    let digest = sha384(predecessor);
    let scalar = scalar_from_le_bytes_mod_order(digest.as_slice());
    proof {
        lemma_reduced_is_scalar(le_value(sha384_of(predecessor@)) % scalar_modulus());
    }
    g1_mul_generator(scalar.as_slice())
}

/// Two derivations from the same predecessor bytes give the same message.
pub proof fn lemma_message_deterministic(a: Seq<u8>, b: Seq<u8>)
    requires
        a == b,
    ensures
        message_of(a) == message_of(b),
{
}

} // verus!
