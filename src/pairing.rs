//! The pairing check that decides whether a signature was made by a public key's secret.
use vstd::prelude::*;

use crate::bytes::bytes_equal;
use crate::curve::{
    g1_decodes, g1_valid, g2_decodes, g2_generator, g2_mul_generator, g2_valid, pairing,
    pairing_of, scalar_bytes, scalar_from_le_bytes_mod_order,
};
use crate::error::SuccessionError;
use crate::message::lemma_reduced_is_scalar;

verus! {

/// `e(signature, g2) == e(message, public_key)`, where `g2` generates G2.
pub open spec fn signature_holds(signature: Seq<u8>, message: Seq<u8>, public_key: Seq<u8>) -> bool {
    pairing_of(signature, g2_generator()) == pairing_of(message, public_key)
}

/// The three inputs decode as a G1 point, a G1 point and a G2 point.
pub open spec fn points_valid(signature: Seq<u8>, message: Seq<u8>, public_key: Seq<u8>) -> bool {
    g1_valid(signature) && g1_valid(message) && g2_valid(public_key)
}

/// What the pairing check answers: a deserialization error on malformed points,
/// otherwise whether the pairing equation holds.
pub open spec fn pairing_verdict(signature: Seq<u8>, message: Seq<u8>, public_key: Seq<u8>) -> Result<bool, SuccessionError> {
    if points_valid(signature, message, public_key) {
        Ok(signature_holds(signature, message, public_key))
    } else {
        Err(SuccessionError::Deserialization)
    }
}

/// The serialized G2 generator.
fn g2_generator_bytes() -> (r: Vec<u8>)
    ensures
        r@ == g2_generator(),
        g2_valid(r@),
{
    let one: [u8; 1] = [1u8];
    let scalar = scalar_from_le_bytes_mod_order(&one);
    proof {
        assert(one@ =~= seq![1u8]);
        assert(one@.drop_first() =~= Seq::<u8>::empty());
        reveal_with_fuel(crate::bytes::le_value, 2);
        assert(crate::bytes::le_value(one@) == 1);
        lemma_reduced_is_scalar(1);
        assert(scalar@ == scalar_bytes(1));
    }
    g2_mul_generator(scalar.as_slice())
}

/// Checks a signature on a message against a public key with the pairing equation.
pub fn verify_pairing(signature: &[u8], message: &[u8], public_key: &[u8]) -> (r: Result<bool, SuccessionError>)
    ensures
        r == pairing_verdict(signature@, message@, public_key@),
{
    if !g1_decodes(signature) || !g1_decodes(message) || !g2_decodes(public_key) {
        return Err(SuccessionError::Deserialization);
    }
    let generator = g2_generator_bytes();
    let left = pairing(signature, generator.as_slice());
    let right = pairing(message, public_key);
    Ok(bytes_equal(left.as_slice(), right.as_slice()))
}

} // verus!
