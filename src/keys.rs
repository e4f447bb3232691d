//! Key pairs and the signing side of a succession: the successor's public key, the
//! message derived from the predecessor, and the signature over it.
use vstd::prelude::*;

use crate::curve::{
    g1_mul, g1_times, g2_generator_times, g2_mul_generator, is_scalar, scalar_decodes, SCALAR_LEN,
};
use crate::error::SuccessionError;
use crate::message::{derive_message, message_of};

verus! {

/// The byte triple an epoch is proved from: (successor public key, message, signature).
pub type SignatureInput = (Vec<u8>, Vec<u8>, Vec<u8>);

/// What signing a succession from `predecessor` under `secret` yields.
pub open spec fn signed_input(predecessor: Seq<u8>, secret: Seq<u8>) -> (Seq<u8>, Seq<u8>, Seq<u8>) {
    (
        g2_generator_times(secret),
        message_of(predecessor),
        g1_times(message_of(predecessor), secret),
    )
}

/// Whether `secret` is a canonical scalar: 32 little-endian bytes below the group order.
pub fn is_secret(secret: &[u8]) -> (r: bool)
    ensures
        r == is_scalar(secret@),
{
    if secret.len() != SCALAR_LEN {
        return false;
    }
    let ok = scalar_decodes(secret);
    assert(secret@.subrange(0, 32) =~= secret@);
    ok
}

/// The public key of a secret: the G2 generator times the secret.
pub fn public_key(secret: &[u8]) -> (r: Result<Vec<u8>, SuccessionError>)
    ensures
        match r {
            Ok(pk) => is_scalar(secret@) && pk@ == g2_generator_times(secret@),
            Err(e) => !is_scalar(secret@) && e == SuccessionError::Deserialization,
        },
{
    if !is_secret(secret) {
        return Err(SuccessionError::Deserialization);
    }
    Ok(g2_mul_generator(secret))
}

/// Signs the succession from `predecessor` to the key of `secret`: the successor's
/// public key, the message derived from `predecessor`, and that message times the
/// secret.
pub fn generate_inputs(predecessor: &[u8], secret: &[u8]) -> (r: Result<SignatureInput, SuccessionError>)
    ensures
        match r {
            Ok((pk, msg, sig)) => is_scalar(secret@) && (pk@, msg@, sig@) == signed_input(
                predecessor@,
                secret@,
            ),
            Err(e) => !is_scalar(secret@) && e == SuccessionError::Deserialization,
        },
{
    if !is_secret(secret) {
        return Err(SuccessionError::Deserialization);
    }
    let public = g2_mul_generator(secret);
    let message = derive_message(predecessor);
    let signature = g1_mul(message.as_slice(), secret);
    Ok((public, message, signature))
}

} // verus!
