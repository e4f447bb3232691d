//! The BN254 operations the protocol uses. Group elements and scalars travel as their
//! canonical compressed serializations; every call into the curve library sits behind
//! one of the functions below.
use vstd::prelude::*;

use ark_ec::pairing::Pairing;
use ark_ec::Group;
use ark_ff::PrimeField;
use ark_serialize::{CanonicalDeserialize, CanonicalSerialize};
use sha2::Digest;

use crate::bytes::{le_bytes, le_value};

verus! {

/// The order of the BN254 scalar field (and of both pairing groups).
pub open spec fn scalar_modulus() -> nat {
    21888242871839275222246405745257275088548364400416034343698204186575808495617nat
}

/// Length of a serialized scalar.
pub const SCALAR_LEN: usize = 32;

/// The canonical serialization of a scalar: its value in 32 little-endian bytes.
pub open spec fn scalar_bytes(n: nat) -> Seq<u8> {
    le_bytes(n, 32)
}

/// `s` is the canonical serialization of a scalar.
pub open spec fn is_scalar(s: Seq<u8>) -> bool {
    s.len() == 32 && le_value(s) < scalar_modulus()
}

/// The serialization of the G2 generator (the generator times one).
pub open spec fn g2_generator() -> Seq<u8> {
    g2_generator_times(scalar_bytes(1))
}

/// `s` starts with a valid compressed G1 point (on the curve, in the prime-order subgroup).
pub uninterp spec fn g1_valid(s: Seq<u8>) -> bool;

/// `s` starts with a valid compressed G2 point (on the curve, in the prime-order subgroup).
pub uninterp spec fn g2_valid(s: Seq<u8>) -> bool;

/// The compressed serialization of the G1 generator times a scalar.
pub uninterp spec fn g1_generator_times(scalar: Seq<u8>) -> Seq<u8>;

/// The compressed serialization of the G2 generator times a scalar.
pub uninterp spec fn g2_generator_times(scalar: Seq<u8>) -> Seq<u8>;

/// The compressed serialization of a G1 point times a scalar.
pub uninterp spec fn g1_times(point: Seq<u8>, scalar: Seq<u8>) -> Seq<u8>;

/// The compressed serialization of the pairing of a G1 point with a G2 point.
pub uninterp spec fn pairing_of(p: Seq<u8>, q: Seq<u8>) -> Seq<u8>;

/// The SHA-384 digest of a byte string.
pub uninterp spec fn sha384_of(data: Seq<u8>) -> Seq<u8>;

/// Relies on `CanonicalDeserialize::deserialize_compressed` for `Fr`: it reads 32
/// little-endian bytes and accepts them when their value is below the field order.
#[verifier::external_body]
pub(crate) fn scalar_decodes(s: &[u8]) -> (r: bool)
    ensures
        r == (s@.len() >= 32 && le_value(s@.subrange(0, 32)) < scalar_modulus()),
{
    ark_bn254::Fr::deserialize_compressed(s).is_ok()
}

/// Relies on `PrimeField::from_le_bytes_mod_order` for `Fr`, serialized canonically:
/// the little-endian value of the input reduced modulo the field order.
#[verifier::external_body]
pub(crate) fn scalar_from_le_bytes_mod_order(b: &[u8]) -> (r: Vec<u8>)
    ensures
        r@ == scalar_bytes(le_value(b@) % scalar_modulus()),
{
    let mut out: Vec<u8> = Vec::new();
    ark_bn254::Fr::from_le_bytes_mod_order(b).serialize_compressed(&mut out).expect("writing to a vector");
    out
}

/// Relies on `CanonicalDeserialize::deserialize_compressed` for `G1Projective`,
/// which checks the curve equation and the subgroup.
#[verifier::external_body]
pub(crate) fn g1_decodes(s: &[u8]) -> (r: bool)
    ensures
        r == g1_valid(s@),
{
    ark_bn254::G1Projective::deserialize_compressed(s).is_ok()
}

/// Relies on `CanonicalDeserialize::deserialize_compressed` for `G2Projective`,
/// which checks the curve equation and the subgroup.
#[verifier::external_body]
pub(crate) fn g2_decodes(s: &[u8]) -> (r: bool)
    ensures
        r == g2_valid(s@),
{
    ark_bn254::G2Projective::deserialize_compressed(s).is_ok()
}

/// Relies on `Group::generator` and scalar multiplication of `G1Projective`; the
/// compressed result is a valid point.
#[verifier::external_body]
pub(crate) fn g1_mul_generator(scalar: &[u8]) -> (r: Vec<u8>)
    requires
        is_scalar(scalar@),
    ensures
        r@ == g1_generator_times(scalar@),
        g1_valid(r@),
{
    let s = ark_bn254::Fr::deserialize_compressed(scalar).expect("a canonical scalar");
    let mut out: Vec<u8> = Vec::new();
    (ark_bn254::G1Projective::generator() * s).serialize_compressed(&mut out).expect("writing to a vector");
    out
}

/// Relies on `Group::generator` and scalar multiplication of `G2Projective`; the
/// compressed result is a valid point.
#[verifier::external_body]
pub(crate) fn g2_mul_generator(scalar: &[u8]) -> (r: Vec<u8>)
    requires
        is_scalar(scalar@),
    ensures
        r@ == g2_generator_times(scalar@),
        g2_valid(r@),
{
    let s = ark_bn254::Fr::deserialize_compressed(scalar).expect("a canonical scalar");
    let mut out: Vec<u8> = Vec::new();
    (ark_bn254::G2Projective::generator() * s).serialize_compressed(&mut out).expect("writing to a vector");
    out
}

/// Relies on scalar multiplication of `G1Projective`; the compressed result is a
/// valid point.
#[verifier::external_body]
pub(crate) fn g1_mul(point: &[u8], scalar: &[u8]) -> (r: Vec<u8>)
    requires
        g1_valid(point@),
        is_scalar(scalar@),
    ensures
        r@ == g1_times(point@, scalar@),
        g1_valid(r@),
{
    let p = ark_bn254::G1Projective::deserialize_compressed(point).expect("a valid point");
    let s = ark_bn254::Fr::deserialize_compressed(scalar).expect("a canonical scalar");
    let mut out: Vec<u8> = Vec::new();
    (p * s).serialize_compressed(&mut out).expect("writing to a vector");
    out
}

/// Relies on `Pairing::pairing` for `Bn254`, its target-group element serialized
/// compressed (a canonical encoding, so equal bytes mean equal elements).
#[verifier::external_body]
pub(crate) fn pairing(p: &[u8], q: &[u8]) -> (r: Vec<u8>)
    requires
        g1_valid(p@),
        g2_valid(q@),
    ensures
        r@ == pairing_of(p@, q@),
{
    let p = ark_bn254::G1Projective::deserialize_compressed(p).expect("a valid point");
    let q = ark_bn254::G2Projective::deserialize_compressed(q).expect("a valid point");
    let mut out: Vec<u8> = Vec::new();
    ark_bn254::Bn254::pairing(p, q).serialize_compressed(&mut out).expect("writing to a vector");
    out
}

/// Relies on `sha2::Sha384::digest`: a 48-byte digest.
#[verifier::external_body]
pub(crate) fn sha384(data: &[u8]) -> (r: Vec<u8>)
    ensures
        r@ == sha384_of(data@),
        r@.len() == 48,
{
    sha2::Sha384::digest(data).to_vec()
}

} // verus!
