use ark_bn254::{Fr, G1Projective, G2Projective};
use ark_ec::Group;
use ark_ff::PrimeField;
use ark_serialize::CanonicalSerialize;
use sha2::{Digest, Sha384};

use key_succession::chain::{Chain, EpochRequest};
use key_succession::circuit::{run_epoch, EpochInput};
use key_succession::compression::{next_stage, Compression};
use key_succession::journal::{decode_journal, encode_journal};
use key_succession::keys::{generate_inputs, is_secret, public_key};
use key_succession::message::derive_message;
use key_succession::pairing::verify_pairing;
use key_succession::receipt::{Proof, ProofStage};
use key_succession::{bytes_equal, SuccessionError};

const CIRCUIT: [u8; 4] = [9, 9, 9, 9];

fn scalar(n: u8) -> Vec<u8> {
    let mut v = vec![0u8; 32];
    v[0] = n;
    v
}

fn compressed<T: CanonicalSerialize>(t: &T) -> Vec<u8> {
    let mut out = Vec::new();
    t.serialize_compressed(&mut out).unwrap();
    out
}

/// A stand-in proving backend: it runs the circuit natively and wraps the journal.
fn prove(circuit_id: &[u8], request: &EpochRequest) -> Result<Proof, SuccessionError> {
    let journal = run_epoch(circuit_id, &request.input, request.prior.as_ref())?;
    let stage = if request.prior.is_some() { ProofStage::Composite } else { ProofStage::Base };
    Ok(Proof { stage, circuit_id: circuit_id.to_vec(), journal, seal: vec![0xAB, request.index as u8] })
}

fn verify(proof: &Proof, circuit_id: &[u8]) -> bool {
    proof.circuit_id == circuit_id
}

fn compress(proof: &Proof, target: ProofStage) -> Proof {
    let mut seal = proof.seal.clone();
    seal.push(target as u8);
    Proof { stage: target, circuit_id: proof.circuit_id.clone(), journal: proof.journal.clone(), seal }
}

fn grow(chain: &mut Chain, request: EpochRequest) -> Result<(), SuccessionError> {
    let proof = prove(&CIRCUIT, &request)?;
    let ok = verify(&proof, &CIRCUIT);
    chain.record(request, proof, ok)
}

fn genesis_chain(anchor: &[u8], s0: u8) -> Chain {
    let mut chain = Chain::new(CIRCUIT.to_vec());
    let request = chain.genesis(anchor, &scalar(s0)).unwrap();
    grow(&mut chain, request).unwrap();
    chain
}

#[test]
fn signature_verifies_for_derived_message() {
    for (s_old, s_new) in [(3u8, 5u8), (1, 1), (200, 17)] {
        let pk_old = public_key(&scalar(s_old)).unwrap();
        let (pk, msg, sig) = generate_inputs(&pk_old, &scalar(s_new)).unwrap();
        assert_eq!(verify_pairing(&sig, &msg, &pk), Ok(true));
    }
}

#[test]
fn flipped_signature_byte_is_rejected() {
    let pk_old = public_key(&scalar(3)).unwrap();
    let (pk, msg, sig) = generate_inputs(&pk_old, &scalar(5)).unwrap();
    for i in 0..sig.len() {
        let mut bad = sig.clone();
        bad[i] ^= 0x01;
        assert_ne!(verify_pairing(&bad, &msg, &pk), Ok(true));
    }
}

#[test]
fn signature_under_other_key_is_false() {
    let pk_old = public_key(&scalar(3)).unwrap();
    let (pk, msg, _) = generate_inputs(&pk_old, &scalar(5)).unwrap();
    let (_, _, other_sig) = generate_inputs(&pk_old, &scalar(6)).unwrap();
    assert_eq!(verify_pairing(&other_sig, &msg, &pk), Ok(false));
}

#[test]
fn malformed_point_is_deserialization_error() {
    let pk_old = public_key(&scalar(3)).unwrap();
    let (pk, msg, sig) = generate_inputs(&pk_old, &scalar(5)).unwrap();
    assert_eq!(verify_pairing(&sig[..10], &msg, &pk), Err(SuccessionError::Deserialization));
    assert_eq!(verify_pairing(&sig, &msg, &msg), Err(SuccessionError::Deserialization));
}

#[test]
fn message_derivation_is_deterministic() {
    let a = derive_message(b"predecessor key");
    let b = derive_message(b"predecessor key");
    let c = derive_message(b"another key");
    assert_eq!(a, b);
    assert_ne!(a, c);
}

#[test]
fn message_is_generator_times_reduced_digest() {
    let pred = public_key(&scalar(11)).unwrap();
    let digest = Sha384::digest(&pred);
    let expected = compressed(&(G1Projective::generator() * Fr::from_le_bytes_mod_order(digest.as_slice())));
    assert_eq!(derive_message(&pred), expected);
    assert_eq!(expected.len(), 32);
}

#[test]
fn public_key_is_g2_generator_times_secret() {
    let expected = compressed(&(G2Projective::generator() * Fr::from(42u64)));
    assert_eq!(public_key(&scalar(42)).unwrap(), expected);
    assert_eq!(public_key(&scalar(1)).unwrap(), compressed(&G2Projective::generator()));
}

#[test]
fn generate_inputs_matches_reference_computation() {
    let pred = public_key(&scalar(8)).unwrap();
    let (pk, msg, sig) = generate_inputs(&pred, &scalar(13)).unwrap();
    let s = Fr::from(13u64);
    let m = G1Projective::generator() * Fr::from_le_bytes_mod_order(Sha384::digest(&pred).as_slice());
    assert_eq!(pk, compressed(&(G2Projective::generator() * s)));
    assert_eq!(msg, compressed(&m));
    assert_eq!(sig, compressed(&(m * s)));
}

#[test]
fn unit_and_zero_secrets() {
    let (_, msg, sig) = generate_inputs(b"anchor", &scalar(1)).unwrap();
    assert_eq!(sig, msg);
    let (pk, _, sig0) = generate_inputs(b"anchor", &scalar(0)).unwrap();
    let mut g1_infinity = vec![0u8; 32];
    g1_infinity[31] = 0x40;
    let mut g2_infinity = vec![0u8; 64];
    g2_infinity[63] = 0x40;
    assert_eq!(sig0, g1_infinity);
    assert_eq!(pk, g2_infinity);
}

#[test]
fn invalid_secrets_are_refused() {
    // The group order itself, little-endian, is not a canonical scalar.
    let mut modulus = hex::decode("010000f093f5e1439170b97948e833285d588181b64550b829a031e1724e6430").unwrap();
    assert!(!is_secret(&modulus));
    assert_eq!(public_key(&modulus), Err(SuccessionError::Deserialization));
    modulus[0] = 0;
    assert!(is_secret(&modulus));
    assert_eq!(public_key(&[1u8; 31]), Err(SuccessionError::Deserialization));
    assert_eq!(public_key(&[1u8; 33]), Err(SuccessionError::Deserialization));
    assert_eq!(generate_inputs(b"x", &[0xFF; 32]), Err(SuccessionError::Deserialization));
}

#[test]
fn journal_layout_is_exact() {
    let j = encode_journal(&vec![1, 2], &vec![3]);
    assert_eq!(j, vec![2, 0, 0, 0, 0, 0, 0, 0, 1, 2, 1, 0, 0, 0, 0, 0, 0, 0, 3]);
    assert_eq!(decode_journal(&j), Some((vec![1, 2], vec![3])));
    let mut trailing = j.clone();
    trailing.push(7);
    assert_eq!(decode_journal(&trailing), Some((vec![1, 2], vec![3])));
    assert_eq!(decode_journal(&j[..j.len() - 1]), None);
    assert_eq!(decode_journal(&[1, 0, 0]), None);
    assert_eq!(decode_journal(&encode_journal(&vec![], &vec![])), Some((vec![], vec![])));
}

#[test]
fn genesis_epoch_commits_its_key() {
    let anchor = public_key(&scalar(2)).unwrap();
    let chain = genesis_chain(&anchor, 7);
    assert_eq!(chain.len(), 1);
    let epoch = chain.epoch(0);
    assert_eq!(epoch.index, 0);
    assert_eq!(epoch.proof.stage, ProofStage::Base);
    assert!(verify(&epoch.proof, &CIRCUIT));
    let (pred, succ) = decode_journal(&epoch.proof.journal).unwrap();
    assert_eq!(pred, anchor);
    assert_eq!(succ, public_key(&scalar(7)).unwrap());
}

#[test]
fn extended_epoch_links_to_genesis() {
    let anchor = public_key(&scalar(2)).unwrap();
    let mut chain = genesis_chain(&anchor, 7);
    let request = chain.extend(&scalar(19)).unwrap();
    assert!(request.prior.is_some());
    grow(&mut chain, request).unwrap();
    assert_eq!(chain.len(), 2);
    let epoch = chain.epoch(1);
    assert_eq!(epoch.proof.stage, ProofStage::Composite);
    assert!(verify(&epoch.proof, &CIRCUIT));
    let (pred, succ) = decode_journal(&epoch.proof.journal).unwrap();
    assert_eq!(pred, public_key(&scalar(7)).unwrap());
    assert_eq!(succ, public_key(&scalar(19)).unwrap());
}

#[test]
fn every_link_matches_the_epoch_before() {
    let mut chain = genesis_chain(b"anchor", 3);
    for s in [4u8, 5, 6] {
        let request = chain.extend(&scalar(s)).unwrap();
        grow(&mut chain, request).unwrap();
    }
    for i in 1..chain.len() {
        let (pred, _) = decode_journal(&chain.epoch(i).proof.journal).unwrap();
        let (_, prev_succ) = decode_journal(&chain.epoch(i - 1).proof.journal).unwrap();
        assert_eq!(pred, prev_succ);
        assert_eq!(pred, chain.epoch(i - 1).input.successor);
    }
}

#[test]
fn tampered_signature_is_not_recorded() {
    let mut chain = genesis_chain(b"anchor", 7);
    let mut request = chain.extend(&scalar(19)).unwrap();
    let (_, _, wrong) = generate_inputs(&request.input.predecessor, &scalar(20)).unwrap();
    request.input.signature = wrong;
    assert_eq!(grow(&mut chain, request), Err(SuccessionError::InvalidSignature));
    assert_eq!(chain.len(), 1);
}

#[test]
fn flipped_byte_in_epoch_signature_fails() {
    let chain = genesis_chain(b"anchor", 7);
    let mut request = chain.extend(&scalar(19)).unwrap();
    request.input.signature[3] ^= 0x10;
    let r = run_epoch(&CIRCUIT, &request.input, request.prior.as_ref());
    assert!(matches!(r, Err(SuccessionError::InvalidSignature) | Err(SuccessionError::Deserialization)));
}

#[test]
fn unrelated_assumption_is_chain_mismatch() {
    let chain = genesis_chain(b"anchor", 7);
    let other = genesis_chain(b"another anchor", 8);
    let mut request = chain.extend(&scalar(19)).unwrap();
    request.prior = Some(other.epoch(0).proof.clone());
    assert!(matches!(prove(&CIRCUIT, &request), Err(SuccessionError::ChainMismatch)));
}

#[test]
fn assumption_of_other_circuit_is_proof_invalid() {
    let chain = genesis_chain(b"anchor", 7);
    let request = chain.extend(&scalar(19)).unwrap();
    assert!(matches!(prove(&[1, 2, 3], &request), Err(SuccessionError::ProofInvalid)));
}

#[test]
fn message_not_derived_from_predecessor_is_invalid_signature() {
    let (pk, msg, sig) = generate_inputs(b"one key", &scalar(5)).unwrap();
    let input = EpochInput { predecessor: b"other key".to_vec(), successor: pk, message: msg, signature: sig };
    assert_eq!(run_epoch(&CIRCUIT, &input, None), Err(SuccessionError::InvalidSignature));
}

#[test]
fn malformed_epoch_input_is_deserialization_error() {
    let (pk, msg, sig) = generate_inputs(b"one key", &scalar(5)).unwrap();
    let input = EpochInput { predecessor: b"one key".to_vec(), successor: pk.clone(), message: vec![1, 2, 3], signature: sig.clone() };
    assert_eq!(run_epoch(&CIRCUIT, &input, None), Err(SuccessionError::Deserialization));
    let input = EpochInput { predecessor: b"one key".to_vec(), successor: msg.clone(), message: msg, signature: sig };
    assert_eq!(run_epoch(&CIRCUIT, &input, None), Err(SuccessionError::Deserialization));
}

#[test]
fn genesis_journal_is_the_key_pair() {
    let (pk, msg, sig) = generate_inputs(b"anchor", &scalar(5)).unwrap();
    let input = EpochInput { predecessor: b"anchor".to_vec(), successor: pk.clone(), message: msg, signature: sig };
    assert_eq!(run_epoch(&CIRCUIT, &input, None), Ok(encode_journal(&b"anchor".to_vec(), &pk)));
}

#[test]
fn chain_refuses_requests_out_of_order() {
    let empty = Chain::new(CIRCUIT.to_vec());
    assert!(matches!(empty.extend(&scalar(3)), Err(SuccessionError::ChainMismatch)));
    assert!(empty.latest_proof().is_none());
    let chain = genesis_chain(b"anchor", 7);
    assert!(matches!(chain.genesis(b"anchor", &scalar(3)), Err(SuccessionError::ChainMismatch)));
    assert!(matches!(chain.extend(&[0xFF; 32]), Err(SuccessionError::Deserialization)));
    assert!(matches!(empty.genesis(b"anchor", &[0xFF; 32]), Err(SuccessionError::Deserialization)));
}

#[test]
fn unverified_or_foreign_proofs_are_not_recorded() {
    let mut chain = genesis_chain(b"anchor", 7);
    let request = chain.extend(&scalar(19)).unwrap();
    let proof = prove(&CIRCUIT, &request).unwrap();
    assert_eq!(chain.record(request.clone(), proof.clone(), false), Err(SuccessionError::ProofInvalid));
    let mut wrong_journal = proof.clone();
    wrong_journal.journal = encode_journal(&vec![1], &vec![2]);
    assert_eq!(chain.record(request.clone(), wrong_journal, true), Err(SuccessionError::ProofInvalid));
    let mut wrong_stage = proof.clone();
    wrong_stage.stage = ProofStage::Base;
    assert_eq!(chain.record(request.clone(), wrong_stage, true), Err(SuccessionError::ProofInvalid));
    let mut stale = request.clone();
    stale.index = 5;
    assert_eq!(chain.record(stale, proof.clone(), true), Err(SuccessionError::ChainMismatch));
    let mut unlinked = request.clone();
    unlinked.input.predecessor = b"elsewhere".to_vec();
    assert_eq!(chain.record(unlinked, proof.clone(), true), Err(SuccessionError::ChainMismatch));
    assert_eq!(chain.len(), 1);
    assert_eq!(chain.record(request, proof, true), Ok(()));
    assert_eq!(chain.len(), 2);
    assert_eq!(chain.latest_proof().unwrap().stage, ProofStage::Composite);
}

#[test]
fn compression_keeps_the_journal_at_every_stage() {
    let mut chain = genesis_chain(b"anchor", 7);
    let request = chain.extend(&scalar(19)).unwrap();
    grow(&mut chain, request).unwrap();
    let proof = chain.latest_proof().unwrap().clone();
    let journal = proof.journal.clone();
    let mut pipeline = Compression::start(proof.clone(), verify(&proof, &CIRCUIT)).unwrap();
    assert_eq!(pipeline.target(), Some(ProofStage::Succinct));
    while let Some(target) = pipeline.target() {
        let next = compress(pipeline.current(), target);
        assert!(verify(&next, &CIRCUIT));
        pipeline.advance(next, true).unwrap();
        assert_eq!(pipeline.current().journal, journal);
    }
    assert_eq!(pipeline.current().stage, ProofStage::Final);
    let (j, seal) = pipeline.finish().unwrap();
    assert_eq!(j, journal);
    assert_eq!(seal, vec![0xAB, 1, ProofStage::Succinct as u8, ProofStage::Final as u8]);
    // The earlier composite proof is untouched.
    assert_eq!(chain.epoch(1).proof.stage, ProofStage::Composite);
}

#[test]
fn compression_refuses_unverified_or_altered_proofs() {
    let chain = genesis_chain(b"anchor", 7);
    let proof = chain.epoch(0).proof.clone();
    assert!(matches!(Compression::start(proof.clone(), false), Err(SuccessionError::ProofInvalid)));
    let mut pipeline = Compression::start(proof.clone(), true).unwrap();
    assert!(matches!(pipeline.finish(), Err(SuccessionError::ProofInvalid)));
    let good = compress(&proof, ProofStage::Succinct);
    assert_eq!(pipeline.advance(good.clone(), false), Err(SuccessionError::ProofInvalid));
    let skipped = compress(&proof, ProofStage::Final);
    assert_eq!(pipeline.advance(skipped, true), Err(SuccessionError::ProofInvalid));
    let mut altered = good.clone();
    altered.journal.push(0);
    assert_eq!(pipeline.advance(altered, true), Err(SuccessionError::ProofInvalid));
    let mut foreign = good.clone();
    foreign.circuit_id = vec![1];
    assert_eq!(pipeline.advance(foreign, true), Err(SuccessionError::ProofInvalid));
    assert_eq!(pipeline.current().stage, ProofStage::Base);
    assert_eq!(pipeline.advance(good, true), Ok(()));
    assert_eq!(pipeline.current().stage, ProofStage::Succinct);
}

#[test]
fn stages_follow_the_compression_order() {
    assert_eq!(next_stage(ProofStage::Base), Some(ProofStage::Succinct));
    assert_eq!(next_stage(ProofStage::Composite), Some(ProofStage::Succinct));
    assert_eq!(next_stage(ProofStage::Succinct), Some(ProofStage::Final));
    assert_eq!(next_stage(ProofStage::Final), None);
}

#[test]
fn byte_equality() {
    assert!(bytes_equal(&[1, 2, 3], &[1, 2, 3]));
    assert!(!bytes_equal(&[1, 2, 3], &[1, 2, 4]));
    assert!(!bytes_equal(&[1, 2], &[1, 2, 3]));
    assert!(bytes_equal(&[], &[]));
}
