//! The per-epoch circuit: the decision whether a new key legitimately succeeds an old
//! one, and the journal it commits to.
use vstd::prelude::*;

use crate::bytes::bytes_equal;
use crate::curve::{g1_decodes, g1_valid, g2_decodes, g2_valid};
use crate::error::SuccessionError;
use crate::journal::{decode_journal, encode_journal, journal_bytes, parse_journal};
use crate::message::{derive_message, message_of};
use crate::pairing::{signature_holds, verify_pairing};
use crate::receipt::{Proof, ProofView};

verus! {

/// What an epoch is proved from.
#[derive(Clone, Debug)]
pub struct EpochInput {
    /// The key being succeeded; in a genesis epoch, whatever anchor bytes were supplied.
    pub predecessor: Vec<u8>,
    /// The new public key (a compressed G2 point).
    pub successor: Vec<u8>,
    /// The signed message (a compressed G1 point).
    pub message: Vec<u8>,
    /// The signature (a compressed G1 point).
    pub signature: Vec<u8>,
}

pub struct EpochInputView {
    pub predecessor: Seq<u8>,
    pub successor: Seq<u8>,
    pub message: Seq<u8>,
    pub signature: Seq<u8>,
}

impl View for EpochInput {
    type V = EpochInputView;

    open spec fn view(&self) -> EpochInputView {
        EpochInputView {
            predecessor: self.predecessor@,
            successor: self.successor@,
            message: self.message@,
            signature: self.signature@,
        }
    }
}

/// The checks both states make: the three points decode, the message is the one
/// derived from the predecessor, and the pairing equation holds.
pub open spec fn signature_outcome(input: EpochInputView) -> Result<(), SuccessionError> {
    if !(g2_valid(input.successor) && g1_valid(input.message) && g1_valid(input.signature)) {
        Err(SuccessionError::Deserialization)
    } else if input.message != message_of(input.predecessor) || !signature_holds(
        input.signature,
        input.message,
        input.successor,
    ) {
        Err(SuccessionError::InvalidSignature)
    } else {
        Ok(())
    }
}

/// The check only a succession makes: the prior proof is for this circuit and commits
/// to this epoch's predecessor as its successor.
pub open spec fn link_outcome(circuit_id: Seq<u8>, predecessor: Seq<u8>, prior: ProofView) -> Result<(), SuccessionError> {
    if prior.circuit_id != circuit_id {
        Err(SuccessionError::ProofInvalid)
    } else {
        match parse_journal(prior.journal) {
            Some((_, committed)) => if committed == predecessor {
                Ok(())
            } else {
                Err(SuccessionError::ChainMismatch)
            },
            None => Err(SuccessionError::ChainMismatch),
        }
    }
}

/// The circuit's result: the journal committing (predecessor, successor), or the
/// first check that failed. Without a prior proof the epoch is a genesis epoch.
pub open spec fn epoch_outcome(circuit_id: Seq<u8>, input: EpochInputView, prior: Option<ProofView>) -> Result<Seq<u8>, SuccessionError> {
    match signature_outcome(input) {
        Err(e) => Err(e),
        Ok(_) => match prior {
            None => Ok(journal_bytes(input.predecessor, input.successor)),
            Some(p) => match link_outcome(circuit_id, input.predecessor, p) {
                Err(e) => Err(e),
                Ok(_) => Ok(journal_bytes(input.predecessor, input.successor)),
            },
        },
    }
}

pub open spec fn view_of_prior(prior: Option<&Proof>) -> Option<ProofView> {
    match prior {
        Some(p) => Some(p@),
        None => None,
    }
}

/// Runs one epoch of the circuit `circuit_id` on `input`, with the previous epoch's
/// proof as assumption when there is one.
pub fn run_epoch(circuit_id: &[u8], input: &EpochInput, prior: Option<&Proof>) -> (r: Result<Vec<u8>, SuccessionError>)
    ensures
        match r {
            Ok(journal) => epoch_outcome(circuit_id@, input@, view_of_prior(prior)) == Ok::<Seq<u8>, SuccessionError>(journal@),
            Err(e) => epoch_outcome(circuit_id@, input@, view_of_prior(prior)) == Err::<Seq<u8>, SuccessionError>(e),
        },
{
    if !g2_decodes(input.successor.as_slice()) || !g1_decodes(input.message.as_slice())
        || !g1_decodes(input.signature.as_slice()) {
        return Err(SuccessionError::Deserialization);
    }
    let expected = derive_message(input.predecessor.as_slice());
    if !bytes_equal(expected.as_slice(), input.message.as_slice()) {
        return Err(SuccessionError::InvalidSignature);
    }
    match verify_pairing(input.signature.as_slice(), input.message.as_slice(), input.successor.as_slice()) {
        Ok(true) => {},
        Ok(false) => {
            return Err(SuccessionError::InvalidSignature);
        },
        Err(e) => {
            return Err(e);
        },
    }
    match prior {
        None => {},
        Some(p) => {
            if !bytes_equal(p.circuit_id.as_slice(), circuit_id) {
                return Err(SuccessionError::ProofInvalid);
            }
            match decode_journal(p.journal.as_slice()) {
                None => {
                    return Err(SuccessionError::ChainMismatch);
                },
                Some((_, committed)) => {
                    if !bytes_equal(committed.as_slice(), input.predecessor.as_slice()) {
                        return Err(SuccessionError::ChainMismatch);
                    }
                },
            }
        },
    }
    Ok(encode_journal(&input.predecessor, &input.successor))
}

/// An epoch whose prior proof commits to a successor key other than the predecessor
/// it claims is never accepted; once its own signature checks pass, it is refused
/// with `ChainMismatch`.
pub proof fn lemma_mismatched_predecessor_refused(circuit_id: Seq<u8>, input: EpochInputView, prior: ProofView)
    requires
        prior.circuit_id == circuit_id,
        parse_journal(prior.journal) is Some,
        parse_journal(prior.journal).unwrap().1 != input.predecessor,
    ensures
        epoch_outcome(circuit_id, input, Some(prior)) is Err,
        signature_outcome(input) is Ok ==> epoch_outcome(circuit_id, input, Some(prior))
            == Err::<Seq<u8>, SuccessionError>(SuccessionError::ChainMismatch),
{
}

} // verus!
