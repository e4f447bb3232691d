//! The chain orchestrator: an append-only log of epochs, the requests it hands the
//! proving backend, and the rule deciding which proved epochs are recorded.
use vstd::prelude::*;

use crate::bytes::{bytes_equal, copy_bytes, pow256};
use crate::circuit::{EpochInput, EpochInputView};
use crate::error::SuccessionError;
use crate::journal::{journal_bytes, lemma_journal_round_trip, parse_journal};
use crate::keys::{generate_inputs, signed_input};
use crate::receipt::{Proof, ProofStage, ProofView};
use crate::curve::is_scalar;

verus! {

/// One recorded key succession.
#[derive(Clone, Debug)]
pub struct Epoch {
    pub index: usize,
    pub input: EpochInput,
    pub proof: Proof,
}

pub struct EpochView {
    pub index: nat,
    pub input: EpochInputView,
    pub proof: ProofView,
}

impl View for Epoch {
    type V = EpochView;

    open spec fn view(&self) -> EpochView {
        EpochView { index: self.index as nat, input: self.input@, proof: self.proof@ }
    }
}

/// What the proving backend is asked to prove next: the circuit run on `input`, with
/// `prior` as the recursively verified assumption when the epoch is not the first.
#[derive(Clone, Debug)]
pub struct EpochRequest {
    pub index: usize,
    pub input: EpochInput,
    pub prior: Option<Proof>,
}

pub struct EpochRequestView {
    pub index: nat,
    pub input: EpochInputView,
    pub prior: Option<ProofView>,
}

impl View for EpochRequest {
    type V = EpochRequestView;

    open spec fn view(&self) -> EpochRequestView {
        EpochRequestView {
            index: self.index as nat,
            input: self.input@,
            prior: match self.prior {
                Some(p) => Some(p@),
                None => None,
            },
        }
    }
}

/// The stage of the proof recorded for epoch `index`.
pub open spec fn epoch_stage(index: nat) -> ProofStage {
    if index == 0 {
        ProofStage::Base
    } else {
        ProofStage::Composite
    }
}

/// The chain's invariant: epochs are numbered from zero, each proof is a proof of
/// the chain's circuit at the stage its position calls for and commits to its
/// epoch's (predecessor, successor), and each predecessor is the successor before it.
pub open spec fn chain_wf(circuit_id: Seq<u8>, epochs: Seq<EpochView>) -> bool {
    &&& forall|i: int| 0 <= i < epochs.len() ==> epoch_fits(circuit_id, i as nat, #[trigger] epochs[i])
    &&& forall|i: int| 0 < i < epochs.len() ==> (#[trigger] epochs[i]).input.predecessor == epochs[i - 1].input.successor
}

/// Epoch `e` may stand at position `i` of a chain of the circuit `circuit_id`.
pub open spec fn epoch_fits(circuit_id: Seq<u8>, i: nat, e: EpochView) -> bool {
    &&& e.index == i
    &&& e.proof.circuit_id == circuit_id
    &&& e.proof.stage == epoch_stage(i)
    &&& e.proof.journal == journal_bytes(e.input.predecessor, e.input.successor)
    &&& e.input.predecessor.len() < pow256(8)
    &&& e.input.successor.len() < pow256(8)
}

/// An ordered, append-only sequence of epochs of one circuit.
pub struct Chain {
    circuit_id: Vec<u8>,
    epochs: Vec<Epoch>,
}

pub struct ChainView {
    pub circuit_id: Seq<u8>,
    pub epochs: Seq<EpochView>,
}

impl View for Chain {
    type V = ChainView;

    closed spec fn view(&self) -> ChainView {
        ChainView { circuit_id: self.circuit_id@, epochs: self.epochs@.map_values(|e: Epoch| e@) }
    }
}

/// The request for the first epoch: the anchor bytes as predecessor, signed by the
/// genesis secret, with no assumption.
pub open spec fn genesis_request(anchor: Seq<u8>, secret: Seq<u8>) -> EpochRequestView {
    let (successor, message, signature) = signed_input(anchor, secret);
    EpochRequestView {
        index: 0,
        input: EpochInputView { predecessor: anchor, successor, message, signature },
        prior: None,
    }
}

/// The request for the epoch after `chain`'s last one, signed by the new secret.
pub open spec fn extend_request(chain: ChainView, secret: Seq<u8>) -> EpochRequestView {
    let last = chain.epochs.last();
    let anchor = last.input.successor;
    let (successor, message, signature) = signed_input(anchor, secret);
    EpochRequestView {
        index: chain.epochs.len(),
        input: EpochInputView { predecessor: anchor, successor, message, signature },
        prior: Some(last.proof),
    }
}

/// `request` asks for the epoch right after the chain's last one, linked to it.
pub open spec fn request_fits(chain: ChainView, request: EpochRequestView) -> bool {
    &&& request.index == chain.epochs.len()
    &&& if chain.epochs.len() == 0 {
        request.prior is None
    } else {
        &&& request.prior is Some
        &&& request.input.predecessor == chain.epochs.last().input.successor
    }
}

/// `proof` is a verified proof of the requested epoch: the chain's circuit, the
/// stage the epoch's position calls for, and the journal committing its keys.
pub open spec fn proof_fits(chain: ChainView, request: EpochRequestView, proof: ProofView, verified: bool) -> bool {
    &&& verified
    &&& proof.circuit_id == chain.circuit_id
    &&& proof.stage == epoch_stage(request.index)
    &&& proof.journal == journal_bytes(request.input.predecessor, request.input.successor)
}

/// What recording a proved epoch does: it is refused with `ChainMismatch` when the
/// request does not extend the chain, with `ProofInvalid` when the proof is not a
/// verified proof of it, and appended otherwise.
pub open spec fn record_outcome(chain: ChainView, request: EpochRequestView, proof: ProofView, verified: bool) -> Result<(), SuccessionError> {
    if !request_fits(chain, request) {
        Err(SuccessionError::ChainMismatch)
    } else if !proof_fits(chain, request, proof, verified) {
        Err(SuccessionError::ProofInvalid)
    } else {
        Ok(())
    }
}

impl Chain {
    fn push_epoch(&mut self, epoch: Epoch)
        ensures
            final(self)@.circuit_id == old(self)@.circuit_id,
            final(self)@.epochs == old(self)@.epochs.push(epoch@),
    {
        let ghost old_vec = self.epochs@;
        self.epochs.push(epoch);
        assert(self.epochs@.map_values(|e: Epoch| e@) =~= old_vec.map_values(|e: Epoch| e@).push(epoch@));
    }

    pub open spec fn wf(&self) -> bool {
        chain_wf(self@.circuit_id, self@.epochs)
    }

    /// An empty chain of the circuit `circuit_id`.
    pub fn new(circuit_id: Vec<u8>) -> (r: Chain)
        ensures
            r.wf(),
            r@.circuit_id == circuit_id@,
            r@.epochs.len() == 0,
    {
        let r = Chain { circuit_id, epochs: Vec::new() };
        assert(r@.epochs =~= Seq::<EpochView>::empty());
        r
    }

    pub fn circuit_id(&self) -> (r: &Vec<u8>)
        ensures
            r@ == self@.circuit_id,
    {
        &self.circuit_id
    }

    pub fn len(&self) -> (r: usize)
        ensures
            r == self@.epochs.len(),
    {
        self.epochs.len()
    }

    pub fn epoch(&self, i: usize) -> (r: &Epoch)
        requires
            i < self@.epochs.len(),
        ensures
            r@ == self@.epochs[i as int],
    {
        &self.epochs[i]
    }

    /// The latest recorded epoch's proof, if any.
    pub fn latest_proof(&self) -> (r: Option<&Proof>)
        ensures
            match r {
                Some(p) => self@.epochs.len() > 0 && p@ == self@.epochs.last().proof,
                None => self@.epochs.len() == 0,
            },
    {
        if self.epochs.len() == 0 {
            None
        } else {
            Some(&self.epochs[self.epochs.len() - 1].proof)
        }
    }

    /// The request for the genesis epoch: `anchor` as predecessor, signed by `secret`.
    /// Refused with `ChainMismatch` when the chain already has epochs, and with
    /// `Deserialization` when `secret` is not a canonical scalar.
    pub fn genesis(&self, anchor: &[u8], secret: &[u8]) -> (r: Result<EpochRequest, SuccessionError>)
        ensures
            match r {
                Ok(req) => self@.epochs.len() == 0 && is_scalar(secret@) && req@ == genesis_request(anchor@, secret@),
                Err(e) => if self@.epochs.len() != 0 {
                    e == SuccessionError::ChainMismatch
                } else {
                    !is_scalar(secret@) && e == SuccessionError::Deserialization
                },
            },
    {
        if self.epochs.len() != 0 {
            return Err(SuccessionError::ChainMismatch);
        }
        let predecessor = copy_bytes(anchor);
        match generate_inputs(anchor, secret) {
            Err(e) => Err(e),
            Ok((successor, message, signature)) => {
                Ok(EpochRequest {
                    index: 0,
                    input: EpochInput { predecessor, successor, message, signature },
                    prior: None,
                })
            },
        }
    }

    /// The request for the epoch after the latest one: its successor key as
    /// predecessor, signed by `secret`, with its proof as the assumption. Refused with
    /// `ChainMismatch` on an empty chain, and with `Deserialization` when `secret` is
    /// not a canonical scalar.
    pub fn extend(&self, secret: &[u8]) -> (r: Result<EpochRequest, SuccessionError>)
        ensures
            match r {
                Ok(req) => self@.epochs.len() > 0 && is_scalar(secret@) && req@ == extend_request(self@, secret@),
                Err(e) => if self@.epochs.len() == 0 {
                    e == SuccessionError::ChainMismatch
                } else {
                    !is_scalar(secret@) && e == SuccessionError::Deserialization
                },
            },
    {
        if self.epochs.len() == 0 {
            return Err(SuccessionError::ChainMismatch);
        }
        let last = &self.epochs[self.epochs.len() - 1];
        let predecessor = copy_bytes(last.input.successor.as_slice());
        match generate_inputs(last.input.successor.as_slice(), secret) {
            Err(e) => Err(e),
            Ok((successor, message, signature)) => {
                let prior = last.proof.duplicate();
                Ok(EpochRequest {
                    index: self.epochs.len(),
                    input: EpochInput { predecessor, successor, message, signature },
                    prior: Some(prior),
                })
            },
        }
    }

    /// Records the backend's proof of `request`, given whether it verified. Nothing
    /// is recorded when the outcome is an error.
    pub fn record(&mut self, request: EpochRequest, proof: Proof, verified: bool) -> (r: Result<(), SuccessionError>)
        requires
            old(self).wf(),
        ensures
            final(self).wf(),
            r == record_outcome(old(self)@, request@, proof@, verified),
            r is Ok ==> final(self)@.circuit_id == old(self)@.circuit_id && final(self)@.epochs
                == old(self)@.epochs.push(EpochView { index: request@.index, input: request@.input, proof: proof@ }),
            r is Err ==> final(self)@ == old(self)@,
    {
        let n = self.epochs.len();
        if request.index != n {
            return Err(SuccessionError::ChainMismatch);
        }
        if n == 0 {
            if request.prior.is_some() {
                return Err(SuccessionError::ChainMismatch);
            }
        } else {
            if request.prior.is_none() {
                return Err(SuccessionError::ChainMismatch);
            }
            if !bytes_equal(request.input.predecessor.as_slice(), self.epochs[n - 1].input.successor.as_slice()) {
                return Err(SuccessionError::ChainMismatch);
            }
        }
        let expected_stage = if n == 0 { ProofStage::Base } else { ProofStage::Composite };
        if !verified || proof.stage != expected_stage || !bytes_equal(proof.circuit_id.as_slice(), self.circuit_id.as_slice()) {
            return Err(SuccessionError::ProofInvalid);
        }
        let journal = crate::journal::encode_journal(&request.input.predecessor, &request.input.successor);
        if !bytes_equal(proof.journal.as_slice(), journal.as_slice()) {
            return Err(SuccessionError::ProofInvalid);
        }
        let ghost old_view = self@;
        let epoch = Epoch { index: request.index, input: request.input, proof };
        proof {
            lemma_u64_bound();
            assert(epoch.input.predecessor@.len() == epoch.input.predecessor.len());
            assert(epoch.input.successor@.len() == epoch.input.successor.len());
            lemma_push_wf(old_view.circuit_id, old_view.epochs, epoch@);
        }
        self.push_epoch(epoch);
        Ok(())
    }
}

/// Appending an epoch that fits keeps the chain's invariant.
proof fn lemma_push_wf(circuit_id: Seq<u8>, epochs: Seq<EpochView>, e: EpochView)
    requires
        chain_wf(circuit_id, epochs),
        epoch_fits(circuit_id, epochs.len(), e),
        epochs.len() > 0 ==> e.input.predecessor == epochs.last().input.successor,
    ensures
        chain_wf(circuit_id, epochs.push(e)),
{
    let s = epochs.push(e);
    assert forall|i: int| 0 <= i < s.len() implies epoch_fits(circuit_id, i as nat, #[trigger] s[i]) by {
        if i < epochs.len() {
            assert(s[i] == epochs[i]);
        }
    }
    assert forall|i: int| 0 < i < s.len() implies (#[trigger] s[i]).input.predecessor == s[i - 1].input.successor by {
        if i < epochs.len() {
            assert(s[i] == epochs[i]);
            assert(s[i - 1] == epochs[i - 1]);
        } else {
            assert(s[i - 1] == epochs.last());
        }
    }
}

/// Every byte-string length fits in eight bytes.
proof fn lemma_u64_bound()
    ensures
        usize::MAX < pow256(8),
{
    reveal_with_fuel(pow256, 9);
}

/// In a chain built by recording epochs, the journal of every epoch after the first
/// decodes to a predecessor equal to the successor of the epoch before it, and to
/// that epoch's own successor.
pub proof fn lemma_chain_continuity(chain: ChainView, i: int)
    requires
        chain_wf(chain.circuit_id, chain.epochs),
        0 < i < chain.epochs.len(),
    ensures
        parse_journal(chain.epochs[i].proof.journal) == Some(
            (chain.epochs[i - 1].input.successor, chain.epochs[i].input.successor),
        ),
{
    let e = chain.epochs[i];
    assert(epoch_fits(chain.circuit_id, i as nat, e));
    lemma_journal_round_trip(e.input.predecessor, e.input.successor);
}

} // verus!
