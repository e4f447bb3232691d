//! The compression pipeline: a verified proof is taken through ever smaller stages,
//! each output verified and checked to keep the journal, until the final stage's
//! (journal, seal) pair can be handed out.
use vstd::prelude::*;

use crate::bytes::{bytes_equal, copy_bytes};
use crate::error::SuccessionError;
use crate::receipt::{Proof, ProofStage, ProofView};

verus! {

/// The stage a proof at `stage` is compressed to next, if any.
pub open spec fn compression_target(stage: ProofStage) -> Option<ProofStage> {
    match stage {
        ProofStage::Base => Some(ProofStage::Succinct),
        ProofStage::Composite => Some(ProofStage::Succinct),
        ProofStage::Succinct => Some(ProofStage::Final),
        ProofStage::Final => None,
    }
}

/// The stage a proof at `stage` is compressed to next, if any.
pub fn next_stage(stage: ProofStage) -> (r: Option<ProofStage>)
    ensures
        r == compression_target(stage),
{
    match stage {
        ProofStage::Base => Some(ProofStage::Succinct),
        ProofStage::Composite => Some(ProofStage::Succinct),
        ProofStage::Succinct => Some(ProofStage::Final),
        ProofStage::Final => None,
    }
}

pub struct CompressionView {
    /// The journal of the proof the pipeline started from.
    pub journal: Seq<u8>,
    /// The latest verified proof.
    pub current: ProofView,
}

/// What offering the backend's compressed proof `output` does: it is accepted when
/// it verified, is at the next stage, and keeps the circuit and the journal; it is
/// refused with `ProofInvalid` otherwise.
pub open spec fn advance_outcome(state: CompressionView, output: ProofView, verified: bool) -> Result<(), SuccessionError> {
    if verified && compression_target(state.current.stage) == Some(output.stage)
        && output.circuit_id == state.current.circuit_id && output.journal == state.journal {
        Ok(())
    } else {
        Err(SuccessionError::ProofInvalid)
    }
}

/// A compression in progress. Every proof it has held passed verification and
/// carried the journal it started from.
pub struct Compression {
    journal: Vec<u8>,
    current: Proof,
}

impl View for Compression {
    type V = CompressionView;

    closed spec fn view(&self) -> CompressionView {
        CompressionView { journal: self.journal@, current: self.current@ }
    }
}

impl Compression {
    pub open spec fn wf(&self) -> bool {
        self@.current.journal == self@.journal
    }

    /// Starts compressing `proof`, which the backend verified or not. An unverified
    /// proof is refused with `ProofInvalid`.
    pub fn start(proof: Proof, verified: bool) -> (r: Result<Compression, SuccessionError>)
        ensures
            match r {
                Ok(c) => verified && c.wf() && c@.current == proof@ && c@.journal == proof@.journal,
                Err(e) => !verified && e == SuccessionError::ProofInvalid,
            },
    {
        if !verified {
            return Err(SuccessionError::ProofInvalid);
        }
        let journal = copy_bytes(proof.journal.as_slice());
        Ok(Compression { journal, current: proof })
    }

    /// The latest verified proof.
    pub fn current(&self) -> (r: &Proof)
        ensures
            r@ == self@.current,
    {
        &self.current
    }

    /// The stage the backend should compress the current proof to, if any.
    pub fn target(&self) -> (r: Option<ProofStage>)
        ensures
            r == compression_target(self@.current.stage),
    {
        next_stage(self.current.stage)
    }

    /// Offers the backend's compression of the current proof, given whether it
    /// verified. Nothing changes when it is refused.
    pub fn advance(&mut self, output: Proof, verified: bool) -> (r: Result<(), SuccessionError>)
        requires
            old(self).wf(),
        ensures
            final(self).wf(),
            r == advance_outcome(old(self)@, output@, verified),
            r is Ok ==> final(self)@ == (CompressionView { journal: old(self)@.journal, current: output@ }),
            r is Err ==> final(self)@ == old(self)@,
    {
        let target = next_stage(self.current.stage);
        let at_target = match target {
            Some(t) => t == output.stage,
            None => false,
        };
        if !verified || !at_target || !bytes_equal(output.circuit_id.as_slice(), self.current.circuit_id.as_slice())
            || !bytes_equal(output.journal.as_slice(), self.journal.as_slice()) {
            return Err(SuccessionError::ProofInvalid);
        }
        self.current = output;
        Ok(())
    }

    /// The payload for external verification: the journal and the seal of the final
    /// stage. Refused with `ProofInvalid` before the final stage is reached.
    pub fn finish(&self) -> (r: Result<(Vec<u8>, Vec<u8>), SuccessionError>)
        ensures
            match r {
                Ok((journal, seal)) => self@.current.stage == ProofStage::Final && journal@ == self@.journal
                    && seal@ == self@.current.seal,
                Err(e) => self@.current.stage != ProofStage::Final && e == SuccessionError::ProofInvalid,
            },
    {
        if self.current.stage != ProofStage::Final {
            return Err(SuccessionError::ProofInvalid);
        }
        Ok((copy_bytes(self.journal.as_slice()), copy_bytes(self.current.seal.as_slice())))
    }
}

/// Compression never turns an unverified proof into an accepted one: a compressed
/// proof is accepted only if it verified, it keeps the journal exactly, and it
/// stands at a strictly later stage.
pub proof fn lemma_compression_sound(state: CompressionView, output: ProofView, verified: bool)
    ensures
        advance_outcome(state, output, verified) is Ok ==> verified && output.journal == state.journal
            && compression_target(state.current.stage) == Some(output.stage),
        !verified ==> advance_outcome(state, output, verified) == Err::<(), SuccessionError>(
            SuccessionError::ProofInvalid,
        ),
{
}

} // verus!
