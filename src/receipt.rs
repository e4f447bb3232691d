//! Proofs as the protocol sees them: a stage in the compression order, the identity
//! of the circuit proved, the journal committed, and the backend's opaque seal.
use vstd::prelude::*;

use crate::bytes::copy_bytes;

verus! {

/// The compression order of proofs: each later stage is smaller and cheaper to check.
#[derive(Clone, Copy, Debug, PartialEq, Eq, Structural)]
pub enum ProofStage {
    /// One epoch, proved without an assumption.
    Base,
    /// One epoch that recursively verifies a prior proof.
    Composite,
    /// Fixed small size.
    Succinct,
    /// The smallest form, for resource-constrained verifiers.
    Final,
}

/// A proof handed out by the proving backend.
#[derive(Clone, Debug)]
pub struct Proof {
    pub stage: ProofStage,
    /// Identity of the circuit the proof is for.
    pub circuit_id: Vec<u8>,
    /// The public output the proof commits to.
    pub journal: Vec<u8>,
    /// The backend's proof payload, opaque to the protocol.
    pub seal: Vec<u8>,
}

pub struct ProofView {
    pub stage: ProofStage,
    pub circuit_id: Seq<u8>,
    pub journal: Seq<u8>,
    pub seal: Seq<u8>,
}

impl View for Proof {
    type V = ProofView;

    open spec fn view(&self) -> ProofView {
        ProofView {
            stage: self.stage,
            circuit_id: self.circuit_id@,
            journal: self.journal@,
            seal: self.seal@,
        }
    }
}

impl Proof {
    /// A field-by-field copy.
    pub fn duplicate(&self) -> (r: Proof)
        ensures
            r@ == self@,
    {
        Proof {
            stage: self.stage,
            circuit_id: copy_bytes(self.circuit_id.as_slice()),
            journal: copy_bytes(self.journal.as_slice()),
            seal: copy_bytes(self.seal.as_slice()),
        }
    }
}

} // verus!
